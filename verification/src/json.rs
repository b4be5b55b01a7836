//! JSON documents as plain values.

use vstd::prelude::*;
use vstd::utf8::encode_utf8;
use serde_json::Value;
use crate::quantity::{double_scaled, doubles_are_not_rounded, rounded, rounding_stays_within_the_limit, round_double, two_to, two_to_64, Quantity, LIMIT, ONE};
use crate::text::{glimpsed, same};

verus! {

/// `serde_json::Number`, carried along unread.
#[verifier::external_type_specification]
#[verifier::external_body]
pub struct ExNumber(serde_json::Number);

/// `serde_json::Value`, which only the conversions below look into.
#[verifier::external_type_specification]
#[verifier::external_body]
pub struct ExValue(serde_json::Value);

/// A JSON number that is not an integer of 64 bits.
#[derive(Debug)]
pub struct JsonDouble {
    bits: u64,
    source: serde_json::Number,
}

/// A JSON document.
#[derive(Debug)]
pub enum Json {
    Null,
    Bool(bool),
    /// An integer that fits in `i64`.
    Signed(i64),
    /// An integer above `i64::MAX`.
    Unsigned(u64),
    /// Any other number.
    Double(JsonDouble),
    Text(String),
    Array(Vec<Json>),
    Object(JsonObject),
}

/// The members of a JSON object. Of two members with one key the later one counts.
#[derive(Debug)]
pub struct JsonObject {
    pub entries: Vec<(String, Json)>,
}

/// What a JSON document says.
pub enum JsonValue {
    Null,
    Bool(bool),
    Signed(i64),
    Unsigned(u64),
    /// A double, by its bits.
    Double(u64),
    Text(Seq<char>),
    Array(Seq<JsonValue>),
    Object(Map<Seq<char>, JsonValue>),
}

impl JsonDouble {
    /// The bits of the double.
    pub closed spec fn bits(self) -> u64 {
        self.bits
    }

    /// The bits of the double.
    pub fn double_bits(&self) -> (r: u64)
        ensures
            r == self.bits(),
    {
        self.bits
    }
}

pub open spec fn items_value(items: Seq<Json>) -> Seq<JsonValue>
    decreases items,
{
    if items.len() == 0 {
        Seq::empty()
    } else {
        items_value(items.drop_last()).push(items.last().value())
    }
}

pub open spec fn entries_value(entries: Seq<(String, Json)>) -> Map<Seq<char>, JsonValue>
    decreases entries,
{
    if entries.len() == 0 {
        Map::empty()
    } else {
        entries_value(entries.drop_last()).insert(entries.last().0@, entries.last().1.value())
    }
}

/// The value of an array holds the values of its items.
pub proof fn lemma_items(items: Seq<Json>)
    ensures
        items_value(items).len() == items.len(),
        forall|j: int| 0 <= j < items.len() ==> #[trigger] items_value(items)[j] == items[j]@,
    decreases items.len(),
{
    if items.len() > 0 {
        lemma_items(items.drop_last());
        assert forall|j: int| 0 <= j < items.len() implies #[trigger] items_value(items)[j]
            == items[j]@ by {
            if j < items.len() - 1 {
                assert(items_value(items)[j] == items_value(items.drop_last())[j]);
                assert(items.drop_last()[j] == items[j]);
            }
        }
    }
}

impl Json {
    pub open spec fn value(&self) -> JsonValue
        decreases self,
    {
        match self {
            Json::Null => JsonValue::Null,
            Json::Bool(b) => JsonValue::Bool(*b),
            Json::Signed(n) => JsonValue::Signed(*n),
            Json::Unsigned(n) => JsonValue::Unsigned(*n),
            Json::Double(d) => JsonValue::Double(d.bits()),
            Json::Text(s) => JsonValue::Text(s@),
            Json::Array(items) => JsonValue::Array(items_value(items@)),
            Json::Object(object) => JsonValue::Object(entries_value(object.entries@)),
        }
    }
}

impl View for Json {
    type V = JsonValue;

    open spec fn view(&self) -> JsonValue {
        self.value()
    }
}

impl View for JsonObject {
    type V = Map<Seq<char>, JsonValue>;

    open spec fn view(&self) -> Map<Seq<char>, JsonValue> {
        entries_value(self.entries@)
    }
}

/// The text that a string holds.
pub open spec fn as_text(v: JsonValue) -> Option<Seq<char>> {
    match v {
        JsonValue::Text(s) => Some(s),
        _ => None,
    }
}

/// The members of an object.
pub open spec fn as_object(v: JsonValue) -> Option<Map<Seq<char>, JsonValue>> {
    match v {
        JsonValue::Object(m) => Some(m),
        _ => None,
    }
}

/// The truth value that a boolean holds.
pub open spec fn as_bool(v: JsonValue) -> Option<bool> {
    match v {
        JsonValue::Bool(b) => Some(b),
        _ => None,
    }
}

/// The integer that a number holds, where it fits in `i64`.
pub open spec fn as_integer(v: JsonValue) -> Option<i64> {
    match v {
        JsonValue::Signed(n) => Some(n),
        _ => None,
    }
}

/// `n` brought between `-LIMIT` and `LIMIT`.
pub open spec fn held(n: int) -> int {
    if n > LIMIT {
        LIMIT as int
    } else if n < -LIMIT {
        -LIMIT as int
    } else {
        n
    }
}

/// The value of a number in units of 2^-64.
pub open spec fn as_scaled(v: JsonValue) -> Option<int> {
    match v {
        JsonValue::Signed(n) => Some(rounded(held(n * ONE))),
        JsonValue::Unsigned(n) => Some(rounded(held(n * ONE))),
        JsonValue::Double(bits) => double_scaled(bits),
        _ => None,
    }
}

/// The quantity that an integer of 64 bits stands for.
fn of_integer(n: i128) -> (r: Quantity)
    requires
        i64::MIN <= n <= u64::MAX,
    ensures
        r.scaled == rounded(held(n * ONE)),
        r.wf(),
{
    let x: i128 = if n > LIMIT / ONE {
        LIMIT
    } else if n < -(LIMIT / ONE) {
        -LIMIT
    } else {
        n * ONE
    };
    proof {
        rounding_stays_within_the_limit(
            (if x < 0 {
                -x
            } else {
                x as int
            }) as nat,
        );
    }
    Quantity { scaled: round_double(x) }
}

/// The member `key` of the object `m`.
pub open spec fn member(m: Map<Seq<char>, JsonValue>, key: Seq<char>) -> Option<JsonValue> {
    if m.contains_key(key) {
        Some(m[key])
    } else {
        None
    }
}

/// The text under `key`.
pub open spec fn member_text(m: Map<Seq<char>, JsonValue>, key: Seq<char>) -> Option<Seq<char>> {
    if m.contains_key(key) {
        as_text(m[key])
    } else {
        None
    }
}

/// The object under `key`.
pub open spec fn member_object(m: Map<Seq<char>, JsonValue>, key: Seq<char>) -> Option<
    Map<Seq<char>, JsonValue>,
> {
    if m.contains_key(key) {
        as_object(m[key])
    } else {
        None
    }
}

/// The member `key` of a document; `None` where the document is no object.
pub open spec fn lookup(v: JsonValue, key: Seq<char>) -> Option<JsonValue> {
    match v {
        JsonValue::Object(m) => member(m, key),
        _ => None,
    }
}

/// The text under `key` in a document.
pub open spec fn lookup_text(v: JsonValue, key: Seq<char>) -> Option<Seq<char>> {
    match v {
        JsonValue::Object(m) => member_text(m, key),
        _ => None,
    }
}

/// The object under `key` in a document.
pub open spec fn lookup_object(v: JsonValue, key: Seq<char>) -> Option<Map<Seq<char>, JsonValue>> {
    match v {
        JsonValue::Object(m) => member_object(m, key),
        _ => None,
    }
}

proof fn lemma_last_entry_counts(e: Seq<(String, Json)>, j: int, key: Seq<char>)
    requires
        0 <= j <= e.len(),
        forall|i: int| j <= i < e.len() ==> (#[trigger] e[i]).0@ != key,
    ensures
        member(entries_value(e), key) == member(entries_value(e.take(j)), key),
    decreases e.len(),
{
    if j < e.len() {
        assert(e.drop_last().take(j) =~= e.take(j));
        assert(e.last().0@ != key);
        assert forall|i: int| j <= i < e.drop_last().len() implies (#[trigger] e.drop_last()[i]).0@
            != key by {
            assert(e.drop_last()[i] == e[i]);
        }
        lemma_last_entry_counts(e.drop_last(), j, key);
    } else {
        assert(e.take(j) =~= e);
    }
}

proof fn lemma_replaced_entry(e: Seq<(String, Json)>, i: int, x: (String, Json))
    requires
        0 <= i < e.len(),
        e[i].0@ == x.0@,
        forall|j: int| i < j < e.len() ==> (#[trigger] e[j]).0@ != x.0@,
    ensures
        entries_value(e.update(i, x)) == entries_value(e).insert(x.0@, x.1@),
    decreases e.len(),
{
    let f = e.update(i, x);
    if i == e.len() - 1 {
        assert(f.drop_last() =~= e.drop_last());
        assert(entries_value(f) =~= entries_value(e).insert(x.0@, x.1@));
    } else {
        assert(f.drop_last() =~= e.drop_last().update(i, x));
        assert forall|j: int| i < j < e.drop_last().len() implies (#[trigger] e.drop_last()[j]).0@
            != x.0@ by {
            assert(e.drop_last()[j] == e[j]);
        }
        lemma_replaced_entry(e.drop_last(), i, x);
        assert(e.last().0@ != x.0@);
        assert(entries_value(f) =~= entries_value(e).insert(x.0@, x.1@));
    }
}

impl JsonObject {
    /// An object without members.
    pub fn new() -> (r: JsonObject)
        ensures
            r@ == Map::<Seq<char>, JsonValue>::empty(),
    {
        JsonObject { entries: Vec::new() }
    }

    /// The position of the member that counts under `key`.
    fn position(&self, key: &str) -> (r: Option<usize>)
        ensures
            r matches Some(i) ==> {
                &&& i < self.entries@.len()
                &&& self.entries@[i as int].0@ == key@
                &&& member(self@, key@) == Some(self.entries@[i as int].1@)
                &&& forall|j: int| i < j < self.entries@.len() ==> (#[trigger] self.entries@[j]).0@ != key@
            },
            r is None <==> !self@.contains_key(key@),
    {
        let mut j: usize = self.entries.len();
        while j > 0
            invariant
                j <= self.entries@.len(),
                forall|i: int| j <= i < self.entries@.len() ==> (#[trigger] self.entries@[i]).0@ != key@,
            decreases j,
        {
            if same(self.entries[j - 1].0.as_str(), key) {
                proof {
                    lemma_last_entry_counts(self.entries@, j as int, key@);
                    assert(self.entries@.take(j as int).last() == self.entries@[j - 1]);
                }
                return Some(j - 1);
            }
            j -= 1;
        }
        proof {
            lemma_last_entry_counts(self.entries@, 0, key@);
            assert(self.entries@.take(0) =~= Seq::empty());
        }
        None
    }

    /// The value under `key`.
    pub fn get(&self, key: &str) -> (r: Option<&Json>)
        ensures
            r matches Some(v) ==> member(self@, key@) == Some(v@),
            r is None <==> member(self@, key@) is None,
    {
        match self.position(key) {
            Some(i) => Some(&self.entries[i].1),
            None => None,
        }
    }

    /// Puts `value` under `key`, in place of what was there.
    pub fn set(&mut self, key: &str, value: Json)
        ensures
            final(self)@ == old(self)@.insert(key@, value@),
    {
        let entry = (key.to_owned(), value);
        match self.position(key) {
            Some(i) => {
                proof {
                    lemma_replaced_entry(self.entries@, i as int, entry);
                }
                self.entries.set(i, entry);
            },
            None => {
                let ghost before = self.entries@;
                self.entries.push(entry);
                assert(self.entries@.drop_last() =~= before);
            },
        }
    }

    /// The text under `key`.
    pub fn text(&self, key: &str) -> (r: Option<&str>)
        ensures
            glimpsed(r) == member_text(self@, key@),
    {
        match self.get(key) {
            Some(v) => v.text(),
            None => None,
        }
    }

    /// The object under `key`.
    pub fn object(&self, key: &str) -> (r: Option<&JsonObject>)
        ensures
            r matches Some(o) ==> member_object(self@, key@) == Some(o@),
            r is None <==> member_object(self@, key@) is None,
    {
        match self.get(key) {
            Some(v) => v.object(),
            None => None,
        }
    }
}

impl Json {
    /// The text of a string.
    pub fn text(&self) -> (r: Option<&str>)
        ensures
            glimpsed(r) == as_text(self@),
    {
        match self {
            Json::Text(s) => Some(s.as_str()),
            _ => None,
        }
    }

    /// The members of an object.
    pub fn object(&self) -> (r: Option<&JsonObject>)
        ensures
            r matches Some(o) ==> as_object(self@) == Some(o@),
            r is None <==> as_object(self@) is None,
    {
        match self {
            Json::Object(o) => Some(o),
            _ => None,
        }
    }

    /// The member `key`.
    pub fn get(&self, key: &str) -> (r: Option<&Json>)
        ensures
            r matches Some(v) ==> lookup(self@, key@) == Some(v@),
            r is None <==> lookup(self@, key@) is None,
    {
        match self {
            Json::Object(o) => o.get(key),
            _ => None,
        }
    }

    /// The text under `key`.
    pub fn text_at(&self, key: &str) -> (r: Option<&str>)
        ensures
            glimpsed(r) == lookup_text(self@, key@),
    {
        match self {
            Json::Object(o) => o.text(key),
            _ => None,
        }
    }

    /// The object under `key`.
    pub fn object_at(&self, key: &str) -> (r: Option<&JsonObject>)
        ensures
            r matches Some(o) ==> lookup_object(self@, key@) == Some(o@),
            r is None <==> lookup_object(self@, key@) is None,
    {
        match self {
            Json::Object(o) => o.object(key),
            _ => None,
        }
    }

    /// The truth value of a boolean.
    pub fn truth(&self) -> (r: Option<bool>)
        ensures
            r == as_bool(self@),
    {
        match self {
            Json::Bool(b) => Some(*b),
            _ => None,
        }
    }

    /// The integer that a number holds.
    pub fn integer(&self) -> (r: Option<i64>)
        ensures
            r == as_integer(self@),
    {
        match self {
            Json::Signed(n) => Some(*n),
            _ => None,
        }
    }

    /// The value of a number.
    pub fn quantity(&self) -> (r: Option<Quantity>)
        ensures
            r matches Some(q) ==> as_scaled(self@) == Some(q.scaled as int) && q.wf(),
            r is None <==> as_scaled(self@) is None,
    {
        match self {
            Json::Signed(n) => Some(of_integer(*n as i128)),
            Json::Unsigned(n) => Some(of_integer(*n as i128)),
            Json::Double(d) => Quantity::from_double_bits(d.double_bits()),
            _ => None,
        }
    }
}

/// What `serde_json::from_str` reads from a text, or the message of its error.
pub uninterp spec fn json_parsed(text: Seq<char>) -> Result<JsonValue, Seq<char>>;

/// What `serde_json::from_slice` reads from bytes.
pub uninterp spec fn json_of_bytes(bytes: Seq<u8>) -> Option<JsonValue>;

/// What `serde_json::to_string_pretty` writes.
pub uninterp spec fn json_pretty(value: JsonValue) -> Seq<char>;

/// What `serde_json::to_string` writes.
pub uninterp spec fn json_compact(value: JsonValue) -> Seq<char>;

/// Whether a document holds every integer in the smaller of its two forms, and nests at most
/// `depth` arrays and objects.
pub open spec fn readable_to(v: JsonValue, depth: nat) -> bool
    decreases depth,
{
    match v {
        JsonValue::Unsigned(n) => n > i64::MAX,
        JsonValue::Array(items) => depth > 0 && forall|i: int|
            0 <= i < items.len() ==> readable_to(#[trigger] items[i], (depth - 1) as nat),
        JsonValue::Object(m) => depth > 0 && forall|k: Seq<char>| #[trigger]
            m.contains_key(k) ==> readable_to(m[k], (depth - 1) as nat),
        _ => true,
    }
}

/// Whether a document is within what can be read: at most 127 arrays and objects within each
/// other.
pub open spec fn is_readable(v: JsonValue) -> bool {
    readable_to(v, 127)
}

/// Whether two documents, with at most `depth` arrays and objects within each other, are the
/// same but for the values of their doubles, which are finite.
pub open spec fn alike_to(a: JsonValue, b: JsonValue, depth: nat) -> bool
    decreases depth,
{
    match (a, b) {
        (JsonValue::Double(x), JsonValue::Double(y)) => double_scaled(x) is Some && double_scaled(
            y,
        ) is Some,
        (JsonValue::Array(x), JsonValue::Array(y)) => depth > 0 && x.len() == y.len() && forall|
            i: int,
        |
            0 <= i < x.len() ==> alike_to(#[trigger] x[i], y[i], (depth - 1) as nat),
        (JsonValue::Object(m), JsonValue::Object(n)) => depth > 0 && m.dom() == n.dom() && forall|
            k: Seq<char>,
        |
            #[trigger] m.contains_key(k) ==> alike_to(m[k], n[k], (depth - 1) as nat),
        _ => a == b,
    }
}

/// Whether two documents are the same but for the values of their doubles.
pub open spec fn alike(a: JsonValue, b: JsonValue) -> bool {
    alike_to(a, b, 127)
}

/// A text, and the bytes of it, are read as one document, which is `v` but for the values of
/// its doubles.
pub open spec fn reads_as(text: Seq<char>, v: JsonValue) -> bool {
    &&& json_parsed(text) is Ok
    &&& alike(json_parsed(text)->Ok_0, v)
    &&& json_of_bytes(encode_utf8(text)) == Some(json_parsed(text)->Ok_0)
}

/// A text, and the bytes of it, are read as the document `v`.
pub open spec fn reads_back(text: Seq<char>, v: JsonValue) -> bool {
    json_parsed(text) == Ok::<JsonValue, Seq<char>>(v) && json_of_bytes(encode_utf8(text)) == Some(
        v,
    )
}

/// Whether a document that nests at most `depth` arrays and objects holds no double.
pub open spec fn doubleless_to(v: JsonValue, depth: nat) -> bool
    decreases depth,
{
    match v {
        JsonValue::Double(_) => false,
        JsonValue::Array(items) => depth > 0 && forall|i: int|
            0 <= i < items.len() ==> doubleless_to(#[trigger] items[i], (depth - 1) as nat),
        JsonValue::Object(m) => depth > 0 && forall|k: Seq<char>| #[trigger]
            m.contains_key(k) ==> doubleless_to(m[k], (depth - 1) as nat),
        _ => true,
    }
}

/// A document without doubles that was written is read back exactly.
pub proof fn documents_without_doubles_are_read_back(text: Seq<char>, v: JsonValue)
    requires
        reads_as(text, v),
        doubleless_to(v, 127),
    ensures
        reads_back(text, v),
{
    lemma_alike_without_doubles(json_parsed(text)->Ok_0, v, 127);
}

proof fn lemma_alike_without_doubles(a: JsonValue, b: JsonValue, depth: nat)
    requires
        alike_to(a, b, depth),
        doubleless_to(b, depth),
    ensures
        a == b,
    decreases depth,
{
    match (a, b) {
        (JsonValue::Array(x), JsonValue::Array(y)) => {
            assert forall|i: int| 0 <= i < x.len() implies x[i] == y[i] by {
                assert(alike_to(x[i], y[i], (depth - 1) as nat));
                assert(doubleless_to(y[i], (depth - 1) as nat));
                lemma_alike_without_doubles(x[i], y[i], (depth - 1) as nat);
            }
            assert(x =~= y);
        },
        (JsonValue::Object(m), JsonValue::Object(n)) => {
            assert forall|k: Seq<char>| m.contains_key(k) implies m[k] == n[k] by {
                assert(alike_to(m[k], n[k], (depth - 1) as nat));
                assert(n.contains_key(k));
                lemma_alike_without_doubles(m[k], n[k], (depth - 1) as nat);
            }
            assert(m =~= n);
        },
        _ => {},
    }
}

/// What nests less deeply is readable too.
pub proof fn lemma_readable_deeper(v: JsonValue, depth: nat, more: nat)
    requires
        readable_to(v, depth),
        depth <= more,
    ensures
        readable_to(v, more),
    decreases depth,
{
    match v {
        JsonValue::Array(items) => {
            assert forall|i: int| 0 <= i < items.len() implies readable_to(
                #[trigger] items[i],
                (more - 1) as nat,
            ) by {
                lemma_readable_deeper(items[i], (depth - 1) as nat, (more - 1) as nat);
            }
        },
        JsonValue::Object(m) => {
            assert forall|k: Seq<char>| #[trigger] m.contains_key(k) implies readable_to(
                m[k],
                (more - 1) as nat,
            ) by {
                lemma_readable_deeper(m[k], (depth - 1) as nat, (more - 1) as nat);
            }
        },
        _ => {},
    }
}

/// A readable object stays readable with a readable member put into it.
pub proof fn lemma_readable_insert(
    m: Map<Seq<char>, JsonValue>,
    key: Seq<char>,
    v: JsonValue,
    depth: nat,
)
    requires
        readable_to(JsonValue::Object(m), depth),
        readable_to(v, (depth - 1) as nat),
    ensures
        readable_to(JsonValue::Object(m.insert(key, v)), depth),
{
    let after = m.insert(key, v);
    assert forall|k: Seq<char>| #[trigger] after.contains_key(k) implies readable_to(
        after[k],
        (depth - 1) as nat,
    ) by {
        if k != key {
            lemma_readable_member(m, k, depth);
        }
    }
}

/// The members of a readable object are readable.
pub proof fn lemma_readable_member(m: Map<Seq<char>, JsonValue>, key: Seq<char>, depth: nat)
    requires
        readable_to(JsonValue::Object(m), depth),
    ensures
        depth > 0,
        m.contains_key(key) ==> readable_to(m[key], (depth - 1) as nat),
        member_object(m, key) is Some ==> readable_to(
            JsonValue::Object(member_object(m, key)->Some_0),
            (depth - 1) as nat,
        ),
{
    let v = JsonValue::Object(m);
    assert(readable_to(v, depth));
    if v->Object_0.contains_key(key) {
        assert(readable_to(v->Object_0[key], (depth - 1) as nat));
    }
}

/// What is alike stays alike where deeper nesting is admitted.
pub proof fn lemma_alike_deeper(a: JsonValue, b: JsonValue, depth: nat, more: nat)
    requires
        alike_to(a, b, depth),
        depth <= more,
    ensures
        alike_to(a, b, more),
    decreases depth,
{
    match (a, b) {
        (JsonValue::Array(x), JsonValue::Array(y)) => {
            assert forall|i: int| 0 <= i < x.len() implies alike_to(
                #[trigger] x[i],
                y[i],
                (more - 1) as nat,
            ) by {
                lemma_alike_deeper(x[i], y[i], (depth - 1) as nat, (more - 1) as nat);
            }
        },
        (JsonValue::Object(m), JsonValue::Object(n)) => {
            assert forall|k: Seq<char>| #[trigger] m.contains_key(k) implies alike_to(
                m[k],
                n[k],
                (more - 1) as nat,
            ) by {
                lemma_alike_deeper(m[k], n[k], (depth - 1) as nat, (more - 1) as nat);
            }
        },
        _ => {},
    }
}

/// Documents that are alike hold the same text under a key.
pub proof fn lemma_alike_texts(a: JsonValue, b: JsonValue, depth: nat, key: Seq<char>)
    requires
        alike_to(a, b, depth),
    ensures
        lookup_text(a, key) == lookup_text(b, key),
{
    if let (JsonValue::Object(m), JsonValue::Object(n)) = (a, b) {
        lemma_alike_members(m, n, depth, key);
    }
}

/// Objects that are alike have the same members, each alike, and the same texts.
pub proof fn lemma_alike_members(
    m: Map<Seq<char>, JsonValue>,
    n: Map<Seq<char>, JsonValue>,
    depth: nat,
    key: Seq<char>,
)
    requires
        alike_to(JsonValue::Object(m), JsonValue::Object(n), depth),
    ensures
        depth > 0,
        m.contains_key(key) == n.contains_key(key),
        m.contains_key(key) ==> alike_to(m[key], n[key], (depth - 1) as nat),
        member_text(m, key) == member_text(n, key),
        member_object(m, key) is Some == member_object(n, key) is Some,
        member_object(m, key) is Some ==> alike_to(
            JsonValue::Object(member_object(m, key)->Some_0),
            JsonValue::Object(member_object(n, key)->Some_0),
            (depth - 1) as nat,
        ),
{
    assert(m.dom().contains(key) == n.dom().contains(key));
    if m.contains_key(key) {
        assert(alike_to(m[key], n[key], (depth - 1) as nat));
    }
}

/// What a result of reading holds.
pub open spec fn json_seen(r: Result<Json, String>) -> Result<JsonValue, Seq<char>> {
    match r {
        Ok(json) => Ok(json@),
        Err(e) => Err(e@),
    }
}

/// Takes a `serde_json::Number` apart: an integer of 64 bits, or any other number.
#[verifier::external_body]
fn from_number(n: serde_json::Number) -> (r: Json)
{
    match (n.as_i64(), n.as_u64(), n.as_f64()) {
        (Some(i), _, _) => Json::Signed(i),
        (None, Some(u), _) => Json::Unsigned(u),
        (_, _, d) => Json::Double(JsonDouble { bits: d.unwrap_or_default().to_bits(), source: n }),
    }
}

/// Takes a `serde_json::Value` apart, each variant into the one that stands for it.
#[verifier::external_body]
fn from_value(value: Value) -> (r: Json)
{
    match value {
        Value::Null => Json::Null,
        Value::Bool(b) => Json::Bool(b),
        Value::Number(n) => from_number(n),
        Value::String(s) => Json::Text(s),
        Value::Array(a) => Json::Array(a.into_iter().map(from_value).collect()),
        Value::Object(m) => Json::Object(
            JsonObject { entries: m.into_iter().map(|(k, v)| (k, from_value(v))).collect() },
        ),
    }
}

/// Puts a `serde_json::Value` together, each variant from the one that stands for it.
#[verifier::external_body]
fn to_value(json: &Json) -> (r: Value)
{
    match json {
        Json::Null => Value::Null,
        Json::Bool(b) => Value::Bool(*b),
        Json::Signed(n) => Value::Number((*n).into()),
        Json::Unsigned(n) => Value::Number((*n).into()),
        Json::Double(d) => Value::Number(d.source.clone()),
        Json::Text(s) => Value::String(s.clone()),
        Json::Array(a) => Value::Array(a.iter().map(to_value).collect()),
        Json::Object(o) => Value::Object(
            o.entries.iter().map(|e| (e.0.clone(), to_value(&e.1))).collect(),
        ),
    }
}

/// Calls `serde_json::from_str`. What it reads, and the message where it reads nothing,
/// depend on the text alone. It refuses more than 127 arrays and objects within each other,
/// and an integer that fits in `i64` comes as one.
#[verifier::external_body]
pub(crate) fn parse_json(text: &str) -> (r: Result<Json, String>)
    ensures
        json_seen(r) == json_parsed(text@),
        r matches Ok(json) ==> is_readable(json@),
{
    match serde_json::from_str::<serde_json::Value>(text) {
        Ok(value) => Ok(from_value(value)),
        Err(e) => Err(e.to_string()),
    }
}

/// Calls `serde_json::from_slice`. What it reads depends on the bytes alone. It refuses more
/// than 127 arrays and objects within each other, and an integer that fits in `i64` comes as one.
#[verifier::external_body]
pub(crate) fn parse_json_bytes(bytes: &[u8]) -> (r: Option<Json>)
    ensures
        r matches Some(json) ==> is_readable(json@),
        r matches Some(json) ==> json_of_bytes(bytes@) == Some(json@),
        r is None <==> json_of_bytes(bytes@) is None,
{
    match serde_json::from_slice::<serde_json::Value>(bytes) {
        Ok(value) => Some(from_value(value)),
        Err(_) => None,
    }
}

/// Calls `serde_json::to_string_pretty`. The text depends on what the document says alone:
/// the members of an object are written in the order of their keys. `from_str` and `from_slice`
/// read the document back, where it is within their limit of nesting, also with a line break
/// behind it. Of the doubles in it only that they are read as finite doubles is claimed.
#[verifier::external_body]
pub(crate) fn write_json_pretty(json: &Json) -> (r: String)
    ensures
        r@ == json_pretty(json@),
        is_readable(json@) ==> reads_as(r@, json@),
        is_readable(json@) ==> reads_as(r@ + "\n"@, json@),
{
    serde_json::to_string_pretty(&to_value(json)).unwrap_or_default()
}

/// Calls `serde_json::to_string`. The text depends on what the document says alone: the
/// members of an object are written in the order of their keys. `from_str` and `from_slice`
/// read the document back, where it is within their limit of nesting. Of the doubles in it only
/// that they are read as finite doubles is claimed.
#[verifier::external_body]
pub(crate) fn write_json_compact(json: &Json) -> (r: String)
    ensures
        r@ == json_compact(json@),
        is_readable(json@) ==> reads_as(r@, json@),
{
    serde_json::to_string(&to_value(json)).unwrap_or_default()
}

/// Copies a number with the number that it was read from (`serde_json::Number::clone`).
#[verifier::external_body]
fn copy_double(d: &JsonDouble) -> (r: JsonDouble)
    ensures
        r.bits() == d.bits(),
{
    JsonDouble { bits: d.bits, source: d.source.clone() }
}

impl Clone for JsonObject {
    fn clone(&self) -> (r: JsonObject)
        ensures
            r@ == self@,
        decreases self,
    {
        let mut out: Vec<(String, Json)> = Vec::new();
        let mut i: usize = 0;
        assert(self.entries@.take(0) =~= Seq::empty());
        while i < self.entries.len()
            invariant
                i <= self.entries@.len(),
                entries_value(out@) == entries_value(self.entries@.take(i as int)),
            decreases self.entries@.len() - i,
        {
            let entry = (self.entries[i].0.clone(), self.entries[i].1.clone());
            let ghost before = out@;
            out.push(entry);
            proof {
                assert(out@.drop_last() =~= before);
                assert(self.entries@.take(i + 1).drop_last() =~= self.entries@.take(i as int));
            }
            i += 1;
        }
        assert(self.entries@.take(i as int) =~= self.entries@);
        JsonObject { entries: out }
    }
}

/// A copy of the items of an array.
fn clone_items(items: &Vec<Json>) -> (r: Vec<Json>)
    ensures
        items_value(r@) == items_value(items@),
    decreases items,
{
    let mut out: Vec<Json> = Vec::new();
    let mut i: usize = 0;
    assert(items@.take(0) =~= Seq::empty());
    while i < items.len()
        invariant
            i <= items@.len(),
            items_value(out@) == items_value(items@.take(i as int)),
        decreases items@.len() - i,
    {
        let item = items[i].clone();
        let ghost before = out@;
        out.push(item);
        proof {
            assert(out@.drop_last() =~= before);
            assert(items@.take(i + 1).drop_last() =~= items@.take(i as int));
        }
        i += 1;
    }
    assert(items@.take(i as int) =~= items@);
    out
}

impl Clone for Json {
    fn clone(&self) -> (r: Json)
        ensures
            r@ == self@,
        decreases self,
    {
        match self {
            Json::Null => Json::Null,
            Json::Bool(b) => Json::Bool(*b),
            Json::Signed(n) => Json::Signed(*n),
            Json::Unsigned(n) => Json::Unsigned(*n),
            Json::Double(d) => Json::Double(copy_double(d)),
            Json::Text(s) => Json::Text(s.clone()),
            Json::Array(items) => Json::Array(clone_items(items)),
            Json::Object(o) => Json::Object(o.clone()),
        }
    }
}

/// Reads a JSON document.
pub fn read_json(text: &str) -> (r: Result<Json, String>)
    ensures
        json_seen(r) == json_parsed(text@),
{
    parse_json(text)
}

/// Reads a JSON document from bytes.
pub fn read_json_bytes(bytes: &[u8]) -> (r: Option<Json>)
    ensures
        r matches Some(json) ==> json_of_bytes(bytes@) == Some(json@),
        r is None <==> json_of_bytes(bytes@) is None,
{
    parse_json_bytes(bytes)
}

/// Whether the object `m` has the value `v` under `key`.
pub open spec fn says(m: Map<Seq<char>, JsonValue>, key: Seq<char>, v: JsonValue) -> bool {
    m.dom().contains(key) && m[key] == v
}

/// A member is found under its own key, as it stands there; nothing is found under a key that is
/// not there, or in what is no object.
pub proof fn members_are_found_under_their_keys(
    m: Map<Seq<char>, JsonValue>,
    key: Seq<char>,
    v: JsonValue,
)
    ensures
        says(m, key, v) ==> lookup(JsonValue::Object(m), key) == Some(v),
        !m.dom().contains(key) ==> lookup(JsonValue::Object(m), key) is None && lookup_text(
            JsonValue::Object(m),
            key,
        ) is None && lookup_object(JsonValue::Object(m), key) is None,
        v !is Object ==> lookup(v, key) is None && lookup_text(v, key) is None && lookup_object(
            v,
            key,
        ) is None,
        v is Text && says(m, key, v) ==> member_text(m, key) == Some(v->Text_0) && member_object(
            m,
            key,
        ) is None,
        v is Object && says(m, key, v) ==> member_object(m, key) == Some(v->Object_0)
            && member_text(m, key) is None,
{
}

/// A whole number of a few digits stands for itself, whichever of its forms it has.
pub proof fn whole_numbers_stand_for_themselves(n: i64)
    requires
        -0x20_0000_0000_0000 < n < 0x20_0000_0000_0000,
    ensures
        as_scaled(JsonValue::Signed(n)) == Some(n * ONE),
        n >= 0 ==> as_scaled(JsonValue::Unsigned(n as u64)) == Some(n * ONE),
        as_integer(JsonValue::Signed(n)) == Some(n),
{
    two_to_64();
    let size = (if n < 0 {
        -n
    } else {
        n as int
    }) as nat;
    doubles_are_not_rounded(size, 64);
    assert(size * two_to(64) == size * ONE);
    assert(-LIMIT <= n * ONE <= LIMIT);
    assert(held(n * ONE) == n * ONE);
    if n < 0 {
        assert((-(n * ONE)) as nat == size * ONE);
    }
}

} // verus!
