//! Text operations on `Seq<char>`: trimming, searching, splitting, joining.

use vstd::prelude::*;
use vstd::string::{StrSliceExecFns, StringExecFns};

verus! {

/// `String::push` appends one character at the end.
pub assume_specification[ String::push ](s: &mut String, c: char)
    ensures
        final(s)@ == old(s)@.push(c),
;

/// The text that an option holds.
pub open spec fn seen(o: Option<String>) -> Option<Seq<char>> {
    match o {
        Some(s) => Some(s@),
        None => None,
    }
}

/// A copy of an optional text.
pub fn copy_text(o: &Option<String>) -> (r: Option<String>)
    ensures
        seen(r) == seen(*o),
{
    match o {
        Some(s) => Some(s.clone()),
        None => None,
    }
}

/// The text that an option holds, borrowed.
pub open spec fn glimpsed(o: Option<&str>) -> Option<Seq<char>> {
    match o {
        Some(s) => Some(s@),
        None => None,
    }
}

/// Borrows an optional text.
pub fn borrow_text<'a>(o: &'a Option<String>) -> (r: Option<&'a str>)
    ensures
        glimpsed(r) == seen(*o),
{
    match o {
        Some(s) => Some(s.as_str()),
        None => None,
    }
}

/// Whether two optional texts hold the same.
pub fn same_option(a: &Option<String>, b: &Option<String>) -> (r: bool)
    ensures
        r == (seen(*a) == seen(*b)),
{
    match (a, b) {
        (Some(x), Some(y)) => same(x.as_str(), y.as_str()),
        (None, None) => true,
        _ => false,
    }
}

/// The trimmed text, where anything is left of it.
pub open spec fn nonblank(o: Option<Seq<char>>) -> Option<Seq<char>> {
    match o {
        Some(s) => if trimmed(s).len() > 0 {
            Some(trimmed(s))
        } else {
            None
        },
        None => None,
    }
}

/// Trims a text and drops it where nothing is left.
pub fn normalize_string(value: Option<&str>) -> (r: Option<String>)
    ensures
        seen(r) == nonblank(glimpsed(value)),
{
    match value {
        Some(s) => {
            let t = trim(s);
            if t.is_empty() {
                None
            } else {
                Some(t.to_owned())
            }
        },
        None => None,
    }
}

/// The first of two optional texts that is there.
pub open spec fn either(a: Option<Seq<char>>, b: Option<Seq<char>>) -> Option<Seq<char>> {
    if a is Some {
        a
    } else {
        b
    }
}

/// The text, where it is not empty.
pub open spec fn nonempty(o: Option<Seq<char>>) -> Option<Seq<char>> {
    match o {
        Some(s) => if s.len() > 0 {
            Some(s)
        } else {
            None
        },
        None => None,
    }
}

/// Copies a text and drops an empty one.
pub fn keep_nonempty(value: Option<&str>) -> (r: Option<String>)
    ensures
        seen(r) == nonempty(glimpsed(value)),
{
    match value {
        Some(s) => if s.is_empty() {
            None
        } else {
            Some(s.to_owned())
        },
        None => None,
    }
}

/// The text, or an empty one.
pub open spec fn or_empty(o: Option<Seq<char>>) -> Seq<char> {
    match o {
        Some(s) => s,
        None => Seq::empty(),
    }
}

/// Copies a text, or makes an empty one.
pub fn copy_or_empty(value: Option<&str>) -> (r: String)
    ensures
        r@ == or_empty(glimpsed(value)),
{
    match value {
        Some(s) => s.to_owned(),
        None => String::new(),
    }
}

/// The Unicode `White_Space` property, the one that `str::trim` looks at.
pub open spec fn is_white(c: char) -> bool {
    let n = c as u32;
    ||| 0x09 <= n <= 0x0d
    ||| n == 0x20
    ||| n == 0x85
    ||| n == 0xa0
    ||| n == 0x1680
    ||| 0x2000 <= n <= 0x200a
    ||| n == 0x2028
    ||| n == 0x2029
    ||| n == 0x202f
    ||| n == 0x205f
    ||| n == 0x3000
}

/// Whether `c` is white space.
pub fn white(c: char) -> (r: bool)
    ensures
        r == is_white(c),
{
    let n: u32 = c as u32;
    (0x09 <= n && n <= 0x0d) || n == 0x20 || n == 0x85 || n == 0xa0 || n == 0x1680 || (0x2000 <= n
        && n <= 0x200a) || n == 0x2028 || n == 0x2029 || n == 0x202f || n == 0x205f || n == 0x3000
}

/// The characters of a text.
pub fn chars_of(s: &str) -> (r: Vec<char>)
    ensures
        r@ == s@,
{
    let mut out: Vec<char> = Vec::new();
    for c in iter: s.chars()
        invariant
            out@ == iter.seq().take(iter.index()),
            iter.seq() == s@,
    {
        out.push(c);
        assert(iter.seq().take(iter.index() + 1) =~= iter.seq().take(iter.index()).push(c));
    }
    out
}

/// Whether two texts hold the same characters.
pub fn same(a: &str, b: &str) -> (r: bool)
    ensures
        r == (a@ == b@),
{
    a.to_owned() == b.to_owned()
}

/// `s` without its leading white space.
pub open spec fn trimmed_start(s: Seq<char>) -> Seq<char>
    decreases s.len(),
{
    if s.len() > 0 && is_white(s[0]) {
        trimmed_start(s.skip(1))
    } else {
        s
    }
}

/// `s` without its trailing white space.
pub open spec fn trimmed_end(s: Seq<char>) -> Seq<char>
    decreases s.len(),
{
    if s.len() > 0 && is_white(s.last()) {
        trimmed_end(s.drop_last())
    } else {
        s
    }
}

/// `s` without white space at either end.
pub open spec fn trimmed(s: Seq<char>) -> Seq<char> {
    trimmed_end(trimmed_start(s))
}

/// Removes trailing white space.
pub fn trim_end<'a>(s: &'a str) -> (r: &'a str)
    ensures
        r@ == trimmed_end(s@),
{
    let v = chars_of(s);
    let mut j: usize = v.len();
    assert(s@.take(j as int) =~= s@);
    while j > 0 && white(v[j - 1])
        invariant
            v@ == s@,
            j <= v@.len(),
            trimmed_end(s@) == trimmed_end(s@.take(j as int)),
        decreases j,
    {
        assert(s@.take(j as int).drop_last() =~= s@.take(j - 1));
        j -= 1;
    }
    assert(s@.subrange(0, j as int) =~= s@.take(j as int));
    s.substring_char(0, j)
}

/// Removes white space at both ends.
pub fn trim<'a>(s: &'a str) -> (r: &'a str)
    ensures
        r@ == trimmed(s@),
{
    let v = chars_of(s);
    let mut i: usize = 0;
    assert(s@.skip(0) =~= s@);
    while i < v.len() && white(v[i])
        invariant
            v@ == s@,
            i <= v@.len(),
            trimmed_start(s@) == trimmed_start(s@.skip(i as int)),
        decreases v@.len() - i,
    {
        assert(s@.skip(i as int).skip(1) =~= s@.skip(i + 1));
        i += 1;
    }
    assert(s@.subrange(i as int, s@.len() as int) =~= s@.skip(i as int));
    trim_end(s.substring_char(i, v.len()))
}

/// Trimming leaves no white space at either end.
pub proof fn trimmed_has_no_white_ends(s: Seq<char>)
    ensures
        trimmed(s).len() > 0 ==> !is_white(trimmed(s)[0]) && !is_white(trimmed(s).last()),
        trimmed(trimmed(s)) == trimmed(s),
{
    let a = trimmed_start(s);
    lemma_trimmed_start(s);
    lemma_trimmed_end(a);
    lemma_trimmed_end(trimmed(s));
}

/// A text without white space at its ends is left as it is.
pub proof fn lemma_trimmed_alone(s: Seq<char>)
    requires
        s.len() > 0 ==> !is_white(s[0]) && !is_white(s.last()),
    ensures
        trimmed(s) == s,
{
}

proof fn lemma_trimmed_start(s: Seq<char>)
    ensures
        trimmed_start(s).len() <= s.len(),
        trimmed_start(s).len() > 0 ==> !is_white(trimmed_start(s)[0]),
    decreases s.len(),
{
    if s.len() > 0 && is_white(s[0]) {
        lemma_trimmed_start(s.skip(1));
    }
}

proof fn lemma_trimmed_end(s: Seq<char>)
    ensures
        trimmed_end(s).is_prefix_of(s),
        trimmed_end(s).len() > 0 ==> !is_white(trimmed_end(s).last()) && trimmed_end(s)[0] == s[0],
    decreases s.len(),
{
    if s.len() > 0 && is_white(s.last()) {
        lemma_trimmed_end(s.drop_last());
    }
}

/// `p` stands in `s` at position `i`.
pub open spec fn has_at(s: Seq<char>, p: Seq<char>, i: int) -> bool {
    0 <= i && i + p.len() <= s.len() && s.subrange(i, i + p.len()) == p
}

/// `p` stands somewhere in `s`.
pub open spec fn has_part(s: Seq<char>, p: Seq<char>) -> bool {
    exists|i: int| has_at(s, p, i)
}

/// The first position at or after `i` at which `p` stands in `s`.
pub open spec fn found_from(s: Seq<char>, p: Seq<char>, i: int) -> Option<int>
    decreases s.len() + 1 - i,
{
    if i + p.len() > s.len() {
        None
    } else if has_at(s, p, i) {
        Some(i)
    } else {
        found_from(s, p, i + 1)
    }
}

/// `found_from` finds the first position, and finds one whenever there is one.
pub proof fn found_from_is_first(s: Seq<char>, p: Seq<char>, i: int)
    requires
        0 <= i,
    ensures
        match found_from(s, p, i) {
            Some(k) => i <= k && has_at(s, p, k) && forall|j: int| i <= j < k ==> !has_at(s, p, j),
            None => forall|j: int| i <= j ==> !has_at(s, p, j),
        },
    decreases s.len() + 1 - i,
{
    if i + p.len() > s.len() {
    } else if has_at(s, p, i) {
    } else {
        found_from_is_first(s, p, i + 1);
    }
}

/// Whether `p` stands in `v` at position `i`.
pub fn stands_at(v: &[char], p: &[char], i: usize) -> (r: bool)
    ensures
        r == has_at(v@, p@, i as int),
{
    if i > v.len() || v.len() - i < p.len() {
        return false;
    }
    let mut k: usize = 0;
    while k < p.len()
        invariant
            k <= p@.len(),
            i + p@.len() <= v.len(),
            forall|j: int| 0 <= j < k ==> v@[i + j] == p@[j],
        decreases p@.len() - k,
    {
        if v[i + k] != p[k] {
            assert(v@.subrange(i as int, i + p@.len())[k as int] != p@[k as int]);
            return false;
        }
        k += 1;
    }
    assert(v@.subrange(i as int, i + p@.len()) =~= p@);
    true
}

/// The first position at or after `from` at which `p` stands in `v`.
pub fn find_in(v: &[char], p: &[char], from: usize) -> (r: Option<usize>)
    requires
        from <= v@.len(),
    ensures
        r matches Some(k) ==> found_from(v@, p@, from as int) == Some(k as int),
        r is None <==> found_from(v@, p@, from as int) is None,
{
    let mut i: usize = from;
    while p.len() <= v.len() - i
        invariant
            from <= i <= v@.len(),
            found_from(v@, p@, from as int) == found_from(v@, p@, i as int),
        decreases v@.len() - i,
    {
        if stands_at(v, p, i) {
            return Some(i);
        }
        if i == v.len() {
            assert(found_from(v@, p@, i + 1) is None);
            return None;
        }
        i += 1;
    }
    None
}

/// Whether `p` stands somewhere in `s`.
pub fn contains(s: &str, p: &str) -> (r: bool)
    ensures
        r == has_part(s@, p@),
{
    let v = chars_of(s);
    let q = chars_of(p);
    let found = find_in(v.as_slice(), q.as_slice(), 0);
    proof {
        found_from_is_first(s@, p@, 0);
        if has_part(s@, p@) {
            let i = choose|i: int| has_at(s@, p@, i);
            assert(has_at(s@, p@, i));
        }
    }
    found.is_some()
}

/// Whether `s` begins with `p`.
pub fn starts_with(s: &str, p: &str) -> (r: bool)
    ensures
        r == p@.is_prefix_of(s@),
{
    let v = chars_of(s);
    let q = chars_of(p);
    stands_at(v.as_slice(), q.as_slice(), 0)
}

/// Whether `s` ends with `p`.
pub fn ends_with(s: &str, p: &str) -> (r: bool)
    ensures
        r == p@.is_suffix_of(s@),
{
    let v = chars_of(s);
    let q = chars_of(p);
    if q.len() > v.len() {
        return false;
    }
    stands_at(v.as_slice(), q.as_slice(), v.len() - q.len())
}

/// `s` without the prefix `p`, where it begins with it.
pub fn strip_prefix<'a>(s: &'a str, p: &str) -> (r: Option<&'a str>)
    ensures
        r is Some <==> p@.is_prefix_of(s@),
        r matches Some(rest) ==> rest@ == s@.skip(p@.len() as int) && s@ == p@ + rest@,
{
    if !starts_with(s, p) {
        return None;
    }
    let n = s.unicode_len();
    let k = p.unicode_len();
    assert(s@.subrange(k as int, n as int) =~= s@.skip(k as int));
    assert(s@ =~= p@ + s@.skip(k as int));
    Some(s.substring_char(k, n))
}

/// `c` with an ASCII capital made small.
pub open spec fn ascii_lower_char(c: char) -> char {
    if 'A' <= c <= 'Z' {
        (c as u8 + 32) as char
    } else {
        c
    }
}

/// `s` with its ASCII capitals made small.
pub open spec fn ascii_lower(s: Seq<char>) -> Seq<char> {
    s.map_values(|c: char| ascii_lower_char(c))
}

/// Makes ASCII capitals small and leaves all else alone.
pub fn to_ascii_lower(s: &str) -> (r: String)
    ensures
        r@ == ascii_lower(s@),
{
    let v = chars_of(s);
    let mut out = String::new();
    let mut i: usize = 0;
    while i < v.len()
        invariant
            v@ == s@,
            i <= v@.len(),
            out@ == ascii_lower(s@.take(i as int)),
        decreases v@.len() - i,
    {
        let c: char = v[i];
        let d: char = if 'A' <= c && c <= 'Z' { (c as u8 + 32) as char } else { c };
        out.push(d);
        assert(ascii_lower(s@.take(i + 1)) =~= ascii_lower(s@.take(i as int)).push(d));
        i += 1;
    }
    assert(s@.take(i as int) =~= s@);
    out
}

/// What `str::to_lowercase` returns.
pub uninterp spec fn lowercase(s: Seq<char>) -> Seq<char>;

/// Calls `str::to_lowercase`. The result depends on the text alone, and a text of ASCII
/// characters has its capitals made small; of other texts nothing more is claimed.
#[verifier::external_body]
pub(crate) fn to_lowercase(s: &str) -> (r: String)
    ensures
        r@ == lowercase(s@),
        (forall|i: int| 0 <= i < s@.len() ==> s@[i] as u32 <= 0x7f) ==> r@ == ascii_lower(s@),
{
    s.to_lowercase()
}

/// The position of the first `c` in `s` at or after `i`.
pub open spec fn char_from(s: Seq<char>, c: char, i: int) -> Option<int>
    decreases s.len() - i,
{
    if i >= s.len() {
        None
    } else if s[i] == c {
        Some(i)
    } else {
        char_from(s, c, i + 1)
    }
}

/// The first `c` at or after `from`.
pub fn find_char(v: &[char], c: char, from: usize) -> (r: Option<usize>)
    ensures
        r matches Some(k) ==> char_from(v@, c, from as int) == Some(k as int) && from <= k < v@.len()
            && v@[k as int] == c,
        r is None <==> char_from(v@, c, from as int) is None,
{
    let mut i: usize = from;
    while i < v.len()
        invariant
            from <= i,
            char_from(v@, c, from as int) == char_from(v@, c, i as int),
        decreases v@.len() - i,
    {
        if v[i] == c {
            return Some(i);
        }
        i += 1;
    }
    None
}

/// The part of `s` before its first `c` and the part after it.
pub open spec fn parted(s: Seq<char>, c: char) -> Option<(Seq<char>, Seq<char>)> {
    match char_from(s, c, 0) {
        Some(k) => Some((s.take(k), s.skip(k + 1))),
        None => None,
    }
}

/// Splits at the first `c`.
pub fn split_once<'a>(s: &'a str, c: char) -> (r: Option<(&'a str, &'a str)>)
    ensures
        r matches Some((a, b)) ==> parted(s@, c) == Some((a@, b@)),
        r is None <==> parted(s@, c) is None,
{
    let v = chars_of(s);
    let n = v.len();
    match find_char(v.as_slice(), c, 0) {
        Some(k) => {
            assert(s@.subrange(0, k as int) =~= s@.take(k as int));
            assert(s@.subrange(k + 1, s@.len() as int) =~= s@.skip(k + 1));
            Some((s.substring_char(0, k), s.substring_char(k + 1, n)))
        },
        None => None,
    }
}

/// The pieces of `s` between one `c` and the next; one piece where there is none.
pub open spec fn pieces(s: Seq<char>, c: char) -> Seq<Seq<char>>
    decreases s.len(),
{
    match char_from(s, c, 0) {
        Some(k) => if 0 <= k < s.len() {
            seq![s.take(k)] + pieces(s.skip(k + 1), c)
        } else {
            seq![s]
        },
        None => seq![s],
    }
}

/// The views of a sequence of texts.
pub open spec fn views(v: Seq<String>) -> Seq<Seq<char>> {
    v.map_values(|s: String| s@)
}

/// The views of borrowed texts.
pub open spec fn str_views(v: Seq<&str>) -> Seq<Seq<char>> {
    v.map_values(|s: &str| s@)
}

/// Splits at every `c`.
pub fn split(s: &str, c: char) -> (r: Vec<String>)
    ensures
        views(r@) == pieces(s@, c),
{
    let v = chars_of(s);
    let n = v.len();
    let mut out: Vec<String> = Vec::new();
    let mut start: usize = 0;
    let mut i: usize = 0;
    assert(s@.skip(0) =~= s@);
    proof {
        assert(views(out@) + pieces(s@, c) =~= pieces(s@, c));
    }
    while i < n
        invariant
            v@ == s@,
            n == v@.len(),
            start <= i <= n,
            forall|j: int| start <= j < i ==> s@[j] != c,
            views(out@) + pieces(s@.skip(start as int), c) == pieces(s@, c),
        decreases n - i,
    {
        if v[i] == c {
            let ghost rest = s@.skip(start as int);
            proof {
                lemma_char_from(rest, c, 0, i - start);
                assert(rest.take(i - start) =~= s@.subrange(start as int, i as int));
                assert(rest.skip(i - start + 1) =~= s@.skip(i + 1));
            }
            let ghost before = out@;
            out.push(s.substring_char(start, i).to_owned());
            assert(views(out@) =~= views(before).push(s@.subrange(start as int, i as int)));
            assert(views(before) + pieces(rest, c) =~= views(out@) + pieces(s@.skip(i + 1), c));
            start = i + 1;
        }
        i += 1;
    }
    let ghost rest = s@.skip(start as int);
    proof {
        lemma_no_char(rest, c, 0);
        assert(rest =~= s@.subrange(start as int, n as int));
    }
    let ghost before = out@;
    out.push(s.substring_char(start, n).to_owned());
    assert(views(out@) =~= views(before) + seq![rest]);
    out
}

pub proof fn lemma_char_from(s: Seq<char>, c: char, i: int, k: int)
    requires
        0 <= i <= k < s.len(),
        s[k] == c,
        forall|j: int| i <= j < k ==> s[j] != c,
    ensures
        char_from(s, c, i) == Some(k),
    decreases k - i,
{
    if i < k {
        lemma_char_from(s, c, i + 1, k);
    }
}

pub proof fn lemma_no_char(s: Seq<char>, c: char, i: int)
    requires
        0 <= i,
        forall|j: int| i <= j < s.len() ==> s[j] != c,
    ensures
        char_from(s, c, i) is None,
    decreases s.len() - i,
{
    if i < s.len() {
        lemma_no_char(s, c, i + 1);
    }
}

/// The texts one after another, `sep` between each two.
pub open spec fn joined(parts: Seq<Seq<char>>, sep: Seq<char>) -> Seq<char>
    decreases parts.len(),
{
    if parts.len() == 0 {
        Seq::empty()
    } else if parts.len() == 1 {
        parts[0]
    } else {
        joined(parts.drop_last(), sep) + sep + parts.last()
    }
}

/// Writes the texts one after another, `sep` between each two.
pub fn join(parts: &[String], sep: &str) -> (r: String)
    ensures
        r@ == joined(views(parts@), sep@),
{
    let mut out = String::new();
    let mut i: usize = 0;
    while i < parts.len()
        invariant
            i <= parts@.len(),
            out@ == joined(views(parts@).take(i as int), sep@),
        decreases parts@.len() - i,
    {
        assert(views(parts@).take(i + 1).drop_last() =~= views(parts@).take(i as int));
        if i > 0 {
            out.append(sep);
        }
        out.append(parts[i].as_str());
        assert(out@ =~= joined(views(parts@).take(i + 1), sep@));
        i += 1;
    }
    assert(views(parts@).take(i as int) =~= views(parts@));
    out
}

/// The decimal digits of `n`, most significant first.
pub open spec fn digits(n: nat) -> Seq<char>
    decreases n,
{
    let d = ((n % 10) as u8 + 48) as char;
    if n < 10 {
        seq![d]
    } else {
        digits(n / 10).push(d)
    }
}

/// Writes a number in decimal.
pub fn decimal_wide(n: u128) -> (r: String)
    ensures
        r@ == digits(n as nat),
    decreases n,
{
    let d: char = ((n % 10) as u8 + 48) as char;
    let mut out = if n < 10 { String::new() } else { decimal_wide(n / 10) };
    out.push(d);
    assert(out@ =~= digits(n as nat));
    out
}

/// Writes a number in decimal.
pub fn decimal(n: u64) -> (r: String)
    ensures
        r@ == digits(n as nat),
{
    decimal_wide(n as u128)
}

/// The decimal form of an integer, with `-` in front of a negative one.
pub open spec fn signed_digits(n: int) -> Seq<char> {
    if n < 0 {
        seq!['-'] + digits((-n) as nat)
    } else {
        digits(n as nat)
    }
}

/// Writes an integer in decimal.
pub fn signed_decimal(n: i64) -> (r: String)
    ensures
        r@ == signed_digits(n as int),
{
    if n < 0 {
        let mut out = String::new();
        out.push('-');
        let m: u64 = (-(n as i128)) as u64;
        out.append(decimal(m).as_str());
        assert(out@ =~= seq!['-'] + digits((-n) as nat));
        out
    } else {
        decimal(n as u64)
    }
}

/// Two texts one after the other.
pub fn concat2(a: &str, b: &str) -> (r: String)
    ensures
        r@ == a@ + b@,
{
    let mut out = a.to_owned();
    out.append(b);
    out
}

/// Three texts one after the other.
pub fn concat3(a: &str, b: &str, c: &str) -> (r: String)
    ensures
        r@ == a@ + b@ + c@,
{
    let mut out = a.to_owned();
    out.append(b);
    out.append(c);
    out
}

/// `t` before, between and behind the characters of `s`.
pub open spec fn interleaved(s: Seq<char>, t: Seq<char>) -> Seq<char>
    decreases s.len(),
{
    if s.len() == 0 {
        t
    } else {
        interleaved(s.drop_last(), t).push(s.last()) + t
    }
}

/// `s` with every `p`, taken from left to right without overlaps, replaced by `t`.
pub open spec fn replaced(s: Seq<char>, p: Seq<char>, t: Seq<char>) -> Seq<char>
    decreases s.len(),
{
    if p.len() == 0 {
        interleaved(s, t)
    } else {
        match found_from(s, p, 0) {
            None => s,
            Some(k) => if 0 <= k && k + p.len() <= s.len() {
                s.take(k) + t + replaced(s.skip(k + p.len()), p, t)
            } else {
                s
            },
        }
    }
}

pub proof fn lemma_found_shift(s: Seq<char>, p: Seq<char>, i: int, d: int)
    requires
        0 <= i,
        0 <= d <= s.len(),
    ensures
        match found_from(s.skip(d), p, i) {
            Some(k) => found_from(s, p, i + d) == Some(k + d),
            None => found_from(s, p, i + d) is None,
        },
    decreases s.len() + 1 - i - d,
{
    let r = s.skip(d);
    if i + p.len() <= r.len() {
        assert(r.subrange(i, i + p.len()) =~= s.subrange(i + d, i + d + p.len()));
        assert(has_at(r, p, i) == has_at(s, p, i + d));
        if !has_at(r, p, i) {
            lemma_found_shift(s, p, i + 1, d);
        }
    }
}

/// Replaces every `p` by `t`.
pub fn replace(s: &str, p: &str, t: &str) -> (r: String)
    ensures
        r@ == replaced(s@, p@, t@),
{
    let v = chars_of(s);
    let q = chars_of(p);
    let n = v.len();
    let mut out = String::new();
    if q.len() == 0 {
        out.append(t);
        let mut i: usize = 0;
        assert(s@.take(0) =~= Seq::empty());
        assert(out@ =~= t@);
        while i < n
            invariant
                v@ == s@,
                n == v@.len(),
                i <= n,
                out@ == interleaved(s@.take(i as int), t@),
            decreases n - i,
        {
            out.push(v[i]);
            out.append(t);
            assert(s@.take(i + 1).drop_last() =~= s@.take(i as int));
            i += 1;
        }
        assert(s@.take(n as int) =~= s@);
        return out;
    }
    let mut i: usize = 0;
    assert(s@.skip(0) =~= s@);
    assert(out@ + replaced(s@, p@, t@) =~= replaced(s@, p@, t@));
    loop
        invariant
            v@ == s@,
            q@ == p@,
            q@.len() > 0,
            n == v@.len(),
            i <= n,
            out@ + replaced(s@.skip(i as int), p@, t@) == replaced(s@, p@, t@),
        decreases n - i,
    {
        match find_in(v.as_slice(), q.as_slice(), i) {
            None => {
                proof {
                    lemma_found_shift(s@, p@, 0, i as int);
                    assert(s@.subrange(i as int, n as int) =~= s@.skip(i as int));
                }
                out.append(s.substring_char(i, n));
                return out;
            },
            Some(k) => {
                proof {
                    found_from_is_first(s@, p@, i as int);
                    lemma_found_shift(s@, p@, 0, i as int);
                    assert(s@.skip(i as int).take(k - i) =~= s@.subrange(i as int, k as int));
                    assert(s@.skip(i as int).skip(k - i + p@.len()) =~= s@.skip(k + p@.len()));
                }
                let ghost before = out@;
                out.append(s.substring_char(i, k));
                out.append(t);
                assert(before + replaced(s@.skip(i as int), p@, t@) =~= out@ + replaced(
                    s@.skip(k + p@.len()),
                    p@,
                    t@,
                ));
                i = k + q.len();
            },
        }
    }
}

/// The last position up to `i` at which `p` stands in `s`.
pub open spec fn found_last(s: Seq<char>, p: Seq<char>, i: int) -> Option<int>
    decreases i + 1,
{
    if i < 0 {
        None
    } else if has_at(s, p, i) {
        Some(i)
    } else {
        found_last(s, p, i - 1)
    }
}

/// The parts of `s` before and behind its last `p`.
pub open spec fn parted_last(s: Seq<char>, p: Seq<char>) -> Option<(Seq<char>, Seq<char>)> {
    match found_last(s, p, s.len() as int) {
        Some(k) => Some((s.take(k), s.skip(k + p.len()))),
        None => None,
    }
}

/// Splits at the last `p`.
pub fn rsplit_once<'a>(s: &'a str, p: &str) -> (r: Option<(&'a str, &'a str)>)
    ensures
        r matches Some((a, b)) ==> parted_last(s@, p@) == Some((a@, b@)),
        r is None <==> parted_last(s@, p@) is None,
{
    let v = chars_of(s);
    let q = chars_of(p);
    let n = v.len();
    let m = q.len();
    let mut i: usize = n;
    loop
        invariant
            v@ == s@,
            q@ == p@,
            n == v@.len(),
            m == q@.len(),
            i <= n,
            found_last(s@, p@, s@.len() as int) == found_last(s@, p@, i as int),
        decreases i,
    {
        if stands_at(v.as_slice(), q.as_slice(), i) {
            assert(s@.subrange(0, i as int) =~= s@.take(i as int));
            assert(s@.subrange(i + m, n as int) =~= s@.skip(i + m));
            return Some((s.substring_char(0, i), s.substring_char(i + m, n)));
        }
        if i == 0 {
            assert(found_last(s@, p@, -1) is None);
            return None;
        }
        i -= 1;
    }
}

/// Whether a part can follow a path without a separator: the path is empty, or ends in one. On
/// Windows, where `separator` is a backslash, a slash is one too, and a drive needs none.
pub open spec fn takes_part(base: Seq<char>, separator: char) -> bool {
    ||| base.len() == 0
    ||| base.last() == separator
    ||| separator == '\\' && base.last() == '/'
    ||| separator == '\\' && is_drive(base)
}

/// Whether a path is the name of a drive alone.
pub open spec fn is_drive(base: Seq<char>) -> bool {
    base.len() == 2 && base[1] == ':' && ('a' <= base[0] <= 'z' || 'A' <= base[0] <= 'Z')
}

/// A path with one part more. `separator` stands between the parts.
pub open spec fn path_with(base: Seq<char>, part: Seq<char>, separator: char) -> Seq<char> {
    if takes_part(base, separator) {
        base + part
    } else {
        base.push(separator) + part
    }
}

/// Adds a part to a path.
pub fn join_path(base: &str, part: &str, separator: char) -> (r: String)
    ensures
        r@ == path_with(base@, part@, separator),
{
    let n = base.unicode_len();
    let mut out = base.to_owned();
    if n > 0 {
        let first: char = base.get_char(0);
        let last: char = base.get_char(n - 1);
        let drive = n == 2 && last == ':' && (('a' <= first && first <= 'z') || ('A' <= first
            && first <= 'Z'));
        let windows = separator == '\\' && (last == '/' || drive);
        if last != separator && !windows {
            out.push(separator);
        }
    }
    out.append(part);
    out
}

/// The number that decimal digits stand for; `None` where a character is no digit.
pub open spec fn digits_value(s: Seq<char>) -> Option<nat>
    decreases s.len(),
{
    if s.len() == 0 {
        Some(0)
    } else if '0' <= s.last() <= '9' {
        match digits_value(s.drop_last()) {
            Some(n) => Some(n * 10 + (s.last() as u32 - 48) as nat),
            None => None,
        }
    } else {
        None
    }
}

/// The number that a text stands for: at least one digit, with or without a `+` in front, and
/// no more than 64 bits.
pub open spec fn unsigned_value(s: Seq<char>) -> Option<u64> {
    let d = if s.len() > 0 && s[0] == '+' {
        s.skip(1)
    } else {
        s
    };
    if d.len() == 0 {
        None
    } else {
        match digits_value(d) {
            Some(n) => if n <= u64::MAX {
                Some(n as u64)
            } else {
                None
            },
            None => None,
        }
    }
}

proof fn lemma_value_grows(s: Seq<char>, k: int)
    requires
        0 <= k <= s.len(),
        digits_value(s) is Some,
    ensures
        digits_value(s.take(k)) is Some,
        digits_value(s.take(k))->Some_0 <= digits_value(s)->Some_0,
    decreases s.len(),
{
    if k == s.len() {
        assert(s.take(k) =~= s);
    } else {
        lemma_value_grows(s.drop_last(), k);
        assert(s.drop_last().take(k) =~= s.take(k));
    }
}

proof fn lemma_bad_digit(s: Seq<char>, k: int)
    requires
        0 <= k < s.len(),
        !('0' <= s[k] <= '9'),
    ensures
        digits_value(s) is None,
    decreases s.len(),
{
    if k < s.len() - 1 {
        lemma_bad_digit(s.drop_last(), k);
    }
}

/// The number that a text stands for.
pub fn parse_unsigned(s: &str) -> (r: Option<u64>)
    ensures
        r == unsigned_value(s@),
{
    let v = chars_of(s);
    let n = v.len();
    let start: usize = if n > 0 && v[0] == '+' { 1 } else { 0 };
    let ghost d = s@.skip(start as int);
    assert(start == 0 ==> d =~= s@);
    if start == n {
        return None;
    }
    let mut value: u64 = 0;
    let mut i: usize = start;
    assert(d.take(0) =~= Seq::empty());
    while i < n
        invariant
            v@ == s@,
            n == v@.len(),
            start <= i <= n,
            start < n,
            d == s@.skip(start as int),
            start == (if s@.len() > 0 && s@[0] == '+' { 1int } else { 0int }),
            digits_value(d.take(i - start)) == Some(value as nat),
        decreases n - i,
    {
        let c: char = v[i];
        if c < '0' || c > '9' {
            proof {
                assert(d[i - start] == c);
                lemma_bad_digit(d, i - start);
                assert(start == 0 ==> d =~= s@);
            }
            return None;
        }
        let digit: u64 = c as u64 - 48;
        let ghost next = d.take(i - start + 1);
        proof {
            assert(next.drop_last() =~= d.take(i - start));
            assert(next.last() == c);
        }
        if value > (u64::MAX - digit) / 10 {
            proof {
                if digits_value(d) is Some {
                    lemma_value_grows(d, i - start + 1);
                }
                assert(start == 0 ==> d =~= s@);
            }
            return None;
        }
        value = value * 10 + digit;
        i += 1;
    }
    assert(d.take(n - start) =~= d);
    assert(start == 0 ==> d =~= s@);
    Some(value)
}

/// Digits that were written are read back as the number that they were written for.
pub proof fn digits_are_read_back(n: nat)
    ensures
        digits_value(digits(n)) == Some(n),
        digits(n).len() > 0,
        digits(n)[0] != '+',
    decreases n,
{
    let d = ((n % 10) as u8 + 48) as char;
    if n < 10 {
        let s = digits(n);
        assert(s =~= seq![d]);
        assert(s.drop_last() =~= Seq::empty());
        assert(digits_value(s.drop_last()) == Some(0nat));
    } else {
        digits_are_read_back(n / 10);
        let s = digits(n);
        assert(s.drop_last() =~= digits(n / 10));
        assert(s.last() == d);
        assert(s[0] == digits(n / 10)[0]);
    }
}

/// Digits are no white space, so trimming leaves a number as it is.
pub proof fn digits_have_no_white_ends(n: nat)
    ensures
        trimmed(digits(n)) == digits(n),
        forall|i: int| 0 <= i < digits(n).len() ==> '0' <= #[trigger] digits(n)[i] <= '9',
    decreases n,
{
    lemma_digits_are_digits(n);
    digits_are_read_back(n);
    lemma_trimmed_alone(digits(n));
}

proof fn lemma_digits_are_digits(n: nat)
    ensures
        digits(n).len() > 0,
        forall|i: int| 0 <= i < digits(n).len() ==> '0' <= #[trigger] digits(n)[i] <= '9',
    decreases n,
{
    if n >= 10 {
        lemma_digits_are_digits(n / 10);
    }
}

/// What is trimmed off is white space: a text is what is left of it, with white space around.
pub proof fn only_white_space_is_trimmed_off(s: Seq<char>)
    ensures
        exists|i: int|
            #![trigger s.skip(i)]
            0 <= i && i + trimmed(s).len() <= s.len() && trimmed(s) == s.skip(i).take(
                trimmed(s).len() as int,
            ) && (forall|j: int| 0 <= j < i ==> is_white(#[trigger] s[j])) && (forall|j: int|
                i + trimmed(s).len() <= j < s.len() ==> is_white(#[trigger] s[j])),
{
    let t = trimmed_start(s);
    let i = s.len() - t.len();
    lemma_start_is_a_suffix(s);
    lemma_end_is_a_prefix(t);
    let r = trimmed(s);
    assert(s.skip(i) =~= t);
    assert(r =~= t.take(r.len() as int));
    assert forall|j: int| i + r.len() <= j < s.len() implies is_white(#[trigger] s[j]) by {
        assert(t[j - i] == s[j]);
    }
}

proof fn lemma_start_is_a_suffix(s: Seq<char>)
    ensures
        trimmed_start(s).len() <= s.len(),
        trimmed_start(s) == s.skip(s.len() - trimmed_start(s).len()),
        forall|j: int| 0 <= j < s.len() - trimmed_start(s).len() ==> is_white(#[trigger] s[j]),
    decreases s.len(),
{
    if s.len() > 0 && is_white(s[0]) {
        let rest = s.skip(1);
        lemma_start_is_a_suffix(rest);
        let k = s.len() - trimmed_start(s).len();
        assert(rest.skip(k - 1) =~= s.skip(k));
        assert forall|j: int| 0 <= j < k implies is_white(#[trigger] s[j]) by {
            if j > 0 {
                assert(rest[j - 1] == s[j]);
            }
        }
    } else {
        assert(s.skip(0) =~= s);
    }
}

proof fn lemma_end_is_a_prefix(s: Seq<char>)
    ensures
        trimmed_end(s).len() <= s.len(),
        trimmed_end(s) == s.take(trimmed_end(s).len() as int),
        forall|j: int| trimmed_end(s).len() <= j < s.len() ==> is_white(#[trigger] s[j]),
    decreases s.len(),
{
    if s.len() > 0 && is_white(s.last()) {
        let rest = s.drop_last();
        lemma_end_is_a_prefix(rest);
        let k = trimmed_end(s).len() as int;
        assert(rest.take(k) =~= s.take(k));
        assert forall|j: int| k <= j < s.len() implies is_white(#[trigger] s[j]) by {
            if j < s.len() - 1 {
                assert(rest[j] == s[j]);
            }
        }
    } else {
        assert(s.take(s.len() as int) =~= s);
    }
}

/// Spaces, tabs and ends of lines are white space; letters, digits and signs that can be printed
/// are not.
pub proof fn printed_characters_are_not_white(c: char)
    ensures
        is_white(' ') && is_white('\t') && is_white('\n') && is_white('\r'),
        '!' <= c <= '~' ==> !is_white(c),
{
}

/// Of an optional text what is left without white space around it counts, where anything is left;
/// the first of two that is there goes before the other; an empty text is dropped.
pub proof fn absent_texts_give_way(s: Seq<char>, o: Option<Seq<char>>)
    ensures
        nonblank(None) is None,
        trimmed(s).len() > 0 ==> nonblank(Some(s)) == Some(trimmed(s)),
        trimmed(s).len() == 0 ==> nonblank(Some(s)) is None,
        nonempty(None) is None,
        s.len() > 0 ==> nonempty(Some(s)) == Some(s),
        s.len() == 0 ==> nonempty(Some(s)) is None,
        either(Some(s), o) == Some(s),
        either(None, o) == o,
        or_empty(Some(s)) == s,
        or_empty(None).len() == 0,
{
}

/// A text is parted at its first `c`: put together again the parts are the text, and the first one
/// is without `c`. A text without `c` is not parted.
pub proof fn parts_make_up_the_text(s: Seq<char>, c: char)
    ensures
        parted(s, c) matches Some((a, b)) ==> s == a + seq![c] + b && !a.contains(c),
        parted(s, c) is None <==> !s.contains(c),
{
    lemma_first_char(s, c, 0);
    match char_from(s, c, 0) {
        Some(k) => {
            assert(s =~= s.take(k) + seq![c] + s.skip(k + 1));
            if s.take(k).contains(c) {
                let j = s.take(k).index_of(c);
                assert(s[j] == c);
            }
            assert(s.contains(c));
        },
        None => {},
    }
}

proof fn lemma_first_char(s: Seq<char>, c: char, i: int)
    requires
        0 <= i,
    ensures
        match char_from(s, c, i) {
            Some(k) => i <= k < s.len() && s[k] == c && forall|j: int|
                i <= j < k ==> #[trigger] s[j] != c,
            None => forall|j: int| i <= j < s.len() ==> #[trigger] s[j] != c,
        },
    decreases s.len() - i,
{
    if i < s.len() && s[i] != c {
        lemma_first_char(s, c, i + 1);
    }
}

/// The pieces of a text, put together with `c` between each two, are the text, and none of them
/// holds a `c`.
pub proof fn pieces_make_up_the_text(s: Seq<char>, c: char)
    ensures
        pieces(s, c).len() >= 1,
        glued(pieces(s, c), c) == s,
        forall|i: int| 0 <= i < pieces(s, c).len() ==> !(#[trigger] pieces(s, c)[i]).contains(c),
    decreases s.len(),
{
    lemma_first_char(s, c, 0);
    parts_make_up_the_text(s, c);
    let all = pieces(s, c);
    match char_from(s, c, 0) {
        Some(k) => {
            let rest = pieces(s.skip(k + 1), c);
            pieces_make_up_the_text(s.skip(k + 1), c);
            assert(all.skip(1) =~= rest);
            assert(all[0] == s.take(k));
            assert(s =~= s.take(k) + seq![c] + s.skip(k + 1));
            assert forall|i: int| 0 <= i < all.len() implies !(#[trigger] all[i]).contains(c) by {
                if i > 0 {
                    assert(all[i] == rest[i - 1]);
                }
            }
        },
        None => {
            assert(all =~= seq![s]);
        },
    }
}

/// Texts one after another with `c` between each two.
pub open spec fn glued(parts: Seq<Seq<char>>, c: char) -> Seq<char>
    decreases parts.len(),
{
    if parts.len() == 0 {
        Seq::empty()
    } else if parts.len() == 1 {
        parts[0]
    } else {
        parts[0] + seq![c] + glued(parts.skip(1), c)
    }
}

/// A text is parted at its last `p`: put together again the parts are the text, and behind the
/// first of them `p` stands nowhere later. A text without `p` is not parted.
pub proof fn last_parts_make_up_the_text(s: Seq<char>, p: Seq<char>)
    ensures
        parted_last(s, p) matches Some((a, b)) ==> s == a + p + b && forall|j: int|
            a.len() < j ==> !has_at(s, p, j),
        parted_last(s, p) is None <==> !has_part(s, p),
{
    lemma_found_last(s, p, s.len() as int);
    match found_last(s, p, s.len() as int) {
        Some(k) => {
            assert(s =~= s.take(k) + p + s.skip(k + p.len())) by {
                assert(s.subrange(k, k + p.len()) =~= p);
            }
            assert(has_at(s, p, k));
        },
        None => {
            if has_part(s, p) {
                let i = choose|i: int| has_at(s, p, i);
                assert(i <= s.len());
            }
        },
    }
}

proof fn lemma_found_last(s: Seq<char>, p: Seq<char>, i: int)
    ensures
        match found_last(s, p, i) {
            Some(k) => 0 <= k <= i && has_at(s, p, k) && forall|j: int|
                k < j <= i ==> !has_at(s, p, j),
            None => forall|j: int| 0 <= j <= i ==> !has_at(s, p, j),
        },
    decreases i + 1,
{
    if i >= 0 && !has_at(s, p, i) {
        lemma_found_last(s, p, i - 1);
    }
}

/// A path with one part more ends in that part and begins with the path; between the two stands one
/// separator, or none where the path ends in one.
pub proof fn a_path_leads_to_its_part(base: Seq<char>, part: Seq<char>, separator: char)
    ensures
        base.is_prefix_of(path_with(base, part, separator)),
        part.is_suffix_of(path_with(base, part, separator)),
        base.len() == 0 ==> path_with(base, part, separator) == part,
        base.len() > 2 && base.last() != separator && base.last() != '/' ==> path_with(
            base,
            part,
            separator,
        ) == base + seq![separator] + part,
        base.len() > 0 && base.last() == separator ==> path_with(base, part, separator) == base
            + part,
{
    let r = path_with(base, part, separator);
    assert(base =~= r.take(base.len() as int));
    assert(part =~= r.subrange(r.len() - part.len(), r.len() as int));
    assert(base.push(separator) + part =~= base + seq![separator] + part);
}

/// ASCII capitals become the small letters for them, and no other character changes.
pub proof fn capitals_become_small(s: Seq<char>, i: int)
    requires
        0 <= i < s.len(),
    ensures
        ascii_lower(s).len() == s.len(),
        !('A' <= s[i] <= 'Z') ==> ascii_lower(s)[i] == s[i],
        'A' <= s[i] <= 'Z' ==> ascii_lower(s)[i] as u32 == s[i] as u32 + 0x20,
{
}

/// A number is written so that it can be read again, with a sign in front where it is negative.
pub proof fn numbers_are_read_as_they_are_written(n: u64)
    ensures
        unsigned_value(digits(n as nat)) == Some(n),
        n > 0 ==> signed_digits(-(n as int)) == seq!['-'] + digits(n as nat),
        signed_digits(n as int) == digits(n as nat),
        unsigned_value(Seq::empty()) is None,
{
    digits_are_read_back(n as nat);
}

/// Texts that are joined follow one another with the separator between each two.
pub proof fn joined_texts_follow_one_another(parts: Seq<Seq<char>>, last: Seq<char>, sep: Seq<char>)
    ensures
        joined(Seq::empty(), sep).len() == 0,
        joined(seq![last], sep) == last,
        parts.len() > 0 ==> joined(parts.push(last), sep) == joined(parts, sep) + sep + last,
{
    assert(parts.push(last).drop_last() =~= parts);
}

/// Where a text does not stand in another, replacing it changes nothing; where it stands between a
/// part without it and the rest, the new text stands in its place.
pub proof fn what_is_replaced_gives_way(a: Seq<char>, p: Seq<char>, t: Seq<char>, s: Seq<char>)
    requires
        p.len() > 0,
    ensures
        !has_part(s, p) ==> replaced(s, p, t) == s,
        found_from(a + p + s, p, 0) == Some(a.len() as int) ==> replaced(a + p + s, p, t) == a + t
            + replaced(s, p, t),
        replaced(p, p, t) == t,
{
    found_from_is_first(s, p, 0);
    if let Some(k) = found_from(s, p, 0) {
        assert(has_at(s, p, k));
    }
    let whole = a + p + s;
    assert(whole.take(a.len() as int) =~= a);
    assert(whole.skip((a.len() + p.len()) as int) =~= s);
    assert(p.subrange(0, p.len() as int) =~= p);
    assert(has_at(p, p, 0));
    assert(p.skip(p.len() as int) =~= Seq::<char>::empty());
    assert(found_from(Seq::<char>::empty(), p, 0) is None);
    assert(replaced(Seq::<char>::empty(), p, t) =~= Seq::<char>::empty());
    assert(p.take(0) + t + Seq::<char>::empty() =~= t);
}

} // verus!
