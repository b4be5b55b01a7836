//! A stable order of things by their keys.

use vstd::prelude::*;
use crate::text::chars_of;

verus! {

/// `a` stands before `b` in the order of dictionaries.
pub open spec fn lex_less(a: Seq<i64>, b: Seq<i64>) -> bool
    decreases a.len(),
{
    if b.len() == 0 {
        false
    } else if a.len() == 0 {
        true
    } else if a[0] != b[0] {
        a[0] < b[0]
    } else {
        lex_less(a.skip(1), b.skip(1))
    }
}

/// Thing `i` goes before thing `j`: its key is smaller, or the keys are equal and it came first.
pub open spec fn goes_before(keys: Seq<Seq<i64>>, i: int, j: int) -> bool {
    lex_less(keys[i], keys[j]) || (keys[i] == keys[j] && i < j)
}

/// `order` names every thing once, each before those that it goes before.
pub open spec fn is_stable_order(keys: Seq<Seq<i64>>, order: Seq<usize>) -> bool {
    &&& order.len() == keys.len()
    &&& forall|p: int| 0 <= p < order.len() ==> 0 <= #[trigger] order[p] < keys.len()
    &&& forall|p: int, q: int|
        0 <= p < q < order.len() ==> goes_before(
            keys,
            #[trigger] order[p] as int,
            #[trigger] order[q] as int,
        )
}

pub open spec fn key_views(keys: Seq<Vec<i64>>) -> Seq<Seq<i64>> {
    keys.map_values(|k: Vec<i64>| k@)
}

pub proof fn lex_less_is_strict(a: Seq<i64>, b: Seq<i64>)
    ensures
        !(lex_less(a, b) && lex_less(b, a)),
        !lex_less(a, a),
    decreases a.len(),
{
    if a.len() > 0 {
        lex_less_is_strict(a.skip(1), a.skip(1));
        if b.len() > 0 {
            lex_less_is_strict(a.skip(1), b.skip(1));
        }
    }
}

pub proof fn lex_less_is_total(a: Seq<i64>, b: Seq<i64>)
    ensures
        lex_less(a, b) || lex_less(b, a) || a == b,
    decreases a.len(),
{
    if a.len() > 0 && b.len() > 0 {
        lex_less_is_total(a.skip(1), b.skip(1));
        if a[0] == b[0] && a.skip(1) == b.skip(1) {
            assert forall|i: int| 0 <= i < a.len() implies a[i] == b[i] by {
                if i > 0 {
                    assert(a.skip(1)[i - 1] == b.skip(1)[i - 1]);
                }
            }
            assert(a.skip(1).len() == b.skip(1).len());
            assert(a =~= b);
        }
    } else {
        assert(a.len() == 0 && b.len() == 0 ==> a =~= b);
    }
}

pub proof fn lex_less_is_transitive(a: Seq<i64>, b: Seq<i64>, c: Seq<i64>)
    requires
        lex_less(a, b),
        lex_less(b, c),
    ensures
        lex_less(a, c),
    decreases a.len(),
{
    if a.len() > 0 && a[0] == b[0] && b[0] == c[0] {
        lex_less_is_transitive(a.skip(1), b.skip(1), c.skip(1));
    }
}

/// Whether `a` stands before `b` in the order of dictionaries.
fn less(a: &[i64], b: &[i64]) -> (r: bool)
    ensures
        r == lex_less(a@, b@),
{
    let mut i: usize = 0;
    assert(a@.skip(0) =~= a@ && b@.skip(0) =~= b@);
    while i < a.len() && i < b.len()
        invariant
            i <= a@.len(),
            i <= b@.len(),
            lex_less(a@, b@) == lex_less(a@.skip(i as int), b@.skip(i as int)),
        decreases a@.len() - i,
    {
        if a[i] != b[i] {
            return a[i] < b[i];
        }
        assert(a@.skip(i as int).skip(1) =~= a@.skip(i + 1));
        assert(b@.skip(i as int).skip(1) =~= b@.skip(i + 1));
        i += 1;
    }
    i < b.len()
}

/// The stable order of things with the given keys.
pub fn stable_order(keys: &Vec<Vec<i64>>) -> (r: Vec<usize>)
    ensures
        is_stable_order(key_views(keys@), r@),
{
    let ghost ks = key_views(keys@);
    let mut out: Vec<usize> = Vec::new();
    let mut i: usize = 0;
    while i < keys.len()
        invariant
            ks == key_views(keys@),
            i <= keys@.len(),
            out@.len() == i,
            forall|p: int| 0 <= p < out@.len() ==> 0 <= #[trigger] out@[p] < i,
            forall|p: int, q: int|
                0 <= p < q < out@.len() ==> goes_before(
                    ks,
                    #[trigger] out@[p] as int,
                    #[trigger] out@[q] as int,
                ),
        decreases keys@.len() - i,
    {
        let mut at: usize = out.len();
        while at > 0 && less(keys[i].as_slice(), keys[out[at - 1]].as_slice())
            invariant
                ks == key_views(keys@),
                i < keys@.len(),
                at <= out@.len(),
                forall|p: int| 0 <= p < out@.len() ==> 0 <= #[trigger] out@[p] < i,
                forall|q: int| at <= q < out@.len() ==> lex_less(ks[i as int], ks[#[trigger] out@[q] as int]),
            decreases at,
        {
            at -= 1;
        }
        let ghost before = out@;
        out.insert(at, i);
        proof {
            assert forall|p: int, q: int| 0 <= p < q < out@.len() implies goes_before(
                ks,
                #[trigger] out@[p] as int,
                #[trigger] out@[q] as int,
            ) by {
                if q < at {
                    assert(out@[p] == before[p] && out@[q] == before[q]);
                } else if q == at {
                    // Everything in front of the new one goes before it.
                    let last = before[at - 1] as int;
                    lex_less_is_total(ks[last], ks[i as int]);
                    if p < at - 1 {
                        let x = before[p] as int;
                        assert(goes_before(ks, before[p] as int, before[at - 1] as int));
                        if lex_less(ks[x], ks[last]) && lex_less(ks[last], ks[i as int]) {
                            lex_less_is_transitive(ks[x], ks[last], ks[i as int]);
                        }
                    }
                } else if p == at {
                    assert(out@[q] == before[q - 1]);
                } else if p < at {
                    assert(out@[p] == before[p] && out@[q] == before[q - 1]);
                } else {
                    assert(out@[p] == before[p - 1] && out@[q] == before[q - 1]);
                }
            }
        }
        i += 1;
    }
    out
}

/// A stable order names nothing twice, so it names everything.
pub proof fn stable_order_repeats_nothing(keys: Seq<Seq<i64>>, order: Seq<usize>)
    requires
        is_stable_order(keys, order),
    ensures
        forall|p: int, q: int|
            0 <= p < order.len() && 0 <= q < order.len() && p != q ==> #[trigger] order[p]
                != #[trigger] order[q],
{
    assert forall|p: int, q: int|
        0 <= p < order.len() && 0 <= q < order.len() && p != q implies #[trigger] order[p]
        != #[trigger] order[q] by {
        if p < q {
            lex_less_is_strict(keys[order[p] as int], keys[order[q] as int]);
        } else {
            lex_less_is_strict(keys[order[q] as int], keys[order[p] as int]);
        }
    }
}

/// `order` names thing `i`.
pub open spec fn names(order: Seq<usize>, i: int) -> bool {
    exists|p: int| 0 <= p < order.len() && #[trigger] order[p] == i
}

/// A stable order names everything.
pub proof fn stable_order_names_everything(keys: Seq<Seq<i64>>, order: Seq<usize>)
    requires
        is_stable_order(keys, order),
    ensures
        forall|i: int| 0 <= i < keys.len() ==> #[trigger] names(order, i),
{
    stable_order_repeats_nothing(keys, order);
    let named = order.map_values(|p: usize| p as int);
    assert(named.no_duplicates());
    let all = vstd::set_lib::set_int_range(0, keys.len() as int);
    vstd::set_lib::lemma_int_range(0, keys.len() as int);
    named.unique_seq_to_set();
    assert forall|x: int| named.to_set().contains(x) implies all.contains(x) by {
        let p = choose|p: int| 0 <= p < named.len() && named[p] == x;
        assert(0 <= order[p] < keys.len());
    }
    assert(named.to_set().subset_of(all));
    vstd::set_lib::lemma_set_subset_finite(all, named.to_set());
    vstd::set_lib::lemma_subset_equality(named.to_set(), all);
    assert forall|i: int| 0 <= i < keys.len() implies #[trigger] names(order, i) by {
        assert(named.to_set().contains(i));
        let p = choose|p: int| 0 <= p < named.len() && named[p] == i;
        assert(order[p] == i);
    }
}

proof fn orders_agree(keys: Seq<Seq<i64>>, a: Seq<usize>, b: Seq<usize>, n: int)
    requires
        is_stable_order(keys, a),
        is_stable_order(keys, b),
        0 <= n <= keys.len(),
    ensures
        forall|p: int| 0 <= p < n ==> #[trigger] a[p] == b[p],
    decreases n,
{
    if n > 0 {
        orders_agree(keys, a, b, n - 1);
        let k = n - 1;
        if a[k] != b[k] {
            stable_order_repeats_nothing(keys, a);
            stable_order_repeats_nothing(keys, b);
            stable_order_names_everything(keys, a);
            stable_order_names_everything(keys, b);
            assert(names(b, a[k] as int));
            assert(names(a, b[k] as int));
            let q = choose|q: int| 0 <= q < b.len() && #[trigger] b[q] == a[k] as int;
            let r = choose|r: int| 0 <= r < a.len() && #[trigger] a[r] == b[k] as int;
            assert(q > k) by {
                if q < k {
                    assert(a[q] == b[q]);
                }
            }
            assert(r > k) by {
                if r < k {
                    assert(a[r] == b[r]);
                }
            }
            assert(goes_before(keys, b[k] as int, b[q] as int));
            assert(goes_before(keys, a[k] as int, a[r] as int));
            lex_less_is_strict(keys[a[k] as int], keys[b[k] as int]);
            lex_less_is_strict(keys[b[k] as int], keys[a[k] as int]);
        }
    }
}

/// There is one stable order only.
pub proof fn stable_order_is_unique(keys: Seq<Seq<i64>>, a: Seq<usize>, b: Seq<usize>)
    requires
        is_stable_order(keys, a),
        is_stable_order(keys, b),
    ensures
        a == b,
{
    orders_agree(keys, a, b, keys.len() as int);
    assert(a =~= b);
}

/// The key by which a text is ordered: its characters.
pub open spec fn text_key(s: Seq<char>) -> Seq<i64> {
    s.map_values(|c: char| c as u32 as i64)
}

/// The key by which a text is ordered.
pub fn key_of_text(s: &str) -> (r: Vec<i64>)
    ensures
        r@ == text_key(s@),
{
    let v = chars_of(s);
    let mut out: Vec<i64> = Vec::new();
    let mut i: usize = 0;
    while i < v.len()
        invariant
            v@ == s@,
            i <= v@.len(),
            out@ == text_key(s@.take(i as int)),
        decreases v@.len() - i,
    {
        out.push(v[i] as u32 as i64);
        assert(text_key(s@.take(i + 1)) =~= text_key(s@.take(i as int)).push(s@[i as int] as u32 as i64));
        i += 1;
    }
    assert(s@.take(i as int) =~= s@);
    out
}

/// Of two keys that agree up to a place the one that is smaller there comes first, whatever follows,
/// and one that ends there comes before one that goes on.
pub proof fn the_first_difference_decides(
    common: Seq<i64>,
    a: i64,
    b: i64,
    rest_a: Seq<i64>,
    rest_b: Seq<i64>,
)
    ensures
        a < b ==> lex_less(common + seq![a] + rest_a, common + seq![b] + rest_b),
        a > b ==> !lex_less(common + seq![a] + rest_a, common + seq![b] + rest_b),
        lex_less(common, common + seq![b] + rest_b),
        !lex_less(common + seq![a] + rest_a, common),
    decreases common.len(),
{
    let x = common + seq![a] + rest_a;
    let y = common + seq![b] + rest_b;
    if common.len() > 0 {
        let c = common.skip(1);
        the_first_difference_decides(c, a, b, rest_a, rest_b);
        assert(x.skip(1) =~= c + seq![a] + rest_a);
        assert(y.skip(1) =~= c + seq![b] + rest_b);
        assert(x[0] == common[0] && y[0] == common[0]);
    } else {
        assert(x[0] == a && y[0] == b);
    }
}

/// Texts are ordered by their characters.
pub proof fn texts_are_ordered_by_their_characters(s: Seq<char>, i: int)
    requires
        0 <= i < s.len(),
    ensures
        text_key(s).len() == s.len(),
        text_key(s)[i] == s[i] as u32,
{
}

/// In a stable order smaller keys come first, and things with one key stay in the order in which
/// they came.
pub proof fn equal_keys_stay_in_their_order(
    keys: Seq<Seq<i64>>,
    order: Seq<usize>,
    p: int,
    q: int,
)
    requires
        is_stable_order(keys, order),
        0 <= p < q < order.len(),
    ensures
        !lex_less(keys[order[q] as int], keys[order[p] as int]),
        keys[order[p] as int] == keys[order[q] as int] ==> order[p] < order[q],
{
    lex_less_is_strict(keys[order[p] as int], keys[order[q] as int]);
}

} // verus!
