//! The command line and the environment of a Windows process, as UTF-16 units.

use vstd::prelude::*;
use crate::outside::{decode_utf16, to_uppercase, uppercase, utf16_text};
use crate::sorting::{is_stable_order, key_of_text, key_views, stable_order, text_key};
use crate::text::{ascii_lower, same, to_ascii_lower};

verus! {

pub const QUOTE: u16 = 34;

pub const BACKSLASH: u16 = 92;

pub const SPACE: u16 = 32;

pub const EQUALS: u16 = 61;

/// What is told of a text with a NUL in it.
pub const NUL_IN_ARGUMENT: &'static str = "NUL in process argument";

/// Whether a text can be handed to a process, and the text with the NUL that ends it.
pub fn wide(value: &Vec<u16>) -> (r: Result<Vec<u16>, String>)
    ensures
        r is Ok <==> !value@.contains(0),
        r matches Ok(w) ==> w@ == value@.push(0),
        r matches Err(e) ==> e@ == NUL_IN_ARGUMENT@,
{
    let mut out: Vec<u16> = Vec::new();
    let mut i: usize = 0;
    while i < value.len()
        invariant
            i <= value@.len(),
            out@ == value@.take(i as int),
            forall|j: int| 0 <= j < i ==> value@[j] != 0,
        decreases value@.len() - i,
    {
        if value[i] == 0 {
            assert(value@[i as int] == 0);
            return Err(NUL_IN_ARGUMENT.to_owned());
        }
        out.push(value[i]);
        assert(value@.take(i + 1) =~= value@.take(i as int).push(value@[i as int]));
        i += 1;
    }
    assert(value@.take(i as int) =~= value@);
    out.push(0);
    Ok(out)
}

/// `n` backslashes.
pub open spec fn slashes(n: nat) -> Seq<u16> {
    Seq::new(n, |i: int| BACKSLASH)
}

/// The quoted form of `v` behind `n` backslashes that are still to be written. Backslashes
/// are doubled where a quote follows, and a quote gets one more in front.
pub open spec fn escaped(v: Seq<u16>, n: nat) -> Seq<u16>
    decreases v.len(),
{
    if v.len() == 0 {
        slashes(n + n)
    } else if v[0] == BACKSLASH {
        escaped(v.skip(1), n + 1)
    } else if v[0] == QUOTE {
        slashes(n + n + 1) + seq![QUOTE] + escaped(v.skip(1), 0)
    } else {
        slashes(n) + seq![v[0]] + escaped(v.skip(1), 0)
    }
}

/// An argument in quotes.
pub open spec fn quoted_argument(v: Seq<u16>) -> Seq<u16> {
    seq![QUOTE] + escaped(v, 0) + seq![QUOTE]
}

fn push_slashes(out: &mut Vec<u16>, n: usize)
    ensures
        final(out)@ == old(out)@ + slashes(n as nat),
{
    let ghost before = out@;
    let mut i: usize = 0;
    assert(out@ =~= before + slashes(0));
    while i < n
        invariant
            i <= n,
            out@ == before + slashes(i as nat),
        decreases n - i,
    {
        out.push(BACKSLASH);
        assert(out@ =~= before + slashes((i + 1) as nat));
        i += 1;
    }
}

/// Appends an argument in quotes.
pub fn quote_argument(value: &Vec<u16>, output: &mut Vec<u16>) -> (r: Result<(), String>)
    ensures
        r is Ok <==> !value@.contains(0),
        r is Ok ==> final(output)@ == old(output)@ + quoted_argument(value@),
        r matches Err(e) ==> e@ == NUL_IN_ARGUMENT@ && final(output)@ == old(output)@.push(QUOTE),
{
    let ghost before = output@;
    output.push(QUOTE);
    if let Err(e) = wide(value) {
        return Err(e);
    }
    let ghost head = before.push(QUOTE);
    let mut pending: usize = 0;
    let mut i: usize = 0;
    assert(value@.skip(0) =~= value@);
    assert(head + escaped(value@, 0) =~= output@ + escaped(value@.skip(0), 0));
    while i < value.len()
        invariant
            i <= value@.len(),
            pending <= i,
            output@ + escaped(value@.skip(i as int), pending as nat) == head + escaped(value@, 0),
        decreases value@.len() - i,
    {
        let code: u16 = value[i];
        let ghost rest = value@.skip(i as int);
        assert(rest.skip(1) =~= value@.skip(i + 1));
        let ghost current = output@;
        if code == BACKSLASH {
            pending += 1;
        } else {
            push_slashes(output, pending);
            if code == QUOTE {
                push_slashes(output, pending);
                output.push(BACKSLASH);
                assert(output@ =~= current + slashes((pending + pending + 1) as nat));
            }
            output.push(code);
            pending = 0;
            assert(output@ + escaped(value@.skip(i + 1), 0) =~= head + escaped(value@, 0));
        }
        i += 1;
    }
    let ghost current = output@;
    push_slashes(output, pending);
    push_slashes(output, pending);
    output.push(QUOTE);
    proof {
        assert(current + slashes((pending + pending) as nat) =~= head + escaped(value@, 0));
        assert(output@ =~= current + slashes((pending + pending) as nat) + seq![QUOTE]);
        assert(output@ =~= before + quoted_argument(value@));
    }
    Ok(())
}

/// What a process reads from the inside of a quoted argument, `n` backslashes having been
/// read already: the argument, and what stands behind the quote that ends it. Two backslashes
/// in front of a quote are one; a quote behind an odd number of them belongs to the argument.
pub open spec fn read_quoted(s: Seq<u16>, n: nat) -> Option<(Seq<u16>, Seq<u16>)>
    decreases s.len(),
{
    if s.len() == 0 {
        None
    } else if s[0] == BACKSLASH {
        read_quoted(s.skip(1), n + 1)
    } else if s[0] == QUOTE {
        if n % 2 == 0 {
            Some((slashes(n / 2), s.skip(1)))
        } else {
            match read_quoted(s.skip(1), 0) {
                Some((a, rest)) => Some((slashes(n / 2) + seq![QUOTE] + a, rest)),
                None => None,
            }
        }
    } else {
        match read_quoted(s.skip(1), 0) {
            Some((a, rest)) => Some((slashes(n) + seq![s[0]] + a, rest)),
            None => None,
        }
    }
}

proof fn lemma_read_slashes(k: nat, t: Seq<u16>, n: nat)
    ensures
        read_quoted(slashes(k) + t, n) == read_quoted(t, n + k),
    decreases k,
{
    let s = slashes(k) + t;
    if k == 0 {
        assert(s =~= t);
    } else {
        assert(s[0] == BACKSLASH);
        assert(s.skip(1) =~= slashes((k - 1) as nat) + t);
        lemma_read_slashes((k - 1) as nat, t, n + 1);
    }
}

/// A quoted argument is read back as the argument, and nothing behind it is read as part of it.
pub proof fn quoted_argument_is_read_back(v: Seq<u16>, n: nat, tail: Seq<u16>)
    ensures
        read_quoted(escaped(v, n) + seq![QUOTE] + tail, 0) == Some((slashes(n) + v, tail)),
    decreases v.len(),
{
    let end = seq![QUOTE] + tail;
    let s = escaped(v, n) + seq![QUOTE] + tail;
    if v.len() == 0 {
        assert(s =~= slashes(n + n) + end);
        lemma_read_slashes(n + n, end, 0);
        assert(end.skip(1) =~= tail);
        assert((n + n) / 2 == n);
        assert(slashes(n) + v =~= slashes(n));
    } else {
        let rest = v.skip(1);
        if v[0] == BACKSLASH {
            quoted_argument_is_read_back(rest, n + 1, tail);
            assert(slashes(n + 1) + rest =~= slashes(n) + v);
        } else {
            quoted_argument_is_read_back(rest, 0, tail);
            let inner = escaped(rest, 0) + seq![QUOTE] + tail;
            assert(slashes(0) + rest =~= rest);
            if v[0] == QUOTE {
                let t = seq![QUOTE] + inner;
                assert(s =~= slashes(n + n + 1) + t);
                lemma_read_slashes(n + n + 1, t, 0);
                assert(t.skip(1) =~= inner);
                assert((n + n + 1) / 2 == n);
                assert(slashes(n) + seq![QUOTE] + rest =~= slashes(n) + v);
            } else {
                let t = seq![v[0]] + inner;
                assert(s =~= slashes(n) + t);
                lemma_read_slashes(n, t, 0);
                assert(t.skip(1) =~= inner);
                assert(slashes(n) + seq![v[0]] + rest =~= slashes(n) + v);
            }
        }
    }
}

pub open spec fn unit_views(v: Seq<Vec<u16>>) -> Seq<Seq<u16>> {
    v.map_values(|a: Vec<u16>| a@)
}

/// The arguments in quotes, a space between each two.
pub open spec fn argument_line(arguments: Seq<Seq<u16>>) -> Seq<u16>
    decreases arguments.len(),
{
    if arguments.len() == 0 {
        Seq::empty()
    } else if arguments.len() == 1 {
        quoted_argument(arguments[0])
    } else {
        argument_line(arguments.drop_last()).push(SPACE) + quoted_argument(arguments.last())
    }
}

/// The command line of a process: the program and its arguments, ended by a NUL.
pub fn command_line(arguments: &Vec<Vec<u16>>) -> (r: Result<Vec<u16>, String>)
    ensures
        r is Ok <==> forall|i: int| 0 <= i < arguments@.len() ==> !(#[trigger] arguments@[i])@.contains(0),
        r matches Ok(line) ==> line@ == argument_line(unit_views(arguments@)).push(0),
        r matches Err(e) ==> e@ == NUL_IN_ARGUMENT@,
{
    let mut line: Vec<u16> = Vec::new();
    let ghost all = unit_views(arguments@);
    let mut i: usize = 0;
    while i < arguments.len()
        invariant
            i <= arguments@.len(),
            all == unit_views(arguments@),
            line@ == argument_line(all.take(i as int)),
            i > 0 ==> line@.len() > 0,
            i == 0 ==> line@.len() == 0,
            forall|j: int| 0 <= j < i ==> !(#[trigger] arguments@[j])@.contains(0),
        decreases arguments@.len() - i,
    {
        assert(all.take(i + 1).drop_last() =~= all.take(i as int));
        assert(all.take(i + 1).last() == arguments@[i as int]@);
        if line.len() > 0 {
            line.push(SPACE);
        }
        let ghost before = line@;
        if let Err(e) = quote_argument(&arguments[i], &mut line) {
            return Err(e);
        }
        assert(line@ =~= argument_line(all.take(i + 1)));
        i += 1;
    }
    assert(all.take(i as int) =~= all);
    line.push(0);
    Ok(line)
}

/// The variables of an environment, by the units of their names and values.
pub open spec fn variable_views(v: Seq<(Vec<u16>, Vec<u16>)>) -> Seq<(Seq<u16>, Seq<u16>)> {
    v.map_values(|p: (Vec<u16>, Vec<u16>)| (p.0@, p.1@))
}

/// A name in which capitals do not count.
pub open spec fn folded(name: Seq<u16>) -> Seq<char> {
    ascii_lower(utf16_text(name))
}

/// The variables without those of the given name. Capitals do not count in names.
pub open spec fn without_variable(v: Seq<(Seq<u16>, Seq<u16>)>, name: Seq<u16>) -> Seq<
    (Seq<u16>, Seq<u16>),
>
    decreases v.len(),
{
    if v.len() == 0 {
        Seq::empty()
    } else {
        let rest = without_variable(v.drop_last(), name);
        if folded(v.last().0) == folded(name) {
            rest
        } else {
            rest.push(v.last())
        }
    }
}

/// The environment after the first `k` changes.
pub open spec fn changed_environment(
    base: Seq<(Seq<u16>, Seq<u16>)>,
    changes: Seq<(Vec<u16>, Option<Vec<u16>>)>,
    k: int,
) -> Seq<(Seq<u16>, Seq<u16>)>
    decreases k,
{
    if k <= 0 {
        base
    } else {
        let rest = without_variable(
            changed_environment(base, changes, k - 1),
            changes[k - 1].0@,
        );
        match changes[k - 1].1 {
            Some(value) => rest.push((changes[k - 1].0@, value@)),
            None => rest,
        }
    }
}

fn copy_units(v: &Vec<u16>) -> (r: Vec<u16>)
    ensures
        r@ == v@,
{
    let mut out: Vec<u16> = Vec::new();
    let mut i: usize = 0;
    while i < v.len()
        invariant
            i <= v@.len(),
            out@ == v@.take(i as int),
        decreases v@.len() - i,
    {
        out.push(v[i]);
        assert(v@.take(i + 1) =~= v@.take(i as int).push(v@[i as int]));
        i += 1;
    }
    assert(v@.take(i as int) =~= v@);
    out
}

fn fold_name(name: &Vec<u16>) -> (r: String)
    ensures
        r@ == folded(name@),
{
    to_ascii_lower(decode_utf16(name.as_slice()).as_str())
}

fn drop_variable(v: &Vec<(Vec<u16>, Vec<u16>)>, name: &Vec<u16>) -> (r: Vec<(Vec<u16>, Vec<u16>)>)
    ensures
        variable_views(r@) == without_variable(variable_views(v@), name@),
{
    let mut kept: Vec<(Vec<u16>, Vec<u16>)> = Vec::new();
    let ghost all = variable_views(v@);
    let lower = fold_name(name);
    let mut i: usize = 0;
    assert(all.take(0) =~= Seq::empty());
    assert(variable_views(kept@) =~= Seq::empty());
    while i < v.len()
        invariant
            i <= v@.len(),
            all == variable_views(v@),
            lower@ == folded(name@),
            variable_views(kept@) == without_variable(all.take(i as int), name@),
        decreases v@.len() - i,
    {
        assert(all.take(i + 1).drop_last() =~= all.take(i as int));
        assert(all.take(i + 1).last() == all[i as int]);
        if !same(fold_name(&v[i].0).as_str(), lower.as_str()) {
            let ghost before = kept@;
            kept.push((copy_units(&v[i].0), copy_units(&v[i].1)));
            assert(variable_views(kept@) =~= variable_views(before).push(all[i as int]));
        }
        i += 1;
    }
    assert(all.take(i as int) =~= all);
    kept
}

/// The environment of a process: the given variables with the changes made to them, in order.
/// Names and values are UTF-16 units.
pub fn change_environment(
    base: &Vec<(Vec<u16>, Vec<u16>)>,
    changes: &Vec<(Vec<u16>, Option<Vec<u16>>)>,
) -> (r: Vec<(Vec<u16>, Vec<u16>)>)
    ensures
        variable_views(r@) == changed_environment(
            variable_views(base@),
            changes@,
            changes@.len() as int,
        ),
{
    let mut values: Vec<(Vec<u16>, Vec<u16>)> = Vec::new();
    let ghost all = variable_views(base@);
    let mut i: usize = 0;
    while i < base.len()
        invariant
            i <= base@.len(),
            all == variable_views(base@),
            variable_views(values@) == all.take(i as int),
        decreases base@.len() - i,
    {
        let ghost before = values@;
        values.push((copy_units(&base[i].0), copy_units(&base[i].1)));
        assert(variable_views(values@) =~= variable_views(before).push(all[i as int]));
        assert(all.take(i + 1) =~= all.take(i as int).push(all[i as int]));
        i += 1;
    }
    assert(all.take(i as int) =~= all);
    let mut k: usize = 0;
    while k < changes.len()
        invariant
            k <= changes@.len(),
            all == variable_views(base@),
            variable_views(values@) == changed_environment(all, changes@, k as int),
        decreases changes@.len() - k,
    {
        values = drop_variable(&values, &changes[k].0);
        if let Some(value) = &changes[k].1 {
            let ghost before = values@;
            values.push((copy_units(&changes[k].0), copy_units(value)));
            assert(variable_views(values@) =~= variable_views(before).push(
                (changes@[k as int].0@, value@),
            ));
        }
        k += 1;
    }
    values
}

/// A variable that a change takes out is gone, under whatever capitals it was written, as
/// long as no later change sets it.
pub proof fn removed_variable_is_gone(
    base: Seq<(Seq<u16>, Seq<u16>)>,
    changes: Seq<(Vec<u16>, Option<Vec<u16>>)>,
    c: int,
    k: int,
    name: Seq<u16>,
    i: int,
)
    requires
        0 <= c < k <= changes.len(),
        changes[c].1 is None,
        folded(changes[c].0@) == folded(name),
        forall|j: int|
            c < j < k && (#[trigger] changes[j]).1 is Some ==> folded(changes[j].0@) != folded(name),
        0 <= i < changed_environment(base, changes, k).len(),
    ensures
        folded(changed_environment(base, changes, k)[i].0) != folded(name),
    decreases k,
{
    let before = changed_environment(base, changes, k - 1);
    let rest = without_variable(before, changes[k - 1].0@);
    if c == k - 1 {
        lemma_without_variable(before, changes[k - 1].0@, i);
    } else if i < rest.len() {
        lemma_kept_variable(before, changes[k - 1].0@, i);
        let j = choose|j: int| 0 <= j < before.len() && #[trigger] before[j] == rest[i];
        removed_variable_is_gone(base, changes, c, k - 1, name, j);
    }
}

proof fn lemma_kept_variable(v: Seq<(Seq<u16>, Seq<u16>)>, name: Seq<u16>, i: int)
    requires
        0 <= i < without_variable(v, name).len(),
    ensures
        exists|j: int| 0 <= j < v.len() && #[trigger] v[j] == without_variable(v, name)[i],
    decreases v.len(),
{
    if v.len() > 0 {
        let rest = without_variable(v.drop_last(), name);
        if i < rest.len() {
            lemma_kept_variable(v.drop_last(), name, i);
            let j = choose|j: int|
                0 <= j < v.drop_last().len() && #[trigger] v.drop_last()[j] == rest[i];
            assert(v[j] == rest[i]);
        } else {
            assert(v[v.len() - 1] == v.last());
        }
    }
}

proof fn lemma_without_variable(v: Seq<(Seq<u16>, Seq<u16>)>, name: Seq<u16>, i: int)
    requires
        0 <= i < without_variable(v, name).len(),
    ensures
        folded(without_variable(v, name)[i].0) != folded(name),
    decreases v.len(),
{
    if v.len() > 0 {
        let rest = without_variable(v.drop_last(), name);
        if i < rest.len() {
            lemma_without_variable(v.drop_last(), name, i);
        }
    }
}

/// The key by which variables are ordered: the name in capitals.
pub open spec fn variable_keys(v: Seq<(Seq<u16>, Seq<u16>)>) -> Seq<Seq<i64>> {
    v.map_values(|p: (Seq<u16>, Seq<u16>)| text_key(uppercase(utf16_text(p.0))))
}

/// A variable in an environment block, without the NUL that ends it.
pub open spec fn variable_units(p: (Seq<u16>, Seq<u16>)) -> Seq<u16> {
    p.0.push(EQUALS) + p.1
}

/// The first `k` variables of an order, each ended by a NUL.
pub open spec fn block_of(v: Seq<(Seq<u16>, Seq<u16>)>, order: Seq<usize>, k: int) -> Seq<u16>
    decreases k,
{
    if k <= 0 {
        Seq::empty()
    } else {
        block_of(v, order, k - 1) + variable_units(v[order[k - 1] as int]).push(0)
    }
}

/// The environment block of a process: the variables in the order of their names, each ended
/// by a NUL, and one more NUL at the end; two where there is no variable.
pub fn environment_block(values: &Vec<(Vec<u16>, Vec<u16>)>) -> (r: Result<Vec<u16>, String>)
    ensures
        r is Ok <==> forall|i: int|
            0 <= i < values@.len() ==> !variable_units(#[trigger] variable_views(values@)[i]).contains(0),
        r matches Err(e) ==> e@ == NUL_IN_ARGUMENT@,
        r matches Ok(block) ==> exists|order: Seq<usize>|
            #![trigger is_stable_order(variable_keys(variable_views(values@)), order)]
            is_stable_order(variable_keys(variable_views(values@)), order) && block@ == (
            if values@.len() == 0 {
                seq![0u16, 0u16]
            } else {
                block_of(variable_views(values@), order, order.len() as int).push(0)
            }),
{
    let ghost v = variable_views(values@);
    let mut keys: Vec<Vec<i64>> = Vec::new();
    let mut i: usize = 0;
    while i < values.len()
        invariant
            i <= values@.len(),
            v == variable_views(values@),
            key_views(keys@) == variable_keys(v).take(i as int),
        decreases values@.len() - i,
    {
        let upper = to_uppercase(decode_utf16(values[i].0.as_slice()).as_str());
        let key = key_of_text(upper.as_str());
        let ghost before = keys@;
        keys.push(key);
        assert(v[i as int].0 == values@[i as int].0@);
        assert(variable_keys(v)[i as int] == key@);
        assert(key_views(keys@) =~= key_views(before).push(key@));
        assert(variable_keys(v).take(i + 1) =~= variable_keys(v).take(i as int).push(key@));
        i += 1;
    }
    assert(variable_keys(v).take(i as int) =~= variable_keys(v));
    let order = stable_order(&keys);
    let mut block: Vec<u16> = Vec::new();
    let mut k: usize = 0;
    while k < order.len()
        invariant
            k <= order@.len(),
            v == variable_views(values@),
            is_stable_order(variable_keys(v), order@),
            block@ == block_of(v, order@, k as int),
            k > 0 ==> block@.len() > 0,
            forall|j: int| 0 <= j < k ==> !variable_units(v[#[trigger] order@[j] as int]).contains(0),
        decreases order@.len() - k,
    {
        let at: usize = order[k];
        let mut units = copy_units(&values[at].0);
        let mut value = copy_units(&values[at].1);
        units.push(EQUALS);
        units.append(&mut value);
        assert(v[at as int] == (values@[at as int].0@, values@[at as int].1@));
        assert(units@ =~= variable_units(v[at as int]));
        match wide(&units) {
            Err(e) => {
                assert(variable_units(variable_views(values@)[at as int]).contains(0));
                return Err(e);
            },
            Ok(entry) => {
                let mut entry = entry;
                let ghost added = entry@;
                let ghost before = block@;
                block.append(&mut entry);
                assert(block@ =~= before + added);
            },
        }
        k += 1;
    }
    proof {
        crate::sorting::stable_order_names_everything(variable_keys(v), order@);
        assert forall|i: int| 0 <= i < values@.len() implies !variable_units(
            #[trigger] variable_views(values@)[i],
        ).contains(0) by {
            assert(crate::sorting::names(order@, i));
            let j = choose|j: int| 0 <= j < order@.len() && order@[j] == i;
            assert(!variable_units(v[order@[j] as int]).contains(0));
        }
        assert(is_stable_order(variable_keys(v), order@));
    }
    if block.len() == 0 {
        block.push(0);
    }
    block.push(0);
    assert(values@.len() == 0 ==> block@ =~= seq![0u16, 0u16]);
    Ok(block)
}

/// A variable that a change sets is there with its value, once, and a variable of another name stays
/// as it was.
pub proof fn a_set_variable_is_there(
    base: Seq<(Seq<u16>, Seq<u16>)>,
    changes: Seq<(Vec<u16>, Option<Vec<u16>>)>,
    k: int,
    other: (Seq<u16>, Seq<u16>),
)
    requires
        0 < k <= changes.len(),
    ensures
        ({
            let before = changed_environment(base, changes, k - 1);
            let after = changed_environment(base, changes, k);
            let name = changes[k - 1].0@;
            &&& changes[k - 1].1 matches Some(value) ==> after.len() > 0 && after.last() == (
                name,
                value@,
            )
            &&& folded(other.0) != folded(name) ==> (after.contains(other) <==> before.contains(
                other,
            ))
            &&& after.len() <= before.len() + 1
        }),
        changed_environment(base, changes, 0) == base,
{
    let before = changed_environment(base, changes, k - 1);
    let after = changed_environment(base, changes, k);
    let name = changes[k - 1].0@;
    let rest = without_variable(before, name);
    only_the_named_variable_goes(before, name, other);
    if folded(other.0) != folded(name) {
        if rest.contains(other) {
            let i = rest.index_of(other);
            assert(after[i] == other);
        }
        if after.contains(other) {
            let i = after.index_of(other);
            if i < rest.len() {
                assert(rest[i] == other);
            }
        }
    }
}

/// Taking a variable out leaves every other one.
pub proof fn only_the_named_variable_goes(
    v: Seq<(Seq<u16>, Seq<u16>)>,
    name: Seq<u16>,
    other: (Seq<u16>, Seq<u16>),
)
    ensures
        without_variable(v, name).len() <= v.len(),
        without_variable(v, name).contains(other) <==> v.contains(other) && folded(other.0)
            != folded(name),
    decreases v.len(),
{
    if v.len() > 0 {
        let front = v.drop_last();
        let rest = without_variable(front, name);
        let all = without_variable(v, name);
        only_the_named_variable_goes(front, name, other);
        if v.contains(other) {
            let i = v.index_of(other);
            if i < front.len() {
                assert(front[i] == other);
            }
        }
        if front.contains(other) {
            let i = front.index_of(other);
            assert(v[i] == other);
        }
        if all.contains(other) {
            let i = all.index_of(other);
            if i < rest.len() {
                assert(rest[i] == other);
            } else {
                assert(v[v.len() - 1] == other);
            }
        }
        if rest.contains(other) {
            let i = rest.index_of(other);
            assert(all[i] == other);
        }
        if folded(v.last().0) != folded(name) && v.last() == other {
            assert(all.last() == other);
            assert(all.contains(other));
        }
    }
}

/// A command line holds its arguments one after another: the first one, and what is left of it, is
/// read as the first argument, and a space stands before each further one.
pub proof fn arguments_follow_one_another(arguments: Seq<Seq<u16>>, last: Seq<u16>)
    ensures
        argument_line(seq![last]) == quoted_argument(last),
        arguments.len() > 0 ==> argument_line(arguments.push(last)) == argument_line(arguments)
            + seq![SPACE] + quoted_argument(last),
        quoted_argument(last)[0] == QUOTE,
        read_quoted(quoted_argument(last).skip(1), 0) == Some((last, Seq::<u16>::empty())),
{
    assert(arguments.push(last).drop_last() =~= arguments);
    if arguments.len() > 0 {
        assert(argument_line(arguments).push(SPACE) + quoted_argument(last) =~= argument_line(
            arguments,
        ) + seq![SPACE] + quoted_argument(last));
    }
    quoted_argument_is_read_back(last, 0, Seq::empty());
    assert(slashes(0) + last =~= last);
    assert(quoted_argument(last).skip(1) =~= escaped(last, 0) + seq![QUOTE] + Seq::<u16>::empty());
}

/// A variable stands in the block as its name, an equals sign and its value.
pub proof fn a_variable_stands_as_name_and_value(name: Seq<u16>, value: Seq<u16>)
    ensures
        variable_units((name, value)) == name + seq![61u16] + value,
{
    assert(variable_units((name, value)) =~= name + seq![61u16] + value);
}

/// Every variable of the order stands in the block, ended by a NUL, behind those before it.
pub proof fn the_block_holds_every_variable(
    v: Seq<(Seq<u16>, Seq<u16>)>,
    order: Seq<usize>,
    k: int,
)
    requires
        0 < k,
    ensures
        block_of(v, order, 0).len() == 0,
        block_of(v, order, k) == block_of(v, order, k - 1) + variable_units(v[order[k - 1] as int])
            + seq![0u16],
{
    assert(block_of(v, order, k) =~= block_of(v, order, k - 1) + variable_units(
        v[order[k - 1] as int],
    ) + seq![0u16]);
}

/// A text with a NUL in it is refused; any other one is handed over as it is, with one at its end.
pub proof fn a_text_with_a_nul_is_refused(value: &Vec<u16>, i: int, r: Result<Vec<u16>, String>)
    requires
        call_ensures(wide, (value,), r),
    ensures
        value@.contains(0) <==> r is Err,
        r matches Ok(w) ==> w@.len() == value@.len() + 1 && w@.last() == 0 && (0 <= i < value@.len()
            ==> w@[i] == value@[i]),
{
}

} // verus!
