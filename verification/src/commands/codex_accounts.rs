//! The accounts of Codex, as the commands list and change them.

use vstd::prelude::*;
use std::collections::HashMap;
use crate::codex_accounts::account_manager::{account_views, api_text, find_match, first_match, CodexAccountManagerError};
use crate::codex_accounts::api::CodexApiError;
use crate::codex_accounts::models::{same_owner_is_symmetric_and_reflexive, AccountUsageSnapshot, AccountView, CodexAccount, CodexAccountSource};
use crate::outside::{uuid_text, write_uuid};
use crate::text::same;

verus! {

/// What is said while another operation on accounts is under way.
pub const BUSY: &'static str = "A Codex account operation is already in progress.";

/// What is said where there is no account of the given id.
pub const NOT_FOUND: &'static str = "Codex account not found.";

/// What is said where usage did not come in time.
pub const TIMED_OUT: &'static str = "Timed out waiting for the Codex usage API.";

/// How long the usage of an account is waited for, in seconds.
pub const DEFAULT_FETCH_TIMEOUT_SECONDS: u64 = 60;

/// The accounts with one more: merged into the first of its owner, else at the end.
pub open spec fn absorbed(accounts: Seq<AccountView>, a: AccountView) -> Seq<AccountView> {
    match first_match(accounts, a, 0) {
        Some(k) => accounts.update(k, accounts[k].merged(a)),
        None => accounts.push(a),
    }
}

/// Merges an account into the first of its owner, else puts it at the end.
pub fn absorb_account(accounts: &mut Vec<CodexAccount>, account: &CodexAccount)
    ensures
        account_views(final(accounts)@) == absorbed(account_views(old(accounts)@), account@),
{
    let ghost before = account_views(accounts@);
    match find_match(accounts, account) {
        Some(k) => {
            let mut entry = accounts[k].clone();
            entry.merge_from(account);
            accounts.set(k, entry);
            assert(before[k as int] == old(accounts)@[k as int]@);
            assert(account_views(accounts@) =~= before.update(
                k as int,
                before[k as int].merged(account@),
            ));
        },
        None => {
            accounts.push(account.clone());
            assert(account_views(accounts@) =~= before.push(account@));
        },
    }
}

/// A stored account with what was found of its owner merged in.
pub open spec fn refreshed(stored: AccountView, managed: Seq<AccountView>) -> AccountView {
    match first_match(managed, stored, 0) {
        Some(k) => stored.merged(managed[k]),
        None => stored,
    }
}

/// The stored accounts whose files are the application's own, each with what was found of its
/// owner. A stored record of the active home is left out: who is logged in there can change
/// behind the application's back.
pub open spec fn known(existing: Seq<AccountView>, managed: Seq<AccountView>) -> Seq<AccountView>
    decreases existing.len(),
{
    if existing.len() == 0 {
        Seq::empty()
    } else if existing.last().source.owned() {
        known(existing.drop_last(), managed).push(refreshed(existing.last(), managed))
    } else {
        known(existing.drop_last(), managed)
    }
}

fn known_accounts(existing: &Vec<CodexAccount>, managed: &Vec<CodexAccount>) -> (r: Vec<CodexAccount>)
    ensures
        account_views(r@) == known(account_views(existing@), account_views(managed@)),
{
    let ghost all = account_views(existing@);
    let mut out: Vec<CodexAccount> = Vec::new();
    let mut i: usize = 0;
    assert(all.take(0) =~= Seq::empty());
    assert(account_views(out@) =~= Seq::empty());
    while i < existing.len()
        invariant
            i <= existing@.len(),
            all == account_views(existing@),
            account_views(out@) == known(all.take(i as int), account_views(managed@)),
        decreases existing@.len() - i,
    {
        assert(all.take(i + 1).drop_last() =~= all.take(i as int));
        assert(all.take(i + 1).last() == existing@[i as int]@);
        if existing[i].source.owns_files() {
            let mut account = existing[i].clone();
            if let Some(k) = find_match(managed, &existing[i]) {
                account.merge_from(&managed[k]);
            }
            let ghost before = out@;
            out.push(account);
            assert(account_views(out@) =~= account_views(before).push(account@));
        }
        i += 1;
    }
    assert(all.take(i as int) =~= all);
    out
}

/// The accounts with those candidates at the end whose owner has none yet.
pub open spec fn extended(accounts: Seq<AccountView>, candidates: Seq<AccountView>) -> Seq<
    AccountView,
>
    decreases candidates.len(),
{
    if candidates.len() == 0 {
        accounts
    } else {
        let front = extended(accounts, candidates.drop_last());
        if first_match(front, candidates.last(), 0) is Some {
            front
        } else {
            front.push(candidates.last())
        }
    }
}

/// All accounts: the stored ones, brought up to date, and those found at the managed homes and
/// at the active home.
pub open spec fn all_accounts(
    existing: Seq<AccountView>,
    managed: Seq<AccountView>,
    ambient: Option<AccountView>,
) -> Seq<AccountView> {
    let found = match ambient {
        Some(a) => absorbed(managed, a),
        None => managed,
    };
    extended(known(existing, managed), found)
}

/// The view of an account that may be missing.
pub open spec fn account_glimpsed(o: Option<&CodexAccount>) -> Option<AccountView> {
    match o {
        Some(a) => Some(a@),
        None => None,
    }
}

/// All accounts, out of what is stored, what was found at the managed homes and what was found
/// at the active home.
pub fn reconcile_codex_accounts(
    existing: &Vec<CodexAccount>,
    managed: &Vec<CodexAccount>,
    ambient: Option<&CodexAccount>,
) -> (r: Vec<CodexAccount>)
    ensures
        account_views(r@) == all_accounts(
            account_views(existing@),
            account_views(managed@),
            account_glimpsed(ambient),
        ),
{
    let mut found: Vec<CodexAccount> = Vec::new();
    let mut i: usize = 0;
    let ghost all = account_views(managed@);
    assert(account_views(found@) =~= all.take(0));
    while i < managed.len()
        invariant
            i <= managed@.len(),
            all == account_views(managed@),
            account_views(found@) == all.take(i as int),
        decreases managed@.len() - i,
    {
        let ghost before = found@;
        found.push(managed[i].clone());
        assert(account_views(found@) =~= account_views(before).push(managed@[i as int]@));
        assert(all.take(i + 1) =~= all.take(i as int).push(all[i as int]));
        i += 1;
    }
    assert(all.take(i as int) =~= all);
    if let Some(a) = ambient {
        absorb_account(&mut found, a);
    }
    let ghost candidates = account_views(found@);
    let mut out = known_accounts(existing, managed);
    let ghost start = account_views(out@);
    let mut j: usize = 0;
    assert(candidates.take(0) =~= Seq::empty());
    while j < found.len()
        invariant
            j <= found@.len(),
            candidates == account_views(found@),
            account_views(out@) == extended(start, candidates.take(j as int)),
        decreases found@.len() - j,
    {
        assert(candidates.take(j + 1).drop_last() =~= candidates.take(j as int));
        assert(candidates.take(j + 1).last() == found@[j as int]@);
        if find_match(&out, &found[j]).is_none() {
            let ghost before = out@;
            out.push(found[j].clone());
            assert(account_views(out@) =~= account_views(before).push(found@[j as int]@));
        }
        j += 1;
    }
    assert(candidates.take(j as int) =~= candidates);
    out
}

/// Whether an owner has an account in a list.
pub open spec fn represented(accounts: Seq<AccountView>, who: AccountView) -> bool {
    exists|i: int| 0 <= i < accounts.len() && who.same_owner(#[trigger] accounts[i])
}

/// `first_match` finds an account of an owner exactly where there is one.
pub proof fn first_match_finds(accounts: Seq<AccountView>, who: AccountView, i: int)
    requires
        0 <= i <= accounts.len(),
    ensures
        match first_match(accounts, who, i) {
            Some(k) => i <= k < accounts.len() && who.same_owner(accounts[k]),
            None => forall|j: int|
                i <= j < accounts.len() ==> !who.same_owner(#[trigger] accounts[j]),
        },
    decreases accounts.len() - i,
{
    if i < accounts.len() && !who.same_owner(accounts[i]) {
        first_match_finds(accounts, who, i + 1);
    }
}

/// Extending a list keeps what is in it, in place, and leaves no candidate's owner without an
/// account.
pub proof fn extending_represents_everyone(
    accounts: Seq<AccountView>,
    candidates: Seq<AccountView>,
)
    ensures
        accounts.len() <= extended(accounts, candidates).len(),
        forall|i: int|
            0 <= i < accounts.len() ==> #[trigger] extended(accounts, candidates)[i] == accounts[i],
        forall|j: int|
            0 <= j < candidates.len() ==> represented(
                extended(accounts, candidates),
                #[trigger] candidates[j],
            ),
    decreases candidates.len(),
{
    if candidates.len() > 0 {
        let front = extended(accounts, candidates.drop_last());
        let r = extended(accounts, candidates);
        extending_represents_everyone(accounts, candidates.drop_last());
        first_match_finds(front, candidates.last(), 0);
        assert forall|j: int| 0 <= j < candidates.len() implies represented(
            r,
            #[trigger] candidates[j],
        ) by {
            if j < candidates.len() - 1 {
                assert(candidates.drop_last()[j] == candidates[j]);
                assert(represented(front, candidates.drop_last()[j]));
                let i = choose|i: int|
                    0 <= i < front.len() && candidates[j].same_owner(#[trigger] front[i]);
                assert(r[i] == front[i]);
            } else if first_match(front, candidates.last(), 0) is Some {
                let k = first_match(front, candidates.last(), 0)->0;
                assert(r[k] == front[k]);
            } else {
                same_owner_is_symmetric_and_reflexive(candidates.last(), candidates.last());
                assert(r[front.len() as int] == candidates.last());
            }
        }
        assert forall|i: int| 0 <= i < accounts.len() implies #[trigger] r[i] == accounts[i] by {
            assert(front[i] == accounts[i]);
        }
    }
}

/// Whoever was found has an account in the list: the owner of every account at a managed home,
/// and the owner of the one at the active home. Where the latter was merged into one of the
/// former, that is the owner of the two together. The stored accounts with files of their own
/// stand first, in their order.
pub proof fn nobody_found_is_left_out(
    existing: Seq<AccountView>,
    managed: Seq<AccountView>,
    ambient: Option<AccountView>,
)
    ensures
        ({
            let r = all_accounts(existing, managed, ambient);
            let k = known(existing, managed);
            let merged_into = match ambient {
                Some(a) => first_match(managed, a, 0),
                None => None,
            };
            &&& k.len() <= r.len()
            &&& forall|i: int| 0 <= i < k.len() ==> #[trigger] r[i] == k[i]
            &&& forall|j: int|
                0 <= j < managed.len() && merged_into != Some(j) ==> represented(
                    r,
                    #[trigger] managed[j],
                )
            &&& ambient is Some && merged_into is None ==> represented(r, ambient->0)
            &&& merged_into matches Some(j) ==> represented(r, managed[j].merged(ambient->0))
        }),
{
    let found = match ambient {
        Some(a) => absorbed(managed, a),
        None => managed,
    };
    let r = all_accounts(existing, managed, ambient);
    extending_represents_everyone(known(existing, managed), found);
    match ambient {
        Some(a) => {
            first_match_finds(managed, a, 0);
            let merged_into = first_match(managed, a, 0);
            assert forall|j: int| 0 <= j < managed.len() && merged_into != Some(j) implies represented(
                r,
                #[trigger] managed[j],
            ) by {
                assert(found[j] == managed[j]);
            }
            match merged_into {
                Some(j) => {
                    assert(found[j] == managed[j].merged(a));
                },
                None => {
                    assert(found[managed.len() as int] == a);
                },
            }
        },
        None => {},
    }
}

/// What is stored of the active home never comes back: every account among the known ones has
/// files of the application's own, unless what was found says otherwise.
pub proof fn known_accounts_own_their_files(existing: Seq<AccountView>, managed: Seq<AccountView>)
    requires
        forall|i: int| 0 <= i < managed.len() ==> (#[trigger] managed[i]).source.owned(),
    ensures
        forall|i: int|
            0 <= i < known(existing, managed).len() ==> (#[trigger] known(
                existing,
                managed,
            )[i]).source.owned(),
        known(existing, managed).len() <= existing.len(),
    decreases existing.len(),
{
    if existing.len() > 0 {
        known_accounts_own_their_files(existing.drop_last(), managed);
        first_match_finds(managed, existing.last(), 0);
        let front = known(existing.drop_last(), managed);
        let r = known(existing, managed);
        assert forall|i: int| 0 <= i < r.len() implies (#[trigger] r[i]).source.owned() by {
            if i < front.len() {
                assert(front[i] == r[i]);
            }
        }
    }
}

/// Where the account of an id stands, from place `i` on.
pub open spec fn account_with_id(accounts: Seq<AccountView>, id: Seq<char>, i: int) -> Option<int>
    decreases accounts.len() - i,
{
    if i >= accounts.len() {
        None
    } else if uuid_text(accounts[i].id) == id {
        Some(i)
    } else {
        account_with_id(accounts, id, i + 1)
    }
}

/// Finds the account of an id.
pub fn find_codex_account(accounts: &Vec<CodexAccount>, id: &str) -> (r: Result<usize, String>)
    ensures
        match r {
            Ok(k) => account_with_id(account_views(accounts@), id@, 0) == Some(k as int) && k
                < accounts@.len(),
            Err(e) => account_with_id(account_views(accounts@), id@, 0) is None && e@
                == NOT_FOUND@,
        },
{
    let ghost all = account_views(accounts@);
    let mut i: usize = 0;
    while i < accounts.len()
        invariant
            i <= accounts@.len(),
            all == account_views(accounts@),
            account_with_id(all, id@, 0) == account_with_id(all, id@, i as int),
        decreases accounts@.len() - i,
    {
        if same(write_uuid(accounts[i].id).as_str(), id) {
            return Ok(i);
        }
        i += 1;
    }
    Err(NOT_FOUND.to_owned())
}

/// The accounts of other ids.
pub open spec fn without_id(accounts: Seq<AccountView>, id: Seq<char>) -> Seq<AccountView>
    decreases accounts.len(),
{
    if accounts.len() == 0 {
        Seq::empty()
    } else if uuid_text(accounts.last().id) != id {
        without_id(accounts.drop_last(), id).push(accounts.last())
    } else {
        without_id(accounts.drop_last(), id)
    }
}

/// The accounts that are left when the one of an id is removed.
pub fn remaining_codex_accounts(accounts: &Vec<CodexAccount>, id: &str) -> (r: Vec<CodexAccount>)
    ensures
        account_views(r@) == without_id(account_views(accounts@), id@),
{
    let ghost all = account_views(accounts@);
    let mut out: Vec<CodexAccount> = Vec::new();
    let mut i: usize = 0;
    assert(all.take(0) =~= Seq::empty());
    assert(account_views(out@) =~= Seq::empty());
    while i < accounts.len()
        invariant
            i <= accounts@.len(),
            all == account_views(accounts@),
            account_views(out@) == without_id(all.take(i as int), id@),
        decreases accounts@.len() - i,
    {
        assert(all.take(i + 1).drop_last() =~= all.take(i as int));
        assert(all.take(i + 1).last() == accounts@[i as int]@);
        if !same(write_uuid(accounts[i].id).as_str(), id) {
            let ghost before = out@;
            out.push(accounts[i].clone());
            assert(account_views(out@) =~= account_views(before).push(accounts@[i as int]@));
        }
        i += 1;
    }
    assert(all.take(i as int) =~= all);
    out
}

/// Removing an account keeps exactly those of other ids.
pub proof fn removing_keeps_the_others(accounts: Seq<AccountView>, id: Seq<char>)
    ensures
        forall|a: AccountView| #[trigger]
            without_id(accounts, id).contains(a) <==> accounts.contains(a) && uuid_text(a.id) != id,
    decreases accounts.len(),
{
    if accounts.len() > 0 {
        let front = accounts.drop_last();
        let last = accounts.last();
        removing_keeps_the_others(front, id);
        let r = without_id(accounts, id);
        let k = without_id(front, id);
        assert forall|a: AccountView| #[trigger]
            r.contains(a) <==> accounts.contains(a) && uuid_text(a.id) != id by {
            assert(k.contains(a) <==> front.contains(a) && uuid_text(a.id) != id);
            if accounts.contains(a) {
                let j = accounts.index_of(a);
                if j < front.len() {
                    assert(front[j] == a);
                }
            }
            if front.contains(a) {
                let j = front.index_of(a);
                assert(accounts[j] == a);
            }
            if k.contains(a) {
                let j = k.index_of(a);
                assert(r[j] == a);
            }
            if uuid_text(last.id) != id {
                assert(r[k.len() as int] == last);
                if r.contains(a) {
                    let j = r.index_of(a);
                    if j < k.len() {
                        assert(k[j] == a);
                    }
                }
            }
            assert(accounts[accounts.len() - 1] == last);
        }
    }
}

/// The usage of accounts after what was fetched has been taken in. Where nothing was fetched,
/// what was known stays.
pub open spec fn taken_in(
    snapshots: Map<u128, AccountUsageSnapshot>,
    fetched: Seq<Option<(u128, AccountUsageSnapshot)>>,
) -> Map<u128, AccountUsageSnapshot>
    decreases fetched.len(),
{
    if fetched.len() == 0 {
        snapshots
    } else {
        let before = taken_in(snapshots, fetched.drop_last());
        match fetched.last() {
            Some((id, snapshot)) => before.insert(id, snapshot),
            None => before,
        }
    }
}

/// Takes in what was fetched of the usage of accounts.
pub fn take_in_snapshots(
    snapshots: &mut HashMap<u128, AccountUsageSnapshot>,
    fetched: Vec<Option<(u128, AccountUsageSnapshot)>>,
)
    ensures
        final(snapshots)@ == taken_in(old(snapshots)@, fetched@),
{
    broadcast use vstd::std_specs::hash::group_hash_axioms;

    let ghost all = fetched@;
    let ghost start = snapshots@;
    let ghost mut n: int = 0;
    let mut rest = fetched;
    assert(all.take(0) =~= Seq::empty());
    assert(all.skip(0) =~= all);
    while rest.len() > 0
        invariant
            0 <= n <= all.len(),
            rest@ == all.skip(n),
            snapshots@ == taken_in(start, all.take(n)),
        decreases rest@.len(),
    {
        assert(all.take(n + 1).drop_last() =~= all.take(n));
        assert(all.take(n + 1).last() == all.skip(n)[0]);
        let next = rest.remove(0);
        assert(rest@ =~= all.skip(n + 1));
        if let Some((id, snapshot)) = next {
            snapshots.insert(id, snapshot);
        }
        proof {
            n = n + 1;
        }
    }
    assert(all.take(n) =~= all);
}

/// An account whose fetch failed keeps what was known of it.
pub proof fn failed_fetch_keeps_the_last_snapshot(
    snapshots: Map<u128, AccountUsageSnapshot>,
    fetched: Seq<Option<(u128, AccountUsageSnapshot)>>,
    id: u128,
)
    requires
        forall|i: int|
            0 <= i < fetched.len() ==> ((#[trigger] fetched[i]) matches Some(pair) ==> pair.0
                != id),
    ensures
        taken_in(snapshots, fetched).contains_key(id) == snapshots.contains_key(id),
        snapshots.contains_key(id) ==> taken_in(snapshots, fetched)[id] == snapshots[id],
    decreases fetched.len(),
{
    if fetched.len() > 0 {
        assert forall|i: int| 0 <= i < fetched.drop_last().len() implies ((
        #[trigger] fetched.drop_last()[i]) matches Some(pair) ==> pair.0 != id) by {
            assert(fetched.drop_last()[i] == fetched[i]);
        }
        failed_fetch_keeps_the_last_snapshot(snapshots, fetched.drop_last(), id);
        assert(fetched[fetched.len() - 1] == fetched.last());
    }
}

/// An error of an account as the user is told.
pub fn into_user_message(error: &CodexAccountManagerError) -> (r: String)
    ensures
        r@ == error.text(),
{
    error.to_text()
}

/// An error of the usage interface as the user is told.
pub fn into_api_message(error: &CodexApiError) -> (r: String)
    ensures
        r@ == api_text(error@),
{
    error.to_text()
}

/// An account is merged into the first one of its owner, and stands at the end where its owner has
/// none; the other accounts stay as they are and where they are.
pub proof fn an_account_is_absorbed_by_its_owner(accounts: Seq<AccountView>, a: AccountView, j: int)
    ensures
        ({
            let r = absorbed(accounts, a);
            let at = first_match(accounts, a, 0);
            &&& at is None ==> r.len() == accounts.len() + 1 && r.last() == a
            &&& at is Some ==> r.len() == accounts.len() && r[at->Some_0]
                == accounts[at->Some_0].merged(a)
            &&& 0 <= j < accounts.len() && at != Some(j) ==> r[j] == accounts[j]
            &&& at matches Some(k) ==> r[k].id == accounts[k].id && a.same_owner(accounts[k])
        }),
{
    first_match_finds(accounts, a, 0);
}

/// Of what is stored, exactly the accounts with files of the application's own stay, in their order,
/// each with what was found of its owner merged in: number and time of creation stay.
pub proof fn owned_accounts_stay(existing: Seq<AccountView>, last: AccountView, managed: Seq<AccountView>)
    ensures
        known(Seq::empty(), managed).len() == 0,
        last.source == CodexAccountSource::Ambient ==> known(existing.push(last), managed) == known(
            existing,
            managed,
        ),
        last.source == CodexAccountSource::ManagedByApp ==> {
            let r = known(existing.push(last), managed);
            &&& r.len() == known(existing, managed).len() + 1
            &&& r.drop_last() == known(existing, managed)
            &&& r.last().id == last.id
            &&& r.last().created_at == last.created_at
            &&& first_match(managed, last, 0) is None ==> r.last() == last
            &&& first_match(managed, last, 0) matches Some(k) ==> r.last() == last.merged(
                managed[k],
            )
        },
{
    assert(existing.push(last).drop_last() =~= existing);
    assert(known(existing, managed).push(refreshed(last, managed)).drop_last() =~= known(
        existing,
        managed,
    ));
}

/// Only candidates are added, and none whose owner has an account already.
pub proof fn only_new_owners_are_added(
    accounts: Seq<AccountView>,
    candidates: Seq<AccountView>,
    last: AccountView,
)
    ensures
        extended(accounts, Seq::empty()) == accounts,
        ({
            let before = extended(accounts, candidates);
            let after = extended(accounts, candidates.push(last));
            &&& represented(before, last) ==> after == before
            &&& !represented(before, last) ==> after == before.push(last)
        }),
{
    assert(candidates.push(last).drop_last() =~= candidates);
    let before = extended(accounts, candidates);
    first_match_finds(before, last, 0);
}

/// An account is found by the text of its number: the first with that number, and none where none
/// has it.
pub proof fn an_account_is_found_by_its_number(accounts: Seq<AccountView>, id: Seq<char>, i: int)
    requires
        0 <= i,
    ensures
        match account_with_id(accounts, id, i) {
            Some(k) => i <= k < accounts.len() && uuid_text(accounts[k].id) == id && forall|j: int|
                i <= j < k ==> uuid_text((#[trigger] accounts[j]).id) != id,
            None => forall|j: int|
                i <= j < accounts.len() ==> uuid_text((#[trigger] accounts[j]).id) != id,
        },
    decreases accounts.len() - i,
{
    if i < accounts.len() && uuid_text(accounts[i].id) != id {
        an_account_is_found_by_its_number(accounts, id, i + 1);
    }
}

/// What was fetched last of an account is what is known of it.
pub proof fn what_was_fetched_is_known(
    snapshots: Map<u128, AccountUsageSnapshot>,
    fetched: Seq<Option<(u128, AccountUsageSnapshot)>>,
    k: int,
    id: u128,
    snapshot: AccountUsageSnapshot,
)
    requires
        0 <= k < fetched.len(),
        fetched[k] == Some((id, snapshot)),
        forall|i: int|
            k < i < fetched.len() ==> ((#[trigger] fetched[i]) matches Some(pair) ==> pair.0 != id),
    ensures
        taken_in(snapshots, fetched).contains_key(id),
        taken_in(snapshots, fetched)[id] == snapshot,
    decreases fetched.len(),
{
    if k < fetched.len() - 1 {
        let front = fetched.drop_last();
        assert(fetched[fetched.len() - 1] == fetched.last());
        assert forall|i: int| k < i < front.len() implies ((#[trigger] front[i]) matches Some(pair)
            ==> pair.0 != id) by {
            assert(front[i] == fetched[i]);
        }
        what_was_fetched_is_known(snapshots, front, k, id, snapshot);
    }
}

} // verus!
