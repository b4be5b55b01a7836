//! Which fetches of usage wait for each other, and whose credentials they use.

use vstd::prelude::*;
use crate::codex_accounts::account_manager::{candidate, candidate_account_at};
use crate::codex_accounts::api::AuthBackedIdentity;
use crate::codex_accounts::models::{AccountView, CodexAccount, CodexAccountSource, HomePath};
use crate::moment::Moment;
use crate::text::{same, views};

verus! {

/// The lanes of fetches, by the resolved path of the credentials that a lane guards. Fetches
/// in one lane wait for each other.
#[derive(Debug)]
pub struct LaneTable {
    pub paths: Vec<String>,
}

/// Where a fetch goes: the positions of the lanes that were kept, the position of its own
/// lane among those, and whether that lane is new and stands behind them.
#[derive(Debug)]
pub struct LaneChoice {
    pub kept: Vec<usize>,
    pub lane: usize,
    pub is_new: bool,
}

/// Whether somebody still holds lane `i`.
pub open spec fn is_live(live: Seq<bool>, i: int) -> bool {
    0 <= i < live.len() && live[i]
}

/// The positions of the first `k` lanes that somebody still holds.
pub open spec fn live_places(live: Seq<bool>, k: int) -> Seq<usize>
    decreases k,
{
    if k <= 0 {
        Seq::empty()
    } else if is_live(live, k - 1) {
        live_places(live, k - 1).push((k - 1) as usize)
    } else {
        live_places(live, k - 1)
    }
}

/// The paths of the first `k` lanes that somebody still holds.
pub open spec fn live_paths(paths: Seq<Seq<char>>, live: Seq<bool>, k: int) -> Seq<Seq<char>>
    decreases k,
{
    if k <= 0 {
        Seq::empty()
    } else if is_live(live, k - 1) {
        live_paths(paths, live, k - 1).push(paths[k - 1])
    } else {
        live_paths(paths, live, k - 1)
    }
}

/// What is left of lanes that differ still differs.
proof fn lemma_live_paths_differ(paths: Seq<Seq<char>>, live: Seq<bool>, k: int)
    requires
        0 <= k <= paths.len(),
        paths.no_duplicates(),
    ensures
        live_paths(paths, live, k).no_duplicates(),
        forall|p: Seq<char>| #[trigger]
            live_paths(paths, live, k).contains(p) ==> exists|i: int|
                0 <= i < k && is_live(live, i) && #[trigger] paths[i] == p,
    decreases k,
{
    if k > 0 {
        lemma_live_paths_differ(paths, live, k - 1);
        let before = live_paths(paths, live, k - 1);
        let after = live_paths(paths, live, k);
        if is_live(live, k - 1) {
            assert(!before.contains(paths[k - 1]));
            assert forall|a: int, b: int| 0 <= a < after.len() && 0 <= b < after.len() && a
                != b implies after[a] != after[b] by {
                if a < before.len() {
                    assert(before.contains(before[a]));
                }
                if b < before.len() {
                    assert(before.contains(before[b]));
                }
            }
            assert forall|p: Seq<char>| #[trigger] after.contains(p) implies exists|i: int|
                0 <= i < k && is_live(live, i) && #[trigger] paths[i] == p by {
                let a = choose|a: int| 0 <= a < after.len() && after[a] == p;
                if a < before.len() {
                    assert(before.contains(p));
                } else {
                    assert(paths[k - 1] == p);
                }
            }
        }
    }
}

/// A lane that somebody still holds is kept.
proof fn lemma_live_path_stays(paths: Seq<Seq<char>>, live: Seq<bool>, k: int, i: int)
    requires
        0 <= i < k <= paths.len(),
        is_live(live, i),
    ensures
        live_paths(paths, live, k).contains(paths[i]),
    decreases k,
{
    let before = live_paths(paths, live, k - 1);
    let after = live_paths(paths, live, k);
    if i == k - 1 {
        assert(after.last() == paths[i]);
    } else {
        lemma_live_path_stays(paths, live, k - 1, i);
        let a = before.index_of(paths[i]);
        assert(after[a] == paths[i]);
    }
}

/// The lanes after a fetch for `path` has found its own.
pub open spec fn lanes_with(paths: Seq<Seq<char>>, live: Seq<bool>, path: Seq<char>) -> Seq<
    Seq<char>,
> {
    let kept = live_paths(paths, live, paths.len() as int);
    if kept.contains(path) {
        kept
    } else {
        kept.push(path)
    }
}

impl LaneTable {
    /// No path has two lanes.
    pub open spec fn wf(self) -> bool {
        views(self.paths@).no_duplicates()
    }

    /// No fetch is under way.
    pub fn new() -> (r: LaneTable)
        ensures
            r.wf(),
            r.paths@ == Seq::<String>::empty(),
    {
        LaneTable { paths: Vec::new() }
    }

    /// The lane of a fetch. Lanes that nobody holds any more are dropped; the lane for the path
    /// is used where there is one, else it is made.
    pub fn credential_lane(&mut self, live: &Vec<bool>, path: &str) -> (r: LaneChoice)
        requires
            old(self).wf(),
        ensures
            final(self).wf(),
            views(final(self).paths@) == lanes_with(views(old(self).paths@), live@, path@),
            r.kept@ == live_places(live@, old(self).paths@.len() as int),
            r.lane < final(self).paths@.len(),
            final(self).paths@[r.lane as int]@ == path@,
            r.is_new <==> !live_paths(
                views(old(self).paths@),
                live@,
                old(self).paths@.len() as int,
            ).contains(path@),
    {
        let ghost all = views(self.paths@);
        let n = self.paths.len();
        let mut kept: Vec<usize> = Vec::new();
        let mut paths: Vec<String> = Vec::new();
        let mut i: usize = 0;
        while i < n
            invariant
                n == self.paths@.len(),
                i <= n,
                all == views(self.paths@),
                kept@ == live_places(live@, i as int),
                views(paths@) == live_paths(all, live@, i as int),
            decreases n - i,
        {
            if i < live.len() && live[i] {
                let ghost before = paths@;
                paths.push(self.paths[i].clone());
                kept.push(i);
                assert(views(paths@) =~= views(before).push(all[i as int]));
            }
            i += 1;
        }
        proof {
            lemma_live_paths_differ(all, live@, n as int);
        }
        let ghost left = live_paths(all, live@, n as int);
        let mut lane: usize = 0;
        while lane < paths.len()
            invariant
                lane <= paths@.len(),
                views(paths@) == left,
                forall|j: int| 0 <= j < lane ==> (#[trigger] left[j]) != path@,
            ensures
                lane <= paths@.len(),
                lane < paths@.len() ==> paths@[lane as int]@ == path@,
                lane == paths@.len() ==> forall|j: int|
                    0 <= j < paths@.len() ==> (#[trigger] left[j]) != path@,
            decreases paths@.len() - lane,
        {
            assert(left[lane as int] == paths@[lane as int]@);
            if same(paths[lane].as_str(), path) {
                break;
            }
            lane += 1;
        }
        let is_new = lane == paths.len();
        if is_new {
            assert(!left.contains(path@));
            let ghost before = paths@;
            paths.push(path.to_owned());
            assert(views(paths@) =~= views(before).push(path@));
        } else {
            assert(left.contains(left[lane as int]));
        }
        self.paths = paths;
        LaneChoice { kept, lane, is_new }
    }
}

/// Fetches for one path share a lane as long as somebody holds it: where a lane for the path
/// is held, none is added.
pub proof fn held_lanes_are_shared(paths: Seq<Seq<char>>, live: Seq<bool>, i: int)
    requires
        0 <= i < paths.len(),
        is_live(live, i),
    ensures
        lanes_with(paths, live, paths[i]) == live_paths(paths, live, paths.len() as int),
        lanes_with(paths, live, paths[i]).contains(paths[i]),
{
    lemma_live_path_stays(paths, live, paths.len() as int, i);
}

/// Fetches for other paths keep their lanes: a lane that is held outlives the search for any
/// path.
pub proof fn held_lanes_stay(paths: Seq<Seq<char>>, live: Seq<bool>, path: Seq<char>, i: int)
    requires
        0 <= i < paths.len(),
        is_live(live, i),
    ensures
        lanes_with(paths, live, path).contains(paths[i]),
{
    lemma_live_path_stays(paths, live, paths.len() as int, i);
    let kept = live_paths(paths, live, paths.len() as int);
    let a = kept.index_of(paths[i]);
    assert(kept.push(path)[a] == paths[i]);
}

/// The home whose credentials a fetch uses, and the home that holds a copy of them.
#[derive(Debug)]
pub struct FetchPlan {
    pub home: HomePath,
    pub managed_copy: Option<HomePath>,
}

/// Whether the account found at a home is the active one.
pub open spec fn is_active_copy(target: AccountView, ambient: Option<AccountView>) -> bool {
    ambient matches Some(a) && a.same_owner(target)
}

/// Whose credentials a fetch for the account at `home` uses. The active home's, where the
/// account is the active one: its credentials are the ones that are renewed, and `home` only
/// holds a copy of them.
pub fn plan_fetch(
    identity: &AuthBackedIdentity,
    home: &HomePath,
    ambient: Option<&CodexAccount>,
) -> (r: FetchPlan)
    ensures
        ({
            let target = candidate(
                identity@,
                home@,
                CodexAccountSource::ManagedByApp,
                0,
                (Moment { secs: 0, nanos: 0 }),
            );
            let active = match ambient {
                Some(a) => Some(a@),
                None => None,
            };
            if is_active_copy(target, active) {
                r.home@ == active->0.home && r.managed_copy is Some && r.managed_copy->0@ == home@
            } else {
                r.home@ == home@ && r.managed_copy is None
            }
        }),
{
    let nowhere = Moment { secs: 0, nanos: 0 };
    let target = candidate_account_at(identity, home, CodexAccountSource::ManagedByApp, 0, nowhere);
    match ambient {
        Some(a) => {
            if a.matches(&target) {
                return FetchPlan {
                    home: a.codex_home_path.clone(),
                    managed_copy: Some(home.clone()),
                };
            }
        },
        None => {},
    }
    FetchPlan { home: home.clone(), managed_copy: None }
}

/// A step of a fetch in its lane.
#[derive(Clone, Copy, Debug, PartialEq, Eq, Structural)]
pub enum HomeStep {
    /// Bring the two copies of the credentials together. Where it fails, the fetch goes on.
    Synchronize,
    /// Fetch the usage. What comes of it is what the whole comes to.
    Fetch,
}

/// The steps of a fetch in its lane, each taken whatever the one before came to.
pub open spec fn home_steps(has_copy: bool) -> Seq<HomeStep> {
    if has_copy {
        seq![HomeStep::Synchronize, HomeStep::Fetch, HomeStep::Synchronize]
    } else {
        seq![HomeStep::Fetch]
    }
}

/// The steps of a fetch in its lane. A fetch can renew the credentials also where it fails, so
/// the copies are brought together on both sides of it.
pub fn home_fetch_steps(has_copy: bool) -> (r: Vec<HomeStep>)
    ensures
        r@ == home_steps(has_copy),
{
    let mut out: Vec<HomeStep> = Vec::new();
    if has_copy {
        out.push(HomeStep::Synchronize);
    }
    out.push(HomeStep::Fetch);
    if has_copy {
        out.push(HomeStep::Synchronize);
    }
    assert(out@ =~= home_steps(has_copy));
    out
}

/// A copy is never older than the last fetch: every fetch that has a copy is followed by a
/// step that brings the two together, and preceded by one.
pub proof fn copies_follow_every_fetch(i: int)
    requires
        0 <= i < home_steps(true).len(),
        home_steps(true)[i] == HomeStep::Fetch,
    ensures
        0 < i < home_steps(true).len() - 1,
        home_steps(true)[i - 1] == HomeStep::Synchronize,
        home_steps(true)[i + 1] == HomeStep::Synchronize,
{
}

/// The lanes that are kept are exactly those that somebody holds.
pub proof fn exactly_the_held_lanes_are_kept(live: Seq<bool>, k: int, i: int)
    requires
        0 <= k <= usize::MAX,
        0 <= i <= usize::MAX,
    ensures
        live_places(live, k).contains(i as usize) <==> i < k && i < live.len() && live[i],
        live_places(live, k).len() <= k,
    decreases k,
{
    if k > 0 {
        exactly_the_held_lanes_are_kept(live, k - 1, i);
        let rest = live_places(live, k - 1);
        let all = live_places(live, k);
        if rest.contains(i as usize) {
            let p = rest.index_of(i as usize);
            assert(all[p] == i as usize);
        }
        if all.contains(i as usize) {
            let p = all.index_of(i as usize);
            if p < rest.len() {
                assert(rest[p] == i as usize);
            }
        }
        if i == k - 1 && is_live(live, i) {
            assert(all.last() == i as usize);
            assert(all.contains(i as usize));
        }
    }
}

/// A fetch has a lane for its path afterwards, and no other lane is added.
pub proof fn a_fetch_has_its_lane(paths: Seq<Seq<char>>, live: Seq<bool>, path: Seq<char>)
    ensures
        lanes_with(paths, live, path).contains(path),
        forall|p: Seq<char>| #[trigger]
            lanes_with(paths, live, path).contains(p) ==> p == path || live_paths(
                paths,
                live,
                paths.len() as int,
            ).contains(p),
{
    let kept = live_paths(paths, live, paths.len() as int);
    let all = lanes_with(paths, live, path);
    if !kept.contains(path) {
        assert(all.last() == path);
    }
    assert forall|p: Seq<char>| #[trigger] all.contains(p) implies p == path || kept.contains(p) by {
        let i = all.index_of(p);
        if i < kept.len() {
            assert(kept[i] == p);
        }
    }
}

/// Usage of the active account is fetched with the active credentials, and its home then holds a
/// copy; usage of any other account is fetched with its own.
pub proof fn the_active_account_is_fetched_from_the_active_home(
    identity: &AuthBackedIdentity,
    home: &HomePath,
    ambient: Option<&CodexAccount>,
    r: FetchPlan,
)
    requires
        call_ensures(plan_fetch, (identity, home, ambient), r),
    ensures
        ambient is None ==> r.home@ == home@ && r.managed_copy is None,
        r.managed_copy is Some ==> ambient is Some && r.home@ == ambient->Some_0@.home
            && r.managed_copy->Some_0@ == home@,
        r.managed_copy is None ==> r.home@ == home@,
        ambient matches Some(a) ==> (r.managed_copy is Some <==> a@.same_owner(
            candidate(
                identity@,
                home@,
                CodexAccountSource::ManagedByApp,
                0,
                (Moment { secs: 0, nanos: 0 }),
            ),
        )),
{
}

/// Usage is fetched once, with or without a copy; without one nothing is brought together.
pub proof fn usage_is_fetched_once(has_copy: bool, i: int, j: int)
    requires
        0 <= i < home_steps(has_copy).len(),
        0 <= j < home_steps(has_copy).len(),
    ensures
        home_steps(has_copy).contains(HomeStep::Fetch),
        home_steps(has_copy)[i] == HomeStep::Fetch && home_steps(has_copy)[j] == HomeStep::Fetch
            ==> i == j,
        !has_copy ==> home_steps(has_copy).len() == 1,
{
    assert(home_steps(true)[1] == HomeStep::Fetch);
    assert(home_steps(false)[0] == HomeStep::Fetch);
}

} // verus!
