//! The refresh of providers: one batch at a time, and what is kept of its results.

use vstd::prelude::*;
use vstd::string::StringExecFns;
use crate::moment::Moment;
use crate::outside::{clock, is_reading, parse_rfc3339, rfc3339_moment};
use crate::snapshot::{failed_usage, usages, window_seen, Provider, ProviderId, ProviderStateKind, ProviderUsageSnapshot, RateWindowSnapshot, UsageView, WindowView};
use crate::text::{ascii_lower, borrow_text, concat3, contains, copy_text, either, glimpsed, has_part, same, to_ascii_lower, views};

verus! {

/// How often providers failed in passing, one number for each provider that did.
#[derive(Debug)]
pub struct FailureCounts {
    pub entries: Vec<(ProviderId, u32)>,
}

/// The number that counts for a provider: the last one.
pub open spec fn count_in(entries: Seq<(ProviderId, u32)>, id: ProviderId) -> Option<u32>
    decreases entries.len(),
{
    if entries.len() == 0 {
        None
    } else if entries.last().0 == id {
        Some(entries.last().1)
    } else {
        count_in(entries.drop_last(), id)
    }
}

impl FailureCounts {
    /// How often a provider failed in passing, where it did.
    pub open spec fn count(self, id: ProviderId) -> Option<u32> {
        count_in(self.entries@, id)
    }

    /// No provider has failed.
    pub fn new() -> (r: FailureCounts)
        ensures
            forall|k: ProviderId| #[trigger] r.count(k) is None,
    {
        FailureCounts { entries: Vec::new() }
    }

    /// How often a provider failed in passing, where it did.
    pub fn get(&self, id: ProviderId) -> (r: Option<u32>)
        ensures
            r == self.count(id),
    {
        let mut n: usize = self.entries.len();
        assert(self.entries@.take(n as int) =~= self.entries@);
        while n > 0
            invariant
                n <= self.entries@.len(),
                self.count(id) == count_in(self.entries@.take(n as int), id),
            decreases n,
        {
            assert(self.entries@.take(n as int).drop_last() =~= self.entries@.take(n - 1));
            if self.entries[n - 1].0 == id {
                return Some(self.entries[n - 1].1);
            }
            n -= 1;
        }
        None
    }

    /// Forgets a provider.
    pub fn remove(&mut self, id: ProviderId)
        ensures
            forall|k: ProviderId| #[trigger]
                final(self).count(k) == (if k == id {
                    None
                } else {
                    old(self).count(k)
                }),
    {
        let mut out: Vec<(ProviderId, u32)> = Vec::new();
        let ghost all = self.entries@;
        let mut i: usize = 0;
        assert(all.take(0) =~= Seq::empty());
        while i < self.entries.len()
            invariant
                i <= self.entries@.len(),
                all == self.entries@,
                forall|k: ProviderId| #[trigger]
                    count_in(out@, k) == (if k == id {
                        None
                    } else {
                        count_in(all.take(i as int), k)
                    }),
            decreases self.entries@.len() - i,
        {
            let e = self.entries[i];
            let ghost before = out@;
            assert(all.take(i + 1).drop_last() =~= all.take(i as int));
            if e.0 != id {
                out.push(e);
                assert(out@.drop_last() =~= before);
            }
            assert forall|k: ProviderId| #[trigger]
                count_in(out@, k) == (if k == id {
                    None
                } else {
                    count_in(all.take(i + 1), k)
                }) by {
                assert(count_in(before, k) == if k == id {
                    None
                } else {
                    count_in(all.take(i as int), k)
                });
            }
            i += 1;
        }
        assert(all.take(i as int) =~= all);
        self.entries = out;
    }

    /// Sets the number of a provider.
    pub fn put(&mut self, id: ProviderId, count: u32)
        ensures
            forall|k: ProviderId| #[trigger]
                final(self).count(k) == (if k == id {
                    Some(count)
                } else {
                    old(self).count(k)
                }),
    {
        self.remove(id);
        let ghost before = self.entries@;
        let ghost kept = *self;
        self.entries.push((id, count));
        assert(self.entries@.drop_last() =~= before);
        assert forall|k: ProviderId| k != id implies #[trigger] self.count(k) == kept.count(k) by {
        }
    }

    /// Forgets every provider but those named.
    pub fn retain(&mut self, enabled: &Vec<Provider>)
        ensures
            forall|k: ProviderId| #[trigger]
                final(self).count(k) == (if lists_id(enabled@, k) {
                    old(self).count(k)
                } else {
                    None
                }),
    {
        let mut out: Vec<(ProviderId, u32)> = Vec::new();
        let ghost all = self.entries@;
        let mut i: usize = 0;
        assert(all.take(0) =~= Seq::empty());
        while i < self.entries.len()
            invariant
                i <= self.entries@.len(),
                all == self.entries@,
                forall|k: ProviderId| #[trigger]
                    count_in(out@, k) == (if lists_id(enabled@, k) {
                        count_in(all.take(i as int), k)
                    } else {
                        None
                    }),
            decreases self.entries@.len() - i,
        {
            let e = self.entries[i];
            let ghost before = out@;
            assert(all.take(i + 1).drop_last() =~= all.take(i as int));
            if is_listed(enabled, e.0) {
                out.push(e);
                assert(out@.drop_last() =~= before);
            }
            assert forall|k: ProviderId| #[trigger]
                count_in(out@, k) == (if lists_id(enabled@, k) {
                    count_in(all.take(i + 1), k)
                } else {
                    None
                }) by {
                assert(count_in(before, k) == if lists_id(enabled@, k) {
                    count_in(all.take(i as int), k)
                } else {
                    None
                });
            }
            i += 1;
        }
        assert(all.take(i as int) =~= all);
        self.entries = out;
    }
}

/// Whether a provider is in a list.
pub open spec fn lists_id(providers: Seq<Provider>, id: ProviderId) -> bool {
    exists|i: int| 0 <= i < providers.len() && (#[trigger] providers[i]).id == id
}

/// Whether a provider is in a list.
pub fn is_listed(providers: &Vec<Provider>, id: ProviderId) -> (r: bool)
    ensures
        r == lists_id(providers@, id),
{
    let mut i: usize = 0;
    while i < providers.len()
        invariant
            i <= providers@.len(),
            forall|j: int| 0 <= j < i ==> (#[trigger] providers@[j]).id != id,
        decreases providers@.len() - i,
    {
        if providers[i].id == id {
            return true;
        }
        i += 1;
    }
    false
}

/// Whether a provider of that name is in a list.
pub open spec fn lists_name(providers: Seq<Provider>, name: Seq<char>) -> bool {
    exists|i: int| 0 <= i < providers.len() && (#[trigger] providers[i]).cli_name@ == name
}

/// Whether a provider of that name is in a list.
pub fn is_name_listed(providers: &Vec<Provider>, name: &str) -> (r: bool)
    ensures
        r == lists_name(providers@, name@),
{
    let mut i: usize = 0;
    while i < providers.len()
        invariant
            i <= providers@.len(),
            forall|j: int| 0 <= j < i ==> (#[trigger] providers@[j]).cli_name@ != name@,
        decreases providers@.len() - i,
    {
        if same(providers[i].cli_name.as_str(), name) {
            return true;
        }
        i += 1;
    }
    false
}

/// Where the first snapshot of a provider stands, from place `i` on.
pub open spec fn cached_at(cache: Seq<UsageView>, name: Seq<char>, i: int) -> Option<int>
    decreases cache.len() - i,
{
    if i >= cache.len() {
        None
    } else if cache[i].provider_id == name {
        Some(i)
    } else {
        cached_at(cache, name, i + 1)
    }
}

/// The cache with a snapshot in the place of the provider's former one, else at the end.
pub open spec fn upserted(cache: Seq<UsageView>, s: UsageView) -> Seq<UsageView> {
    match cached_at(cache, s.provider_id, 0) {
        Some(k) => cache.update(k, s),
        None => cache.push(s),
    }
}

/// Puts a snapshot in the place of the provider's former one, else at the end.
pub fn upsert_provider_cache(
    cache: &mut Vec<ProviderUsageSnapshot>,
    snapshot: ProviderUsageSnapshot,
)
    ensures
        usages(final(cache)@) == upserted(usages(old(cache)@), snapshot@),
{
    let ghost all = usages(cache@);
    let mut i: usize = 0;
    while i < cache.len()
        invariant
            i <= cache@.len(),
            all == usages(cache@),
            all == usages(old(cache)@),
            cached_at(all, snapshot@.provider_id, 0) == cached_at(
                all,
                snapshot@.provider_id,
                i as int,
            ),
        decreases cache@.len() - i,
    {
        assert(all[i as int] == cache@[i as int]@);
        if same(cache[i].provider_id.as_str(), snapshot.provider_id.as_str()) {
            cache.set(i, snapshot);
            assert(usages(cache@) =~= all.update(i as int, snapshot@));
            return;
        }
        i += 1;
    }
    cache.push(snapshot);
    assert(usages(cache@) =~= all.push(snapshot@));
}

/// The snapshots of listed providers.
pub open spec fn kept(cache: Seq<UsageView>, enabled: Seq<Provider>) -> Seq<UsageView>
    decreases cache.len(),
{
    if cache.len() == 0 {
        Seq::empty()
    } else if lists_name(enabled, cache.last().provider_id) {
        kept(cache.drop_last(), enabled).push(cache.last())
    } else {
        kept(cache.drop_last(), enabled)
    }
}

/// Drops the snapshots of providers that are not enabled.
pub fn prune_provider_cache_to_enabled(
    cache: &mut Vec<ProviderUsageSnapshot>,
    enabled: &Vec<Provider>,
)
    ensures
        usages(final(cache)@) == kept(usages(old(cache)@), enabled@),
{
    let ghost all = usages(cache@);
    let ghost mut j: int = 0;
    let mut i: usize = 0;
    assert(all.take(0) =~= Seq::empty());
    assert(all.skip(0) =~= all);
    assert(usages(cache@) =~= kept(all.take(0), enabled@) + all.skip(0));
    while i < cache.len()
        invariant
            0 <= j <= all.len(),
            i == kept(all.take(j), enabled@).len(),
            usages(cache@) == kept(all.take(j), enabled@) + all.skip(j),
        decreases cache@.len() - i,
    {
        let ghost head = kept(all.take(j), enabled@);
        let ghost now = usages(cache@);
        assert(now[i as int] == cache@[i as int]@);
        assert(j < all.len());
        assert(now[i as int] == all.skip(j)[0]);
        assert(all.take(j + 1).drop_last() =~= all.take(j));
        assert(all.take(j + 1).last() == all[j]);
        if is_name_listed(enabled, cache[i].provider_id.as_str()) {
            assert(now =~= head.push(all[j]) + all.skip(j + 1));
            i += 1;
        } else {
            cache.remove(i);
            assert(usages(cache@) =~= now.remove(i as int));
            assert(now.remove(i as int) =~= head + all.skip(j + 1));
        }
        proof {
            j = j + 1;
        }
    }
    assert(j == all.len());
    assert(all.take(j) =~= all);
    assert(usages(cache@) =~= kept(all, enabled@));
}

/// The snapshots of every provider but one.
pub open spec fn without(cache: Seq<UsageView>, name: Seq<char>) -> Seq<UsageView>
    decreases cache.len(),
{
    if cache.len() == 0 {
        Seq::empty()
    } else if cache.last().provider_id != name {
        without(cache.drop_last(), name).push(cache.last())
    } else {
        without(cache.drop_last(), name)
    }
}

fn drop_provider(cache: &mut Vec<ProviderUsageSnapshot>, name: &str)
    ensures
        usages(final(cache)@) == without(usages(old(cache)@), name@),
{
    let ghost all = usages(cache@);
    let ghost mut j: int = 0;
    let mut i: usize = 0;
    assert(all.take(0) =~= Seq::empty());
    assert(all.skip(0) =~= all);
    assert(usages(cache@) =~= without(all.take(0), name@) + all.skip(0));
    while i < cache.len()
        invariant
            0 <= j <= all.len(),
            i == without(all.take(j), name@).len(),
            usages(cache@) == without(all.take(j), name@) + all.skip(j),
        decreases cache@.len() - i,
    {
        let ghost head = without(all.take(j), name@);
        let ghost now = usages(cache@);
        assert(now[i as int] == cache@[i as int]@);
        assert(j < all.len());
        assert(now[i as int] == all.skip(j)[0]);
        assert(all.take(j + 1).drop_last() =~= all.take(j));
        assert(all.take(j + 1).last() == all[j]);
        if !same(cache[i].provider_id.as_str(), name) {
            assert(now =~= head.push(all[j]) + all.skip(j + 1));
            i += 1;
        } else {
            cache.remove(i);
            assert(usages(cache@) =~= now.remove(i as int));
            assert(now.remove(i as int) =~= head + all.skip(j + 1));
        }
        proof {
            j = j + 1;
        }
    }
    assert(j == all.len());
    assert(all.take(j) =~= all);
    assert(usages(cache@) =~= without(all, name@));
}

/// Whether an error says that the login was not accepted just now.
pub open spec fn auth_wavers(error: Option<Seq<char>>) -> bool {
    error is Some && {
        let lower = ascii_lower(error->0);
        has_part(lower, "unauthorized"@)
        || has_part(lower, "authentication required"@)
        || has_part(lower, "auth required"@)
    }
}

/// Whether an error says that the login was not accepted just now.
pub fn is_transient_claude_auth_error(error: Option<&str>) -> (r: bool)
    ensures
        r == auth_wavers(glimpsed(error)),
{
    match error {
        None => false,
        Some(e) => {
            let lower = to_ascii_lower(e);
            contains(lower.as_str(), "unauthorized")
                || contains(lower.as_str(), "authentication required")
                || contains(lower.as_str(), "auth required")
        },
    }
}

/// Whether an error says that there is no login, or no subscription. `command` starts the tool.
pub open spec fn auth_is_lost(error: Option<Seq<char>>, command: Seq<char>) -> bool {
    error is Some && {
        let lower = ascii_lower(error->0);
        has_part(lower, "credentials not found"@)
        || has_part(lower, "run `"@ + command + "` to authenticate"@)
        || (has_part(lower, "not installed"@) && has_part(lower, command))
        || (has_part(lower, "subscription"@) && has_part(lower, "unavailable"@))
    }
}

/// Whether an error says that there is no login, or no subscription. `command` starts the tool.
pub fn is_hard_claude_auth_loss(error: Option<&str>, command: &str) -> (r: bool)
    ensures
        r == auth_is_lost(glimpsed(error), command@),
{
    match error {
        None => false,
        Some(e) => {
            let lower = to_ascii_lower(e);
            contains(lower.as_str(), "credentials not found")
                || contains(lower.as_str(), concat3("run `", command, "` to authenticate").as_str())
                || (contains(lower.as_str(), "not installed") && contains(lower.as_str(), command))
                || (contains(lower.as_str(), "subscription") && contains(lower.as_str(), "unavailable"))
        },
    }
}

/// Whether an error says that what the tool printed could not be read.
pub open spec fn usage_was_unreadable(error: Option<Seq<char>>) -> bool {
    error is Some && {
        let lower = ascii_lower(error->0);
        has_part(lower, "parse error"@)
        || has_part(lower, "empty output"@)
        || has_part(lower, "missing current session"@)
        || has_part(lower, "treated /usage as a normal prompt"@)
        || has_part(lower, "local activity stats"@)
        || has_part(lower, "could not parse"@)
    }
}

/// Whether an error says that what the tool printed could not be read.
pub fn is_claude_cli_usage_parse_failure(error: Option<&str>) -> (r: bool)
    ensures
        r == usage_was_unreadable(glimpsed(error)),
{
    match error {
        None => false,
        Some(e) => {
            let lower = to_ascii_lower(e);
            contains(lower.as_str(), "parse error")
                || contains(lower.as_str(), "empty output")
                || contains(lower.as_str(), "missing current session")
                || contains(lower.as_str(), "treated /usage as a normal prompt")
                || contains(lower.as_str(), "local activity stats")
                || contains(lower.as_str(), "could not parse")
        },
    }
}

/// Whether an error says that the provider was asked too often.
pub open spec fn rate_was_limited(error: Option<Seq<char>>) -> bool {
    error is Some && {
        let lower = ascii_lower(error->0);
        has_part(lower, "rate limit"@)
        || has_part(lower, "rate_limit"@)
        || has_part(lower, "ratelimited"@)
    }
}

/// Whether an error says that the provider was asked too often.
pub fn is_claude_cli_rate_limit_failure(error: Option<&str>) -> (r: bool)
    ensures
        r == rate_was_limited(glimpsed(error)),
{
    match error {
        None => false,
        Some(e) => {
            let lower = to_ascii_lower(e);
            contains(lower.as_str(), "rate limit")
                || contains(lower.as_str(), "rate_limit")
                || contains(lower.as_str(), "ratelimited")
        },
    }
}

/// Whether an error says that the provider did not answer in time.
pub open spec fn answer_was_late(error: Option<Seq<char>>) -> bool {
    error is Some && (ascii_lower(error->0) == "timeout"@ || has_part(
        ascii_lower(error->0),
        "timed out"@,
    ))
}

/// Whether an error says that the provider did not answer in time.
pub fn is_claude_timeout_failure(error: Option<&str>) -> (r: bool)
    ensures
        r == answer_was_late(glimpsed(error)),
{
    match error {
        None => false,
        Some(e) => {
            let lower = to_ascii_lower(e);
            same(lower.as_str(), "timeout") || contains(lower.as_str(), "timed out")
        },
    }
}

/// An error during which the last good snapshot stays every time.
pub open spec fn keeps_every_time(error: Option<Seq<char>>) -> bool {
    usage_was_unreadable(error) || rate_was_limited(error) || answer_was_late(error)
}

/// Where the first snapshot of a provider without an error stands, from place `i` on.
pub open spec fn good_at(cache: Seq<UsageView>, name: Seq<char>, i: int) -> Option<int>
    decreases cache.len() - i,
{
    if i >= cache.len() {
        None
    } else if cache[i].provider_id == name && cache[i].error is None {
        Some(i)
    } else {
        good_at(cache, name, i + 1)
    }
}

/// What finding the last good snapshot came to.
pub open spec fn last_good(cache: Seq<UsageView>, name: Seq<char>) -> Option<UsageView> {
    match good_at(cache, name, 0) {
        Some(k) => Some(cache[k]),
        None => None,
    }
}

/// The view of a snapshot that may be missing.
pub open spec fn usage_seen(o: Option<ProviderUsageSnapshot>) -> Option<UsageView> {
    match o {
        Some(s) => Some(s@),
        None => None,
    }
}

/// Copies the last good snapshot of a provider.
pub fn find_last_good(cache: &Vec<ProviderUsageSnapshot>, name: &str) -> (r: Option<
    ProviderUsageSnapshot,
>)
    ensures
        usage_seen(r) == last_good(usages(cache@), name@),
{
    let ghost all = usages(cache@);
    let mut i: usize = 0;
    while i < cache.len()
        invariant
            i <= cache@.len(),
            all == usages(cache@),
            good_at(all, name@, 0) == good_at(all, name@, i as int),
        decreases cache@.len() - i,
    {
        assert(all[i as int] == cache@[i as int]@);
        if same(cache[i].provider_id.as_str(), name) && cache[i].error.is_none() {
            return Some(cache[i].clone());
        }
        i += 1;
    }
    None
}

/// What the application knows about its providers.
#[derive(Debug)]
pub struct AppState {
    pub provider_cache: Vec<ProviderUsageSnapshot>,
    /// Moments on a clock that never goes back, in nanoseconds.
    pub provider_cache_updated_at: Option<u128>,
    pub is_refreshing: bool,
    pub provider_refresh_generation: u64,
    pub provider_refresh_started_at: Option<u128>,
    pub transient_provider_failure_counts: FailureCounts,
}

impl AppState {
    /// Nothing is known yet.
    pub fn new() -> (r: AppState)
        ensures
            usages(r.provider_cache@) == Seq::<UsageView>::empty(),
            r.provider_cache_updated_at is None,
            !r.is_refreshing,
            r.provider_refresh_generation == 0,
            r.provider_refresh_started_at is None,
            forall|k: ProviderId| #[trigger] r.transient_provider_failure_counts.count(k) is None,
    {
        let provider_cache: Vec<ProviderUsageSnapshot> = Vec::new();
        assert(usages(provider_cache@) =~= Seq::<UsageView>::empty());
        AppState {
            provider_cache,
            provider_cache_updated_at: None,
            is_refreshing: false,
            provider_refresh_generation: 0,
            provider_refresh_started_at: None,
            transient_provider_failure_counts: FailureCounts::new(),
        }
    }
}

/// What is published for a fresh snapshot, and the number of failures afterwards. While the
/// provider that the tool belongs to fails in passing, its last good snapshot stays: every time
/// where it could not be read or was late, once where the login was refused. `name` is the
/// name of the provider on the command line.
pub open spec fn preserved(
    cache: Seq<UsageView>,
    count: Option<u32>,
    id: ProviderId,
    name: Seq<char>,
    s: UsageView,
) -> (UsageView, Option<u32>) {
    if s.error is None || id != ProviderId::Claude || auth_is_lost(s.error, name) || !(auth_wavers(
        s.error,
    ) || keeps_every_time(s.error)) {
        (s, None)
    } else {
        match last_good(cache, name) {
            None => (s, count),
            Some(previous) => {
                let n = match count {
                    Some(n) => n,
                    None => 0,
                };
                if keeps_every_time(s.error) {
                    (previous, Some(n))
                } else if n == 0 {
                    (previous, Some(1))
                } else {
                    (s, Some(if n == u32::MAX {
                        n
                    } else {
                        (n + 1) as u32
                    }))
                }
            },
        }
    }
}

/// Whether two states differ at most in how often one provider failed.
pub open spec fn same_but_failures(a: AppState, b: AppState, id: ProviderId) -> bool {
    &&& a.provider_cache == b.provider_cache
    &&& a.provider_cache_updated_at == b.provider_cache_updated_at
    &&& a.is_refreshing == b.is_refreshing
    &&& a.provider_refresh_generation == b.provider_refresh_generation
    &&& a.provider_refresh_started_at == b.provider_refresh_started_at
    &&& forall|k: ProviderId|
        k != id ==> #[trigger] a.transient_provider_failure_counts.count(k)
            == b.transient_provider_failure_counts.count(k)
}

/// Decides what is published for a fresh snapshot, and counts the failure.
pub fn preserve_last_good_transient_failure(
    guard: &mut AppState,
    provider: &Provider,
    snapshot: ProviderUsageSnapshot,
) -> (r: ProviderUsageSnapshot)
    ensures
        (r@, final(guard).transient_provider_failure_counts.count(provider.id)) == preserved(
            usages(old(guard).provider_cache@),
            old(guard).transient_provider_failure_counts.count(provider.id),
            provider.id,
            provider.cli_name@,
            snapshot@,
        ),
        same_but_failures(*final(guard), *old(guard), provider.id),
{
    let id = provider.id;
    let name = provider.cli_name.as_str();
    let error = borrow_text(&snapshot.error);
    if snapshot.error.is_none() || id != ProviderId::Claude || is_hard_claude_auth_loss(error, name) {
        guard.transient_provider_failure_counts.remove(id);
        return snapshot;
    }
    let every_time = is_claude_cli_usage_parse_failure(error) || is_claude_cli_rate_limit_failure(
        error,
    ) || is_claude_timeout_failure(error);
    if !(is_transient_claude_auth_error(error) || every_time) {
        guard.transient_provider_failure_counts.remove(id);
        return snapshot;
    }
    match find_last_good(&guard.provider_cache, name) {
        None => snapshot,
        Some(previous) => {
            let count: u32 = match guard.transient_provider_failure_counts.get(id) {
                Some(n) => n,
                None => 0,
            };
            if every_time {
                guard.transient_provider_failure_counts.put(id, count);
                previous
            } else if count == 0 {
                guard.transient_provider_failure_counts.put(id, 1);
                previous
            } else {
                let next: u32 = if count == u32::MAX { count } else { count + 1 };
                guard.transient_provider_failure_counts.put(id, next);
                snapshot
            }
        },
    }
}

/// A refused login is hidden once: where the next fetch is refused too, that is shown.
pub proof fn refused_login_shows_the_second_time(
    cache: Seq<UsageView>,
    name: Seq<char>,
    first: UsageView,
    second: UsageView,
)
    requires
        auth_wavers(first.error) && !keeps_every_time(first.error) && !auth_is_lost(first.error, name),
        auth_wavers(second.error) && !keeps_every_time(second.error) && !auth_is_lost(second.error, name),
        last_good(cache, name) is Some,
    ensures
        ({
            let (shown, count) = preserved(cache, None, ProviderId::Claude, name, first);
            let (again, _) = preserved(cache, count, ProviderId::Claude, name, second);
            shown == last_good(cache, name)->0 && again == second
        }),
{
}

/// A lost login, and any failure of another provider, is shown at once.
pub proof fn lost_login_shows_at_once(
    cache: Seq<UsageView>,
    count: Option<u32>,
    id: ProviderId,
    name: Seq<char>,
    s: UsageView,
)
    requires
        auth_is_lost(s.error, name) || id != ProviderId::Claude,
    ensures
        preserved(cache, count, id, name, s) == (s, None::<u32>),
{
}

/// A window with the reset of the cached one, where it has none of its own and the cached one
/// is still ahead.
pub open spec fn backfilled_window(fresh: WindowView, cached: WindowView, now: Moment) -> WindowView {
    if fresh.resets_at is None && cached.resets_at is Some && (rfc3339_moment(
        cached.resets_at->0,
    ) matches Some(t) && now.precedes(t)) {
        WindowView {
            resets_at: cached.resets_at,
            reset_description: either(fresh.reset_description, cached.reset_description),
            ..fresh
        }
    } else {
        fresh
    }
}

/// A window that may be missing, with the reset of the cached one.
pub open spec fn backfilled_slot(
    fresh: Option<WindowView>,
    cached: Option<WindowView>,
    now: Moment,
) -> Option<WindowView> {
    match (fresh, cached) {
        (Some(f), Some(c)) => Some(backfilled_window(f, c, now)),
        _ => fresh,
    }
}

/// A snapshot of Codex with the resets of the cached one.
pub open spec fn backfilled(s: UsageView, cached: Option<UsageView>, now: Moment) -> UsageView {
    if cached is Some && s.provider_id == "codex"@ {
        UsageView {
            primary: backfilled_window(s.primary, cached->0.primary, now),
            secondary: backfilled_slot(s.secondary, cached->0.secondary, now),
            tertiary: backfilled_slot(s.tertiary, cached->0.tertiary, now),
            ..s
        }
    } else {
        s
    }
}

fn backfill_slot_window(fresh: &mut RateWindowSnapshot, cached: &RateWindowSnapshot, now: Moment)
    ensures
        final(fresh)@ == backfilled_window(old(fresh)@, cached@, now),
{
    if fresh.resets_at.is_some() {
        return;
    }
    if let Some(reset) = &cached.resets_at {
        if let Some(t) = parse_rfc3339(reset.as_str()) {
            if now.before(t) {
                fresh.resets_at = Some(reset.clone());
                if fresh.reset_description.is_none() {
                    fresh.reset_description = copy_text(&cached.reset_description);
                }
            }
        }
    }
}

fn backfill_slot(
    fresh: Option<RateWindowSnapshot>,
    cached: &Option<RateWindowSnapshot>,
    now: Moment,
) -> (r: Option<RateWindowSnapshot>)
    ensures
        window_seen(r) == backfilled_slot(window_seen(fresh), window_seen(*cached), now),
{
    match (fresh, cached) {
        (Some(f), Some(c)) => {
            let mut f = f;
            backfill_slot_window(&mut f, c, now);
            Some(f)
        },
        (f, _) => f,
    }
}

/// Fills in the resets that a fresh snapshot of Codex lacks from the cached one, as long as they
/// are still ahead at `now`. How much is used stays as it was fetched.
pub fn codex_reset_backfill_at(
    snapshot: &mut ProviderUsageSnapshot,
    cached: Option<&ProviderUsageSnapshot>,
    now: Moment,
)
    ensures
        final(snapshot)@ == backfilled(old(snapshot)@, usage_glimpsed(cached), now),
{
    if let Some(c) = cached {
        if same(snapshot.provider_id.as_str(), "codex") {
            backfill_slot_window(&mut snapshot.primary, &c.primary, now);
            let secondary = snapshot.secondary.take();
            snapshot.secondary = backfill_slot(secondary, &c.secondary, now);
            let tertiary = snapshot.tertiary.take();
            snapshot.tertiary = backfill_slot(tertiary, &c.tertiary, now);
        }
    }
}

/// The view of a borrowed snapshot that may be missing.
pub open spec fn usage_glimpsed(o: Option<&ProviderUsageSnapshot>) -> Option<UsageView> {
    match o {
        Some(s) => Some(s@),
        None => None,
    }
}

/// Fills in the resets that a fresh snapshot of Codex lacks from the cached one, as long as they
/// are still ahead.
pub fn codex_reset_backfill(
    snapshot: &mut ProviderUsageSnapshot,
    cached: Option<&ProviderUsageSnapshot>,
)
    ensures
        exists|now: Moment|
            is_reading(now) && final(snapshot)@ == #[trigger] backfilled(
                old(snapshot)@,
                usage_glimpsed(cached),
                now,
            ),
{
    let now = clock();
    codex_reset_backfill_at(snapshot, cached, now);
}

/// Whether two windows differ at most in a reset, and its description, that the first one lacks.
pub open spec fn same_but_missing_reset(before: WindowView, after: WindowView) -> bool {
    &&& after == (WindowView {
        resets_at: after.resets_at,
        reset_description: after.reset_description,
        ..before
    })
    &&& before.resets_at is Some ==> after == before
    &&& before.reset_description is Some ==> after.reset_description == before.reset_description
}

/// Filling in resets changes nothing but resets, and none that is there. Only Codex has resets
/// filled in.
pub proof fn backfill_changes_only_missing_resets(
    s: UsageView,
    cached: Option<UsageView>,
    now: Moment,
)
    ensures
        ({
            let r = backfilled(s, cached, now);
            &&& r == (UsageView {
                primary: r.primary,
                secondary: r.secondary,
                tertiary: r.tertiary,
                ..s
            })
            &&& same_but_missing_reset(s.primary, r.primary)
            &&& r.secondary is Some <==> s.secondary is Some
            &&& s.secondary is Some ==> same_but_missing_reset(s.secondary->0, r.secondary->0)
            &&& r.tertiary is Some <==> s.tertiary is Some
            &&& s.tertiary is Some ==> same_but_missing_reset(s.tertiary->0, r.tertiary->0)
            &&& s.provider_id != "codex"@ ==> r == s
            &&& cached is None ==> r == s
        }),
{
}

/// A reset that has passed is not filled in.
pub proof fn passed_resets_stay_out(fresh: WindowView, cached: WindowView, now: Moment, t: Moment)
    requires
        cached.resets_at is Some,
        rfc3339_moment(cached.resets_at->0) == Some(t),
        !now.precedes(t),
    ensures
        backfilled_window(fresh, cached, now) == fresh,
{
}

/// The number of the batch after a batch.
pub open spec fn next_generation(generation: u64) -> u64 {
    if generation == u64::MAX {
        0
    } else {
        (generation + 1) as u64
    }
}

fn following(generation: u64) -> (r: u64)
    ensures
        r == next_generation(generation),
{
    if generation == u64::MAX {
        0
    } else {
        generation + 1
    }
}

/// Whether a batch is the current one.
pub fn is_current_provider_refresh_generation(guard: &AppState, generation: u64) -> (r: bool)
    ensures
        r == (guard.provider_refresh_generation == generation),
{
    guard.provider_refresh_generation == generation
}

/// Whether something that happened at `updated_at` is at most `stale_after` ago.
pub open spec fn fresh(updated_at: Option<u128>, now: u128, stale_after: u128) -> bool {
    updated_at is Some && now - updated_at->0 <= stale_after
}

/// Whether what is cached is recent enough. All three are in nanoseconds.
pub fn is_provider_cache_fresh(updated_at: Option<u128>, now: u128, stale_after: u128) -> (r: bool)
    ensures
        r == fresh(updated_at, now, stale_after),
{
    match updated_at {
        Some(t) => now <= t || now - t <= stale_after,
        None => false,
    }
}

/// Whether a refresh can be skipped: it is not forced, something is cached, and that is pinned
/// or recent enough.
pub open spec fn can_skip(
    state: AppState,
    force: bool,
    pinned: bool,
    now: u128,
    stale_after: u128,
) -> bool {
    !force && state.provider_cache@.len() > 0 && (pinned || fresh(
        state.provider_cache_updated_at,
        now,
        stale_after,
    ))
}

/// Whether a refresh can be skipped.
pub fn provider_cache_can_skip_refresh(
    guard: &AppState,
    force: bool,
    pinned: bool,
    now: u128,
    stale_after: u128,
) -> (r: bool)
    ensures
        r == can_skip(*guard, force, pinned, now, stale_after),
{
    !force && guard.provider_cache.len() > 0 && (pinned || is_provider_cache_fresh(
        guard.provider_cache_updated_at,
        now,
        stale_after,
    ))
}

/// Starts a batch, unless one is under way or the refresh can be skipped. Gives the number of
/// the batch.
pub fn begin_provider_refresh(
    guard: &mut AppState,
    force: bool,
    pinned: bool,
    now: u128,
    stale_after: u128,
) -> (r: Option<u64>)
    ensures
        if old(guard).is_refreshing || can_skip(*old(guard), force, pinned, now, stale_after) {
            r is None && *final(guard) == *old(guard)
        } else {
            let generation = next_generation(old(guard).provider_refresh_generation);
            r == Some(generation) && *final(guard) == (AppState {
                provider_refresh_generation: generation,
                is_refreshing: true,
                provider_refresh_started_at: Some(now),
                ..*old(guard)
            })
        },
{
    if guard.is_refreshing {
        return None;
    }
    if provider_cache_can_skip_refresh(guard, force, pinned, now, stale_after) {
        return None;
    }
    let generation: u64 = following(guard.provider_refresh_generation);
    guard.provider_refresh_generation = generation;
    guard.is_refreshing = true;
    guard.provider_refresh_started_at = Some(now);
    Some(generation)
}

/// How many fetches of a batch run at the same time.
pub const MAX_CONCURRENT_PROVIDER_FETCHES: usize = 8;

/// What a batch fetches.
#[derive(Debug)]
pub struct BatchPlan {
    /// The names of the providers, one fetch each.
    pub names: Vec<String>,
    /// Whether the usage of every Codex account is fetched too.
    pub account_lanes: bool,
}

/// The names of providers.
pub open spec fn provider_names(providers: Seq<Provider>) -> Seq<Seq<char>> {
    providers.map_values(|p: Provider| p.cli_name@)
}

/// Readies a batch: only enabled providers stay in the cache, as long as the batch has not
/// been superseded. Says what the batch fetches.
pub fn prepare_provider_refresh(
    guard: &mut AppState,
    generation: u64,
    enabled: &Vec<Provider>,
) -> (r: BatchPlan)
    ensures
        usages(final(guard).provider_cache@) == (if old(guard).provider_refresh_generation
            == generation {
            kept(usages(old(guard).provider_cache@), enabled@)
        } else {
            usages(old(guard).provider_cache@)
        }),
        *final(guard) == (AppState { provider_cache: final(guard).provider_cache, ..*old(guard) }),
        views(r.names@) == provider_names(enabled@),
        r.account_lanes == lists_id(enabled@, ProviderId::Codex),
{
    if is_current_provider_refresh_generation(guard, generation) {
        prune_provider_cache_to_enabled(&mut guard.provider_cache, enabled);
    }
    let ghost all = provider_names(enabled@);
    let mut names: Vec<String> = Vec::new();
    let mut i: usize = 0;
    assert(views(names@) =~= all.take(0));
    while i < enabled.len()
        invariant
            i <= enabled@.len(),
            all == provider_names(enabled@),
            views(names@) == all.take(i as int),
        decreases enabled@.len() - i,
    {
        let ghost before = names@;
        names.push(enabled[i].cli_name.clone());
        assert(views(names@) =~= views(before).push(all[i as int]));
        assert(all.take(i + 1) =~= all.take(i as int).push(all[i as int]));
        i += 1;
    }
    assert(all.take(i as int) =~= all);
    BatchPlan { names, account_lanes: is_listed(enabled, ProviderId::Codex) }
}

/// How many snapshots carry an error.
pub open spec fn error_count(cache: Seq<UsageView>) -> nat
    decreases cache.len(),
{
    if cache.len() == 0 {
        0
    } else {
        error_count(cache.drop_last()) + if cache.last().error is Some {
            1nat
        } else {
            0nat
        }
    }
}

/// Ends a batch, unless another has taken its place. Gives the number of providers that failed.
pub fn finish_provider_refresh(guard: &mut AppState, generation: u64, now: u128) -> (r: Option<
    usize,
>)
    ensures
        if old(guard).provider_refresh_generation != generation {
            r is None && *final(guard) == *old(guard)
        } else {
            &&& r is Some
            &&& r->0 == error_count(usages(old(guard).provider_cache@))
            &&& *final(guard) == (AppState {
                is_refreshing: false,
                provider_refresh_started_at: None,
                provider_cache_updated_at: Some(now),
                ..*old(guard)
            })
        },
{
    if !is_current_provider_refresh_generation(guard, generation) {
        return None;
    }
    guard.is_refreshing = false;
    guard.provider_refresh_started_at = None;
    guard.provider_cache_updated_at = Some(now);
    let ghost all = usages(guard.provider_cache@);
    let ghost done = *guard;
    let mut count: usize = 0;
    let mut i: usize = 0;
    assert(all.take(0) =~= Seq::empty());
    while i < guard.provider_cache.len()
        invariant
            *guard == done,
            i <= guard.provider_cache@.len(),
            all == usages(guard.provider_cache@),
            count == error_count(all.take(i as int)),
            count <= i,
        decreases guard.provider_cache@.len() - i,
    {
        assert(all.take(i + 1).drop_last() =~= all.take(i as int));
        assert(all.take(i + 1).last() == guard.provider_cache@[i as int]@);
        if guard.provider_cache[i].error.is_some() {
            count += 1;
        }
        i += 1;
    }
    assert(all.take(i as int) =~= all);
    Some(count)
}

/// Takes in what a fetch of a batch brought, unless another batch has taken its place. Gives
/// what is published.
pub fn publish_provider_snapshot(
    guard: &mut AppState,
    provider: &Provider,
    generation: u64,
    snapshot: ProviderUsageSnapshot,
    now: Moment,
) -> (r: Option<ProviderUsageSnapshot>)
    ensures
        if old(guard).provider_refresh_generation != generation {
            r is None && *final(guard) == *old(guard)
        } else {
            let cache = usages(old(guard).provider_cache@);
            let (shown, count) = preserved(
                cache,
                old(guard).transient_provider_failure_counts.count(provider.id),
                provider.id,
                provider.cli_name@,
                snapshot@,
            );
            let published = backfilled(shown, last_good(cache, shown.provider_id), now);
            &&& usage_seen(r) == Some(published)
            &&& usages(final(guard).provider_cache@) == upserted(cache, published)
            &&& final(guard).transient_provider_failure_counts.count(provider.id) == count
            &&& same_but_failures(
                AppState { provider_cache: old(guard).provider_cache, ..*final(guard) },
                *old(guard),
                provider.id,
            )
        },
{
    if !is_current_provider_refresh_generation(guard, generation) {
        return None;
    }
    let mut shown = preserve_last_good_transient_failure(guard, provider, snapshot);
    let cached = find_last_good(&guard.provider_cache, shown.provider_id.as_str());
    codex_reset_backfill_at(&mut shown, cached.as_ref(), now);
    let published = shown.clone();
    upsert_provider_cache(&mut guard.provider_cache, published);
    Some(shown)
}

/// Ends whatever batch is under way and drops what is known of providers that are not enabled.
pub fn invalidate_provider_refresh_and_prune_disabled(
    guard: &mut AppState,
    enabled: &Vec<Provider>,
)
    ensures
        usages(final(guard).provider_cache@) == kept(usages(old(guard).provider_cache@), enabled@),
        final(guard).provider_refresh_generation == next_generation(
            old(guard).provider_refresh_generation,
        ),
        !final(guard).is_refreshing,
        final(guard).provider_refresh_started_at is None,
        final(guard).provider_cache_updated_at == old(guard).provider_cache_updated_at,
        forall|k: ProviderId| #[trigger]
            final(guard).transient_provider_failure_counts.count(k) == (if lists_id(enabled@, k) {
                old(guard).transient_provider_failure_counts.count(k)
            } else {
                None
            }),
{
    guard.provider_refresh_generation = following(guard.provider_refresh_generation);
    guard.is_refreshing = false;
    guard.provider_refresh_started_at = None;
    prune_provider_cache_to_enabled(&mut guard.provider_cache, enabled);
    guard.transient_provider_failure_counts.retain(enabled);
}

/// What is shown until the usage of a new account has been fetched.
pub open spec fn pending_message(display_name: Seq<char>) -> Seq<char> {
    "Account changed. Refreshing "@ + display_name + " usage…"@
}

/// Forgets what is known of a provider whose account changed, and ends whatever batch is under
/// way. Gives what is shown meanwhile.
pub fn invalidate_account_usage(state: &mut AppState, provider: &Provider, updated_at: String) -> (r:
    ProviderUsageSnapshot)
    ensures
        r@ == failed_usage(
            *provider,
            pending_message(provider.display_name@),
            ProviderStateKind::Unknown,
            updated_at@,
        ),
        usages(final(state).provider_cache@) == without(
            usages(old(state).provider_cache@),
            provider.cli_name@,
        ).push(r@),
        final(state).provider_refresh_generation == next_generation(
            old(state).provider_refresh_generation,
        ),
        !final(state).is_refreshing,
        final(state).provider_refresh_started_at is None,
        final(state).provider_cache_updated_at == old(state).provider_cache_updated_at,
        forall|k: ProviderId| #[trigger]
            final(state).transient_provider_failure_counts.count(k) == (if k == provider.id {
                None
            } else {
                old(state).transient_provider_failure_counts.count(k)
            }),
{
    state.provider_refresh_generation = following(state.provider_refresh_generation);
    state.is_refreshing = false;
    state.provider_refresh_started_at = None;
    state.transient_provider_failure_counts.remove(provider.id);
    drop_provider(&mut state.provider_cache, provider.cli_name.as_str());
    let mut message = "Account changed. Refreshing ".to_owned();
    message.append(provider.display_name.as_str());
    message.append(" usage…");
    let pending = ProviderUsageSnapshot::from_error(
        provider,
        message,
        ProviderStateKind::Unknown,
        updated_at,
    );
    let ghost before = usages(state.provider_cache@);
    state.provider_cache.push(pending.clone());
    assert(usages(state.provider_cache@) =~= before.push(pending@));
    pending
}

/// Notes how long a fetch took. Says whether it was slow.
pub fn record_provider_fetch_duration(
    snapshot: &mut ProviderUsageSnapshot,
    fetch_duration_ms: u128,
) -> (r: bool)
    ensures
        *final(snapshot) == (ProviderUsageSnapshot {
            fetch_duration_ms: Some(fetch_duration_ms),
            ..*old(snapshot)
        }),
        r == (fetch_duration_ms > 5_000),
{
    snapshot.fetch_duration_ms = Some(fetch_duration_ms);
    fetch_duration_ms > 5_000
}

/// What a fetch of a provider's usage came to.
pub enum FetchOutcome {
    Fetched(ProviderUsageSnapshot),
    /// The message is fit to be shown.
    Failed { message: String, state: ProviderStateKind },
    TimedOut,
}

/// What is shown of a fetch, before its duration is noted.
pub open spec fn outcome_usage(
    provider: Provider,
    outcome: FetchOutcome,
    updated_at: Seq<char>,
) -> UsageView {
    match outcome {
        FetchOutcome::Fetched(snapshot) => snapshot@,
        FetchOutcome::Failed { message, state } => failed_usage(
            provider,
            message@,
            state,
            updated_at,
        ),
        FetchOutcome::TimedOut => failed_usage(
            provider,
            "Timeout"@,
            ProviderStateKind::Unknown,
            updated_at,
        ),
    }
}

/// The snapshot for what a fetch came to, with its duration. Says also whether it was slow.
pub fn fetched_snapshot(
    provider: &Provider,
    outcome: FetchOutcome,
    updated_at: String,
    fetch_duration_ms: u128,
) -> (r: (ProviderUsageSnapshot, bool))
    ensures
        r.0@ == (UsageView {
            fetch_duration_ms: Some(fetch_duration_ms),
            ..outcome_usage(*provider, outcome, updated_at@)
        }),
        r.1 == (fetch_duration_ms > 5_000),
{
    let mut snapshot = match outcome {
        FetchOutcome::Fetched(snapshot) => snapshot,
        FetchOutcome::Failed { message, state } => ProviderUsageSnapshot::from_error(
            provider,
            message,
            state,
            updated_at,
        ),
        FetchOutcome::TimedOut => ProviderUsageSnapshot::from_error(
            provider,
            "Timeout".to_owned(),
            ProviderStateKind::Unknown,
            updated_at,
        ),
    };
    let slow = record_provider_fetch_duration(&mut snapshot, fetch_duration_ms);
    (snapshot, slow)
}

/// Whether no provider has two snapshots.
pub open spec fn one_each(cache: Seq<UsageView>) -> bool {
    forall|i: int, j: int|
        0 <= i < j < cache.len() ==> (#[trigger] cache[i]).provider_id != (
        #[trigger] cache[j]).provider_id
}

/// `cached_at` finds the first snapshot of a provider, and finds one whenever there is one.
pub proof fn cached_at_is_first(cache: Seq<UsageView>, name: Seq<char>, i: int)
    requires
        0 <= i <= cache.len(),
    ensures
        match cached_at(cache, name, i) {
            Some(k) => i <= k < cache.len() && cache[k].provider_id == name && forall|j: int|
                i <= j < k ==> (#[trigger] cache[j]).provider_id != name,
            None => forall|j: int|
                i <= j < cache.len() ==> (#[trigger] cache[j]).provider_id != name,
        },
    decreases cache.len() - i,
{
    if i < cache.len() && cache[i].provider_id != name {
        cached_at_is_first(cache, name, i + 1);
    }
}

/// Taking in a snapshot leaves every provider with at most one, holds the new one, and leaves
/// those of other providers alone.
pub proof fn upsert_keeps_one_each(cache: Seq<UsageView>, s: UsageView)
    requires
        one_each(cache),
    ensures
        one_each(upserted(cache, s)),
        upserted(cache, s).contains(s),
        forall|other: UsageView|
            other.provider_id != s.provider_id ==> (#[trigger] upserted(cache, s).contains(other)
                <==> cache.contains(other)),
{
    cached_at_is_first(cache, s.provider_id, 0);
    let r = upserted(cache, s);
    match cached_at(cache, s.provider_id, 0) {
        Some(k) => {
            assert(r[k] == s);
            assert forall|i: int, j: int| 0 <= i < j < r.len() implies (
            #[trigger] r[i]).provider_id != (#[trigger] r[j]).provider_id by {
                assert(cache[i].provider_id != cache[j].provider_id);
            }
            assert forall|other: UsageView| other.provider_id != s.provider_id implies (
            #[trigger] r.contains(other) <==> cache.contains(other)) by {
                if cache.contains(other) {
                    let j = cache.index_of(other);
                    assert(r[j] == other);
                }
                if r.contains(other) {
                    let j = r.index_of(other);
                    assert(cache[j] == other);
                }
            }
        },
        None => {
            assert(r[cache.len() as int] == s);
            assert forall|other: UsageView| other.provider_id != s.provider_id implies (
            #[trigger] r.contains(other) <==> cache.contains(other)) by {
                if cache.contains(other) {
                    let j = cache.index_of(other);
                    assert(r[j] == other);
                }
                if r.contains(other) {
                    let j = r.index_of(other);
                    assert(cache[j] == other);
                }
            }
        },
    }
}

/// Pruning keeps exactly the snapshots of enabled providers.
pub proof fn pruning_keeps_the_enabled(cache: Seq<UsageView>, enabled: Seq<Provider>)
    ensures
        forall|s: UsageView| #[trigger]
            kept(cache, enabled).contains(s) <==> cache.contains(s) && lists_name(
                enabled,
                s.provider_id,
            ),
        one_each(cache) ==> one_each(kept(cache, enabled)),
    decreases cache.len(),
{
    if cache.len() > 0 {
        let front = cache.drop_last();
        let last = cache.last();
        pruning_keeps_the_enabled(front, enabled);
        let r = kept(cache, enabled);
        let k = kept(front, enabled);
        assert forall|s: UsageView| #[trigger]
            r.contains(s) <==> cache.contains(s) && lists_name(enabled, s.provider_id) by {
            assert(k.contains(s) <==> front.contains(s) && lists_name(enabled, s.provider_id));
            if cache.contains(s) {
                let j = cache.index_of(s);
                if j < front.len() {
                    assert(front[j] == s);
                }
            }
            if front.contains(s) {
                let j = front.index_of(s);
                assert(cache[j] == s);
            }
            if k.contains(s) {
                let j = k.index_of(s);
                assert(r[j] == s);
            }
            if lists_name(enabled, last.provider_id) {
                assert(r[k.len() as int] == last);
                if r.contains(s) {
                    let j = r.index_of(s);
                    if j < k.len() {
                        assert(k[j] == s);
                    }
                }
            }
            assert(cache[cache.len() - 1] == last);
        }
        if one_each(cache) {
            assert forall|i: int, j: int| 0 <= i < j < front.len() implies (
            #[trigger] front[i]).provider_id != (#[trigger] front[j]).provider_id by {
                assert(cache[i].provider_id != cache[j].provider_id);
            }
            assert forall|i: int, j: int| 0 <= i < j < r.len() implies (
            #[trigger] r[i]).provider_id != (#[trigger] r[j]).provider_id by {
                if j < k.len() {
                    assert(k[i].provider_id != k[j].provider_id);
                } else {
                    assert(k.contains(k[i]));
                    assert(front.contains(k[i]));
                    let m = front.index_of(k[i]);
                    assert(cache[m].provider_id != cache[cache.len() - 1].provider_id);
                }
            }
        }
    }
}

/// Dropping a provider keeps exactly the snapshots of the others.
pub proof fn dropping_forgets_one_provider(cache: Seq<UsageView>, name: Seq<char>)
    ensures
        forall|s: UsageView| #[trigger]
            without(cache, name).contains(s) <==> cache.contains(s) && s.provider_id != name,
    decreases cache.len(),
{
    if cache.len() > 0 {
        let front = cache.drop_last();
        let last = cache.last();
        dropping_forgets_one_provider(front, name);
        let r = without(cache, name);
        let k = without(front, name);
        assert forall|s: UsageView| #[trigger]
            r.contains(s) <==> cache.contains(s) && s.provider_id != name by {
            assert(k.contains(s) <==> front.contains(s) && s.provider_id != name);
            if cache.contains(s) {
                let j = cache.index_of(s);
                if j < front.len() {
                    assert(front[j] == s);
                }
            }
            if front.contains(s) {
                let j = front.index_of(s);
                assert(cache[j] == s);
            }
            if k.contains(s) {
                let j = k.index_of(s);
                assert(r[j] == s);
            }
            if last.provider_id != name {
                assert(r[k.len() as int] == last);
                if r.contains(s) {
                    let j = r.index_of(s);
                    if j < k.len() {
                        assert(k[j] == s);
                    }
                }
            }
            assert(cache[cache.len() - 1] == last);
        }
    }
}

/// After the account of a provider changed, the only thing known of it is that its usage is
/// being fetched; what is known of other providers stays.
pub proof fn changed_account_leaves_nothing_behind(cache: Seq<UsageView>, pending: UsageView)
    ensures
        forall|s: UsageView|
            s.provider_id == pending.provider_id ==> (#[trigger] without(
                cache,
                pending.provider_id,
            ).push(pending).contains(s) <==> s == pending),
        forall|s: UsageView|
            s.provider_id != pending.provider_id ==> (#[trigger] without(
                cache,
                pending.provider_id,
            ).push(pending).contains(s) <==> cache.contains(s)),
{
    dropping_forgets_one_provider(cache, pending.provider_id);
    let w = without(cache, pending.provider_id);
    let r = w.push(pending);
    assert(r[w.len() as int] == pending);
    assert forall|s: UsageView| #[trigger] r.contains(s) <==> w.contains(s) || s == pending by {
        if r.contains(s) {
            let j = r.index_of(s);
            if j < w.len() {
                assert(w[j] == s);
            }
        }
        if w.contains(s) {
            let j = w.index_of(s);
            assert(r[j] == s);
        }
    }
    assert forall|s: UsageView| s.provider_id == pending.provider_id implies (
    #[trigger] without(cache, pending.provider_id).push(pending).contains(s) <==> s == pending) by {
        assert(r.contains(s) <==> w.contains(s) || s == pending);
        assert(w.contains(s) <==> cache.contains(s) && s.provider_id != pending.provider_id);
    }
    assert forall|s: UsageView| s.provider_id != pending.provider_id implies (
    #[trigger] without(cache, pending.provider_id).push(pending).contains(s) <==> cache.contains(
        s,
    )) by {
        assert(r.contains(s) <==> w.contains(s) || s == pending);
        assert(w.contains(s) <==> cache.contains(s) && s.provider_id != pending.provider_id);
    }
}

/// The number of the current batch once `n` more, or changes of accounts, have come.
pub open spec fn generation_after(generation: u64, n: nat) -> u64
    decreases n,
{
    if n == 0 {
        generation
    } else {
        next_generation(generation_after(generation, (n - 1) as nat))
    }
}

/// A batch that others, or changes of accounts, have taken the place of is not current any more,
/// however many they were, as long as the numbers have not all been used.
pub proof fn superseded_batch_is_not_current(generation: u64, n: nat)
    requires
        0 < n <= u64::MAX,
    ensures
        generation_after(generation, n) != generation,
{
    lemma_generation_after(generation, n);
}

proof fn lemma_generation_after(generation: u64, n: nat)
    requires
        n <= u64::MAX,
    ensures
        generation_after(generation, n) == if generation + n <= u64::MAX {
            generation + n
        } else {
            generation + n - u64::MAX - 1
        },
    decreases n,
{
    if n > 0 {
        lemma_generation_after(generation, (n - 1) as nat);
    }
}

/// A login wavers where the error speaks of missing authorization, in capitals or not; without an
/// error it does not.
pub proof fn a_wavering_login_is_told_by_its_words(e: Seq<char>)
    ensures
        !auth_wavers(None),
        auth_wavers(Some(e)) <==> has_part(ascii_lower(e), "unauthorized"@) || has_part(
            ascii_lower(e),
            "authentication required"@,
        ) || has_part(ascii_lower(e), "auth required"@),
{
}

/// A login is lost where the error says that there are no credentials, asks to sign in with the
/// tool, or says that the tool or the subscription is not there.
pub proof fn a_lost_login_is_told_by_its_words(e: Seq<char>, command: Seq<char>)
    ensures
        !auth_is_lost(None, command),
        has_part(ascii_lower(e), "credentials not found"@) ==> auth_is_lost(Some(e), command),
        has_part(ascii_lower(e), "run `"@ + command + "` to authenticate"@) ==> auth_is_lost(
            Some(e),
            command,
        ),
        has_part(ascii_lower(e), "not installed"@) && has_part(ascii_lower(e), command)
            ==> auth_is_lost(Some(e), command),
        has_part(ascii_lower(e), "subscription"@) && has_part(ascii_lower(e), "unavailable"@)
            ==> auth_is_lost(Some(e), command),
        !has_part(ascii_lower(e), "credentials not found"@) && !has_part(
            ascii_lower(e),
            "run `"@ + command + "` to authenticate"@,
        ) && !has_part(ascii_lower(e), command) && !has_part(ascii_lower(e), "subscription"@)
            ==> !auth_is_lost(Some(e), command),
{
}

/// The last good snapshot stays every time where the error says that the output could not be read,
/// that too much was asked, or that the answer came too late; and for no other error.
pub proof fn passing_failures_are_told_by_their_words(e: Seq<char>)
    ensures
        !keeps_every_time(None),
        has_part(ascii_lower(e), "parse error"@) ==> keeps_every_time(Some(e)),
        has_part(ascii_lower(e), "empty output"@) ==> keeps_every_time(Some(e)),
        has_part(ascii_lower(e), "missing current session"@) ==> keeps_every_time(Some(e)),
        has_part(ascii_lower(e), "treated /usage as a normal prompt"@) ==> keeps_every_time(Some(e)),
        has_part(ascii_lower(e), "local activity stats"@) ==> keeps_every_time(Some(e)),
        has_part(ascii_lower(e), "could not parse"@) ==> keeps_every_time(Some(e)),
        has_part(ascii_lower(e), "rate limit"@) ==> keeps_every_time(Some(e)),
        has_part(ascii_lower(e), "rate_limit"@) ==> keeps_every_time(Some(e)),
        has_part(ascii_lower(e), "ratelimited"@) ==> keeps_every_time(Some(e)),
        has_part(ascii_lower(e), "timed out"@) ==> keeps_every_time(Some(e)),
        ascii_lower(e) == "timeout"@ ==> keeps_every_time(Some(e)),
        keeps_every_time(Some(e)) ==> ascii_lower(e) == "timeout"@ || has_part(
            ascii_lower(e),
            "timed out"@,
        ) || has_part(ascii_lower(e), "rate limit"@) || has_part(ascii_lower(e), "rate_limit"@)
            || has_part(ascii_lower(e), "ratelimited"@) || has_part(ascii_lower(e), "parse error"@)
            || has_part(ascii_lower(e), "empty output"@) || has_part(
            ascii_lower(e),
            "missing current session"@,
        ) || has_part(ascii_lower(e), "treated /usage as a normal prompt"@) || has_part(
            ascii_lower(e),
            "local activity stats"@,
        ) || has_part(ascii_lower(e), "could not parse"@),
{
}

/// The last good snapshot of a provider is one of that provider without an error, and the first of
/// those; there is none where every snapshot of the provider carries an error.
pub proof fn the_last_good_snapshot_carries_no_error(cache: Seq<UsageView>, name: Seq<char>, i: int)
    requires
        0 <= i,
    ensures
        match good_at(cache, name, i) {
            Some(k) => i <= k < cache.len() && cache[k].provider_id == name
                && cache[k].error is None && forall|j: int|
                i <= j < k ==> (#[trigger] cache[j]).provider_id != name || cache[j].error is Some,
            None => forall|j: int|
                i <= j < cache.len() ==> (#[trigger] cache[j]).provider_id != name
                    || cache[j].error is Some,
        },
        i == 0 ==> (last_good(cache, name) matches Some(s) ==> s.provider_id == name
            && s.error is None && cache.contains(s)),
    decreases cache.len() - i,
{
    if i < cache.len() && !(cache[i].provider_id == name && cache[i].error is None) {
        the_last_good_snapshot_carries_no_error(cache, name, i + 1);
    }
}

/// A fetch that succeeded is shown and clears the count of failures. A failure of the tool's
/// provider that may pass is hidden behind the last good snapshot, where there is one; any other
/// failure is shown.
pub proof fn what_is_shown_of_a_fetch(
    cache: Seq<UsageView>,
    count: Option<u32>,
    name: Seq<char>,
    s: UsageView,
    id: ProviderId,
)
    ensures
        s.error is None ==> preserved(cache, count, id, name, s) == (s, None::<u32>),
        last_good(cache, name) is None ==> preserved(cache, count, id, name, s).0 == s,
        id == ProviderId::Claude && keeps_every_time(s.error) && !auth_is_lost(s.error, name)
            && last_good(cache, name) is Some ==> preserved(cache, count, id, name, s).0
            == last_good(cache, name)->Some_0,
        id == ProviderId::Claude && keeps_every_time(s.error) && !auth_is_lost(s.error, name)
            && last_good(cache, name) is Some && count is Some ==> preserved(
            cache,
            count,
            id,
            name,
            s,
        ).1 == count,
        s.error is Some && !auth_wavers(s.error) && !keeps_every_time(s.error) ==> preserved(
            cache,
            count,
            id,
            name,
            s,
        ) == (s, None::<u32>),
        preserved(cache, count, id, name, s).0 == s || last_good(cache, name) == Some(
            preserved(cache, count, id, name, s).0,
        ),
{
}

/// A reset that is lacking is taken from the cached window where it is still ahead, with its
/// description where there is none.
pub proof fn resets_ahead_are_filled_in(fresh: WindowView, cached: WindowView, now: Moment, t: Moment)
    requires
        fresh.resets_at is None,
        cached.resets_at is Some,
        rfc3339_moment(cached.resets_at->Some_0) == Some(t),
        t.secs > now.secs || t.secs == now.secs && t.nanos > now.nanos,
    ensures
        backfilled_window(fresh, cached, now).resets_at == cached.resets_at,
        fresh.reset_description is None ==> backfilled_window(fresh, cached, now).reset_description
            == cached.reset_description,
        fresh.reset_description is Some ==> backfilled_window(fresh, cached, now).reset_description
            == fresh.reset_description,
        backfilled_window(fresh, cached, now).used_percent == fresh.used_percent,
        backfilled_slot(Some(fresh), Some(cached), now) == Some(
            backfilled_window(fresh, cached, now),
        ),
        backfilled_slot(None, Some(cached), now) is None,
        backfilled_slot(Some(fresh), None, now) == Some(fresh),
{
}

/// Each window of Codex takes its reset from the cached window of the same place.
pub proof fn resets_come_from_the_same_window(s: UsageView, cached: UsageView, now: Moment)
    requires
        s.provider_id == "codex"@,
    ensures
        backfilled(s, Some(cached), now).primary == backfilled_window(
            s.primary,
            cached.primary,
            now,
        ),
        backfilled(s, Some(cached), now).secondary == backfilled_slot(
            s.secondary,
            cached.secondary,
            now,
        ),
        backfilled(s, Some(cached), now).tertiary == backfilled_slot(
            s.tertiary,
            cached.tertiary,
            now,
        ),
{
}

/// What is cached is recent up to and at the end of its time, and not after it; what was never
/// updated is not recent.
pub proof fn what_is_cached_ages(updated: u128, now: u128, stale_after: u128)
    ensures
        now <= updated + stale_after ==> fresh(Some(updated), now, stale_after),
        now > updated + stale_after ==> !fresh(Some(updated), now, stale_after),
        !fresh(None, now, stale_after),
{
}

/// A refresh is skipped only where it is not forced and something is cached that is pinned or
/// recent.
pub proof fn a_refresh_is_skipped_where_nothing_is_lost(
    state: AppState,
    pinned: bool,
    now: u128,
    stale_after: u128,
)
    ensures
        !can_skip(state, true, pinned, now, stale_after),
        state.provider_cache@.len() == 0 ==> !can_skip(state, false, pinned, now, stale_after),
        state.provider_cache@.len() > 0 ==> can_skip(state, false, true, now, stale_after),
        state.provider_cache@.len() > 0 ==> (can_skip(state, false, false, now, stale_after)
            <==> fresh(state.provider_cache_updated_at, now, stale_after)),
{
}

/// Each batch has another number than the one before.
pub proof fn batches_are_numbered_on(generation: u64)
    ensures
        next_generation(generation) != generation,
        generation < u64::MAX ==> next_generation(generation) == generation + 1,
{
}

/// Every snapshot with an error counts, and no other.
pub proof fn errors_are_counted(cache: Seq<UsageView>, s: UsageView)
    ensures
        error_count(Seq::empty()) == 0,
        s.error is Some ==> error_count(cache.push(s)) == error_count(cache) + 1,
        s.error is None ==> error_count(cache.push(s)) == error_count(cache),
        error_count(cache) <= cache.len(),
    decreases cache.len(),
{
    assert(cache.push(s).drop_last() =~= cache);
    if cache.len() > 0 {
        errors_are_counted(cache.drop_last(), s);
    }
}

/// What was fetched is shown as it came; a fetch that failed is shown with its message, and one that
/// took too long as such, for the provider that was asked.
pub proof fn a_fetch_is_shown_as_it_came(
    provider: Provider,
    snapshot: ProviderUsageSnapshot,
    message: String,
    state: ProviderStateKind,
    at: Seq<char>,
)
    ensures
        outcome_usage(provider, FetchOutcome::Fetched(snapshot), at) == snapshot@,
        ({
            let failed = outcome_usage(provider, (FetchOutcome::Failed { message, state }), at);
            &&& failed.error == Some(message@)
            &&& failed.provider_id == provider.cli_name@
            &&& failed.updated_at == at
        }),
        ({
            let late = outcome_usage(provider, FetchOutcome::TimedOut, at);
            &&& late.error == Some("Timeout"@)
            &&& late.provider_id == provider.cli_name@
        }),
{
}

/// The number that counts for a provider is the last one that was noted.
pub proof fn the_last_count_counts(entries: Seq<(ProviderId, u32)>, id: ProviderId, n: u32)
    ensures
        count_in(Seq::empty(), id) is None,
        count_in(entries.push((id, n)), id) == Some(n),
        forall|k: ProviderId|
            k != id ==> #[trigger] count_in(entries.push((id, n)), k) == count_in(entries, k),
{
    assert(entries.push((id, n)).drop_last() =~= entries);
}

/// A batch is started exactly where none is under way and the refresh cannot be skipped; it then has
/// a new number, and what is cached stays.
pub proof fn one_batch_runs_at_a_time(
    force: bool,
    pinned: bool,
    now: u128,
    stale_after: u128,
    r: Option<u64>,
)
    ensures
        forall|state: &mut AppState| #[trigger]
            call_ensures(begin_provider_refresh, (state, force, pinned, now, stale_after), r) ==> {
                &&& state.is_refreshing ==> r is None && *final(state) == *state
                &&& !state.is_refreshing && force ==> r is Some
                &&& !state.is_refreshing && state.provider_cache@.len() == 0 ==> r is Some
                &&& r is Some ==> final(state).is_refreshing
                    && final(state).provider_refresh_generation == r->Some_0 && r->Some_0
                    != state.provider_refresh_generation
                    && final(state).provider_refresh_started_at == Some(now)
                    && final(state).provider_cache == state.provider_cache
                &&& r is None ==> *final(state) == *state
                &&& !force && pinned && state.provider_cache@.len() > 0 ==> r is None
            },
{
}

/// A batch is ended by itself alone: it then no longer runs, its time is noted, and the failures are
/// counted. A batch whose place another has taken changes nothing.
pub proof fn a_batch_is_ended_by_itself_alone(generation: u64, now: u128, r: Option<usize>)
    ensures
        forall|state: &mut AppState| #[trigger]
            call_ensures(finish_provider_refresh, (state, generation, now), r) ==> {
                &&& state.provider_refresh_generation != generation ==> r is None && *final(state)
                    == *state
                &&& state.provider_refresh_generation == generation ==> r is Some
                    && !final(state).is_refreshing && final(state).provider_cache_updated_at == Some(
                    now,
                ) && final(state).provider_refresh_started_at is None
                    && final(state).provider_cache == state.provider_cache && r->Some_0
                    == error_count(usages(state.provider_cache@))
            },
{
}

/// What a fetch brought is taken in only while its batch is the current one: a good snapshot is then
/// published and cached, and clears the count of failures.
pub proof fn only_the_current_batch_is_published(
    provider: &Provider,
    generation: u64,
    snapshot: ProviderUsageSnapshot,
    now: Moment,
    r: Option<ProviderUsageSnapshot>,
)
    ensures
        forall|state: &mut AppState| #[trigger]
            call_ensures(
                publish_provider_snapshot,
                (state, provider, generation, snapshot, now),
                r,
            ) ==> {
                &&& state.provider_refresh_generation != generation ==> r is None && *final(state)
                    == *state
                &&& state.provider_refresh_generation == generation ==> r is Some
                    && final(state).provider_refresh_generation == generation
                    && final(state).is_refreshing == state.is_refreshing
                &&& state.provider_refresh_generation == generation && snapshot.error is None
                    && snapshot.provider_id@ != "codex"@ ==> r->Some_0@ == snapshot@ && usages(
                    final(state).provider_cache@,
                ) == upserted(usages(state.provider_cache@), snapshot@)
                    && final(state).transient_provider_failure_counts.count(provider.id) is None
                &&& state.provider_refresh_generation == generation && snapshot.error is None
                    && snapshot.provider_id@ == "codex"@ ==> r->Some_0@.primary.used_percent
                    == snapshot@.primary.used_percent && r->Some_0@.error is None
            },
{
    assert forall|state: &mut AppState| #[trigger]
        call_ensures(
            publish_provider_snapshot,
            (state, provider, generation, snapshot, now),
            r,
        ) && state.provider_refresh_generation == generation && snapshot.error is None implies {
        &&& r is Some
        &&& snapshot.provider_id@ != "codex"@ ==> r->Some_0@ == snapshot@
        &&& snapshot.provider_id@ == "codex"@ ==> r->Some_0@.primary.used_percent
            == snapshot@.primary.used_percent && r->Some_0@.error is None
    } by {
        let cache = usages(state.provider_cache@);
        assert(snapshot@.error is None);
        what_is_shown_of_a_fetch(
            cache,
            state.transient_provider_failure_counts.count(provider.id),
            provider.cli_name@,
            snapshot@,
            provider.id,
        );
        backfill_changes_only_missing_resets(
            snapshot@,
            last_good(cache, snapshot@.provider_id),
            now,
        );
    }
}

/// A batch fetches every provider that is on, and the accounts of Codex where that is on; what is
/// cached of providers that are off goes.
pub proof fn a_batch_fetches_what_is_on(generation: u64, enabled: &Vec<Provider>, r: BatchPlan)
    ensures
        forall|state: &mut AppState| #[trigger]
            call_ensures(prepare_provider_refresh, (state, generation, enabled), r) ==> {
                &&& r.names@.len() == enabled@.len()
                &&& forall|i: int|
                    0 <= i < enabled@.len() ==> (#[trigger] r.names@[i])@ == enabled@[i].cli_name@
                &&& r.account_lanes <==> lists_id(enabled@, ProviderId::Codex)
                &&& state.provider_refresh_generation == generation ==> usages(
                    final(state).provider_cache@,
                ) == kept(usages(state.provider_cache@), enabled@)
                &&& state.provider_refresh_generation != generation ==> usages(
                    final(state).provider_cache@,
                ) == usages(state.provider_cache@)
            },
{
    assert forall|state: &mut AppState, i: int|
        #![trigger call_ensures(prepare_provider_refresh, (state, generation, enabled), r), r.names@[i]]
        call_ensures(prepare_provider_refresh, (state, generation, enabled), r) && 0 <= i
            < enabled@.len() implies r.names@.len() == enabled@.len() && r.names@[i]@
        == enabled@[i].cli_name@ by {
        assert(views(r.names@).len() == provider_names(enabled@).len());
        assert(views(r.names@)[i] == provider_names(enabled@)[i]);
    }
    assert forall|state: &mut AppState| #[trigger]
        call_ensures(prepare_provider_refresh, (state, generation, enabled), r) implies r.names@.len()
        == enabled@.len() by {
        assert(views(r.names@).len() == provider_names(enabled@).len());
    }
}

/// When the account of a provider changes, the batch under way is not the current one any more, and
/// what is shown meanwhile carries the provider's name and no usage.
pub proof fn a_changed_account_ends_the_batch(
    provider: &Provider,
    at: String,
    r: ProviderUsageSnapshot,
)
    ensures
        forall|state: &mut AppState| #[trigger]
            call_ensures(invalidate_account_usage, (state, provider, at), r) ==> {
                &&& final(state).provider_refresh_generation != state.provider_refresh_generation
                &&& !final(state).is_refreshing
                &&& r@.provider_id == provider.cli_name@
                &&& r@.error is Some
                &&& r@.primary.used_percent.scaled == 0
                &&& usages(final(state).provider_cache@).last() == r@
                &&& final(state).transient_provider_failure_counts.count(provider.id) is None
            },
{
}

/// Where providers are switched off, the batch under way is not the current one any more, and only
/// what is on stays known.
pub proof fn switching_off_ends_the_batch(enabled: &Vec<Provider>, id: ProviderId)
    ensures
        forall|state: &mut AppState| #[trigger]
            call_ensures(invalidate_provider_refresh_and_prune_disabled, (state, enabled), ()) ==> {
                &&& final(state).provider_refresh_generation != state.provider_refresh_generation
                &&& !final(state).is_refreshing
                &&& usages(final(state).provider_cache@) == kept(
                    usages(state.provider_cache@),
                    enabled@,
                )
                &&& !lists_id(enabled@, id)
                    ==> final(state).transient_provider_failure_counts.count(id) is None
                &&& lists_id(enabled@, id) ==> final(state).transient_provider_failure_counts.count(
                    id,
                ) == state.transient_provider_failure_counts.count(id)
            },
{
}

/// The duration of a fetch is noted with what it brought, and a fetch of more than five seconds is
/// slow.
pub proof fn the_duration_of_a_fetch_is_noted(
    provider: &Provider,
    outcome: FetchOutcome,
    at: String,
    ms: u128,
    r: (ProviderUsageSnapshot, bool),
)
    requires
        call_ensures(fetched_snapshot, (provider, outcome, at, ms), r),
    ensures
        r.0@.fetch_duration_ms == Some(ms),
        r.1 <==> ms > 5_000,
        outcome matches FetchOutcome::Fetched(s) ==> r.0@.primary == s@.primary && r.0@.secondary
            == s@.secondary && r.0@.provider_id == s@.provider_id && r.0@.error == s@.error,
        outcome matches FetchOutcome::TimedOut ==> r.0@.error is Some && r.0@.provider_id
            == provider.cli_name@,
{
}

/// While the usage of a new account is fetched, the provider is named.
pub proof fn a_pending_fetch_names_its_provider(name: Seq<char>)
    ensures
        pending_message(name) == "Account changed. Refreshing "@ + name + " usage…"@,
{
}

} // verus!
