//! How the providers stand, as the tray icon, its tooltip and its menu show it.

use vstd::prelude::*;
use vstd::string::{StrSliceExecFns, StringExecFns};
use crate::locale::{get_text, LocaleKey, Texts};
use crate::quantity::{doubles_are_not_rounded, rounded, rounding_stays_within_a_hundred, round_double, two_to, two_to_64, Quantity, ONE};
use crate::settings::{Settings, TrayIconMode};
use crate::snapshot::{ProviderUsageSnapshot, RateWindowSnapshot};
use crate::sorting::{is_stable_order, key_of_text, key_views, stable_order, text_key};
use crate::text::{join, joined, same, views};

verus! {

/// The window of a Codex account that stands for it: the first of session, week and month that
/// is not merely a placeholder; else the session.
pub open spec fn lane_headline(s: ProviderUsageSnapshot) -> RateWindowSnapshot {
    if !s.primary.is_informational {
        s.primary
    } else if s.secondary is Some && !s.secondary->0.is_informational {
        s.secondary->0
    } else if s.tertiary is Some && !s.tertiary->0.is_informational {
        s.tertiary->0
    } else {
        s.primary
    }
}

/// The window of a Codex account that stands for it.
pub fn codex_lane_headline_window<'a>(snapshot: &'a ProviderUsageSnapshot) -> (r:
    &'a RateWindowSnapshot)
    ensures
        *r == lane_headline(*snapshot),
{
    if !snapshot.primary.is_informational {
        return &snapshot.primary;
    }
    if let Some(secondary) = &snapshot.secondary {
        if !secondary.is_informational {
            return secondary;
        }
    }
    if let Some(tertiary) = &snapshot.tertiary {
        if !tertiary.is_informational {
            return tertiary;
        }
    }
    &snapshot.primary
}

/// The window that stands for a provider.
pub open spec fn headline(s: ProviderUsageSnapshot) -> RateWindowSnapshot {
    if s.provider_id@ == "codex"@ {
        lane_headline(s)
    } else {
        s.primary
    }
}

/// The window that stands for a provider.
pub fn headline_window<'a>(snapshot: &'a ProviderUsageSnapshot) -> (r: &'a RateWindowSnapshot)
    ensures
        *r == headline(*snapshot),
{
    if same(snapshot.provider_id.as_str(), "codex") {
        codex_lane_headline_window(snapshot)
    } else {
        &snapshot.primary
    }
}

/// A placeholder stands for a Codex account only where every window is one.
pub proof fn placeholder_is_the_last_resort(s: ProviderUsageSnapshot)
    ensures
        lane_headline(s).is_informational ==> {
            &&& s.primary.is_informational
            &&& s.secondary is Some ==> s.secondary->0.is_informational
            &&& s.tertiary is Some ==> s.tertiary->0.is_informational
        },
{
}

/// How much of their session windows providers have used.
pub open spec fn used_percents(snapshots: Seq<&ProviderUsageSnapshot>) -> Seq<i128> {
    snapshots.map_values(|s: &ProviderUsageSnapshot| s.primary.used_percent.scaled)
}

/// The place of the largest of the first `n` numbers; of equal ones the last.
pub open spec fn last_highest(percents: Seq<i128>, n: int) -> int
    decreases n,
{
    if n <= 1 {
        0
    } else {
        let k = last_highest(percents, n - 1);
        if percents[k] <= percents[n - 1] {
            n - 1
        } else {
            k
        }
    }
}

/// Nothing is above the highest, and nothing behind it is as high.
pub proof fn last_highest_is_highest(percents: Seq<i128>, n: int)
    requires
        0 < n <= percents.len(),
    ensures
        0 <= last_highest(percents, n) < n,
        forall|j: int| 0 <= j < n ==> #[trigger] percents[j] <= percents[last_highest(percents, n)],
        forall|j: int|
            last_highest(percents, n) < j < n ==> #[trigger] percents[j]
                < percents[last_highest(percents, n)],
    decreases n,
{
    if n > 1 {
        last_highest_is_highest(percents, n - 1);
    }
}

/// The place of the provider that the icon shows.
pub open spec fn picked(percents: Seq<i128>, prefer_highest: bool) -> Option<int> {
    if percents.len() == 0 {
        None
    } else if prefer_highest {
        Some(last_highest(percents, percents.len() as int))
    } else {
        Some(0)
    }
}

fn pick_place(percents: &Vec<i128>, prefer_highest: bool) -> (r: Option<usize>)
    ensures
        match r {
            Some(k) => picked(percents@, prefer_highest) == Some(k as int) && k < percents@.len(),
            None => picked(percents@, prefer_highest) is None,
        },
{
    if percents.len() == 0 {
        return None;
    }
    let mut k: usize = 0;
    if prefer_highest {
        let mut n: usize = 1;
        while n < percents.len()
            invariant
                0 < n <= percents@.len(),
                k < n,
                k == last_highest(percents@, n as int),
            decreases percents@.len() - n,
        {
            if percents[k] <= percents[n] {
                k = n;
            }
            n += 1;
        }
    }
    Some(k)
}

/// The provider that the icon shows: the one that has used the most of its session, or the
/// first.
pub fn pick_tray_provider<'a>(
    ok_snapshots: &Vec<&'a ProviderUsageSnapshot>,
    prefer_highest: bool,
) -> (r: Option<&'a ProviderUsageSnapshot>)
    ensures
        match picked(used_percents(ok_snapshots@), prefer_highest) {
            Some(k) => r == Some(ok_snapshots@[k]),
            None => r is None,
        },
{
    let mut percents: Vec<i128> = Vec::new();
    let mut i: usize = 0;
    while i < ok_snapshots.len()
        invariant
            i <= ok_snapshots@.len(),
            percents@ == used_percents(ok_snapshots@).take(i as int),
        decreases ok_snapshots@.len() - i,
    {
        percents.push(ok_snapshots[i].primary.used_percent.scaled);
        assert(percents@ =~= used_percents(ok_snapshots@).take(i + 1));
        i += 1;
    }
    assert(percents@ =~= used_percents(ok_snapshots@));
    match pick_place(&percents, prefer_highest) {
        Some(k) => Some(ok_snapshots[k]),
        None => None,
    }
}

/// A hundred percent.
pub const FULL: i128 = 0x64_0000_0000_0000_0000;

/// What a meter shows of a used share: the share itself or what is left, between 0 and 100.
pub open spec fn metered(used: int, show_as_used: bool) -> int {
    let bounded = if used < 0 {
        0
    } else if used > FULL {
        FULL as int
    } else {
        used
    };
    if show_as_used {
        bounded
    } else {
        rounded(FULL - bounded)
    }
}

/// What a meter shows of a used share.
pub fn display_metric_percent(used_percent: Quantity, show_as_used: bool) -> (r: Quantity)
    ensures
        r.scaled == metered(used_percent.scaled as int, show_as_used),
        r.wf(),
{
    let used: i128 = if used_percent.scaled < 0 {
        0
    } else if used_percent.scaled > FULL {
        FULL
    } else {
        used_percent.scaled
    };
    if show_as_used {
        Quantity { scaled: used }
    } else {
        proof {
            rounding_stays_within_a_hundred((FULL - used) as nat);
        }
        Quantity { scaled: round_double(FULL - used) }
    }
}

/// What is used and what is left make a hundred, but for the rounding of doubles, and neither
/// leaves the meter.
pub proof fn meters_add_up(used: int)
    ensures
        metered(used, false) == rounded(FULL - metered(used, true)),
        0 <= metered(used, true) <= FULL,
        0 <= metered(used, false) <= FULL,
{
    rounding_stays_within_a_hundred((FULL - metered(used, true)) as nat);
}

/// The first characters of a text, with dots where some are left out.
pub open spec fn shortened(text: Seq<char>, max_chars: nat) -> Seq<char> {
    if text.len() <= max_chars {
        text
    } else {
        text.take(max_chars as int) + "..."@
    }
}

/// Cuts a text to a number of characters, and puts dots where some are left out.
pub fn truncate_tooltip_text(text: &str, max_chars: usize) -> (r: String)
    ensures
        r@ == shortened(text@, max_chars as nat),
{
    let n = text.unicode_len();
    if n <= max_chars {
        text.to_owned()
    } else {
        let mut out = text.substring_char(0, max_chars).to_owned();
        assert(out@ =~= text@.take(max_chars as int));
        out.append("...");
        out
    }
}

/// A shortened text is at most three characters longer than it may be, and one that fits stays.
pub proof fn shortened_text_is_bounded(text: Seq<char>, max_chars: nat)
    ensures
        shortened(text, max_chars).len() <= max_chars + 3,
        text.len() <= max_chars ==> shortened(text, max_chars) == text,
{
    reveal_strlit("...");
}

/// The line of a provider in the tooltip: its error, else its label.
pub open spec fn tooltip_line(s: ProviderUsageSnapshot, label: Seq<char>, error: Seq<char>) -> Seq<
    char,
> {
    match s.error {
        Some(e) => s.display_name@ + ": "@ + error + " ("@ + shortened(e@, 36) + ")"@,
        None => s.display_name@ + ": "@ + shortened(label, 42),
    }
}

/// The lines of the tooltip.
pub open spec fn tooltip_lines(
    snapshots: Seq<ProviderUsageSnapshot>,
    labels: Seq<Seq<char>>,
    error: Seq<char>,
) -> Seq<Seq<char>> {
    Seq::new(snapshots.len(), |i: int| tooltip_line(snapshots[i], labels[i], error))
}

/// The tooltip: the name of the application, or a line for each provider below it. `labels`
/// holds the compact label of each provider's headline window.
pub fn build_tooltip(
    snapshots: &Vec<ProviderUsageSnapshot>,
    labels: &Vec<String>,
    texts: &Texts,
) -> (r: String)
    requires
        labels@.len() == snapshots@.len(),
    ensures
        r@ == (if snapshots@.len() == 0 {
            "CodexBar Desktop"@
        } else {
            "CodexBar\n"@ + joined(
                tooltip_lines(
                    snapshots@,
                    views(labels@),
                    texts.shown(LocaleKey::TrayStatusRowError),
                ),
                "\n"@,
            )
        }),
{
    if snapshots.len() == 0 {
        return "CodexBar Desktop".to_owned();
    }
    let error_label = get_text(texts, LocaleKey::TrayStatusRowError);
    let ghost all = tooltip_lines(snapshots@, views(labels@), error_label@);
    let mut lines: Vec<String> = Vec::new();
    let mut i: usize = 0;
    assert(views(lines@) =~= all.take(0));
    while i < snapshots.len()
        invariant
            i <= snapshots@.len(),
            labels@.len() == snapshots@.len(),
            all == tooltip_lines(snapshots@, views(labels@), error_label@),
            views(lines@) == all.take(i as int),
        decreases snapshots@.len() - i,
    {
        let s = &snapshots[i];
        let mut line = s.display_name.clone();
        line.append(": ");
        match &s.error {
            Some(err) => {
                line.append(error_label.as_str());
                line.append(" (");
                line.append(truncate_tooltip_text(err.as_str(), 36).as_str());
                line.append(")");
            },
            None => {
                line.append(truncate_tooltip_text(labels[i].as_str(), 42).as_str());
            },
        }
        assert(line@ =~= all[i as int]);
        let ghost before = lines@;
        lines.push(line);
        assert(views(lines@) =~= views(before).push(all[i as int]));
        assert(all.take(i + 1) =~= all.take(i as int).push(all[i as int]));
        i += 1;
    }
    assert(all.take(i as int) =~= all);
    let mut out = "CodexBar\n".to_owned();
    out.append(join(lines.as_slice(), "\n").as_str());
    out
}

/// The last place of a name among the first `n`.
pub open spec fn last_place(names: Seq<Seq<char>>, name: Seq<char>, n: int) -> Option<int>
    decreases n,
{
    if n <= 0 {
        None
    } else if names[n - 1] == name {
        Some(n - 1)
    } else {
        last_place(names, name, n - 1)
    }
}

/// The rank of a provider: its place in the user's order; providers without one come last.
pub open spec fn rank(names: Seq<Seq<char>>, provider_id: Seq<char>) -> i64 {
    match last_place(names, provider_id, names.len() as int) {
        Some(k) => k as i64,
        None => i64::MAX,
    }
}

/// The key by which providers are ordered: the rank, then the name shown.
pub open spec fn order_key(names: Seq<Seq<char>>, s: ProviderUsageSnapshot) -> Seq<i64> {
    seq![rank(names, s.provider_id@)] + text_key(s.display_name@)
}

/// The keys of snapshots.
pub open spec fn order_keys(names: Seq<Seq<char>>, snapshots: Seq<ProviderUsageSnapshot>) -> Seq<
    Seq<i64>,
> {
    Seq::new(snapshots.len(), |i: int| order_key(names, snapshots[i]))
}

fn rank_of(names: &Vec<String>, provider_id: &str) -> (r: i64)
    requires
        names@.len() < i64::MAX,
    ensures
        r == rank(views(names@), provider_id@),
{
    let mut n: usize = names.len();
    while n > 0
        invariant
            n <= names@.len() < i64::MAX,
            last_place(views(names@), provider_id@, names@.len() as int) == last_place(
                views(names@),
                provider_id@,
                n as int,
            ),
        decreases n,
    {
        if same(names[n - 1].as_str(), provider_id) {
            return (n - 1) as i64;
        }
        n -= 1;
    }
    i64::MAX
}

/// The places of the snapshots in the order in which they are shown: as the user ordered their
/// providers, the others behind them, and by the name shown where the ranks are equal.
pub fn ordered_snapshot_refs(names: &Vec<String>, snapshots: &Vec<ProviderUsageSnapshot>) -> (r: Vec<
    usize,
>)
    requires
        names@.len() < i64::MAX,
    ensures
        is_stable_order(order_keys(views(names@), snapshots@), r@),
{
    let ghost all = order_keys(views(names@), snapshots@);
    let mut keys: Vec<Vec<i64>> = Vec::new();
    let mut i: usize = 0;
    assert(key_views(keys@) =~= all.take(0));
    while i < snapshots.len()
        invariant
            i <= snapshots@.len(),
            names@.len() < i64::MAX,
            all == order_keys(views(names@), snapshots@),
            key_views(keys@) == all.take(i as int),
        decreases snapshots@.len() - i,
    {
        let s = &snapshots[i];
        let mut key: Vec<i64> = Vec::new();
        key.push(rank_of(names, s.provider_id.as_str()));
        let mut name = key_of_text(s.display_name.as_str());
        key.append(&mut name);
        assert(key@ =~= all[i as int]);
        let ghost before = keys@;
        keys.push(key);
        assert(key_views(keys@) =~= key_views(before).push(all[i as int]));
        assert(all.take(i + 1) =~= all.take(i as int).push(all[i as int]));
        i += 1;
    }
    assert(all.take(i as int) =~= all);
    stable_order(&keys)
}

/// What the user put in order stays in that order, before everything else.
pub proof fn users_order_is_kept(
    names: Seq<Seq<char>>,
    snapshots: Seq<ProviderUsageSnapshot>,
    order: Seq<usize>,
    p: int,
    q: int,
)
    requires
        is_stable_order(order_keys(names, snapshots), order),
        0 <= p < q < order.len(),
    ensures
        rank(names, snapshots[order[p] as int].provider_id@) <= rank(
            names,
            snapshots[order[q] as int].provider_id@,
        ),
{
    let keys = order_keys(names, snapshots);
    assert(crate::sorting::goes_before(keys, order[p] as int, order[q] as int));
    assert(keys[order[p] as int][0] == rank(names, snapshots[order[p] as int].provider_id@));
    assert(keys[order[q] as int][0] == rank(names, snapshots[order[q] as int].provider_id@));
}

/// The places among the first `n` at which there is no error.
pub open spec fn healthy(
    snapshots: Seq<ProviderUsageSnapshot>,
    order: Seq<usize>,
    n: int,
) -> Seq<usize>
    decreases n,
{
    if n <= 0 {
        Seq::empty()
    } else if snapshots[order[n - 1] as int].error is None {
        healthy(snapshots, order, n - 1).push(order[n - 1])
    } else {
        healthy(snapshots, order, n - 1)
    }
}

fn healthy_places(snapshots: &Vec<ProviderUsageSnapshot>, order: &Vec<usize>) -> (r: Vec<usize>)
    requires
        forall|p: int| 0 <= p < order@.len() ==> 0 <= #[trigger] order@[p] < snapshots@.len(),
    ensures
        r@ == healthy(snapshots@, order@, order@.len() as int),
        forall|p: int| 0 <= p < r@.len() ==> 0 <= #[trigger] r@[p] < snapshots@.len(),
{
    let mut out: Vec<usize> = Vec::new();
    let mut i: usize = 0;
    while i < order.len()
        invariant
            i <= order@.len(),
            forall|p: int| 0 <= p < order@.len() ==> 0 <= #[trigger] order@[p] < snapshots@.len(),
            out@ == healthy(snapshots@, order@, i as int),
            forall|p: int| 0 <= p < out@.len() ==> 0 <= #[trigger] out@[p] < snapshots@.len(),
        decreases order@.len() - i,
    {
        if snapshots[order[i]].error.is_none() {
            out.push(order[i]);
        }
        i += 1;
    }
    out
}

/// The used shares at some places.
pub open spec fn used_at(snapshots: Seq<ProviderUsageSnapshot>, places: Seq<usize>) -> Seq<i128> {
    Seq::new(places.len(), |p: int| snapshots[places[p] as int].primary.used_percent.scaled)
}

/// Whether the provider that has used the most is shown, rather than the first.
pub open spec fn prefers_highest(settings: Settings) -> bool {
    settings.menu_bar_shows_highest_usage || settings.menu_bar_display_mode@ == "minimal"@
}

/// The place of the snapshot that is shown for all.
pub open spec fn chosen(
    settings: Settings,
    snapshots: Seq<ProviderUsageSnapshot>,
    places: Seq<usize>,
) -> Option<usize> {
    match picked(used_at(snapshots, places), prefers_highest(settings)) {
        Some(k) => Some(places[k]),
        None => None,
    }
}

fn choose_place(settings: &Settings, snapshots: &Vec<ProviderUsageSnapshot>, places: &Vec<usize>) -> (r:
    Option<usize>)
    requires
        forall|p: int| 0 <= p < places@.len() ==> 0 <= #[trigger] places@[p] < snapshots@.len(),
    ensures
        r == chosen(*settings, snapshots@, places@),
        r matches Some(k) ==> k < snapshots@.len(),
{
    let highest = settings.menu_bar_shows_highest_usage || same(
        settings.menu_bar_display_mode.as_str(),
        "minimal",
    );
    let mut percents: Vec<i128> = Vec::new();
    let mut i: usize = 0;
    while i < places.len()
        invariant
            i <= places@.len(),
            forall|p: int| 0 <= p < places@.len() ==> 0 <= #[trigger] places@[p] < snapshots@.len(),
            percents@ == used_at(snapshots@, places@).take(i as int),
        decreases places@.len() - i,
    {
        percents.push(snapshots[places[i]].primary.used_percent.scaled);
        assert(percents@ =~= used_at(snapshots@, places@).take(i + 1));
        i += 1;
    }
    assert(percents@ =~= used_at(snapshots@, places@));
    match pick_place(&percents, highest) {
        Some(k) => Some(places[k]),
        None => None,
    }
}

/// What is needed beside a snapshot to label its row: whether the user wants to see what the
/// plan costs by the month, that amount, and the compact label of the headline window.
#[derive(Debug)]
pub struct StatusText {
    pub monthly_plan: bool,
    pub cost_amount: String,
    pub compact: String,
}

/// What a row says behind the provider's name.
pub open spec fn row_text(s: ProviderUsageSnapshot, text: StatusText) -> Seq<char> {
    if text.monthly_plan && s.cost is Some {
        if s.cost->0.formatted_used@.len() > 0 {
            s.cost->0.formatted_used@
        } else {
            text.cost_amount@
        }
    } else {
        text.compact@
    }
}

/// The id and the label of a provider's row.
pub open spec fn row_label(s: ProviderUsageSnapshot, text: StatusText) -> (Seq<char>, Seq<char>) {
    (s.provider_id@, s.display_name@ + " "@ + row_text(s, text))
}

/// The view of a pair of texts.
pub open spec fn pair_view(p: (String, String)) -> (Seq<char>, Seq<char>) {
    (p.0@, p.1@)
}

/// The views of pairs of texts.
pub open spec fn pair_views(v: Seq<(String, String)>) -> Seq<(Seq<char>, Seq<char>)> {
    v.map_values(|p: (String, String)| pair_view(p))
}

/// The id and the label of a provider's row.
pub fn provider_status_label(snapshot: &ProviderUsageSnapshot, text: &StatusText) -> (r: (
    String,
    String,
))
    ensures
        pair_view(r) == row_label(*snapshot, *text),
{
    let mut label = snapshot.display_name.clone();
    label.append(" ");
    if text.monthly_plan {
        if let Some(cost) = &snapshot.cost {
            if !cost.formatted_used.as_str().is_empty() {
                label.append(cost.formatted_used.as_str());
            } else {
                label.append(text.cost_amount.as_str());
            }
            return (snapshot.provider_id.clone(), label);
        }
    }
    label.append(text.compact.as_str());
    (snapshot.provider_id.clone(), label)
}

/// The rows for the snapshots at some places.
pub open spec fn rows_at(
    snapshots: Seq<ProviderUsageSnapshot>,
    texts: Seq<StatusText>,
    places: Seq<usize>,
) -> Seq<(Seq<char>, Seq<char>)> {
    Seq::new(
        places.len(),
        |p: int| row_label(snapshots[places[p] as int], texts[places[p] as int]),
    )
}

/// The rows that tell how the providers stand: one for each that is well, or one for all.
pub open spec fn status_rows(
    settings: Settings,
    snapshots: Seq<ProviderUsageSnapshot>,
    texts: Seq<StatusText>,
    order: Seq<usize>,
) -> Seq<(Seq<char>, Seq<char>)> {
    let places = healthy(snapshots, order, order.len() as int);
    if settings.tray_icon_mode == TrayIconMode::PerProvider {
        rows_at(snapshots, texts, places)
    } else {
        match chosen(settings, snapshots, places) {
            Some(k) => seq![
                ("status_summary"@, row_label(snapshots[k as int], texts[k as int]).1),
            ],
            None => Seq::empty(),
        }
    }
}

/// The rows that tell how the providers stand. `texts` holds one entry for each snapshot.
pub fn status_labels_for_settings(
    settings: &Settings,
    snapshots: &Vec<ProviderUsageSnapshot>,
    texts: &Vec<StatusText>,
) -> (r: Vec<(String, String)>)
    requires
        settings.provider_display_order@.len() < i64::MAX,
        texts@.len() == snapshots@.len(),
    ensures
        exists|order: Seq<usize>|
            #![trigger is_stable_order(
                order_keys(views(settings.provider_display_order@), snapshots@),
                order,
            )]
            is_stable_order(order_keys(views(settings.provider_display_order@), snapshots@), order)
                && pair_views(r@) == status_rows(*settings, snapshots@, texts@, order),
{
    let order = ordered_snapshot_refs(&settings.provider_display_order, snapshots);
    let places = healthy_places(snapshots, &order);
    let mut out: Vec<(String, String)> = Vec::new();
    if settings.tray_icon_mode == TrayIconMode::PerProvider {
        let ghost all = rows_at(snapshots@, texts@, places@);
        let mut i: usize = 0;
        assert(pair_views(out@) =~= all.take(0));
        while i < places.len()
            invariant
                i <= places@.len(),
                texts@.len() == snapshots@.len(),
                forall|p: int|
                    0 <= p < places@.len() ==> 0 <= #[trigger] places@[p] < snapshots@.len(),
                all == rows_at(snapshots@, texts@, places@),
                pair_views(out@) == all.take(i as int),
            decreases places@.len() - i,
        {
            let row = provider_status_label(&snapshots[places[i]], &texts[places[i]]);
            let ghost before = out@;
            out.push(row);
            assert(pair_views(out@) =~= pair_views(before).push(all[i as int]));
            assert(all.take(i + 1) =~= all.take(i as int).push(all[i as int]));
            i += 1;
        }
        assert(all.take(i as int) =~= all);
        assert(pair_views(out@) == status_rows(*settings, snapshots@, texts@, order@));
        return out;
    }
    match choose_place(settings, snapshots, &places) {
        Some(k) => {
            let row = provider_status_label(&snapshots[k], &texts[k]);
            out.push(("status_summary".to_owned(), row.1));
        },
        None => {},
    }
    assert(pair_views(out@) =~= status_rows(*settings, snapshots@, texts@, order@));
    out
}

/// What the icon of the tray shows.
#[derive(Clone, Copy, Debug)]
pub struct IconPlan {
    /// A number rather than bars.
    pub as_percent: bool,
    pub session: Quantity,
    pub weekly: Option<Quantity>,
    /// No provider is well, and there is at least one.
    pub all_error: bool,
}

/// The shares that a meter shows, out of the used shares of the window selected for a provider
/// and of the one beside it.
pub open spec fn meters(selected: (Quantity, Option<Quantity>), show_as_used: bool) -> (
    int,
    Option<int>,
) {
    (
        metered(selected.0.scaled as int, show_as_used),
        match selected.1 {
            Some(q) => Some(metered(q.scaled as int, show_as_used)),
            None => None,
        },
    )
}

/// The shares that a meter shows.
pub fn selected_tray_percents(
    selected: Quantity,
    companion: Option<Quantity>,
    show_as_used: bool,
) -> (r: (Quantity, Option<Quantity>))
    ensures
        r.0.scaled == meters((selected, companion), show_as_used).0,
        match r.1 {
            Some(q) => meters((selected, companion), show_as_used).1 == Some(q.scaled as int),
            None => companion is None,
        },
{
    let weekly = match companion {
        Some(q) => Some(display_metric_percent(q, show_as_used)),
        None => None,
    };
    (display_metric_percent(selected, show_as_used), weekly)
}

/// The highest of the shares that meters show for the first `n` snapshots; 0 for none.
pub open spec fn highest_meter(
    selected: Seq<(Quantity, Option<Quantity>)>,
    show_as_used: bool,
    n: int,
) -> int
    decreases n,
{
    if n <= 0 {
        0
    } else {
        let before = highest_meter(selected, show_as_used, n - 1);
        let last = meters(selected[n - 1], show_as_used).0;
        if last > before {
            last
        } else {
            before
        }
    }
}

/// The highest of the shares that meters show.
fn find_highest_meter(selected: &Vec<(Quantity, Option<Quantity>)>, show_as_used: bool) -> (r: Quantity)
    ensures
        r.scaled == highest_meter(selected@, show_as_used, selected@.len() as int),
{
    let mut highest = Quantity { scaled: 0 };
    let mut i: usize = 0;
    while i < selected.len()
        invariant
            i <= selected@.len(),
            highest.scaled == highest_meter(selected@, show_as_used, i as int),
        decreases selected@.len() - i,
    {
        let shown = display_metric_percent(selected[i].0, show_as_used);
        if shown.scaled > highest.scaled {
            highest = shown;
        }
        i += 1;
    }
    highest
}

/// Whether a plan shows the provider that is chosen for the icon; where none is well, the
/// highest share that was last known.
pub open spec fn plan_fits(
    plan: IconPlan,
    settings: Settings,
    snapshots: Seq<ProviderUsageSnapshot>,
    selected: Seq<(Quantity, Option<Quantity>)>,
    order: Seq<usize>,
) -> bool {
    let places = healthy(snapshots, order, order.len() as int);
    let shown = match chosen(settings, snapshots, places) {
        Some(k) => meters(selected[k as int], settings.show_as_used),
        None => (highest_meter(selected, settings.show_as_used, selected.len() as int), None),
    };
    &&& plan.as_percent == settings.menu_bar_shows_percent
    &&& plan.all_error == (places.len() == 0 && snapshots.len() > 0)
    &&& plan.session.scaled == shown.0
    &&& plan.weekly is Some == shown.1 is Some
    &&& plan.weekly matches Some(q) ==> shown.1 == Some(q.scaled as int)
}

/// What the icon shows. `selected` holds, for each snapshot, the used share of the window
/// selected for its provider and of the one beside it.
pub fn plan_tray_icon(
    settings: &Settings,
    snapshots: &Vec<ProviderUsageSnapshot>,
    selected: &Vec<(Quantity, Option<Quantity>)>,
) -> (r: IconPlan)
    requires
        settings.provider_display_order@.len() < i64::MAX,
        selected@.len() == snapshots@.len(),
    ensures
        exists|order: Seq<usize>|
            #![trigger is_stable_order(
                order_keys(views(settings.provider_display_order@), snapshots@),
                order,
            )]
            is_stable_order(order_keys(views(settings.provider_display_order@), snapshots@), order)
                && plan_fits(r, *settings, snapshots@, selected@, order),
{
    let order = ordered_snapshot_refs(&settings.provider_display_order, snapshots);
    let places = healthy_places(snapshots, &order);
    let all_error = places.len() == 0 && snapshots.len() > 0;
    let (session, weekly) = match choose_place(settings, snapshots, &places) {
        Some(k) => selected_tray_percents(selected[k].0, selected[k].1, settings.show_as_used),
        None => (find_highest_meter(selected, settings.show_as_used), None),
    };
    let plan = IconPlan {
        as_percent: settings.menu_bar_shows_percent,
        session,
        weekly,
        all_error,
    };
    assert(plan_fits(plan, *settings, snapshots@, selected@, order@));
    plan
}

/// Where no provider is well, the icon says so, and shows the highest share that was last known:
/// no snapshot's meter is above it, and it is the meter of one of them.
pub proof fn icon_without_healthy_providers_shows_the_highest(
    plan: IconPlan,
    settings: Settings,
    snapshots: Seq<ProviderUsageSnapshot>,
    selected: Seq<(Quantity, Option<Quantity>)>,
    order: Seq<usize>,
)
    requires
        plan_fits(plan, settings, snapshots, selected, order),
        healthy(snapshots, order, order.len() as int).len() == 0,
        selected.len() == snapshots.len(),
        snapshots.len() > 0,
    ensures
        plan.all_error && plan.weekly is None,
        forall|i: int|
            0 <= i < selected.len() ==> meters(#[trigger] selected[i], settings.show_as_used).0
                <= plan.session.scaled,
        exists|i: int|
            0 <= i < selected.len() && meters(#[trigger] selected[i], settings.show_as_used).0
                == plan.session.scaled,
{
    lemma_highest_meter(selected, settings.show_as_used, selected.len() as int);
}

proof fn lemma_highest_meter(
    selected: Seq<(Quantity, Option<Quantity>)>,
    show_as_used: bool,
    n: int,
)
    requires
        0 <= n <= selected.len(),
    ensures
        forall|i: int|
            0 <= i < n ==> meters(#[trigger] selected[i], show_as_used).0 <= highest_meter(
                selected,
                show_as_used,
                n,
            ),
        n > 0 ==> exists|i: int|
            0 <= i < n && meters(#[trigger] selected[i], show_as_used).0 == highest_meter(
                selected,
                show_as_used,
                n,
            ),
    decreases n,
{
    if n > 0 {
        lemma_highest_meter(selected, show_as_used, n - 1);
        meters_add_up(selected[n - 1].0.scaled as int);
        let last = meters(selected[n - 1], show_as_used).0;
        assert(last >= 0);
        if n == 1 {
            assert(highest_meter(selected, show_as_used, 0) == 0);
        }
    }
}

/// A Codex account is shown by the first of its session, week and month that is more than a
/// placeholder; any other provider by its session.
pub proof fn a_provider_is_shown_by_its_first_real_window(s: ProviderUsageSnapshot)
    ensures
        !s.primary.is_informational ==> lane_headline(s) == s.primary,
        s.primary.is_informational && s.secondary is Some && !s.secondary->Some_0.is_informational
            ==> lane_headline(s) == s.secondary->Some_0,
        s.primary.is_informational && s.secondary is None && s.tertiary is Some
            && !s.tertiary->Some_0.is_informational ==> lane_headline(s) == s.tertiary->Some_0,
        s.primary.is_informational && s.secondary is None && s.tertiary is None ==> lane_headline(s)
            == s.primary,
        s.provider_id@ != "codex"@ ==> headline(s) == s.primary,
        s.provider_id@ == "codex"@ ==> headline(s) == lane_headline(s),
{
}

/// The provider that is shown is the one that used the most, or the first, as is preferred; none
/// where there is none.
pub proof fn the_shown_provider_is_the_preferred_one(percents: Seq<i128>, highest: bool)
    ensures
        percents.len() == 0 ==> picked(percents, highest) is None,
        percents.len() > 0 && !highest ==> picked(percents, highest) == Some(0int),
        percents.len() > 0 && highest ==> {
            let k = picked(percents, highest)->Some_0;
            &&& picked(percents, highest) is Some
            &&& 0 <= k < percents.len()
            &&& forall|j: int| 0 <= j < percents.len() ==> #[trigger] percents[j] <= percents[k]
        },
{
    if percents.len() > 0 {
        last_highest_is_highest(percents, percents.len() as int);
    }
}

/// A meter shows `n` percent where `n` percent are used and use is shown, and a hundred less `n`
/// where what is left is shown; it stays between nothing and a hundred.
pub proof fn a_meter_shows_use_or_what_is_left(n: int)
    ensures
        0 <= n <= 100 ==> metered(n * 0x1_0000_0000_0000_0000, true) == n * 0x1_0000_0000_0000_0000,
        0 <= n <= 100 ==> metered(n * 0x1_0000_0000_0000_0000, false) == (100 - n)
            * 0x1_0000_0000_0000_0000,
        n < 0 ==> metered(n, true) == 0 && metered(n, false) == 100 * 0x1_0000_0000_0000_0000,
        n > 100 * 0x1_0000_0000_0000_0000 ==> metered(n, true) == 100 * 0x1_0000_0000_0000_0000
            && metered(n, false) == 0,
{
    two_to_64();
    doubles_are_not_rounded(100, 64);
    doubles_are_not_rounded(0, 64);
    if 0 <= n <= 100 {
        doubles_are_not_rounded((100 - n) as nat, 64);
        assert((100 - n) as nat * two_to(64) == (100 - n) * ONE);
        assert(FULL - n * ONE == (100 - n) * ONE);
    }
}

/// A text that is too long is cut where it has to be, and dots follow.
pub proof fn a_long_text_is_cut(text: Seq<char>, n: nat)
    ensures
        text.len() > n ==> shortened(text, n) == text.subrange(0, n as int) + "..."@,
{
    if text.len() > n {
        assert(text.take(n as int) =~= text.subrange(0, n as int));
    }
}

/// A provider's line in the tooltip begins with its name, and tells its error where it has one, else
/// its label.
pub proof fn a_line_tells_the_error_or_the_label(
    s: ProviderUsageSnapshot,
    label: Seq<char>,
    error: Seq<char>,
)
    ensures
        s.error is None && label.len() <= 42 ==> tooltip_line(s, label, error) == s.display_name@
            + ": "@ + label,
        s.error matches Some(e) ==> e@.len() <= 36 ==> tooltip_line(s, label, error)
            == s.display_name@ + ": "@ + error + " ("@ + e@ + ")"@,
        s.display_name@.is_prefix_of(tooltip_line(s, label, error)),
{
    let line = tooltip_line(s, label, error);
    assert(s.display_name@ =~= line.take(s.display_name@.len() as int));
}

/// A provider that the user put in order ranks by its last place there, and one that they did not
/// ranks behind all.
pub proof fn a_rank_is_a_place(names: Seq<Seq<char>>, id: Seq<char>, k: int)
    requires
        names.len() < i64::MAX,
    ensures
        0 <= k < names.len() && names[k] == id && (forall|j: int|
            k < j < names.len() ==> #[trigger] names[j] != id) ==> rank(names, id) == k,
        !names.contains(id) ==> rank(names, id) == i64::MAX,
{
    lemma_last_place(names, id, names.len() as int, k);
    if let Some(p) = last_place(names, id, names.len() as int) {
        lemma_last_place_stands(names, id, names.len() as int);
        assert(names.contains(names[p]));
    }
}

proof fn lemma_last_place(names: Seq<Seq<char>>, id: Seq<char>, n: int, k: int)
    requires
        n <= names.len(),
    ensures
        0 <= k < n && names[k] == id && (forall|j: int| k < j < n ==> #[trigger] names[j] != id)
            ==> last_place(names, id, n) == Some(k),
    decreases n,
{
    if n > 0 {
        lemma_last_place(names, id, n - 1, k);
    }
}

proof fn lemma_last_place_stands(names: Seq<Seq<char>>, id: Seq<char>, n: int)
    requires
        n <= names.len(),
    ensures
        last_place(names, id, n) matches Some(p) ==> 0 <= p < n && names[p] == id,
    decreases n,
{
    if n > 0 {
        lemma_last_place_stands(names, id, n - 1);
    }
}

/// The providers that are well are exactly those without an error, in the order in which they are
/// shown.
pub proof fn exactly_the_providers_without_an_error_are_well(
    snapshots: Seq<ProviderUsageSnapshot>,
    order: Seq<usize>,
    n: int,
)
    requires
        0 < n <= order.len(),
    ensures
        healthy(snapshots, order, 0).len() == 0,
        snapshots[order[n - 1] as int].error is None ==> healthy(snapshots, order, n) == healthy(
            snapshots,
            order,
            n - 1,
        ).push(order[n - 1]),
        snapshots[order[n - 1] as int].error is Some ==> healthy(snapshots, order, n) == healthy(
            snapshots,
            order,
            n - 1,
        ),
        forall|p: int|
            0 <= p < healthy(snapshots, order, n).len() ==> snapshots[(#[trigger] healthy(
                snapshots,
                order,
                n,
            )[p]) as int].error is None,
    decreases n,
{
    if n > 1 {
        exactly_the_providers_without_an_error_are_well(snapshots, order, n - 1);
    }
}

/// The provider with the most use is shown where the user asked for it, or for the smallest bar.
pub proof fn the_highest_is_shown_where_it_is_asked_for(settings: Settings)
    ensures
        settings.menu_bar_shows_highest_usage ==> prefers_highest(settings),
        settings.menu_bar_display_mode@ == "minimal"@ ==> prefers_highest(settings),
        !settings.menu_bar_shows_highest_usage && settings.menu_bar_display_mode@ != "minimal"@
            ==> !prefers_highest(settings),
{
}

/// The snapshot that stands for all is one of those that may, and where use is preferred none of
/// them used more of its session.
pub proof fn the_chosen_snapshot_is_one_of_them(
    settings: Settings,
    snapshots: Seq<ProviderUsageSnapshot>,
    places: Seq<usize>,
)
    ensures
        places.len() == 0 ==> chosen(settings, snapshots, places) is None,
        places.len() > 0 ==> {
            let k = chosen(settings, snapshots, places)->Some_0;
            &&& chosen(settings, snapshots, places) is Some
            &&& places.contains(k)
            &&& !prefers_highest(settings) ==> k == places[0]
            &&& prefers_highest(settings) ==> forall|p: int|
                0 <= p < places.len() ==> snapshots[(
                #[trigger] places[p]) as int].primary.used_percent.scaled
                    <= snapshots[k as int].primary.used_percent.scaled
        },
{
    let used = used_at(snapshots, places);
    the_shown_provider_is_the_preferred_one(used, prefers_highest(settings));
    if places.len() > 0 && prefers_highest(settings) {
        let at = picked(used, true)->Some_0;
        assert forall|p: int| 0 <= p < places.len() implies snapshots[(
        #[trigger] places[p]) as int].primary.used_percent.scaled
            <= snapshots[places[at] as int].primary.used_percent.scaled by {
            assert(used[p] <= used[at]);
        }
    }
}

/// A row tells what the plan costs where the user wants that and it is known, and else how much is
/// used, behind the provider's name.
pub proof fn a_row_tells_cost_or_use(s: ProviderUsageSnapshot, text: StatusText)
    ensures
        row_label(s, text).0 == s.provider_id@,
        !text.monthly_plan || s.cost is None ==> row_label(s, text).1 == s.display_name@ + " "@
            + text.compact@,
        text.monthly_plan && s.cost is Some && s.cost->Some_0.formatted_used@.len() > 0
            ==> row_label(s, text).1 == s.display_name@ + " "@ + s.cost->Some_0.formatted_used@,
        text.monthly_plan && s.cost is Some && s.cost->Some_0.formatted_used@.len() == 0
            ==> row_label(s, text).1 == s.display_name@ + " "@ + text.cost_amount@,
{
}

/// There is a row for each provider that is well, in their order, or one that sums them up.
pub proof fn rows_tell_of_the_providers_that_are_well(
    settings: Settings,
    snapshots: Seq<ProviderUsageSnapshot>,
    texts: Seq<StatusText>,
    order: Seq<usize>,
    p: int,
)
    ensures
        ({
            let rows = status_rows(settings, snapshots, texts, order);
            let well = healthy(snapshots, order, order.len() as int);
            &&& settings.tray_icon_mode == TrayIconMode::PerProvider ==> rows.len() == well.len()
            &&& settings.tray_icon_mode == TrayIconMode::PerProvider && 0 <= p < well.len()
                ==> rows[p] == row_label(snapshots[well[p] as int], texts[well[p] as int])
            &&& settings.tray_icon_mode == TrayIconMode::Single && well.len() == 0 ==> rows.len()
                == 0
            &&& settings.tray_icon_mode == TrayIconMode::Single && well.len() > 0 ==> rows.len() == 1
                && rows[0].0 == "status_summary"@
        }),
{
    the_chosen_snapshot_is_one_of_them(
        settings,
        snapshots,
        healthy(snapshots, order, order.len() as int),
    );
}

/// A meter shows the share of the selected window first, and that of the one beside it where there
/// is one.
pub proof fn a_meter_shows_the_selected_window_first(a: Quantity, b: Quantity, as_used: bool)
    ensures
        meters((a, None), as_used) == (metered(a.scaled as int, as_used), None::<int>),
        meters((a, Some(b)), as_used) == (
            metered(a.scaled as int, as_used),
            Some(metered(b.scaled as int, as_used)),
        ),
{
}

/// Where a provider is well, the icon shows the one that is chosen.
pub proof fn the_icon_shows_the_chosen_provider(
    plan: IconPlan,
    settings: Settings,
    snapshots: Seq<ProviderUsageSnapshot>,
    selected: Seq<(Quantity, Option<Quantity>)>,
    order: Seq<usize>,
)
    requires
        plan_fits(plan, settings, snapshots, selected, order),
        healthy(snapshots, order, order.len() as int).len() > 0,
    ensures
        ({
            let k = chosen(
                settings,
                snapshots,
                healthy(snapshots, order, order.len() as int),
            )->Some_0 as int;
            &&& !plan.all_error
            &&& plan.as_percent == settings.menu_bar_shows_percent
            &&& plan.session.scaled == metered(
                selected[k].0.scaled as int,
                settings.show_as_used,
            )
            &&& plan.weekly is Some <==> selected[k].1 is Some
            &&& plan.weekly is Some ==> plan.weekly->Some_0.scaled == metered(
                selected[k].1->Some_0.scaled as int,
                settings.show_as_used,
            )
        }),
{
    the_chosen_snapshot_is_one_of_them(
        settings,
        snapshots,
        healthy(snapshots, order, order.len() as int),
    );
}

/// The tooltip has a line for each provider below the name of the application, in their order;
/// without providers it is the name alone.
pub proof fn the_tooltip_has_a_line_for_each_provider(
    snapshots: &Vec<ProviderUsageSnapshot>,
    labels: &Vec<String>,
    texts: &Texts,
    i: int,
    r: String,
)
    requires
        call_ensures(build_tooltip, (snapshots, labels, texts), r),
    ensures
        snapshots@.len() == 0 ==> r@ == "CodexBar Desktop"@,
        snapshots@.len() > 0 ==> {
            let lines = tooltip_lines(
                snapshots@,
                views(labels@),
                texts.shown(LocaleKey::TrayStatusRowError),
            );
            &&& r@ == "CodexBar\n"@ + joined(lines, "\n"@)
            &&& lines.len() == snapshots@.len()
            &&& 0 <= i < lines.len() ==> snapshots@[i].display_name@.is_prefix_of(lines[i])
        },
{
    if 0 <= i < snapshots@.len() {
        a_line_tells_the_error_or_the_label(
            snapshots@[i],
            views(labels@)[i],
            texts.shown(LocaleKey::TrayStatusRowError),
        );
    }
}

} // verus!
