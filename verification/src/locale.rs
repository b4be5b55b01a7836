//! The texts that the tray shows, in the user's language.

use vstd::prelude::*;
use vstd::string::{StrSliceExecFns, StringExecFns};
pub use crate::locale_key::LocaleKey;
use crate::quantity::{Quantity, ONE};
use crate::text::{chars_of, find_in, found_from, replace, replaced, same, signed_decimal, signed_digits, digits, decimal_wide, str_views, found_from_is_first, has_at, lemma_found_shift, what_is_replaced_gives_way};

verus! {

/// The languages of the user interface.
#[derive(Clone, Copy, Debug, PartialEq, Eq, Structural)]
pub enum Language {
    English,
    Chinese,
    ChineseTraditional,
    Japanese,
    Korean,
    Spanish,
    Russian,
    Turkish,
}

/// The tag of a language.
pub fn language_id(lang: Language) -> (r: &'static str)
    ensures
        r@ == (match lang {
            Language::English => "en-US"@,
            Language::Chinese => "zh-CN"@,
            Language::ChineseTraditional => "zh-TW"@,
            Language::Japanese => "ja-JP"@,
            Language::Korean => "ko-KR"@,
            Language::Spanish => "es-MX"@,
            Language::Russian => "ru-RU"@,
            Language::Turkish => "tr-TR"@,
        }),
{
    match lang {
        Language::English => "en-US",
        Language::Chinese => "zh-CN",
        Language::ChineseTraditional => "zh-TW",
        Language::Japanese => "ja-JP",
        Language::Korean => "ko-KR",
        Language::Spanish => "es-MX",
        Language::Russian => "ru-RU",
        Language::Turkish => "tr-TR",
    }
}

/// What looking texts up in one language came to: names, and the texts found for them.
#[derive(Debug)]
pub struct Texts {
    pub entries: Vec<(String, String)>,
}

/// The text found for a name, at or after entry `i`.
pub open spec fn found_text(entries: Seq<(String, String)>, name: Seq<char>, i: int) -> Option<
    Seq<char>,
>
    decreases entries.len() - i,
{
    if i >= entries.len() {
        None
    } else if entries[i].0@ == name {
        Some(entries[i].1@)
    } else {
        found_text(entries, name, i + 1)
    }
}

impl Texts {
    /// The text for a key: the one that was found, else the name of the key.
    pub open spec fn shown(self, key: LocaleKey) -> Seq<char> {
        match found_text(self.entries@, key.label(), 0) {
            Some(t) => t,
            None => key.label(),
        }
    }
}

/// The text for a key: the one that was found, else the name of the key.
pub fn get_text(texts: &Texts, key: LocaleKey) -> (r: String)
    ensures
        r@ == texts.shown(key),
{
    let name = key.name();
    let mut i: usize = 0;
    while i < texts.entries.len()
        invariant
            i <= texts.entries@.len(),
            name@ == key.label(),
            found_text(texts.entries@, key.label(), 0) == found_text(
                texts.entries@,
                key.label(),
                i as int,
            ),
        decreases texts.entries@.len() - i,
    {
        if same(texts.entries[i].0.as_str(), name) {
            return texts.entries[i].1.clone();
        }
        i += 1;
    }
    name.to_owned()
}

/// A template with its placeholders `{}` filled in from left to right: each value takes the
/// place of the next one. Where there are fewer values than placeholders, the rest stay.
pub open spec fn filled(template: Seq<char>, args: Seq<Seq<char>>) -> Seq<char>
    decreases args.len(),
{
    if args.len() == 0 {
        template
    } else {
        match found_from(template, "{}"@, 0) {
            None => template,
            Some(k) => template.take(k) + args[0] + filled(template.skip(k + 2), args.skip(1)),
        }
    }
}

/// Fills the placeholders `{}` of a template: each value takes the place of the next one.
pub fn format_template(template: &str, args: &[&str]) -> (r: String)
    ensures
        r@ == filled(template@, str_views(args@)),
{
    let v = chars_of(template);
    let q = chars_of("{}");
    let n = v.len();
    proof {
        reveal_strlit("{}");
        reveal_strlit("");
    }
    let ghost all = str_views(args@);
    let mut out = "".to_owned();
    let mut from: usize = 0;
    let mut i: usize = 0;
    assert(all.skip(0) =~= all);
    assert(v@.skip(0) =~= v@);
    assert(out@ + filled(v@, all) =~= filled(v@, all));
    while i < args.len()
        invariant_except_break
            out@ + filled(v@.skip(from as int), all.skip(i as int)) == filled(template@, all),
        invariant
            v@ == template@,
            n == v@.len(),
            q@ == "{}"@,
            q@.len() == 2,
            from <= n,
            i <= args@.len(),
            all == str_views(args@),
        ensures
            out@ + v@.skip(from as int) == filled(template@, all),
        decreases args@.len() - i,
    {
        let ghost left = all.skip(i as int);
        let ghost rest = v@.skip(from as int);
        assert(left[0] == args@[i as int]@);
        assert(left.skip(1) =~= all.skip(i + 1));
        proof {
            lemma_found_shift(v@, "{}"@, 0, from as int);
            found_from_is_first(v@, "{}"@, from as int);
        }
        match find_in(v.as_slice(), q.as_slice(), from) {
            None => {
                break;
            },
            Some(k) => {
                let ghost before = out@;
                out.append(template.substring_char(from, k));
                out.append(args[i]);
                assert(rest.take(k - from) =~= v@.subrange(from as int, k as int));
                assert(rest.skip(k - from + 2) =~= v@.skip(k + 2));
                assert(out@ + filled(v@.skip(k + 2), left.skip(1)) =~= before + (rest.take(k - from)
                    + left[0] + filled(v@.skip(k + 2), left.skip(1))));
                from = k + 2;
            },
        }
        i += 1;
    }
    out.append(template.substring_char(from, n));
    assert(v@.subrange(from as int, n as int) =~= v@.skip(from as int));
    out
}

/// Without values a template stays as it is.
pub proof fn no_values_fill_nothing(template: Seq<char>)
    ensures
        filled(template, Seq::empty()) == template,
{
}

/// What stands in a value is not taken for a placeholder: the values appear as they are, the
/// second behind the first, with what stands between their placeholders.
pub proof fn values_are_left_alone(
    a: Seq<char>,
    b: Seq<char>,
    c: Seq<char>,
    first: Seq<char>,
    second: Seq<char>,
)
    requires
        found_from(a + "{}"@, "{}"@, 0) == Some(a.len() as int),
        found_from(b + "{}"@, "{}"@, 0) == Some(b.len() as int),
    ensures
        filled(a + "{}"@ + (b + "{}"@ + c), seq![first, second]) == a + first + (b + second + c),
{
    lemma_first_placeholder(a, b + "{}"@ + c);
    lemma_first_placeholder(b, c);
    let args = seq![first, second];
    assert(args.skip(1) =~= seq![second]);
    assert(seq![second].skip(1) =~= Seq::empty());
    assert(filled(c, Seq::empty()) == c);
    assert(filled(b + "{}"@ + c, seq![second]) == b + second + c);
}

/// The first placeholder of a text stays the first, whatever follows it.
proof fn lemma_first_placeholder(a: Seq<char>, t: Seq<char>)
    requires
        found_from(a + "{}"@, "{}"@, 0) == Some(a.len() as int),
    ensures
        found_from(a + "{}"@ + t, "{}"@, 0) == Some(a.len() as int),
        (a + "{}"@ + t).take(a.len() as int) == a,
        (a + "{}"@ + t).skip(a.len() as int + 2) == t,
{
    reveal_strlit("{}");
    let q = "{}"@;
    let short = a + q;
    let s = a + q + t;
    let d = a.len() as int;
    found_from_is_first(short, q, 0);
    found_from_is_first(s, q, 0);
    assert(s.subrange(d, d + 2) =~= q);
    assert(has_at(s, q, d));
    let k = found_from(s, q, 0)->0;
    if k < d {
        assert(short.subrange(k, k + 2) =~= s.subrange(k, k + 2));
        assert(has_at(short, q, k));
    }
    assert(s.take(d) =~= a);
    assert(s.skip(d + 2) =~= t);
}

/// The text for a key with its placeholders filled in.
pub fn format_locale(texts: &Texts, key: LocaleKey, args: &[&str]) -> (r: String)
    ensures
        r@ == filled(texts.shown(key), str_views(args@)),
{
    let template = get_text(texts, key);
    format_template(template.as_str(), args)
}

/// The state of a provider that the tray icon shows on top.
#[derive(Clone, Copy, Debug, PartialEq, Eq, Structural)]
pub enum IconOverlayStatus {
    Error,
    Stale,
    Incident,
    Partial,
}

/// A quantity without its fraction, brought into 32 bits.
pub open spec fn whole_part(scaled: int) -> int {
    let n = if scaled < 0 {
        -((-scaled) / ONE as int)
    } else {
        scaled / ONE as int
    };
    if n > i32::MAX {
        i32::MAX as int
    } else if n < i32::MIN {
        i32::MIN as int
    } else {
        n
    }
}

/// A quantity without its fraction, brought into 32 bits.
pub fn whole(q: Quantity) -> (r: i64)
    requires
        q.wf(),
    ensures
        r == whole_part(q.scaled as int),
{
    let n: i128 = if q.scaled < 0 { -((-q.scaled) / ONE) } else { q.scaled / ONE };
    if n > 0x7fff_ffff {
        0x7fff_ffff
    } else if n < -0x8000_0000 {
        -0x8000_0000
    } else {
        n as i64
    }
}

/// A magnitude rounded to the nearest whole number, ties to even.
pub open spec fn rounded(scaled: nat) -> nat {
    let n = scaled as int / ONE as int;
    let rest = scaled as int % ONE as int;
    if rest * 2 > ONE || (rest * 2 == ONE && n % 2 == 1) {
        (n + 1) as nat
    } else {
        n as nat
    }
}

/// A quantity without decimals, rounded to the nearest, ties to even.
pub open spec fn no_decimals(scaled: int) -> Seq<char> {
    if scaled < 0 {
        seq!['-'] + digits(rounded((-scaled) as nat))
    } else {
        digits(rounded(scaled as nat))
    }
}

/// Writes a quantity without decimals.
pub fn write_rounded(q: Quantity) -> (r: String)
    requires
        q.wf(),
    ensures
        r@ == no_decimals(q.scaled as int),
{
    let negative = q.scaled < 0;
    let m: i128 = if negative { -q.scaled } else { q.scaled };
    let n: i128 = m / ONE;
    let rest: i128 = m % ONE;
    let h: i128 = if rest * 2 > ONE || (rest * 2 == ONE && n % 2 == 1) { n + 1 } else { n };
    let mut out = String::new();
    if negative {
        out.push('-');
    }
    out.append(decimal_wide(h as u128).as_str());
    assert(out@ =~= no_decimals(q.scaled as int));
    out
}

/// A label with its placeholder replaced by a whole number of percent.
pub open spec fn percent_label(label: Seq<char>, scaled: int) -> Seq<char> {
    replaced(label, "{}"@, signed_digits(whole_part(scaled)))
}

/// The tooltip of the tray icon without a status.
pub open spec fn tooltip_text(
    texts: Texts,
    provider_name: Seq<char>,
    session: int,
    weekly: int,
) -> Seq<char> {
    provider_name + ": "@ + percent_label(texts.shown(LocaleKey::TraySessionPercent), session)
        + " | "@ + percent_label(texts.shown(LocaleKey::TrayWeeklyPercent), weekly)
}

fn fill_percent(label: &str, q: Quantity) -> (r: String)
    requires
        q.wf(),
    ensures
        r@ == percent_label(label@, q.scaled as int),
{
    replace(label, "{}", signed_decimal(whole(q)).as_str())
}

/// The tooltip of the tray icon: the provider, and how much of its session and its week is
/// used, in whole percent.
pub fn tray_tooltip(
    texts: &Texts,
    provider_name: &str,
    session_percent: Quantity,
    weekly_percent: Quantity,
) -> (r: String)
    requires
        session_percent.wf(),
        weekly_percent.wf(),
    ensures
        r@ == tooltip_text(
            *texts,
            provider_name@,
            session_percent.scaled as int,
            weekly_percent.scaled as int,
        ),
{
    let mut out = provider_name.to_owned();
    out.append(": ");
    let session = get_text(texts, LocaleKey::TraySessionPercent);
    out.append(fill_percent(session.as_str(), session_percent).as_str());
    out.append(" | ");
    let weekly = get_text(texts, LocaleKey::TrayWeeklyPercent);
    out.append(fill_percent(weekly.as_str(), weekly_percent).as_str());
    out
}

/// What a status adds to the tooltip.
pub open spec fn status_suffix(texts: Texts, status: Option<IconOverlayStatus>) -> Seq<char> {
    match status {
        None => Seq::empty(),
        Some(IconOverlayStatus::Error) => texts.shown(LocaleKey::TrayStatusError),
        Some(IconOverlayStatus::Stale) => texts.shown(LocaleKey::TrayStatusStale),
        Some(IconOverlayStatus::Incident) => texts.shown(LocaleKey::TrayStatusIncident),
        Some(IconOverlayStatus::Partial) => texts.shown(LocaleKey::TrayStatusPartial),
    }
}

/// The tooltip of the tray icon with a status behind it.
pub fn tray_tooltip_with_status(
    texts: &Texts,
    provider_name: &str,
    session_percent: Quantity,
    weekly_percent: Quantity,
    status: Option<IconOverlayStatus>,
) -> (r: String)
    requires
        session_percent.wf(),
        weekly_percent.wf(),
    ensures
        r@ == tooltip_text(
            *texts,
            provider_name@,
            session_percent.scaled as int,
            weekly_percent.scaled as int,
        ) + status_suffix(*texts, status),
{
    let mut out = tray_tooltip(texts, provider_name, session_percent, weekly_percent);
    let suffix = match status {
        None => String::new(),
        Some(IconOverlayStatus::Error) => get_text(texts, LocaleKey::TrayStatusError),
        Some(IconOverlayStatus::Stale) => get_text(texts, LocaleKey::TrayStatusStale),
        Some(IconOverlayStatus::Incident) => get_text(texts, LocaleKey::TrayStatusIncident),
        Some(IconOverlayStatus::Partial) => get_text(texts, LocaleKey::TrayStatusPartial),
    };
    out.append(suffix.as_str());
    out
}

/// The tooltip of the tray icon where the weekly quota is used up and credits are left.
pub fn tray_tooltip_credits(texts: &Texts, provider_name: &str, credits_percent: Quantity) -> (r: String)
    requires
        credits_percent.wf(),
    ensures
        r@ == provider_name@ + ": "@ + texts.shown(LocaleKey::TrayWeeklyExhausted) + " | "@
            + replaced(
            texts.shown(LocaleKey::TrayCreditsRemaining),
            "{}"@,
            no_decimals(credits_percent.scaled as int),
        ),
{
    let mut out = provider_name.to_owned();
    out.append(": ");
    out.append(get_text(texts, LocaleKey::TrayWeeklyExhausted).as_str());
    out.append(" | ");
    let credits = get_text(texts, LocaleKey::TrayCreditsRemaining);
    out.append(replace(credits.as_str(), "{}", write_rounded(credits_percent).as_str()).as_str());
    out
}

/// The text for a key is the first that was found under its name; without one it is the name.
pub proof fn a_text_is_found_under_its_name(texts: Texts, key: LocaleKey, k: int)
    ensures
        0 <= k < texts.entries@.len() && texts.entries@[k].0@ == key.label() && (forall|j: int|
            0 <= j < k ==> (#[trigger] texts.entries@[j]).0@ != key.label()) ==> texts.shown(key)
            == texts.entries@[k].1@,
        (forall|j: int|
            0 <= j < texts.entries@.len() ==> (#[trigger] texts.entries@[j]).0@ != key.label())
            ==> texts.shown(key) == key.label(),
{
    lemma_found_text(texts.entries@, key.label(), 0, k);
}

proof fn lemma_found_text(entries: Seq<(String, String)>, name: Seq<char>, i: int, k: int)
    requires
        0 <= i,
    ensures
        i <= k < entries.len() && entries[k].0@ == name && (forall|j: int|
            i <= j < k ==> (#[trigger] entries[j]).0@ != name) ==> found_text(entries, name, i)
            == Some(entries[k].1@),
        (forall|j: int| i <= j < entries.len() ==> (#[trigger] entries[j]).0@ != name)
            ==> found_text(entries, name, i) is None,
    decreases entries.len() - i,
{
    if i < entries.len() && entries[i].0@ != name {
        lemma_found_text(entries, name, i + 1, k);
    }
}

/// A share is shown by its whole percent: what stands behind the point is left out.
pub proof fn fractions_are_left_out(n: nat, rest: nat)
    requires
        rest < 0x1_0000_0000_0000_0000,
        n <= i32::MAX,
    ensures
        whole_part((n * 0x1_0000_0000_0000_0000 + rest) as int) == n,
        whole_part(-(n * 0x1_0000_0000_0000_0000)) == -n,
{
}

/// A number without decimals is the nearest whole one: it is off by at most a half.
pub proof fn whole_numbers_are_the_nearest(scaled: nat)
    ensures
        -0x1_0000_0000_0000_0000 <= 2 * (rounded(scaled) * 0x1_0000_0000_0000_0000 - scaled)
            <= 0x1_0000_0000_0000_0000,
        no_decimals(scaled as int) == digits(rounded(scaled)),
        scaled > 0 ==> no_decimals(-(scaled as int)) == seq!['-'] + digits(rounded(scaled)),
{
    let n = scaled as int / ONE as int;
    vstd::arithmetic::div_mod::lemma_fundamental_div_mod(scaled as int, ONE as int);
    assert((n + 1) * ONE == ONE * n + ONE) by (nonlinear_arith);
    assert(n * ONE == ONE * n) by (nonlinear_arith);
}

/// The tooltip names the provider, and then tells of the session and the week, in this order, each
/// with its own text and its own share.
pub proof fn the_tooltip_tells_session_and_week(
    texts: Texts,
    name: Seq<char>,
    session: int,
    weekly: int,
)
    ensures
        tooltip_text(texts, name, session, weekly) == name + ": "@ + percent_label(
            texts.shown(LocaleKey::TraySessionPercent),
            session,
        ) + " | "@ + percent_label(texts.shown(LocaleKey::TrayWeeklyPercent), weekly),
        percent_label("{}"@, session) == signed_digits(whole_part(session)),
{
    reveal_strlit("{}");
    assert("{}"@.len() == 2);
    what_is_replaced_gives_way(
        Seq::empty(),
        "{}"@,
        signed_digits(whole_part(session)),
        Seq::empty(),
    );
}

/// Each status is told by its own text, and none adds nothing.
pub proof fn a_status_is_told_by_its_own_text(texts: Texts)
    ensures
        status_suffix(texts, None).len() == 0,
        status_suffix(texts, Some(IconOverlayStatus::Error)) == texts.shown(
            LocaleKey::TrayStatusError,
        ),
        status_suffix(texts, Some(IconOverlayStatus::Stale)) == texts.shown(
            LocaleKey::TrayStatusStale,
        ),
        status_suffix(texts, Some(IconOverlayStatus::Incident)) == texts.shown(
            LocaleKey::TrayStatusIncident,
        ),
        status_suffix(texts, Some(IconOverlayStatus::Partial)) == texts.shown(
            LocaleKey::TrayStatusPartial,
        ),
{
}

/// Each language has a tag of its own.
pub proof fn languages_have_their_own_tags(a: Language, b: Language, x: &'static str, y: &'static str)
    requires
        call_ensures(language_id, (a,), x),
        call_ensures(language_id, (b,), y),
        a != b,
    ensures
        x@ != y@,
        a == Language::English ==> x@ == "en-US"@,
{
    reveal_strlit("en-US");
    reveal_strlit("zh-CN");
    reveal_strlit("zh-TW");
    reveal_strlit("ja-JP");
    reveal_strlit("ko-KR");
    reveal_strlit("es-MX");
    reveal_strlit("ru-RU");
    reveal_strlit("tr-TR");
    if x@ == y@ {
        assert(x@[0] == y@[0] && x@[1] == y@[1] && x@[3] == y@[3]);
    }
}

/// A half is rounded to the even number.
pub proof fn halves_go_to_the_even_number(n: nat)
    ensures
        rounded((n * 0x1_0000_0000_0000_0000 + 0x8000_0000_0000_0000) as nat) == (if n % 2 == 0 {
            n
        } else {
            n + 1
        }),
{
    vstd::arithmetic::div_mod::lemma_fundamental_div_mod_converse(
        (n * 0x1_0000_0000_0000_0000 + 0x8000_0000_0000_0000) as int,
        ONE as int,
        n as int,
        0x8000_0000_0000_0000,
    );
}

/// The tooltip about credits names the provider, says that the week is used up, and tells what is
/// left, to the nearest percent.
pub proof fn the_tooltip_tells_what_credits_are_left(
    texts: &Texts,
    name: &str,
    credits: Quantity,
    r: String,
)
    requires
        call_ensures(tray_tooltip_credits, (texts, name, credits), r),
        texts.shown(LocaleKey::TrayCreditsRemaining) == "{}"@,
    ensures
        r@ == name@ + ": "@ + texts.shown(LocaleKey::TrayWeeklyExhausted) + " | "@ + no_decimals(
            credits.scaled as int,
        ),
{
    reveal_strlit("{}");
    assert("{}"@.len() == 2);
    what_is_replaced_gives_way(
        Seq::empty(),
        "{}"@,
        no_decimals(credits.scaled as int),
        Seq::empty(),
    );
}

} // verus!
