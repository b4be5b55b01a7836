use codexbar::json::{read_json, read_json_bytes, Json, JsonObject};
use codexbar::locale::{
    format_locale, format_template, get_text, language_id, tray_tooltip, tray_tooltip_credits,
    tray_tooltip_with_status, IconOverlayStatus, Language, LocaleKey, Texts,
};
use codexbar::moment::Moment;
use codexbar::quantity::Quantity;
use codexbar::settings::place_of;
use codexbar::sorting::{key_of_text, stable_order};
use codexbar::text::{
    concat3, contains, decimal, ends_with, join, join_path, normalize_string, parse_unsigned,
    replace, rsplit_once, signed_decimal, split, split_once, starts_with, strip_prefix,
    to_ascii_lower, trim, white,
};

fn q(v: f64) -> Quantity {
    Quantity::from_double_bits(v.to_bits()).unwrap()
}

fn texts() -> Texts {
    let entry = |k: &str, t: &str| (k.to_string(), t.to_string());
    Texts {
        entries: vec![
            entry("TraySessionPercent", "Session {}%"),
            entry("TrayWeeklyPercent", "Weekly {}%"),
            entry("TrayWeeklyExhausted", "Weekly exhausted"),
            entry("TrayCreditsRemaining", "Credits {}% left"),
            entry("TrayStatusStale", " (stale)"),
        ],
    }
}

#[test]
fn texts_are_found_by_the_name_of_their_key() {
    assert_eq!(get_text(&texts(), LocaleKey::TrayWeeklyExhausted), "Weekly exhausted");
    assert_eq!(get_text(&texts(), LocaleKey::MenuQuit), "MenuQuit");
    assert_eq!(format_locale(&texts(), LocaleKey::TraySessionPercent, &["7"]), "Session 7%");
    assert_eq!(language_id(Language::English), "en-US");
    assert_ne!(language_id(Language::Chinese), language_id(Language::ChineseTraditional));
}

#[test]
fn placeholders_are_filled_in_order() {
    assert_eq!(format_template("{} of {}", &["1", "2"]), "1 of 2");
    assert_eq!(format_template("{} of {}", &["1"]), "1 of {}");
    assert_eq!(format_template("none", &["1"]), "none");
    assert_eq!(format_template("{}", &[]), "{}");
    assert_eq!(format_template("{} {}", &["{}", "x"]), "{} x");
    assert_eq!(format_template("{{}}-{}", &["", "x", "y"]), "{}-x");
}

#[test]
fn tooltips_show_whole_percents() {
    assert_eq!(
        tray_tooltip(&texts(), "Codex", q(12.9), q(3.2)),
        "Codex: Session 12% | Weekly 3%"
    );
    assert_eq!(
        tray_tooltip_with_status(&texts(), "Codex", q(1.0), q(2.0), Some(IconOverlayStatus::Stale)),
        "Codex: Session 1% | Weekly 2% (stale)"
    );
    assert_eq!(
        tray_tooltip_with_status(&texts(), "Codex", q(1.0), q(2.0), None),
        tray_tooltip(&texts(), "Codex", q(1.0), q(2.0))
    );
    for status in [IconOverlayStatus::Error, IconOverlayStatus::Incident, IconOverlayStatus::Partial] {
        assert!(tray_tooltip_with_status(&texts(), "C", q(1.0), q(2.0), Some(status))
            .contains("TrayStatus"));
    }
    assert_eq!(
        tray_tooltip_credits(&texts(), "Codex", q(49.5)),
        "Codex: Weekly exhausted | Credits 50% left"
    );
    assert_eq!(
        tray_tooltip_credits(&texts(), "Codex", q(0.5)),
        "Codex: Weekly exhausted | Credits 0% left"
    );
}

#[test]
fn json_is_read_into_values() {
    let v = read_json(r#"{"a":[1,-2,2.5],"b":null,"c":true,"d":"x"}"#).unwrap();
    assert_eq!(v.text_at("d"), Some("x"));
    assert_eq!(v.get("c").unwrap().truth(), Some(true));
    assert!(matches!(v.get("b"), Some(Json::Null)));
    let Some(Json::Array(items)) = v.get("a") else {
        panic!("an array");
    };
    assert_eq!(items[0].integer(), Some(1));
    assert_eq!(items[1].integer(), Some(-2));
    assert_eq!(items[2].integer(), None);
    assert_eq!(items[2].quantity(), Some(q(2.5)));
    assert!(read_json("{").is_err());
    assert!(read_json_bytes(b"\xff").is_none());
    assert!(read_json_bytes(b"[]").is_some());
}

#[test]
fn the_last_value_of_a_key_counts() {
    let mut o = JsonObject::new();
    o.set("k", read_json("1").unwrap());
    o.set("k", read_json("2").unwrap());
    assert_eq!(o.get("k").unwrap().integer(), Some(2));
    assert_eq!(o.entries.len(), 1);
    assert!(o.get("other").is_none());
}

#[test]
fn texts_are_taken_apart_and_joined() {
    assert_eq!(split("a,b,,c", ','), vec!["a", "b", "", "c"]);
    assert_eq!(join(&["a".to_string(), "b".to_string()], "--"), "a--b");
    assert_eq!(split_once("a=b=c", '='), Some(("a", "b=c")));
    assert_eq!(rsplit_once("a__b__c", "__"), Some(("a__b", "c")));
    assert_eq!(replace("a'b'", "'", "''"), "a''b''");
    assert_eq!(strip_prefix("abc", "ab"), Some("c"));
    assert_eq!(strip_prefix("abc", "x"), None);
    assert!(starts_with("abc", "ab") && ends_with("abc", "bc") && contains("abc", "b"));
    assert_eq!(concat3("a", "b", "c"), "abc");
    assert_eq!(join_path("/a", "b", '/'), "/a/b");
    assert_eq!(join_path("/a/", "b", '/'), "/a/b");
    assert_eq!(join_path("", "b", '/'), "b");
    assert_eq!(join_path("C:", "b", '/'), "C:/b");
    assert_eq!(join_path(r"C:\a", "b", '\\'), r"C:\a\b");
    assert_eq!(join_path("C:/a/", "b", '\\'), "C:/a/b");
    assert_eq!(join_path("C:", "b", '\\'), "C:b");
}

#[test]
fn blanks_and_letters_are_seen() {
    assert_eq!(trim("\u{a0} x\t\n"), "x");
    assert!(white('\u{2003}') && !white('x'));
    for c in 0..0x3100u32 {
        let c = char::from_u32(c).unwrap();
        assert_eq!(white(c), c.is_whitespace());
    }
    assert_eq!(to_ascii_lower("ÄB"), "Äb");
    assert_eq!(normalize_string(Some("  x ")).as_deref(), Some("x"));
    assert_eq!(normalize_string(Some("  ")), None);
}

#[test]
fn numbers_are_written_and_read() {
    assert_eq!(decimal(0), "0");
    assert_eq!(decimal(u64::MAX), u64::MAX.to_string());
    assert_eq!(signed_decimal(i64::MIN), i64::MIN.to_string());
    assert_eq!(parse_unsigned("+7"), "+7".parse::<u64>().ok());
    assert_eq!(parse_unsigned("18446744073709551615"), Some(u64::MAX));
    assert_eq!(parse_unsigned("18446744073709551616"), None);
    assert_eq!(parse_unsigned(""), None);
    assert_eq!(parse_unsigned("1 "), None);
}

#[test]
fn equal_keys_keep_their_order() {
    let keys = vec![vec![2], vec![1], vec![2], vec![1, 0]];
    assert_eq!(stable_order(&keys), vec![1, 3, 0, 2]);
    assert_eq!(key_of_text("ab"), vec![97, 98]);
}

#[test]
fn the_first_place_of_a_name_counts() {
    let names = vec!["a".to_string(), "b".to_string(), "a".to_string()];
    assert_eq!(place_of(&names, "a"), Some(0));
    assert_eq!(place_of(&names, "c"), None);
}

#[test]
fn moments_are_ordered() {
    let a = Moment { secs: 1, nanos: 5 };
    let b = Moment { secs: 1, nanos: 6 };
    assert!(a.before(b) && !b.before(a) && !a.before(a));
    assert_eq!(a.later(b), b);
    assert_eq!(a.as_nanos(), 1_000_000_005);
}

#[test]
fn every_key_is_listed_under_its_name() {
    let all = LocaleKey::all();
    assert_eq!(all.len(), 833);
    assert_eq!(all[0], (LocaleKey::TabGeneral, "TabGeneral"));
    assert_eq!(all[832].1, "ProviderAccentColorInvalid");
    let mut names = std::collections::HashSet::new();
    for (key, name) in &all {
        assert_eq!(key.name(), *name);
        assert_eq!(format!("{key:?}"), *name);
        assert!(names.insert(*name));
    }
}

#[test]
fn times_lie_apart_as_the_calendar_has_it() {
    let day = 86_400;
    let moments: Vec<Moment> = [
        (-1, 0),
        (-1, 1_250_000_000),
        (0, 0),
        (59, 999_999_999),
        (59, 1_000_000_000),
        (59, 1_999_999_999),
        (60, 0),
        (3_600, 7),
        (day - 1, 1_500_000_000),
        (day, 0),
        (day + 30, 1),
        (-20 * day + 59, 1_500_000_000),
    ]
    .iter()
    .map(|&(secs, nanos)| Moment { secs, nanos })
    .collect();
    let calendar = |t: &Moment| chrono::DateTime::from_timestamp(t.secs, t.nanos).unwrap();
    for a in &moments {
        for b in &moments {
            let apart = (calendar(a) - calendar(b)).num_nanoseconds().unwrap();
            assert_eq!(a.nanos_since(*b), apart as i128, "{a:?} {b:?}");
            assert_eq!(a.before(*b), calendar(a) < calendar(b));
            let later = calendar(a) + chrono::TimeDelta::seconds(300);
            assert_eq!(a.before_by(300, *b), later < calendar(b), "{a:?} {b:?}");
        }
    }
}
