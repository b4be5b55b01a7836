//! The settings that the tray and the refresh of providers read.

use vstd::prelude::*;
use crate::locale::Language;
use crate::text::{same, views};

verus! {

/// Whether the tray shows one row for all providers or one for each.
#[derive(Clone, Copy, Debug, PartialEq, Eq, Structural)]
pub enum TrayIconMode {
    Single,
    PerProvider,
}

/// The settings that the tray and the refresh of providers read. A provider is named at most
/// once in `enabled_providers`.
#[derive(Debug)]
pub struct Settings {
    pub enabled_providers: Vec<String>,
    pub provider_display_order: Vec<String>,
    pub ui_language: Language,
    pub hide_personal_info: bool,
    pub float_bar_enabled: bool,
    pub tray_icon_mode: TrayIconMode,
    pub menu_bar_shows_highest_usage: bool,
    pub menu_bar_display_mode: String,
    pub menu_bar_shows_percent: bool,
    pub show_as_used: bool,
    pub hooks_enabled: bool,
    pub show_notifications: bool,
    pub predictive_pace_warning_enabled: bool,
}

/// The language that the user chose.
pub fn current_language(settings: &Settings) -> (r: Language)
    ensures
        r == settings.ui_language,
{
    settings.ui_language
}

/// Whether no name stands twice in a list.
pub open spec fn distinct(names: Seq<Seq<char>>) -> bool {
    forall|i: int, j: int| 0 <= i < j < names.len() ==> #[trigger] names[i] != #[trigger] names[j]
}

/// Where a name stands in a list, from place `i` on.
pub open spec fn place_from(names: Seq<Seq<char>>, name: Seq<char>, i: int) -> Option<int>
    decreases names.len() - i,
{
    if i >= names.len() {
        None
    } else if names[i] == name {
        Some(i)
    } else {
        place_from(names, name, i + 1)
    }
}

/// A name is in a list exactly where it has a place there.
pub proof fn place_is_where_it_stands(names: Seq<Seq<char>>, name: Seq<char>, i: int)
    requires
        0 <= i <= names.len(),
    ensures
        match place_from(names, name, i) {
            Some(k) => i <= k < names.len() && names[k] == name && forall|j: int|
                i <= j < k ==> #[trigger] names[j] != name,
            None => forall|j: int| i <= j < names.len() ==> #[trigger] names[j] != name,
        },
    decreases names.len() - i,
{
    if i < names.len() && names[i] != name {
        place_is_where_it_stands(names, name, i + 1);
    }
}

/// Finds a name in a list.
pub fn place_of(names: &Vec<String>, name: &str) -> (r: Option<usize>)
    ensures
        match r {
            Some(k) => place_from(views(names@), name@, 0) == Some(k as int) && k < names@.len(),
            None => place_from(views(names@), name@, 0) is None,
        },
        r is Some <==> views(names@).contains(name@),
{
    proof {
        place_is_where_it_stands(views(names@), name@, 0);
    }
    let mut i: usize = 0;
    while i < names.len()
        invariant
            i <= names@.len(),
            place_from(views(names@), name@, 0) == place_from(views(names@), name@, i as int),
            forall|j: int| 0 <= j < i ==> #[trigger] views(names@)[j] != name@,
        decreases names@.len() - i,
    {
        assert(views(names@)[i as int] == names@[i as int]@);
        if same(names[i].as_str(), name) {
            return Some(i);
        }
        i += 1;
    }
    None
}

/// The names after one was switched on or off.
pub open spec fn toggled(names: Seq<Seq<char>>, name: Seq<char>) -> Seq<Seq<char>> {
    match place_from(names, name, 0) {
        Some(k) => names.remove(k),
        None => names.push(name),
    }
}

/// Switches a provider on or off.
pub fn toggle_provider(enabled: &mut Vec<String>, provider_id: String)
    ensures
        views(final(enabled)@) == toggled(views(old(enabled)@), provider_id@),
{
    match place_of(enabled, provider_id.as_str()) {
        Some(k) => {
            let ghost before = enabled@;
            enabled.remove(k);
            assert(views(enabled@) =~= views(before).remove(k as int));
        },
        None => {
            let ghost before = enabled@;
            enabled.push(provider_id);
            assert(views(enabled@) =~= views(before).push(provider_id@));
        },
    }
}

/// Switching a provider on or off turns around whether it is on, and leaves every other one as
/// it was; nothing is listed twice.
pub proof fn toggling_turns_one_around(names: Seq<Seq<char>>, name: Seq<char>)
    requires
        distinct(names),
    ensures
        distinct(toggled(names, name)),
        toggled(names, name).contains(name) <==> !names.contains(name),
        forall|other: Seq<char>|
            other != name ==> (#[trigger] toggled(names, name).contains(other) <==> names.contains(
                other,
            )),
{
    place_is_where_it_stands(names, name, 0);
    let t = toggled(names, name);
    match place_from(names, name, 0) {
        Some(k) => {
            assert(names.contains(name));
            assert forall|i: int| 0 <= i < t.len() implies #[trigger] t[i] != name by {
                if i < k {
                    assert(t[i] == names[i]);
                } else {
                    assert(t[i] == names[i + 1]);
                    assert(names[k] != names[i + 1]);
                }
            }
            assert forall|i: int, j: int| 0 <= i < j < t.len() implies #[trigger] t[i]
                != #[trigger] t[j] by {
                let a = if i < k { i } else { i + 1 };
                let b = if j < k { j } else { j + 1 };
                assert(t[i] == names[a] && t[j] == names[b]);
            }
            assert forall|other: Seq<char>| other != name implies (#[trigger] t.contains(other)
                <==> names.contains(other)) by {
                if names.contains(other) {
                    let j = names.index_of(other);
                    if j < k {
                        assert(t[j] == other);
                    } else {
                        assert(t[j - 1] == other);
                    }
                }
                if t.contains(other) {
                    let j = t.index_of(other);
                    if j < k {
                        assert(names[j] == other);
                    } else {
                        assert(names[j + 1] == other);
                    }
                }
            }
        },
        None => {
            assert(t[names.len() as int] == name);
            assert forall|other: Seq<char>| other != name implies (#[trigger] t.contains(other)
                <==> names.contains(other)) by {
                if names.contains(other) {
                    let j = names.index_of(other);
                    assert(t[j] == other);
                }
                if t.contains(other) {
                    let j = t.index_of(other);
                    assert(names[j] == other);
                }
            }
        },
    }
}

/// Switching a provider twice leaves every provider as it was.
pub proof fn toggling_twice_changes_nothing(names: Seq<Seq<char>>, name: Seq<char>)
    requires
        distinct(names),
    ensures
        forall|other: Seq<char>|
            #[trigger] toggled(toggled(names, name), name).contains(other) <==> names.contains(
                other,
            ),
{
    toggling_turns_one_around(names, name);
    toggling_turns_one_around(toggled(names, name), name);
    let t = toggled(toggled(names, name), name);
    assert forall|other: Seq<char>| #[trigger] t.contains(other) <==> names.contains(other) by {
        if other != name {
            assert(toggled(names, name).contains(other) <==> names.contains(other));
        }
    }
}

} // verus!
