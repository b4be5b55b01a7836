//! The menu of the tray icon.

use vstd::prelude::*;
use vstd::string::StringExecFns;
use crate::claude::accounts::{ClaudeAccount, ClaudeAccountView};
use crate::codex_accounts::account_manager::account_views;
use crate::codex_accounts::models::{is_blank, AccountView, CodexAccount};
use crate::locale::{get_text, LocaleKey, Texts};
use crate::outside::{uuid_number, uuid_text, write_uuid};
use crate::settings::place_of;
use crate::snapshot::ProviderCatalogEntry;
use crate::text::{concat2, same, seen, trim, trimmed, views};

verus! {

/// An entry of the menu: an item, an item with a check mark, a submenu or a separator.
#[derive(Debug)]
pub struct TrayMenuEntry {
    pub id: Option<String>,
    pub label: String,
    pub children: Vec<TrayMenuEntry>,
    pub is_separator: bool,
    pub disabled: bool,
    /// Present where the entry has a check mark that can be set.
    pub checked: Option<bool>,
}

#[verifier::ext_equal]
pub struct EntryView {
    pub id: Option<Seq<char>>,
    pub label: Seq<char>,
    pub children: Seq<EntryView>,
    pub is_separator: bool,
    pub disabled: bool,
    pub checked: Option<bool>,
}

/// The views of entries.
pub open spec fn menu_view(entries: Seq<TrayMenuEntry>) -> Seq<EntryView>
    decreases entries,
{
    if entries.len() == 0 {
        Seq::empty()
    } else {
        menu_view(entries.drop_last()).push(entries.last().value())
    }
}

impl TrayMenuEntry {
    pub open spec fn value(&self) -> EntryView
        decreases self,
    {
        EntryView {
            id: seen(self.id),
            label: self.label@,
            children: menu_view(self.children@),
            is_separator: self.is_separator,
            disabled: self.disabled,
            checked: self.checked,
        }
    }
}

impl View for TrayMenuEntry {
    type V = EntryView;

    open spec fn view(&self) -> EntryView {
        self.value()
    }
}

/// A menu shows its entries one for one.
pub proof fn menu_shows_its_entries(entries: Seq<TrayMenuEntry>)
    ensures
        menu_view(entries).len() == entries.len(),
        forall|j: int| 0 <= j < entries.len() ==> #[trigger] menu_view(entries)[j] == entries[j]@,
    decreases entries.len(),
{
    if entries.len() > 0 {
        menu_shows_its_entries(entries.drop_last());
        assert forall|j: int| 0 <= j < entries.len() implies #[trigger] menu_view(entries)[j]
            == entries[j]@ by {
            if j < entries.len() - 1 {
                assert(menu_view(entries)[j] == menu_view(entries.drop_last())[j]);
                assert(entries.drop_last()[j] == entries[j]);
            }
        }
    }
}

/// A plain item.
pub open spec fn item_view(id: Seq<char>, label: Seq<char>) -> EntryView {
    EntryView {
        id: Some(id),
        label,
        children: Seq::empty(),
        is_separator: false,
        disabled: false,
        checked: None,
    }
}

/// An item with a check mark.
pub open spec fn check_view(id: Seq<char>, label: Seq<char>, checked: bool) -> EntryView {
    EntryView { checked: Some(checked), ..item_view(id, label) }
}

/// An entry that opens onto others.
pub open spec fn submenu_view(
    id: Seq<char>,
    label: Seq<char>,
    children: Seq<EntryView>,
) -> EntryView {
    EntryView { children, ..item_view(id, label) }
}

/// A line between entries.
pub open spec fn separator_view() -> EntryView {
    EntryView {
        id: None,
        label: Seq::empty(),
        children: Seq::empty(),
        is_separator: true,
        disabled: false,
        checked: None,
    }
}

/// A row that only tells something.
pub open spec fn status_view(id: Seq<char>, label: Seq<char>) -> EntryView {
    EntryView { disabled: true, ..item_view(id, label) }
}

impl TrayMenuEntry {
    /// A plain item.
    pub fn item(id: String, label: String) -> (r: Self)
        ensures
            r@ == item_view(id@, label@),
    {
        TrayMenuEntry {
            id: Some(id),
            label,
            children: Vec::new(),
            is_separator: false,
            disabled: false,
            checked: None,
        }
    }

    /// An item with a check mark.
    pub fn check_item(id: String, label: String, checked: bool) -> (r: Self)
        ensures
            r@ == check_view(id@, label@, checked),
    {
        TrayMenuEntry {
            id: Some(id),
            label,
            children: Vec::new(),
            is_separator: false,
            disabled: false,
            checked: Some(checked),
        }
    }

    /// An entry that opens onto others.
    pub fn submenu(id: String, label: String, children: Vec<TrayMenuEntry>) -> (r: Self)
        ensures
            r@ == submenu_view(id@, label@, menu_view(children@)),
    {
        TrayMenuEntry {
            id: Some(id),
            label,
            children,
            is_separator: false,
            disabled: false,
            checked: None,
        }
    }

    /// A line between entries.
    pub fn separator() -> (r: Self)
        ensures
            r@ == separator_view(),
    {
        TrayMenuEntry {
            id: None,
            label: String::new(),
            children: Vec::new(),
            is_separator: true,
            disabled: false,
            checked: None,
        }
    }

    /// A row that only tells something.
    pub fn status_row(id: String, label: String) -> (r: Self)
        ensures
            r@ == status_view(id@, label@),
    {
        TrayMenuEntry {
            id: Some(id),
            label,
            children: Vec::new(),
            is_separator: false,
            disabled: true,
            checked: None,
        }
    }
}

fn put(menu: &mut Vec<TrayMenuEntry>, entry: TrayMenuEntry)
    ensures
        menu_view(final(menu)@) == menu_view(old(menu)@).push(entry@),
{
    let ghost before = menu@;
    menu.push(entry);
    assert(menu@.drop_last() =~= before);
}

/// Whether an entry with an id stands somewhere in a menu.
pub open spec fn has_id(menu: Seq<EntryView>, id: Seq<char>) -> bool
    decreases menu,
{
    if menu.len() == 0 {
        false
    } else {
        entry_has_id(menu.last(), id) || has_id(menu.drop_last(), id)
    }
}

/// Whether an entry or one below it has an id.
pub open spec fn entry_has_id(entry: EntryView, id: Seq<char>) -> bool
    decreases entry,
{
    entry.id == Some(id) || has_id(entry.children, id)
}

/// An id stands in a menu where one of its entries has it.
pub proof fn entry_brings_its_id(menu: Seq<EntryView>, i: int, id: Seq<char>)
    requires
        0 <= i < menu.len(),
        entry_has_id(menu[i], id),
    ensures
        has_id(menu, id),
    decreases menu.len(),
{
    if i < menu.len() - 1 {
        assert(menu.drop_last()[i] == menu[i]);
        entry_brings_its_id(menu.drop_last(), i, id);
    }
}

fn entry_contains(entry: &TrayMenuEntry, id: &str) -> (r: bool)
    ensures
        r == entry_has_id(entry@, id@),
    decreases entry,
{
    if let Some(own) = &entry.id {
        if same(own.as_str(), id) {
            return true;
        }
    }
    menu_contains(&entry.children, id)
}

/// Whether an entry with an id stands somewhere in a menu.
pub fn menu_contains(menu: &Vec<TrayMenuEntry>, id: &str) -> (r: bool)
    ensures
        r == has_id(menu_view(menu@), id@),
    decreases menu,
{
    let mut i: usize = 0;
    let ghost all = menu@;
    assert(menu@.take(0) =~= Seq::empty());
    while i < menu.len()
        invariant
            i <= menu@.len(),
            !has_id(menu_view(menu@.take(i as int)), id@),
        decreases menu@.len() - i,
    {
        assert(menu@.take(i + 1).drop_last() =~= menu@.take(i as int));
        assert(menu_view(menu@.take(i + 1)).drop_last() =~= menu_view(menu@.take(i as int)));
        if entry_contains(&menu[i], id) {
            proof {
                menu_shows_its_entries(menu@);
                entry_brings_its_id(menu_view(menu@), i as int, id@);
            }
            return true;
        }
        i += 1;
    }
    assert(menu@.take(i as int) =~= menu@);
    false
}

/// The label of a Codex account: its nickname; without one, and where personal data are
/// hidden, the masked address; else the name it is shown by.
pub open spec fn codex_label(account: AccountView, masked: Seq<char>, hide: bool) -> Seq<char> {
    if hide && is_blank(account.nickname) {
        masked
    } else {
        account.shown_name()
    }
}

/// Whether an account is the active one.
pub open spec fn is_current(active: Option<AccountView>, account: AccountView) -> bool {
    match active {
        Some(current) => current.same_owner(account),
        None => false,
    }
}

/// The row of a Codex account. The active one is checked and cannot be chosen.
pub open spec fn codex_row(
    account: AccountView,
    active: Option<AccountView>,
    masked: Seq<char>,
    hide: bool,
) -> EntryView {
    EntryView {
        disabled: is_current(active, account),
        ..check_view(
            "switch_codex_account:"@ + uuid_text(account.id),
            codex_label(account, masked, hide),
            is_current(active, account),
        )
    }
}

/// The rows of the Codex accounts.
pub open spec fn codex_rows(
    accounts: Seq<AccountView>,
    active: Option<AccountView>,
    masked: Seq<Seq<char>>,
    hide: bool,
) -> Seq<EntryView> {
    Seq::new(accounts.len(), |i: int| codex_row(accounts[i], active, masked[i], hide))
}

/// The submenu of the Codex accounts.
pub open spec fn codex_menu(
    accounts: Seq<AccountView>,
    active: Option<AccountView>,
    masked: Seq<Seq<char>>,
    hide: bool,
    texts: Texts,
) -> EntryView {
    let rows = if accounts.len() == 0 {
        seq![status_view("codex_accounts_empty"@, texts.shown(LocaleKey::CodexAccountsEmpty))]
    } else {
        codex_rows(accounts, active, masked, hide)
    };
    submenu_view(
        "codex_accounts"@,
        texts.shown(LocaleKey::CodexAccountsTitle),
        rows + seq![
            separator_view(),
            item_view("add_codex_account"@, texts.shown(LocaleKey::CodexAccountsAddButton)),
        ],
    )
}

/// The view of an account that may be missing.
pub open spec fn account_seen(o: Option<&CodexAccount>) -> Option<AccountView> {
    match o {
        Some(a) => Some(a@),
        None => None,
    }
}

/// The submenu of the Codex accounts. `masked` holds the masked address of each account; it is
/// read only where personal data are hidden. The number in the id of a row reads back as the
/// account's.
pub fn codex_accounts_menu(
    accounts: &Vec<CodexAccount>,
    active: Option<&CodexAccount>,
    texts: &Texts,
    hide_personal_info: bool,
    masked: &Vec<String>,
) -> (r: TrayMenuEntry)
    requires
        hide_personal_info ==> masked@.len() == accounts@.len(),
    ensures
        r@ == codex_menu(
            account_views(accounts@),
            account_seen(active),
            views(masked@),
            hide_personal_info,
            *texts,
        ),
        forall|i: int|
            0 <= i < accounts@.len() ==> uuid_number(uuid_text((#[trigger] accounts@[i]).id))
                == Some(accounts@[i].id),
{
    let ghost all = account_views(accounts@);
    let ghost now = account_seen(active);
    let ghost rows = codex_rows(all, now, views(masked@), hide_personal_info);
    let mut children: Vec<TrayMenuEntry> = Vec::new();
    let mut i: usize = 0;
    assert(menu_view(children@) =~= rows.take(0));
    while i < accounts.len()
        invariant
            i <= accounts@.len(),
            hide_personal_info ==> masked@.len() == accounts@.len(),
            all == account_views(accounts@),
            now == account_seen(active),
            rows == codex_rows(all, now, views(masked@), hide_personal_info),
            menu_view(children@) == rows.take(i as int),
            forall|j: int|
                0 <= j < i ==> uuid_number(uuid_text((#[trigger] accounts@[j]).id)) == Some(
                    accounts@[j].id,
                ),
        decreases accounts@.len() - i,
    {
        let account = &accounts[i];
        let is_active = match active {
            Some(current) => current.matches(account),
            None => false,
        };
        let unnamed = match &account.nickname {
            Some(n) => trim(n.as_str()).is_empty(),
            None => true,
        };
        let label = if hide_personal_info && unnamed {
            masked[i].clone()
        } else {
            account.display_name()
        };
        let id = concat2("switch_codex_account:", write_uuid(account.id).as_str());
        let mut entry = TrayMenuEntry::check_item(id, label, is_active);
        entry.disabled = is_active;
        proof {
            assert(all[i as int] == account@);
            assert(entry@ =~= rows[i as int]);
            assert(rows.take(i + 1) =~= rows.take(i as int).push(rows[i as int]));
        }
        put(&mut children, entry);
        i += 1;
    }
    assert(rows.take(i as int) =~= rows);
    if accounts.len() == 0 {
        put(
            &mut children,
            TrayMenuEntry::status_row(
                "codex_accounts_empty".to_owned(),
                get_text(texts, LocaleKey::CodexAccountsEmpty),
            ),
        );
    }
    put(&mut children, TrayMenuEntry::separator());
    put(
        &mut children,
        TrayMenuEntry::item(
            "add_codex_account".to_owned(),
            get_text(texts, LocaleKey::CodexAccountsAddButton),
        ),
    );
    let out = TrayMenuEntry::submenu(
        "codex_accounts".to_owned(),
        get_text(texts, LocaleKey::CodexAccountsTitle),
        children,
    );
    assert(out@.children =~= codex_menu(all, now, views(masked@), hide_personal_info, *texts).children);
    out
}

/// The views of accounts.
pub open spec fn claude_views(accounts: Seq<ClaudeAccount>) -> Seq<ClaudeAccountView> {
    accounts.map_values(|a: ClaudeAccount| a@)
}

/// The label of an account of the tool: the masked address where personal data are hidden, else the
/// address and, in brackets, the organization.
pub open spec fn claude_label(account: ClaudeAccountView, masked: Seq<char>, hide: bool) -> Seq<
    char,
> {
    if hide {
        masked
    } else {
        match account.organization {
            Some(org) => account.email + " ("@ + org + ")"@,
            None => account.email,
        }
    }
}

/// The row of an account of the tool. The active one is checked; only a saved one that is not active
/// can be chosen.
pub open spec fn claude_row(account: ClaudeAccountView, masked: Seq<char>, hide: bool) -> EntryView {
    EntryView {
        disabled: account.is_active || !account.is_saved,
        ..check_view(
            "switch_claude_account:"@ + account.id,
            claude_label(account, masked, hide),
            account.is_active,
        )
    }
}

/// The rows of the accounts of the tool.
pub open spec fn claude_rows(
    accounts: Seq<ClaudeAccountView>,
    masked: Seq<Seq<char>>,
    hide: bool,
) -> Seq<EntryView> {
    Seq::new(accounts.len(), |i: int| claude_row(accounts[i], masked[i], hide))
}

/// The submenu of the accounts of the tool.
pub open spec fn claude_menu(
    accounts: Seq<ClaudeAccountView>,
    masked: Seq<Seq<char>>,
    hide: bool,
    texts: Texts,
) -> EntryView {
    let rows = if accounts.len() == 0 {
        seq![status_view("claude_accounts_empty"@, texts.shown(LocaleKey::ClaudeAccountsEmpty))]
    } else {
        claude_rows(accounts, masked, hide)
    };
    submenu_view(
        "claude_accounts"@,
        texts.shown(LocaleKey::ClaudeAccountsTitle),
        rows + seq![
            separator_view(),
            item_view("add_claude_account"@, texts.shown(LocaleKey::CodexAccountsAddButton)),
            item_view("save_claude_account"@, texts.shown(LocaleKey::ClaudeAccountsSaveCurrent)),
            item_view("cancel_claude_login"@, texts.shown(LocaleKey::ClaudeAccountsCancelLogin)),
        ],
    )
}

/// The submenu of the accounts of the tool. `masked` holds the masked address of each account; it
/// is read only where personal data are hidden.
pub fn claude_accounts_menu(
    accounts: &Vec<ClaudeAccount>,
    texts: &Texts,
    hide_personal_info: bool,
    masked: &Vec<String>,
) -> (r: TrayMenuEntry)
    requires
        hide_personal_info ==> masked@.len() == accounts@.len(),
    ensures
        r@ == claude_menu(claude_views(accounts@), views(masked@), hide_personal_info, *texts),
{
    let ghost all = claude_views(accounts@);
    let ghost rows = claude_rows(all, views(masked@), hide_personal_info);
    let mut children: Vec<TrayMenuEntry> = Vec::new();
    let mut i: usize = 0;
    assert(menu_view(children@) =~= rows.take(0));
    while i < accounts.len()
        invariant
            i <= accounts@.len(),
            hide_personal_info ==> masked@.len() == accounts@.len(),
            all == claude_views(accounts@),
            rows == claude_rows(all, views(masked@), hide_personal_info),
            menu_view(children@) == rows.take(i as int),
        decreases accounts@.len() - i,
    {
        let account = &accounts[i];
        let label = if hide_personal_info {
            masked[i].clone()
        } else {
            let mut s = account.email.clone();
            if let Some(org) = &account.organization {
                s.append(" (");
                s.append(org.as_str());
                s.append(")");
            }
            s
        };
        let id = concat2("switch_claude_account:", account.id.as_str());
        let mut entry = TrayMenuEntry::check_item(id, label, account.is_active);
        entry.disabled = account.is_active || !account.is_saved;
        proof {
            assert(all[i as int] == account@);
            assert(entry@ =~= rows[i as int]);
            assert(rows.take(i + 1) =~= rows.take(i as int).push(rows[i as int]));
        }
        put(&mut children, entry);
        i += 1;
    }
    assert(rows.take(i as int) =~= rows);
    if accounts.len() == 0 {
        put(
            &mut children,
            TrayMenuEntry::status_row(
                "claude_accounts_empty".to_owned(),
                get_text(texts, LocaleKey::ClaudeAccountsEmpty),
            ),
        );
    }
    put(&mut children, TrayMenuEntry::separator());
    put(
        &mut children,
        TrayMenuEntry::item(
            "add_claude_account".to_owned(),
            get_text(texts, LocaleKey::CodexAccountsAddButton),
        ),
    );
    put(
        &mut children,
        TrayMenuEntry::item(
            "save_claude_account".to_owned(),
            get_text(texts, LocaleKey::ClaudeAccountsSaveCurrent),
        ),
    );
    put(
        &mut children,
        TrayMenuEntry::item(
            "cancel_claude_login".to_owned(),
            get_text(texts, LocaleKey::ClaudeAccountsCancelLogin),
        ),
    );
    let out = TrayMenuEntry::submenu(
        "claude_accounts".to_owned(),
        get_text(texts, LocaleKey::ClaudeAccountsTitle),
        children,
    );
    assert(out@.children =~= claude_menu(all, views(masked@), hide_personal_info, *texts).children);
    out
}

/// The row of a provider among those that can be switched on and off.
pub open spec fn provider_row(provider: ProviderCatalogEntry, enabled: Seq<Seq<char>>) -> EntryView {
    check_view(
        "toggle_provider:"@ + provider.id@,
        provider.display_name@,
        enabled.contains(provider.id@),
    )
}

/// The rows of the providers.
pub open spec fn provider_rows(
    providers: Seq<ProviderCatalogEntry>,
    enabled: Seq<Seq<char>>,
) -> Seq<EntryView> {
    Seq::new(providers.len(), |i: int| provider_row(providers[i], enabled))
}

/// The rows that tell how the providers stand.
pub open spec fn status_rows(labels: Seq<(String, String)>) -> Seq<EntryView> {
    Seq::new(labels.len(), |i: int| status_view("status_"@ + labels[i].0@, labels[i].1@))
}

/// What stands above the providers.
pub open spec fn upper_entries(float_bar_enabled: bool, texts: Texts) -> Seq<EntryView> {
    seq![
        item_view("refresh"@, texts.shown(LocaleKey::TrayRefreshAll)),
        item_view("pop_out"@, texts.shown(LocaleKey::TrayPopOutDashboard)),
        item_view("show_panel"@, texts.shown(LocaleKey::TrayShowWindow)),
        check_view(
            "toggle_float_bar"@,
            texts.shown(LocaleKey::TrayShowFloatBar),
            float_bar_enabled,
        ),
        separator_view(),
    ]
}

/// What stands below the providers.
pub open spec fn lower_entries(texts: Texts) -> Seq<EntryView> {
    seq![
        item_view("settings"@, texts.shown(LocaleKey::TraySettings)),
        item_view("check_for_updates"@, texts.shown(LocaleKey::TrayCheckForUpdates)),
        item_view("about"@, texts.shown(LocaleKey::MenuAbout)),
        separator_view(),
        item_view("quit"@, texts.shown(LocaleKey::MenuQuit)),
    ]
}

/// The menu: how the providers stand, the actions, the providers, and the rest.
pub open spec fn whole_menu(
    providers: Seq<ProviderCatalogEntry>,
    labels: Seq<(String, String)>,
    enabled: Seq<Seq<char>>,
    float_bar_enabled: bool,
    texts: Texts,
) -> Seq<EntryView> {
    let status = if labels.len() == 0 {
        Seq::empty()
    } else {
        status_rows(labels).push(separator_view())
    };
    let middle = if providers.len() == 0 {
        Seq::empty()
    } else {
        seq![
            submenu_view(
                "providers"@,
                texts.shown(LocaleKey::TrayProviders),
                provider_rows(providers, enabled),
            ),
            separator_view(),
        ]
    };
    status + upper_entries(float_bar_enabled, texts) + middle + lower_entries(texts)
}

fn provider_items(providers: &Vec<ProviderCatalogEntry>, enabled: &Vec<String>) -> (r: Vec<
    TrayMenuEntry,
>)
    ensures
        menu_view(r@) == provider_rows(providers@, views(enabled@)),
{
    let ghost rows = provider_rows(providers@, views(enabled@));
    let mut out: Vec<TrayMenuEntry> = Vec::new();
    let mut i: usize = 0;
    assert(menu_view(out@) =~= rows.take(0));
    while i < providers.len()
        invariant
            i <= providers@.len(),
            rows == provider_rows(providers@, views(enabled@)),
            menu_view(out@) == rows.take(i as int),
        decreases providers@.len() - i,
    {
        let provider = &providers[i];
        let is_enabled = place_of(enabled, provider.id.as_str()).is_some();
        let id = concat2("toggle_provider:", provider.id.as_str());
        let entry = TrayMenuEntry::check_item(id, provider.display_name.clone(), is_enabled);
        assert(entry@ =~= rows[i as int]);
        assert(rows.take(i + 1) =~= rows.take(i as int).push(rows[i as int]));
        put(&mut out, entry);
        i += 1;
    }
    assert(rows.take(i as int) =~= rows);
    out
}

/// Builds the menu of the tray icon.
pub fn build_tray_menu_with(
    providers: &Vec<ProviderCatalogEntry>,
    status_labels: &Vec<(String, String)>,
    enabled_providers: &Vec<String>,
    float_bar_enabled: bool,
    texts: &Texts,
) -> (r: Vec<TrayMenuEntry>)
    ensures
        menu_view(r@) == whole_menu(
            providers@,
            status_labels@,
            views(enabled_providers@),
            float_bar_enabled,
            *texts,
        ),
{
    let ghost rows = status_rows(status_labels@);
    let mut menu: Vec<TrayMenuEntry> = Vec::new();
    let mut i: usize = 0;
    assert(menu_view(menu@) =~= rows.take(0));
    while i < status_labels.len()
        invariant
            i <= status_labels@.len(),
            rows == status_rows(status_labels@),
            menu_view(menu@) == rows.take(i as int),
        decreases status_labels@.len() - i,
    {
        let id = concat2("status_", status_labels[i].0.as_str());
        let entry = TrayMenuEntry::status_row(id, status_labels[i].1.clone());
        assert(entry@ =~= rows[i as int]);
        assert(rows.take(i + 1) =~= rows.take(i as int).push(rows[i as int]));
        put(&mut menu, entry);
        i += 1;
    }
    assert(rows.take(i as int) =~= rows);
    if status_labels.len() > 0 {
        put(&mut menu, TrayMenuEntry::separator());
    }
    let ghost status = menu_view(menu@);
    put(
        &mut menu,
        TrayMenuEntry::item("refresh".to_owned(), get_text(texts, LocaleKey::TrayRefreshAll)),
    );
    put(
        &mut menu,
        TrayMenuEntry::item("pop_out".to_owned(), get_text(texts, LocaleKey::TrayPopOutDashboard)),
    );
    put(
        &mut menu,
        TrayMenuEntry::item("show_panel".to_owned(), get_text(texts, LocaleKey::TrayShowWindow)),
    );
    put(
        &mut menu,
        TrayMenuEntry::check_item(
            "toggle_float_bar".to_owned(),
            get_text(texts, LocaleKey::TrayShowFloatBar),
            float_bar_enabled,
        ),
    );
    put(&mut menu, TrayMenuEntry::separator());
    assert(menu_view(menu@) =~= status + upper_entries(float_bar_enabled, *texts));
    let ghost upper = menu_view(menu@);
    if providers.len() > 0 {
        put(
            &mut menu,
            TrayMenuEntry::submenu(
                "providers".to_owned(),
                get_text(texts, LocaleKey::TrayProviders),
                provider_items(providers, enabled_providers),
            ),
        );
        put(&mut menu, TrayMenuEntry::separator());
    }
    let ghost middle = menu_view(menu@);
    put(
        &mut menu,
        TrayMenuEntry::item("settings".to_owned(), get_text(texts, LocaleKey::TraySettings)),
    );
    put(
        &mut menu,
        TrayMenuEntry::item(
            "check_for_updates".to_owned(),
            get_text(texts, LocaleKey::TrayCheckForUpdates),
        ),
    );
    put(
        &mut menu,
        TrayMenuEntry::item("about".to_owned(), get_text(texts, LocaleKey::MenuAbout)),
    );
    put(&mut menu, TrayMenuEntry::separator());
    put(&mut menu, TrayMenuEntry::item("quit".to_owned(), get_text(texts, LocaleKey::MenuQuit)));
    assert(menu_view(menu@) =~= middle + lower_entries(*texts));
    assert(menu_view(menu@) =~= whole_menu(
        providers@,
        status_labels@,
        views(enabled_providers@),
        float_bar_enabled,
        *texts,
    ));
    menu
}

/// Builds the menu of the tray icon with the float bar off.
pub fn build_tray_menu(
    providers: &Vec<ProviderCatalogEntry>,
    status_labels: &Vec<(String, String)>,
    enabled_providers: &Vec<String>,
    texts: &Texts,
) -> (r: Vec<TrayMenuEntry>)
    ensures
        menu_view(r@) == whole_menu(
            providers@,
            status_labels@,
            views(enabled_providers@),
            false,
            *texts,
        ),
{
    build_tray_menu_with(providers, status_labels, enabled_providers, false, texts)
}

/// The menu with the accounts of Codex and of the tool on top.
pub open spec fn with_accounts(codex: EntryView, claude: EntryView, menu: Seq<EntryView>) -> Seq<
    EntryView,
> {
    seq![codex, claude] + menu
}

/// Puts the accounts of Codex and of the tool on top of a menu.
pub fn add_account_menus(
    menu: Vec<TrayMenuEntry>,
    codex: TrayMenuEntry,
    claude: TrayMenuEntry,
) -> (r: Vec<TrayMenuEntry>)
    ensures
        menu_view(r@) == with_accounts(codex@, claude@, menu_view(menu@)),
{
    let mut menu = menu;
    let ghost before = menu@;
    menu.insert(0, codex);
    menu.insert(1, claude);
    proof {
        menu_shows_its_entries(before);
        menu_shows_its_entries(menu@);
        assert forall|j: int| 0 <= j < menu@.len() implies menu_view(menu@)[j] == with_accounts(
            codex@,
            claude@,
            menu_view(before),
        )[j] by {
            if j >= 2 {
                assert(menu@[j] == before[j - 2]);
            }
        }
        assert(menu_view(menu@) =~= with_accounts(codex@, claude@, menu_view(before)));
    }
    menu
}

/// Every listed provider can be switched on and off in the menu, with a mark that tells whether
/// it is on.
pub proof fn menu_offers_every_provider(
    providers: Seq<ProviderCatalogEntry>,
    labels: Seq<(String, String)>,
    enabled: Seq<Seq<char>>,
    float_bar_enabled: bool,
    texts: Texts,
    i: int,
)
    requires
        0 <= i < providers.len(),
    ensures
        has_id(
            whole_menu(providers, labels, enabled, float_bar_enabled, texts),
            "toggle_provider:"@ + providers[i].id@,
        ),
        provider_rows(providers, enabled)[i].checked == Some(enabled.contains(providers[i].id@)),
{
    let menu = whole_menu(providers, labels, enabled, float_bar_enabled, texts);
    let id = "toggle_provider:"@ + providers[i].id@;
    let rows = provider_rows(providers, enabled);
    entry_brings_its_id(rows, i, id);
    let k = if labels.len() == 0 { 5int } else { labels.len() as int + 6 };
    assert(menu[k].children == rows);
    entry_brings_its_id(menu, k, id);
}

/// Every menu offers to refresh, to check for updates, to open the settings and to quit.
pub proof fn menu_offers_the_fixed_actions(
    providers: Seq<ProviderCatalogEntry>,
    labels: Seq<(String, String)>,
    enabled: Seq<Seq<char>>,
    float_bar_enabled: bool,
    texts: Texts,
)
    ensures
        ({
            let menu = whole_menu(providers, labels, enabled, float_bar_enabled, texts);
            &&& has_id(menu, "refresh"@)
            &&& has_id(menu, "pop_out"@)
            &&& has_id(menu, "show_panel"@)
            &&& has_id(menu, "toggle_float_bar"@)
            &&& has_id(menu, "settings"@)
            &&& has_id(menu, "check_for_updates"@)
            &&& has_id(menu, "about"@)
            &&& has_id(menu, "quit"@)
        }),
{
    let menu = whole_menu(providers, labels, enabled, float_bar_enabled, texts);
    let k = if labels.len() == 0 { 0int } else { labels.len() as int + 1 };
    let n = menu.len() as int;
    assert(menu[k] == upper_entries(float_bar_enabled, texts)[0]);
    assert(menu[k + 1] == upper_entries(float_bar_enabled, texts)[1]);
    assert(menu[k + 2] == upper_entries(float_bar_enabled, texts)[2]);
    assert(menu[k + 3] == upper_entries(float_bar_enabled, texts)[3]);
    entry_brings_its_id(menu, k, "refresh"@);
    entry_brings_its_id(menu, k + 1, "pop_out"@);
    entry_brings_its_id(menu, k + 2, "show_panel"@);
    entry_brings_its_id(menu, k + 3, "toggle_float_bar"@);
    assert(menu[n - 5] == lower_entries(texts)[0]);
    assert(menu[n - 4] == lower_entries(texts)[1]);
    assert(menu[n - 3] == lower_entries(texts)[2]);
    assert(menu[n - 1] == lower_entries(texts)[4]);
    entry_brings_its_id(menu, n - 5, "settings"@);
    entry_brings_its_id(menu, n - 4, "check_for_updates"@);
    entry_brings_its_id(menu, n - 3, "about"@);
    entry_brings_its_id(menu, n - 1, "quit"@);
}

/// The account menus offer to add an account, whether or not there is one.
pub proof fn accounts_can_always_be_added(
    codex: Seq<AccountView>,
    active: Option<AccountView>,
    claude: Seq<ClaudeAccountView>,
    masked: Seq<Seq<char>>,
    hide: bool,
    texts: Texts,
)
    ensures
        has_id(codex_menu(codex, active, masked, hide, texts).children, "add_codex_account"@),
        has_id(claude_menu(claude, masked, hide, texts).children, "add_claude_account"@),
{
    let a = codex_menu(codex, active, masked, hide, texts).children;
    let b = claude_menu(claude, masked, hide, texts).children;
    entry_brings_its_id(a, a.len() - 1, "add_codex_account"@);
    entry_brings_its_id(b, b.len() - 3, "add_claude_account"@);
}

/// Where personal data are hidden, the label of an account without a nickname does not depend
/// on anything but its masked address.
pub proof fn hidden_labels_show_the_mask_alone(
    account: AccountView,
    other: ClaudeAccountView,
    masked: Seq<char>,
)
    requires
        is_blank(account.nickname),
    ensures
        codex_label(account, masked, true) == masked,
        claude_label(other, masked, true) == masked,
{
}

/// The row of a Codex account stands for that account: it is named by its number and shown by its
/// name, and the active one alone is marked and cannot be chosen.
pub proof fn a_codex_row_stands_for_its_account(
    account: AccountView,
    active: Option<AccountView>,
    masked: Seq<char>,
    hide: bool,
)
    ensures
        ({
            let row = codex_row(account, active, masked, hide);
            let current = active is Some && active->Some_0.same_owner(account);
            &&& row.id == Some("switch_codex_account:"@ + uuid_text(account.id))
            &&& row.checked == Some(current)
            &&& row.disabled == current
            &&& !hide ==> row.label == account.shown_name()
            &&& account.nickname is Some && trimmed(account.nickname->Some_0).len() > 0 ==> row.label
                == account.shown_name()
            &&& row.children.len() == 0
            &&& !row.is_separator
        }),
{
}

/// The submenu of the Codex accounts lists every account at its place, and says so where there is
/// none.
pub proof fn every_codex_account_is_listed(
    accounts: Seq<AccountView>,
    active: Option<AccountView>,
    masked: Seq<Seq<char>>,
    hide: bool,
    texts: Texts,
    i: int,
)
    ensures
        ({
            let menu = codex_menu(accounts, active, masked, hide, texts);
            &&& 0 <= i < accounts.len() ==> menu.children[i] == codex_row(
                accounts[i],
                active,
                masked[i],
                hide,
            )
            &&& accounts.len() > 0 ==> menu.children.len() == accounts.len() + 2
            &&& accounts.len() == 0 ==> menu.children.len() == 3 && menu.children[0].disabled
                && menu.children[0].label == texts.shown(LocaleKey::CodexAccountsEmpty)
            &&& menu.children.last().id == Some("add_codex_account"@)
            &&& !menu.children.last().disabled
            &&& menu.label == texts.shown(LocaleKey::CodexAccountsTitle)
        }),
{
}

/// The row of an account of the tool stands for that account: it is named by its id, marked where it
/// is active, and can be chosen only where it is saved and not active. Its label tells the address,
/// and the organization where there is one.
pub proof fn a_row_of_the_tool_stands_for_its_account(
    account: ClaudeAccountView,
    masked: Seq<char>,
    hide: bool,
)
    ensures
        ({
            let row = claude_row(account, masked, hide);
            &&& row.id == Some("switch_claude_account:"@ + account.id)
            &&& row.checked == Some(account.is_active)
            &&& row.disabled <==> account.is_active || !account.is_saved
            &&& !hide && account.organization is None ==> row.label == account.email
            &&& !hide ==> (account.organization matches Some(org) ==> row.label == account.email
                + " ("@ + org + ")"@)
            &&& hide ==> row.label == masked
        }),
{
}

/// The submenu of the accounts of the tool lists every account at its place, and says so where there
/// is none; below it stand the ways to add, to save and to give up a sign-in.
pub proof fn every_account_of_the_tool_is_listed(
    accounts: Seq<ClaudeAccountView>,
    masked: Seq<Seq<char>>,
    hide: bool,
    texts: Texts,
    i: int,
)
    ensures
        ({
            let menu = claude_menu(accounts, masked, hide, texts);
            let n = menu.children.len() as int;
            &&& 0 <= i < accounts.len() ==> menu.children[i] == claude_row(
                accounts[i],
                masked[i],
                hide,
            )
            &&& accounts.len() > 0 ==> n == accounts.len() + 4
            &&& accounts.len() == 0 ==> n == 5 && menu.children[0].disabled
                && menu.children[0].label == texts.shown(LocaleKey::ClaudeAccountsEmpty)
            &&& menu.children[n - 3].id == Some("add_claude_account"@)
            &&& menu.children[n - 2].id == Some("save_claude_account"@)
            &&& menu.children[n - 1].id == Some("cancel_claude_login"@)
            &&& menu.label == texts.shown(LocaleKey::ClaudeAccountsTitle)
        }),
{
}

/// The row of a provider is named by it, shown by its name, and marked exactly where it is on.
pub proof fn a_providers_row_is_marked_where_it_is_on(
    provider: ProviderCatalogEntry,
    enabled: Seq<Seq<char>>,
)
    ensures
        provider_row(provider, enabled).id == Some("toggle_provider:"@ + provider.id@),
        provider_row(provider, enabled).label == provider.display_name@,
        provider_row(provider, enabled).checked == Some(enabled.contains(provider.id@)),
        !provider_row(provider, enabled).disabled,
{
}

/// The rows that tell how the providers stand come first, in their order, and only tell something;
/// the float bar is marked where it is on; to quit comes last.
pub proof fn the_menu_begins_with_how_providers_stand(
    providers: Seq<ProviderCatalogEntry>,
    labels: Seq<(String, String)>,
    enabled: Seq<Seq<char>>,
    float_bar_enabled: bool,
    texts: Texts,
    i: int,
)
    ensures
        ({
            let menu = whole_menu(providers, labels, enabled, float_bar_enabled, texts);
            let top = if labels.len() == 0 {
                0int
            } else {
                labels.len() as int + 1
            };
            &&& 0 <= i < labels.len() ==> menu[i].id == Some("status_"@ + labels[i].0@)
                && menu[i].label == labels[i].1@ && menu[i].disabled
            &&& labels.len() > 0 ==> menu[labels.len() as int].is_separator
            &&& menu[top].id == Some("refresh"@)
            &&& menu[top].label == texts.shown(LocaleKey::TrayRefreshAll)
            &&& menu[top + 1].id == Some("pop_out"@)
            &&& menu[top + 1].label == texts.shown(LocaleKey::TrayPopOutDashboard)
            &&& menu[top + 2].id == Some("show_panel"@)
            &&& menu[top + 2].label == texts.shown(LocaleKey::TrayShowWindow)
            &&& menu[top + 3].id == Some("toggle_float_bar"@)
            &&& menu[top + 3].label == texts.shown(LocaleKey::TrayShowFloatBar)
            &&& menu[top + 3].checked == Some(float_bar_enabled)
            &&& menu.last().id == Some("quit"@)
            &&& menu.last().label == texts.shown(LocaleKey::MenuQuit)
            &&& menu[menu.len() - 3].id == Some("about"@)
            &&& menu[menu.len() - 3].label == texts.shown(LocaleKey::MenuAbout)
            &&& menu[menu.len() - 4].id == Some("check_for_updates"@)
            &&& menu[menu.len() - 4].label == texts.shown(LocaleKey::TrayCheckForUpdates)
            &&& menu[menu.len() - 5].id == Some("settings"@)
            &&& menu[menu.len() - 5].label == texts.shown(LocaleKey::TraySettings)
            &&& providers.len() > 0 ==> {
                let sub = menu[top + 5];
                &&& sub.id == Some("providers"@)
                &&& sub.label == texts.shown(LocaleKey::TrayProviders)
                &&& sub.children.len() == providers.len()
                &&& 0 <= i < providers.len() ==> sub.children[i] == provider_row(
                    providers[i],
                    enabled,
                )
            }
            &&& providers.len() == 0 ==> menu.len() == top + 10
        }),
{
}

/// The accounts stand on top of the menu, those of Codex first, and the menu follows as it was.
pub proof fn accounts_stand_on_top(codex: EntryView, claude: EntryView, menu: Seq<EntryView>, i: int)
    ensures
        with_accounts(codex, claude, menu).len() == menu.len() + 2,
        with_accounts(codex, claude, menu)[0] == codex,
        with_accounts(codex, claude, menu)[1] == claude,
        0 <= i < menu.len() ==> with_accounts(codex, claude, menu)[i + 2] == menu[i],
{
}

/// An id stands in a menu exactly where an entry, or one below it, has it.
pub proof fn an_id_stands_where_an_entry_has_it(menu: Seq<EntryView>, last: EntryView, id: Seq<char>)
    ensures
        !has_id(Seq::empty(), id),
        has_id(menu.push(last), id) <==> has_id(menu, id) || last.id == Some(id) || has_id(
            last.children,
            id,
        ),
{
    reveal_with_fuel(has_id, 2);
    reveal_with_fuel(entry_has_id, 2);
    assert(menu.push(last).drop_last() =~= menu);
    assert(menu.push(last).last() == last);
    assert(entry_has_id(last, id) == (last.id == Some(id) || has_id(last.children, id)));
}

/// The submenus of the accounts have ids of their own.
pub proof fn account_menus_have_their_own_ids(
    codex: Seq<AccountView>,
    active: Option<AccountView>,
    claude: Seq<ClaudeAccountView>,
    masked: Seq<Seq<char>>,
    hide: bool,
    texts: Texts,
)
    ensures
        codex_menu(codex, active, masked, hide, texts).id == Some("codex_accounts"@),
        claude_menu(claude, masked, hide, texts).id == Some("claude_accounts"@),
        codex.len() == 0 ==> codex_menu(codex, active, masked, hide, texts).children[0].id == Some(
            "codex_accounts_empty"@,
        ),
        claude.len() == 0 ==> claude_menu(claude, masked, hide, texts).children[0].id == Some(
            "claude_accounts_empty"@,
        ),
{
}

} // verus!
