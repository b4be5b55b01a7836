//! What the tray icon does and shows.

use vstd::prelude::*;
use vstd::string::StrSliceExecFns;
use crate::claude::accounts::ClaudeAccountView;
use crate::claude::tool::Tool;
use crate::codex_accounts::account_manager::CodexSwitchResult;
use crate::codex_accounts::models::AccountView;
use crate::locale::{LocaleKey, Texts};
use crate::outside::{parse_uuid, uuid_number, uuid_text};
use crate::quantity::{Quantity, ONE};
use crate::snapshot::ProviderCatalogEntry;
use crate::text::{same, seen, strip_prefix};
use crate::tray_menu::{
    claude_menu, claude_rows, codex_menu, codex_rows, lower_entries, menu_shows_its_entries,
    provider_rows, separator_view, status_rows, submenu_view, upper_entries, whole_menu,
    with_accounts, EntryView, TrayMenuEntry,
};

verus! {

/// The forms in which the main window appears.
#[derive(Clone, Copy, Debug, PartialEq, Eq, Structural)]
pub enum SurfaceMode {
    TrayPanel,
    PopOut,
}

/// What the main window shows.
#[derive(Debug, PartialEq, Eq)]
pub enum SurfaceTarget {
    Dashboard,
    Provider { provider_id: String },
}

pub enum TargetView {
    Dashboard,
    Provider { provider_id: Seq<char> },
}

impl View for SurfaceTarget {
    type V = TargetView;

    open spec fn view(&self) -> TargetView {
        match self {
            SurfaceTarget::Dashboard => TargetView::Dashboard,
            SurfaceTarget::Provider { provider_id } => TargetView::Provider {
                provider_id: provider_id@,
            },
        }
    }
}

/// A change of the main window that was asked for.
#[derive(Debug)]
pub struct ShellTransitionRequest {
    pub mode: SurfaceMode,
    pub target: SurfaceTarget,
    pub position: Option<(i32, i32)>,
}

pub struct RequestView {
    pub mode: SurfaceMode,
    pub target: TargetView,
    pub position: Option<(i32, i32)>,
}

impl View for ShellTransitionRequest {
    type V = RequestView;

    open spec fn view(&self) -> RequestView {
        RequestView { mode: self.mode, target: self.target@, position: self.position }
    }
}

/// What a provider's entry opens: the provider, where the id names one.
pub open spec fn provider_named(id: Seq<char>) -> Option<Seq<char>> {
    if "provider:"@.is_prefix_of(id) && id.len() > "provider:"@.len() {
        Some(id.skip("provider:"@.len() as int))
    } else {
        None
    }
}

/// The window that an entry opens.
pub open spec fn target_of(id: Seq<char>) -> Option<RequestView> {
    if id == "show_panel"@ {
        Some(
            RequestView {
                mode: SurfaceMode::PopOut,
                target: TargetView::Dashboard,
                position: None,
            },
        )
    } else {
        match provider_named(id) {
            Some(provider_id) => Some(
                RequestView {
                    mode: SurfaceMode::PopOut,
                    target: TargetView::Provider { provider_id },
                    position: None,
                },
            ),
            None => None,
        }
    }
}

/// The view of a request that may be missing.
pub open spec fn request_seen(o: Option<ShellTransitionRequest>) -> Option<RequestView> {
    match o {
        Some(r) => Some(r@),
        None => None,
    }
}

/// The window that an entry opens.
pub fn resolve_menu_target(id: &str) -> (r: Option<ShellTransitionRequest>)
    ensures
        request_seen(r) == target_of(id@),
{
    if same(id, "show_panel") {
        return Some(
            ShellTransitionRequest {
                mode: SurfaceMode::PopOut,
                target: SurfaceTarget::Dashboard,
                position: None,
            },
        );
    }
    match strip_prefix(id, "provider:") {
        Some(provider_id) => {
            if provider_id.is_empty() {
                return None;
            }
            Some(
                ShellTransitionRequest {
                    mode: SurfaceMode::PopOut,
                    target: SurfaceTarget::Provider { provider_id: provider_id.to_owned() },
                    position: None,
                },
            )
        },
        None => None,
    }
}

/// What an entry of the menu does.
#[derive(Debug)]
pub enum MenuAction {
    Transition(ShellTransitionRequest),
    /// Open the settings at a tab.
    OpenSettings(String),
    /// Open the flyout, or bring it to the front.
    OpenFlyout,
    Refresh,
    CheckForUpdates,
    /// Switch the named provider on or off.
    ToggleProvider(String),
    ToggleFloatBar,
    AddCodexAccount,
    AddClaudeAccount,
    SaveClaudeAccount,
    CancelClaudeLogin,
    SwitchClaudeAccount(String),
    SwitchCodexAccount(String),
    Quit,
}

pub enum ActionView {
    Transition(RequestView),
    OpenSettings(Seq<char>),
    OpenFlyout,
    Refresh,
    CheckForUpdates,
    ToggleProvider(Seq<char>),
    ToggleFloatBar,
    AddCodexAccount,
    AddClaudeAccount,
    SaveClaudeAccount,
    CancelClaudeLogin,
    SwitchClaudeAccount(Seq<char>),
    SwitchCodexAccount(Seq<char>),
    Quit,
}

impl View for MenuAction {
    type V = ActionView;

    open spec fn view(&self) -> ActionView {
        match self {
            MenuAction::Transition(request) => ActionView::Transition(request@),
            MenuAction::OpenSettings(tab) => ActionView::OpenSettings(tab@),
            MenuAction::OpenFlyout => ActionView::OpenFlyout,
            MenuAction::Refresh => ActionView::Refresh,
            MenuAction::CheckForUpdates => ActionView::CheckForUpdates,
            MenuAction::ToggleProvider(id) => ActionView::ToggleProvider(id@),
            MenuAction::ToggleFloatBar => ActionView::ToggleFloatBar,
            MenuAction::AddCodexAccount => ActionView::AddCodexAccount,
            MenuAction::AddClaudeAccount => ActionView::AddClaudeAccount,
            MenuAction::SaveClaudeAccount => ActionView::SaveClaudeAccount,
            MenuAction::CancelClaudeLogin => ActionView::CancelClaudeLogin,
            MenuAction::SwitchClaudeAccount(id) => ActionView::SwitchClaudeAccount(id@),
            MenuAction::SwitchCodexAccount(id) => ActionView::SwitchCodexAccount(id@),
            MenuAction::Quit => ActionView::Quit,
        }
    }
}

/// What an entry with a fixed id does.
pub open spec fn fixed_action(id: Seq<char>) -> Option<ActionView> {
    if id == "refresh"@ {
        Some(ActionView::Refresh)
    } else if id == "check_for_updates"@ {
        Some(ActionView::CheckForUpdates)
    } else if id == "quit"@ {
        Some(ActionView::Quit)
    } else if id == "settings"@ {
        Some(ActionView::OpenSettings("general"@))
    } else if id == "about"@ {
        Some(ActionView::OpenSettings("about"@))
    } else if id == "toggle_float_bar"@ {
        Some(ActionView::ToggleFloatBar)
    } else if id == "pop_out"@ {
        Some(ActionView::OpenFlyout)
    } else if id == "add_codex_account"@ {
        Some(ActionView::AddCodexAccount)
    } else if id == "add_claude_account"@ {
        Some(ActionView::AddClaudeAccount)
    } else if id == "save_claude_account"@ {
        Some(ActionView::SaveClaudeAccount)
    } else if id == "cancel_claude_login"@ {
        Some(ActionView::CancelClaudeLogin)
    } else {
        None
    }
}

/// What an entry does. The id of an account of the tool must not be empty and that of a Codex
/// account must be one that `uuid::Uuid::parse_str` reads.
pub open spec fn action_of(id: Seq<char>) -> Option<ActionView> {
    if fixed_action(id) is Some {
        fixed_action(id)
    } else if "switch_claude_account:"@.is_prefix_of(id) {
        let rest = id.skip("switch_claude_account:"@.len() as int);
        if rest.len() == 0 {
            None
        } else {
            Some(ActionView::SwitchClaudeAccount(rest))
        }
    } else if "switch_codex_account:"@.is_prefix_of(id) {
        let rest = id.skip("switch_codex_account:"@.len() as int);
        if uuid_number(rest) is Some {
            Some(ActionView::SwitchCodexAccount(rest))
        } else {
            None
        }
    } else if "toggle_provider:"@.is_prefix_of(id) {
        Some(ActionView::ToggleProvider(id.skip("toggle_provider:"@.len() as int)))
    } else {
        match target_of(id) {
            Some(request) => Some(ActionView::Transition(request)),
            None => None,
        }
    }
}

/// The view of an action that may be missing.
pub open spec fn action_seen(o: Option<MenuAction>) -> Option<ActionView> {
    match o {
        Some(a) => Some(a@),
        None => None,
    }
}

fn resolve_fixed_action(id: &str) -> (r: Option<MenuAction>)
    ensures
        action_seen(r) == fixed_action(id@),
{
    if same(id, "refresh") {
        Some(MenuAction::Refresh)
    } else if same(id, "check_for_updates") {
        Some(MenuAction::CheckForUpdates)
    } else if same(id, "quit") {
        Some(MenuAction::Quit)
    } else if same(id, "settings") {
        Some(MenuAction::OpenSettings("general".to_owned()))
    } else if same(id, "about") {
        Some(MenuAction::OpenSettings("about".to_owned()))
    } else if same(id, "toggle_float_bar") {
        Some(MenuAction::ToggleFloatBar)
    } else if same(id, "pop_out") {
        Some(MenuAction::OpenFlyout)
    } else if same(id, "add_codex_account") {
        Some(MenuAction::AddCodexAccount)
    } else if same(id, "add_claude_account") {
        Some(MenuAction::AddClaudeAccount)
    } else if same(id, "save_claude_account") {
        Some(MenuAction::SaveClaudeAccount)
    } else if same(id, "cancel_claude_login") {
        Some(MenuAction::CancelClaudeLogin)
    } else {
        None
    }
}

/// What an entry of the menu does.
pub fn resolve_menu_action(id: &str) -> (r: Option<MenuAction>)
    ensures
        action_seen(r) == action_of(id@),
{
    let fixed = resolve_fixed_action(id);
    if fixed.is_some() {
        return fixed;
    }
    if let Some(rest) = strip_prefix(id, "switch_claude_account:") {
        if rest.is_empty() {
            return None;
        }
        return Some(MenuAction::SwitchClaudeAccount(rest.to_owned()));
    }
    if let Some(rest) = strip_prefix(id, "switch_codex_account:") {
        if parse_uuid(rest).is_none() {
            return None;
        }
        return Some(MenuAction::SwitchCodexAccount(rest.to_owned()));
    }
    if let Some(rest) = strip_prefix(id, "toggle_provider:") {
        return Some(MenuAction::ToggleProvider(rest.to_owned()));
    }
    match resolve_menu_target(id) {
        Some(request) => Some(MenuAction::Transition(request)),
        None => None,
    }
}

/// How a change of the main window is carried out.
#[derive(Debug)]
pub enum MenuTransitionDispatch {
    Transition(ShellTransitionRequest),
    Reopen(ShellTransitionRequest),
}

pub enum DispatchView {
    Transition(RequestView),
    Reopen(RequestView),
}

impl View for MenuTransitionDispatch {
    type V = DispatchView;

    open spec fn view(&self) -> DispatchView {
        match self {
            MenuTransitionDispatch::Transition(request) => DispatchView::Transition(request@),
            MenuTransitionDispatch::Reopen(request) => DispatchView::Reopen(request@),
        }
    }
}

/// How a change of the main window is carried out: "show_panel" opens it anew, at the place
/// that is found for it; any other entry keeps the position asked for.
pub fn resolve_menu_transition_dispatch(id: &str, request: ShellTransitionRequest) -> (r:
    MenuTransitionDispatch)
    ensures
        r@ == (if id@ == "show_panel"@ {
            DispatchView::Reopen(RequestView { position: None, ..request@ })
        } else {
            DispatchView::Transition(request@)
        }),
{
    if same(id, "show_panel") {
        MenuTransitionDispatch::Reopen(
            ShellTransitionRequest { mode: request.mode, target: request.target, position: None },
        )
    } else {
        MenuTransitionDispatch::Transition(request)
    }
}

/// The session of Codex Desktop that a switch of accounts leaves to a restart: where the session
/// of the former account is kept, and where that of the new one is.
#[derive(Debug)]
pub struct DesktopSession {
    pub backup_path: Option<String>,
    pub restore_path: Option<String>,
}

#[verifier::ext_equal]
pub struct SessionView {
    pub backup_path: Option<Seq<char>>,
    pub restore_path: Option<Seq<char>>,
}

impl View for DesktopSession {
    type V = SessionView;

    open spec fn view(&self) -> SessionView {
        SessionView { backup_path: seen(self.backup_path), restore_path: seen(self.restore_path) }
    }
}

/// The session that a switch of accounts leaves to a restart.
pub open spec fn session_of(result: CodexSwitchResult) -> SessionView {
    SessionView {
        backup_path: seen(result.desktop_session_backup_path),
        restore_path: seen(result.desktop_session_restore_path),
    }
}

/// Something that the shell carries out.
#[derive(Debug)]
pub enum MenuStep {
    AddCodexAccount,
    SwitchCodexAccount(String),
    /// Ask whether Codex Desktop is to be restarted, and hand the session back with the answer.
    AskRestart(DesktopSession),
    /// Restart Codex Desktop with the session.
    RestartDesktop(DesktopSession),
    AddClaudeAccount,
    SaveClaudeAccount,
    SwitchClaudeAccount(String),
    CancelClaudeLogin,
    ShowMessage { title: String, message: String },
    /// Let the automatic refresh know that the user looks.
    NoteMenuOpen,
    Dispatch(MenuTransitionDispatch),
    OpenSettings(String),
    OpenFlyout,
    Refresh,
    CheckForUpdates,
    /// Switch a provider on or off in the stored settings.
    ToggleProvider(String),
    NotifySettingsChanged,
    ToggleFloatBar,
    RebuildMenu,
    Quit,
}

pub enum StepView {
    AddCodexAccount,
    SwitchCodexAccount(Seq<char>),
    AskRestart(SessionView),
    RestartDesktop(SessionView),
    AddClaudeAccount,
    SaveClaudeAccount,
    SwitchClaudeAccount(Seq<char>),
    CancelClaudeLogin,
    ShowMessage { title: Seq<char>, message: Seq<char> },
    NoteMenuOpen,
    Dispatch(DispatchView),
    OpenSettings(Seq<char>),
    OpenFlyout,
    Refresh,
    CheckForUpdates,
    ToggleProvider(Seq<char>),
    NotifySettingsChanged,
    ToggleFloatBar,
    RebuildMenu,
    Quit,
}

impl View for MenuStep {
    type V = StepView;

    open spec fn view(&self) -> StepView {
        match self {
            MenuStep::AddCodexAccount => StepView::AddCodexAccount,
            MenuStep::SwitchCodexAccount(id) => StepView::SwitchCodexAccount(id@),
            MenuStep::AskRestart(session) => StepView::AskRestart(session@),
            MenuStep::RestartDesktop(session) => StepView::RestartDesktop(session@),
            MenuStep::AddClaudeAccount => StepView::AddClaudeAccount,
            MenuStep::SaveClaudeAccount => StepView::SaveClaudeAccount,
            MenuStep::SwitchClaudeAccount(id) => StepView::SwitchClaudeAccount(id@),
            MenuStep::CancelClaudeLogin => StepView::CancelClaudeLogin,
            MenuStep::ShowMessage { title, message } => StepView::ShowMessage {
                title: title@,
                message: message@,
            },
            MenuStep::NoteMenuOpen => StepView::NoteMenuOpen,
            MenuStep::Dispatch(d) => StepView::Dispatch(d@),
            MenuStep::OpenSettings(tab) => StepView::OpenSettings(tab@),
            MenuStep::OpenFlyout => StepView::OpenFlyout,
            MenuStep::Refresh => StepView::Refresh,
            MenuStep::CheckForUpdates => StepView::CheckForUpdates,
            MenuStep::ToggleProvider(id) => StepView::ToggleProvider(id@),
            MenuStep::NotifySettingsChanged => StepView::NotifySettingsChanged,
            MenuStep::ToggleFloatBar => StepView::ToggleFloatBar,
            MenuStep::RebuildMenu => StepView::RebuildMenu,
            MenuStep::Quit => StepView::Quit,
        }
    }
}

/// The views of steps.
pub open spec fn steps_view(v: Seq<MenuStep>) -> Seq<StepView> {
    v.map_values(|s: MenuStep| s@)
}

/// How a change of the main window is carried out.
pub open spec fn dispatch_of(id: Seq<char>, request: RequestView) -> DispatchView {
    if id == "show_panel"@ {
        DispatchView::Reopen(RequestView { position: None, ..request })
    } else {
        DispatchView::Transition(request)
    }
}

/// What a click on an entry sets off, in order.
pub open spec fn steps_of(id: Seq<char>) -> Seq<StepView> {
    match action_of(id) {
        None => Seq::empty(),
        Some(ActionView::AddCodexAccount) => seq![StepView::AddCodexAccount],
        Some(ActionView::SwitchCodexAccount(account)) => seq![
            StepView::SwitchCodexAccount(account),
        ],
        Some(ActionView::CancelClaudeLogin) => seq![StepView::CancelClaudeLogin],
        Some(ActionView::AddClaudeAccount) => seq![StepView::AddClaudeAccount],
        Some(ActionView::SaveClaudeAccount) => seq![StepView::SaveClaudeAccount],
        Some(ActionView::SwitchClaudeAccount(account)) => seq![
            StepView::SwitchClaudeAccount(account),
        ],
        Some(ActionView::Transition(request)) => seq![
            StepView::NoteMenuOpen,
            StepView::Dispatch(dispatch_of(id, request)),
        ],
        Some(ActionView::OpenSettings(tab)) => seq![StepView::OpenSettings(tab)],
        Some(ActionView::OpenFlyout) => seq![StepView::NoteMenuOpen, StepView::OpenFlyout],
        Some(ActionView::Refresh) => seq![StepView::Refresh],
        Some(ActionView::CheckForUpdates) => seq![StepView::CheckForUpdates],
        Some(ActionView::ToggleProvider(provider)) => seq![
            StepView::ToggleProvider(provider),
            StepView::NotifySettingsChanged,
            StepView::RebuildMenu,
        ],
        Some(ActionView::ToggleFloatBar) => seq![StepView::ToggleFloatBar, StepView::RebuildMenu],
        Some(ActionView::Quit) => seq![StepView::Quit],
    }
}

fn one_step(step: MenuStep) -> (r: Vec<MenuStep>)
    ensures
        steps_view(r@) == seq![step@],
{
    let mut out: Vec<MenuStep> = Vec::new();
    out.push(step);
    assert(steps_view(out@) =~= seq![step@]);
    out
}

/// What a click on an entry sets off.
pub fn handle_menu_event(id: &str) -> (r: Vec<MenuStep>)
    ensures
        steps_view(r@) == steps_of(id@),
{
    let mut out: Vec<MenuStep> = Vec::new();
    match resolve_menu_action(id) {
        None => {
            assert(steps_view(out@) =~= steps_of(id@));
            out
        },
        Some(MenuAction::AddCodexAccount) => one_step(MenuStep::AddCodexAccount),
        Some(MenuAction::SwitchCodexAccount(account)) => one_step(
            MenuStep::SwitchCodexAccount(account),
        ),
        Some(MenuAction::CancelClaudeLogin) => one_step(MenuStep::CancelClaudeLogin),
        Some(MenuAction::AddClaudeAccount) => one_step(MenuStep::AddClaudeAccount),
        Some(MenuAction::SaveClaudeAccount) => one_step(MenuStep::SaveClaudeAccount),
        Some(MenuAction::SwitchClaudeAccount(account)) => one_step(
            MenuStep::SwitchClaudeAccount(account),
        ),
        Some(MenuAction::Transition(request)) => {
            out.push(MenuStep::NoteMenuOpen);
            out.push(MenuStep::Dispatch(resolve_menu_transition_dispatch(id, request)));
            assert(steps_view(out@) =~= steps_of(id@));
            out
        },
        Some(MenuAction::OpenSettings(tab)) => one_step(MenuStep::OpenSettings(tab)),
        Some(MenuAction::OpenFlyout) => {
            out.push(MenuStep::NoteMenuOpen);
            out.push(MenuStep::OpenFlyout);
            assert(steps_view(out@) =~= steps_of(id@));
            out
        },
        Some(MenuAction::Refresh) => one_step(MenuStep::Refresh),
        Some(MenuAction::CheckForUpdates) => one_step(MenuStep::CheckForUpdates),
        Some(MenuAction::ToggleProvider(provider)) => {
            out.push(MenuStep::ToggleProvider(provider));
            out.push(MenuStep::NotifySettingsChanged);
            out.push(MenuStep::RebuildMenu);
            assert(steps_view(out@) =~= steps_of(id@));
            out
        },
        Some(MenuAction::ToggleFloatBar) => {
            out.push(MenuStep::ToggleFloatBar);
            out.push(MenuStep::RebuildMenu);
            assert(steps_view(out@) =~= steps_of(id@));
            out
        },
        Some(MenuAction::Quit) => one_step(MenuStep::Quit),
    }
}

/// The title of messages about Codex accounts.
pub const CODEX_TITLE: &'static str = "Codex Accounts";

/// What is asked before Codex Desktop is restarted.
pub const RESTART_QUESTION: &'static str =
    "Account switched. Restart Codex Desktop to use it? This stops running desktop tasks.";

/// What a step on an account came to.
#[derive(Debug)]
pub enum MenuEvent {
    CodexAdded(Result<(), String>),
    CodexSwitched(Result<CodexSwitchResult, String>),
    RestartAnswered { yes: bool, session: DesktopSession },
    Restarted(Result<(), String>),
    ClaudeAdded(Result<(), String>),
    ClaudeSaved(Result<(), String>),
    ClaudeSwitched(Result<(), String>),
}

/// A message: what went wrong, else that all went well.
pub open spec fn outcome(title: Seq<char>, result: Result<(), String>, done: Seq<char>) -> StepView {
    StepView::ShowMessage {
        title,
        message: match result {
            Ok(_) => done,
            Err(e) => e@,
        },
    }
}

/// What follows an event, if anything.
pub open spec fn step_after(tool: Tool, event: MenuEvent) -> Option<StepView> {
    match event {
        MenuEvent::CodexAdded(result) => Some(
            outcome(CODEX_TITLE@, result, "Codex account added."@),
        ),
        MenuEvent::CodexSwitched(Ok(result)) => if session_of(result).restore_path is Some {
            Some(StepView::AskRestart(session_of(result)))
        } else {
            Some(StepView::ShowMessage { title: CODEX_TITLE@, message: "Codex account switched."@ })
        },
        MenuEvent::CodexSwitched(Err(e)) => Some(
            StepView::ShowMessage { title: CODEX_TITLE@, message: e@ },
        ),
        MenuEvent::RestartAnswered { yes, session } => if yes {
            Some(StepView::RestartDesktop(session@))
        } else {
            None
        },
        MenuEvent::Restarted(Ok(_)) => None,
        MenuEvent::Restarted(Err(e)) => Some(
            StepView::ShowMessage { title: CODEX_TITLE@, message: e@ },
        ),
        MenuEvent::ClaudeAdded(result) => Some(
            outcome(tool.accounts_title(), result, tool.account_added()),
        ),
        MenuEvent::ClaudeSaved(result) => Some(
            outcome(tool.accounts_title(), result, tool.account_saved()),
        ),
        MenuEvent::ClaudeSwitched(result) => Some(
            outcome(
                tool.accounts_title(),
                result,
                tool.account_switched(),
            ),
        ),
    }
}

/// The view of a step that may be missing.
pub open spec fn step_seen(o: Option<MenuStep>) -> Option<StepView> {
    match o {
        Some(s) => Some(s@),
        None => None,
    }
}

fn tell(title: String, result: Result<(), String>, done: &str) -> (r: Option<MenuStep>)
    ensures
        step_seen(r) == Some(outcome(title@, result, done@)),
{
    let message = match result {
        Ok(_) => done.to_owned(),
        Err(e) => e,
    };
    Some(MenuStep::ShowMessage { title, message })
}

/// What follows an event: a message, a question, a restart, or nothing.
pub fn after_menu_event(tool: &Tool, event: MenuEvent) -> (r: Option<MenuStep>)
    ensures
        step_seen(r) == step_after(*tool, event),
{
    match event {
        MenuEvent::CodexAdded(result) => tell(CODEX_TITLE.to_owned(), result, "Codex account added."),
        MenuEvent::CodexSwitched(Ok(result)) => if result.desktop_session_restore_path.is_some() {
            Some(
                MenuStep::AskRestart(
                    DesktopSession {
                        backup_path: result.desktop_session_backup_path,
                        restore_path: result.desktop_session_restore_path,
                    },
                ),
            )
        } else {
            Some(
                MenuStep::ShowMessage {
                    title: CODEX_TITLE.to_owned(),
                    message: "Codex account switched.".to_owned(),
                },
            )
        },
        MenuEvent::CodexSwitched(Err(e)) => Some(
            MenuStep::ShowMessage { title: CODEX_TITLE.to_owned(), message: e },
        ),
        MenuEvent::RestartAnswered { yes, session } => if yes {
            Some(MenuStep::RestartDesktop(session))
        } else {
            None
        },
        MenuEvent::Restarted(Ok(_)) => None,
        MenuEvent::Restarted(Err(e)) => Some(
            MenuStep::ShowMessage { title: CODEX_TITLE.to_owned(), message: e },
        ),
        MenuEvent::ClaudeAdded(result) => tell(
            tool.say_accounts_title(),
            result,
            tool.say_account_added().as_str(),
        ),
        MenuEvent::ClaudeSaved(result) => tell(
            tool.say_accounts_title(),
            result,
            tool.say_account_saved().as_str(),
        ),
        MenuEvent::ClaudeSwitched(result) => tell(
            tool.say_accounts_title(),
            result,
            tool.say_account_switched().as_str(),
        ),
    }
}

/// Codex Desktop is restarted only after the user agreed to it.
pub proof fn restart_needs_an_answer(tool: Tool, event: MenuEvent)
    ensures
        step_after(tool, event) matches Some(StepView::RestartDesktop(_))
            ==> event matches MenuEvent::RestartAnswered { yes: true, .. },
{
}

/// A restart is given the session of the switch that it follows: the question after a switch
/// carries it, and so does the restart after an answer that hands it back.
pub proof fn restart_is_given_the_switched_session(
    tool: Tool,
    result: CodexSwitchResult,
    session: DesktopSession,
)
    requires
        session_of(result).restore_path is Some,
        step_after(tool, MenuEvent::CodexSwitched(Ok(result))) == Some(
            StepView::AskRestart(session@),
        ),
    ensures
        step_after(tool, MenuEvent::RestartAnswered { yes: true, session }) == Some(
            StepView::RestartDesktop(session_of(result)),
        ),
        step_after(tool, MenuEvent::RestartAnswered { yes: false, session }) is None,
{
}

proof fn reveal_ids()
    ensures
        "refresh"@.len() == 7 && "refresh"@[0] == 'r',
        "check_for_updates"@.len() == 17 && "check_for_updates"@[1] == 'h',
        "quit"@.len() == 4 && "quit"@[0] == 'q',
        "settings"@.len() == 8 && "settings"@[1] == 'e',
        "about"@.len() == 5 && "about"@[1] == 'b',
        "toggle_float_bar"@.len() == 16 && "toggle_float_bar"@[7] == 'f',
        "pop_out"@.len() == 7 && "pop_out"@[0] == 'p',
        "add_codex_account"@.len() == 17 && "add_codex_account"@[1] == 'd',
        "add_claude_account"@.len() == 18 && "add_claude_account"@[1] == 'd',
        "save_claude_account"@.len() == 19 && "save_claude_account"@[1] == 'a',
        "cancel_claude_login"@.len() == 19 && "cancel_claude_login"@[1] == 'a',
        "show_panel"@.len() == 10 && "show_panel"@[1] == 'h',
        "provider:"@.len() == 9 && "provider:"@[0] == 'p' && "provider:"@[1] == 'r',
        "switch_claude_account:"@.len() == 22,
        "switch_claude_account:"@[0] == 's' && "switch_claude_account:"@[1] == 'w',
        "switch_claude_account:"@[8] == 'l',
        "switch_codex_account:"@.len() == 21,
        "switch_codex_account:"@[0] == 's' && "switch_codex_account:"@[1] == 'w',
        "switch_codex_account:"@[8] == 'o',
        "toggle_provider:"@.len() == 16,
        "toggle_provider:"@[0] == 't' && "toggle_provider:"@[1] == 'o',
        "toggle_provider:"@[7] == 'p',
{
    reveal_strlit("refresh");
    reveal_strlit("check_for_updates");
    reveal_strlit("quit");
    reveal_strlit("settings");
    reveal_strlit("about");
    reveal_strlit("toggle_float_bar");
    reveal_strlit("pop_out");
    reveal_strlit("add_codex_account");
    reveal_strlit("add_claude_account");
    reveal_strlit("save_claude_account");
    reveal_strlit("cancel_claude_login");
    reveal_strlit("show_panel");
    reveal_strlit("provider:");
    reveal_strlit("switch_claude_account:");
    reveal_strlit("switch_codex_account:");
    reveal_strlit("toggle_provider:");
}

/// The entry of a provider switches that provider and no other.
pub proof fn provider_entries_are_routed(provider: Seq<char>)
    ensures
        action_of("toggle_provider:"@ + provider) == Some(ActionView::ToggleProvider(provider)),
{
    reveal_ids();
    let id = "toggle_provider:"@ + provider;
    assert(id[0] == 't' && id[1] == 'o' && id[7] == 'p');
    assert(id.skip(16) =~= provider);
    assert(id.take(16) =~= "toggle_provider:"@);
}

/// The entry of an account of the tool switches to that account, where the account has an id.
pub proof fn claude_entries_are_routed(account: Seq<char>)
    ensures
        action_of("switch_claude_account:"@ + account) == (if account.len() == 0 {
            None::<ActionView>
        } else {
            Some(ActionView::SwitchClaudeAccount(account))
        }),
{
    reveal_ids();
    let id = "switch_claude_account:"@ + account;
    assert(id[0] == 's' && id[1] == 'w' && id[8] == 'l');
    assert(id.skip(22) =~= account);
    assert(id.take(22) =~= "switch_claude_account:"@);
}

/// The entry of a Codex account switches to that account, where its id can be read.
pub proof fn codex_entries_are_routed(account: Seq<char>)
    requires
        uuid_number(account) is Some,
    ensures
        action_of("switch_codex_account:"@ + account) == Some(
            ActionView::SwitchCodexAccount(account),
        ),
{
    reveal_ids();
    let id = "switch_codex_account:"@ + account;
    assert(id[0] == 's' && id[1] == 'w' && id[8] == 'o');
    assert(id.skip(21) =~= account);
    assert(id.take(21) =~= "switch_codex_account:"@);
}

/// The entries of the accounts of the tool and of Codex do not mix: no id is routed to both.
pub proof fn account_entries_do_not_mix(claude: Seq<char>, codex: Seq<char>)
    ensures
        "switch_claude_account:"@ + claude != "switch_codex_account:"@ + codex,
{
    reveal_ids();
    let a = "switch_claude_account:"@ + claude;
    let b = "switch_codex_account:"@ + codex;
    assert(a[8] == 'l' && b[8] == 'o');
}

/// How many seconds to wait before the tray icon is promoted once more, after `attempt` such
/// waits, given whether it is to be promoted.
pub fn next_promotion(promote: bool, attempt: usize) -> (r: Option<u64>)
    ensures
        r == (if !promote {
            None::<u64>
        } else if attempt == 0 {
            Some(1)
        } else if attempt == 1 {
            Some(3)
        } else if attempt == 2 {
            Some(8)
        } else {
            None
        }),
{
    if !promote {
        return None;
    }
    match attempt {
        0 => Some(1),
        1 => Some(3),
        2 => Some(8),
        _ => None,
    }
}

/// Where a monitor lies, in physical pixels.
#[derive(Clone, Copy, Debug)]
pub struct MonitorBounds {
    pub physical_x: i32,
    pub physical_y: i32,
    pub physical_width: u32,
    pub physical_height: u32,
}

impl MonitorBounds {
    /// The right and the lower edge can be counted in 32 bits.
    pub open spec fn wf(self) -> bool {
        &&& self.physical_x + self.physical_width <= i32::MAX
        &&& self.physical_y + self.physical_height <= i32::MAX
    }

    /// Whether a point lies on the monitor. Coordinates are in units of 2^-64 pixels.
    pub open spec fn covers(self, x: int, y: int) -> bool {
        &&& self.physical_x * ONE <= x < (self.physical_x + self.physical_width) * ONE
        &&& self.physical_y * ONE <= y < (self.physical_y + self.physical_height) * ONE
    }
}

/// The first monitor, from `i` on, that covers a point.
pub open spec fn monitor_from(monitors: Seq<MonitorBounds>, x: int, y: int, i: int) -> Option<int>
    decreases monitors.len() - i,
{
    if i >= monitors.len() {
        None
    } else if monitors[i].covers(x, y) {
        Some(i)
    } else {
        monitor_from(monitors, x, y, i + 1)
    }
}

/// The place of the first monitor that covers a point.
pub fn monitor_at_point(x: Quantity, y: Quantity, monitors: &Vec<MonitorBounds>) -> (r: Option<usize>)
    requires
        forall|i: int| 0 <= i < monitors@.len() ==> (#[trigger] monitors@[i]).wf(),
    ensures
        match r {
            Some(k) => monitor_from(monitors@, x.scaled as int, y.scaled as int, 0) == Some(
                k as int,
            ),
            None => monitor_from(monitors@, x.scaled as int, y.scaled as int, 0) is None,
        },
{
    let mut i: usize = 0;
    while i < monitors.len()
        invariant
            i <= monitors@.len(),
            forall|j: int| 0 <= j < monitors@.len() ==> (#[trigger] monitors@[j]).wf(),
            monitor_from(monitors@, x.scaled as int, y.scaled as int, 0) == monitor_from(
                monitors@,
                x.scaled as int,
                y.scaled as int,
                i as int,
            ),
        decreases monitors@.len() - i,
    {
        let m = monitors[i];
        let left: i128 = m.physical_x as i128 * ONE;
        let top: i128 = m.physical_y as i128 * ONE;
        let right: i128 = (m.physical_x as i128 + m.physical_width as i128) * ONE;
        let bottom: i128 = (m.physical_y as i128 + m.physical_height as i128) * ONE;
        if x.scaled >= left && x.scaled < right && y.scaled >= top && y.scaled < bottom {
            return Some(i);
        }
        i += 1;
    }
    None
}

/// Where the tray icon stands, in physical pixels.
#[derive(Clone, Copy, Debug, PartialEq, Eq, Structural)]
pub struct TrayAnchor {
    pub x: i32,
    pub y: i32,
    pub width: u32,
    pub height: u32,
}

/// Where the icon stands. What is given in physical pixels is taken as it is; what is not is
/// taken from `scaled`, which holds the same rectangle at the scale of the monitor that was
/// clicked on, and is missing where no monitor was.
pub fn resolve_tray_anchor(
    position: Option<(i32, i32)>,
    size: Option<(u32, u32)>,
    scaled: Option<TrayAnchor>,
) -> (r: Option<TrayAnchor>)
    ensures
        match (position, size, scaled) {
            (Some(p), Some(s), _) => r == Some(
                (TrayAnchor { x: p.0, y: p.1, width: s.0, height: s.1 }),
            ),
            (_, _, None) => r is None,
            (None, None, Some(t)) => r == Some(t),
            (Some(p), None, Some(t)) => r == Some((TrayAnchor { x: p.0, y: p.1, ..t })),
            (None, Some(s), Some(t)) => r == Some((TrayAnchor { width: s.0, height: s.1, ..t })),
        },
{
    match (position, size, scaled) {
        (Some(p), Some(s), _) => Some(TrayAnchor { x: p.0, y: p.1, width: s.0, height: s.1 }),
        (_, _, None) => None,
        (None, None, Some(t)) => Some(t),
        (Some(p), None, Some(t)) => Some(
            TrayAnchor { x: p.0, y: p.1, width: t.width, height: t.height },
        ),
        (None, Some(s), Some(t)) => Some(TrayAnchor { x: t.x, y: t.y, width: s.0, height: s.1 }),
    }
}

/// The native entry that stands for an entry of the menu.
#[derive(Clone, Copy, Debug, PartialEq, Eq, Structural)]
pub enum NativeEntry {
    Separator,
    Submenu,
    CheckItem { enabled: bool, checked: bool },
    Item { enabled: bool },
}

/// The native entry that stands for an entry of the menu.
pub open spec fn native_of(entry: EntryView) -> NativeEntry {
    if entry.is_separator {
        NativeEntry::Separator
    } else if entry.children.len() > 0 {
        NativeEntry::Submenu
    } else {
        match entry.checked {
            Some(checked) => NativeEntry::CheckItem { enabled: !entry.disabled, checked },
            None => NativeEntry::Item { enabled: !entry.disabled },
        }
    }
}

/// The native entry that stands for an entry of the menu.
pub fn native_menu_entry(entry: &TrayMenuEntry) -> (r: NativeEntry)
    ensures
        r == native_of(entry@),
{
    proof {
        menu_shows_its_entries(entry.children@);
    }
    if entry.is_separator {
        return NativeEntry::Separator;
    }
    if entry.children.len() > 0 {
        return NativeEntry::Submenu;
    }
    match entry.checked {
        Some(checked) => NativeEntry::CheckItem { enabled: !entry.disabled, checked },
        None => NativeEntry::Item { enabled: !entry.disabled },
    }
}

/// Whether a click on an entry is possible: on an item that is not disabled.
pub open spec fn clickable(entry: EntryView) -> bool {
    match native_of(entry) {
        NativeEntry::Item { enabled } => enabled,
        NativeEntry::CheckItem { enabled, .. } => enabled,
        _ => false,
    }
}

/// Whether an entry has an action.
pub open spec fn acts(entry: EntryView) -> bool {
    match entry.id {
        Some(id) => action_of(id) is Some,
        None => false,
    }
}

/// Whether every entry of a menu that can be clicked, at whatever depth, has an action.
pub open spec fn clicks_act(menu: Seq<EntryView>) -> bool
    decreases menu,
{
    if menu.len() == 0 {
        true
    } else {
        entry_clicks_act(menu.last()) && clicks_act(menu.drop_last())
    }
}

/// Whether an entry and those below it that can be clicked have an action.
pub open spec fn entry_clicks_act(entry: EntryView) -> bool
    decreases entry,
{
    (clickable(entry) ==> acts(entry)) && clicks_act(entry.children)
}

/// Clicks in a menu act where they act on each of its entries.
pub proof fn clicks_act_entry_by_entry(menu: Seq<EntryView>)
    requires
        forall|i: int| 0 <= i < menu.len() ==> entry_clicks_act(#[trigger] menu[i]),
    ensures
        clicks_act(menu),
    decreases menu.len(),
{
    if menu.len() > 0 {
        assert(entry_clicks_act(menu[menu.len() - 1]));
        assert forall|i: int| 0 <= i < menu.len() - 1 implies entry_clicks_act(
            #[trigger] menu.drop_last()[i],
        ) by {
            assert(menu.drop_last()[i] == menu[i]);
        }
        clicks_act_entry_by_entry(menu.drop_last());
    }
}

/// Clicks in a menu act where they act in its upper and in its lower part.
pub proof fn clicks_act_part_by_part(upper: Seq<EntryView>, lower: Seq<EntryView>)
    requires
        clicks_act(upper),
        clicks_act(lower),
    ensures
        clicks_act(upper + lower),
    decreases lower.len(),
{
    if lower.len() == 0 {
        assert(upper + lower =~= upper);
    } else {
        clicks_act_part_by_part(upper, lower.drop_last());
        assert((upper + lower).drop_last() =~= upper + lower.drop_last());
    }
}

/// Every entry of the menu that can be clicked has an action.
pub proof fn every_click_acts(
    providers: Seq<ProviderCatalogEntry>,
    labels: Seq<(String, String)>,
    enabled: Seq<Seq<char>>,
    float_bar_enabled: bool,
    texts: Texts,
)
    ensures
        clicks_act(whole_menu(providers, labels, enabled, float_bar_enabled, texts)),
{
    let rows = provider_rows(providers, enabled);
    assert forall|i: int| 0 <= i < rows.len() implies entry_clicks_act(#[trigger] rows[i]) by {
        provider_entries_are_routed(providers[i].id@);
    }
    clicks_act_entry_by_entry(rows);
    let status = if labels.len() == 0 {
        Seq::empty()
    } else {
        status_rows(labels).push(separator_view())
    };
    let middle = if providers.len() == 0 {
        Seq::empty()
    } else {
        seq![
            submenu_view("providers"@, texts.shown(LocaleKey::TrayProviders), rows),
            separator_view(),
        ]
    };
    let upper = upper_entries(float_bar_enabled, texts);
    let lower = lower_entries(texts);
    clicks_act_entry_by_entry(status);
    assert forall|i: int| 0 <= i < upper.len() implies entry_clicks_act(#[trigger] upper[i]) by {
        reveal_ids();
    }
    clicks_act_entry_by_entry(upper);
    assert forall|i: int| 0 <= i < middle.len() implies entry_clicks_act(#[trigger] middle[i]) by {
        assert(middle[0].children =~= rows);
    }
    clicks_act_entry_by_entry(middle);
    clicks_act_entry_by_entry(lower);
    clicks_act_part_by_part(status, upper);
    clicks_act_part_by_part(status + upper, middle);
    clicks_act_part_by_part(status + upper + middle, lower);
}

/// Every entry of the submenu of the Codex accounts that can be clicked has an action, where the
/// accounts' numbers read back.
pub proof fn every_codex_click_acts(
    accounts: Seq<AccountView>,
    active: Option<AccountView>,
    masked: Seq<Seq<char>>,
    hide: bool,
    texts: Texts,
)
    requires
        forall|i: int|
            0 <= i < accounts.len() ==> uuid_number(uuid_text((#[trigger] accounts[i]).id))
                == Some(accounts[i].id),
    ensures
        entry_clicks_act(codex_menu(accounts, active, masked, hide, texts)),
{
    let menu = codex_menu(accounts, active, masked, hide, texts);
    let rows = codex_rows(accounts, active, masked, hide);
    assert forall|i: int| 0 <= i < menu.children.len() implies entry_clicks_act(
        #[trigger] menu.children[i],
    ) by {
        if i < accounts.len() {
            assert(menu.children[i] == rows[i]);
            assert(uuid_number(uuid_text(accounts[i].id)) is Some);
            codex_entries_are_routed(uuid_text(accounts[i].id));
        }
    }
    clicks_act_entry_by_entry(menu.children);
}

/// Every entry of the submenu of the accounts of the tool that can be clicked has an action, where
/// each account that can be chosen has an id.
pub proof fn every_claude_click_acts(
    accounts: Seq<ClaudeAccountView>,
    masked: Seq<Seq<char>>,
    hide: bool,
    texts: Texts,
)
    requires
        forall|i: int|
            0 <= i < accounts.len() && (#[trigger] accounts[i]).is_saved && !accounts[i].is_active
                ==> accounts[i].id.len() > 0,
    ensures
        entry_clicks_act(claude_menu(accounts, masked, hide, texts)),
{
    let menu = claude_menu(accounts, masked, hide, texts);
    let rows = claude_rows(accounts, masked, hide);
    assert forall|i: int| 0 <= i < menu.children.len() implies entry_clicks_act(
        #[trigger] menu.children[i],
    ) by {
        if i < accounts.len() {
            assert(menu.children[i] == rows[i]);
            claude_entries_are_routed(accounts[i].id);
        }
    }
    clicks_act_entry_by_entry(menu.children);
}

/// Every entry that can be clicked in the menu with the accounts on top has an action, where the
/// numbers of the Codex accounts read back and each account of the tool that can be chosen has
/// an id.
pub proof fn every_click_below_the_accounts_acts(
    codex_accounts: Seq<AccountView>,
    active: Option<AccountView>,
    codex_masked: Seq<Seq<char>>,
    claude_accounts: Seq<ClaudeAccountView>,
    claude_masked: Seq<Seq<char>>,
    hide: bool,
    providers: Seq<ProviderCatalogEntry>,
    labels: Seq<(String, String)>,
    enabled: Seq<Seq<char>>,
    float_bar_enabled: bool,
    texts: Texts,
)
    requires
        forall|i: int|
            0 <= i < codex_accounts.len() ==> uuid_number(
                uuid_text((#[trigger] codex_accounts[i]).id),
            ) == Some(codex_accounts[i].id),
        forall|i: int|
            0 <= i < claude_accounts.len() && (#[trigger] claude_accounts[i]).is_saved
                && !claude_accounts[i].is_active ==> claude_accounts[i].id.len() > 0,
    ensures
        clicks_act(
            with_accounts(
                codex_menu(codex_accounts, active, codex_masked, hide, texts),
                claude_menu(claude_accounts, claude_masked, hide, texts),
                whole_menu(providers, labels, enabled, float_bar_enabled, texts),
            ),
        ),
{
    let codex = codex_menu(codex_accounts, active, codex_masked, hide, texts);
    let claude = claude_menu(claude_accounts, claude_masked, hide, texts);
    every_codex_click_acts(codex_accounts, active, codex_masked, hide, texts);
    every_claude_click_acts(claude_accounts, claude_masked, hide, texts);
    every_click_acts(providers, labels, enabled, float_bar_enabled, texts);
    clicks_act_entry_by_entry(seq![codex, claude]);
    clicks_act_part_by_part(
        seq![codex, claude],
        whole_menu(providers, labels, enabled, float_bar_enabled, texts),
    );
}

/// Each entry with a fixed id does what it says.
pub proof fn fixed_entries_do_what_they_say()
    ensures
        action_of("refresh"@) == Some(ActionView::Refresh),
        action_of("check_for_updates"@) == Some(ActionView::CheckForUpdates),
        action_of("quit"@) == Some(ActionView::Quit),
        action_of("settings"@) == Some(ActionView::OpenSettings("general"@)),
        action_of("about"@) == Some(ActionView::OpenSettings("about"@)),
        action_of("toggle_float_bar"@) == Some(ActionView::ToggleFloatBar),
        action_of("pop_out"@) == Some(ActionView::OpenFlyout),
        action_of("add_codex_account"@) == Some(ActionView::AddCodexAccount),
        action_of("add_claude_account"@) == Some(ActionView::AddClaudeAccount),
        action_of("save_claude_account"@) == Some(ActionView::SaveClaudeAccount),
        action_of("cancel_claude_login"@) == Some(ActionView::CancelClaudeLogin),
{
    reveal_ids();
    reveal_strlit("save_claude_account");
    reveal_strlit("cancel_claude_login");
    assert("save_claude_account"@[0] == 's');
    assert("cancel_claude_login"@[0] == 'c');
}

/// The entry of the panel opens the dashboard anew, and that of a provider the provider; an entry
/// that is not known does nothing.
pub proof fn entries_open_what_they_name(provider: Seq<char>)
    requires
        provider.len() > 0,
    ensures
        target_of("show_panel"@) == Some(
            RequestView {
                mode: SurfaceMode::PopOut,
                target: TargetView::Dashboard,
                position: None,
            },
        ),
        target_of("provider:"@ + provider) == Some(
            RequestView {
                mode: SurfaceMode::PopOut,
                target: TargetView::Provider { provider_id: provider },
                position: None,
            },
        ),
        target_of("provider:"@) is None,
        action_of(Seq::empty()) is None,
        steps_of(Seq::empty()).len() == 0,
{
    reveal_ids();
    let id = "provider:"@ + provider;
    assert(id[0] == 'p' && id[1] == 'r');
    assert("provider:"@ =~= id.take(9));
    assert(id.skip(9) =~= provider);
    assert("show_panel"@[1] == 'h');
    let empty = Seq::<char>::empty();
    assert(empty.len() == 0);
}

/// A click sets off what its entry stands for: a switch of a provider is stored, told and shown; an
/// account is switched to as it is named; a window is opened after the user's look was noted.
pub proof fn a_click_sets_off_what_its_entry_stands_for(id: Seq<char>, x: Seq<char>)
    ensures
        action_of(id) == Some(ActionView::ToggleProvider(x)) ==> steps_of(id) == seq![
            StepView::ToggleProvider(x),
            StepView::NotifySettingsChanged,
            StepView::RebuildMenu,
        ],
        action_of(id) == Some(ActionView::SwitchCodexAccount(x)) ==> steps_of(id) == seq![
            StepView::SwitchCodexAccount(x),
        ],
        action_of(id) == Some(ActionView::SwitchClaudeAccount(x)) ==> steps_of(id) == seq![
            StepView::SwitchClaudeAccount(x),
        ],
        action_of(id) == Some(ActionView::OpenSettings(x)) ==> steps_of(id) == seq![
            StepView::OpenSettings(x),
        ],
        action_of(id) == Some(ActionView::AddCodexAccount) ==> steps_of(id) == seq![
            StepView::AddCodexAccount,
        ],
        action_of(id) == Some(ActionView::AddClaudeAccount) ==> steps_of(id) == seq![
            StepView::AddClaudeAccount,
        ],
        action_of(id) == Some(ActionView::SaveClaudeAccount) ==> steps_of(id) == seq![
            StepView::SaveClaudeAccount,
        ],
        action_of(id) == Some(ActionView::CancelClaudeLogin) ==> steps_of(id) == seq![
            StepView::CancelClaudeLogin,
        ],
        action_of(id) == Some(ActionView::Refresh) ==> steps_of(id) == seq![StepView::Refresh],
        action_of(id) == Some(ActionView::CheckForUpdates) ==> steps_of(id) == seq![
            StepView::CheckForUpdates,
        ],
        action_of(id) == Some(ActionView::ToggleFloatBar) ==> steps_of(id) == seq![
            StepView::ToggleFloatBar,
            StepView::RebuildMenu,
        ],
        action_of(id) == Some(ActionView::OpenFlyout) ==> steps_of(id) == seq![
            StepView::NoteMenuOpen,
            StepView::OpenFlyout,
        ],
        action_of(id) == Some(ActionView::Quit) ==> steps_of(id) == seq![StepView::Quit],
        action_of(id) matches Some(ActionView::Transition(request)) ==> steps_of(id).len() == 2
            && steps_of(id)[0] == StepView::NoteMenuOpen && steps_of(id)[1] == StepView::Dispatch(
            dispatch_of(id, request),
        ),
        action_of(id) is None ==> steps_of(id).len() == 0,
{
}

/// The panel is opened anew at the place that is found for it, and any other window is changed as it
/// was asked for.
pub proof fn only_the_panel_is_opened_anew(id: Seq<char>, request: RequestView)
    ensures
        id == "show_panel"@ ==> dispatch_of(id, request) == DispatchView::Reopen(
            RequestView { position: None, ..request },
        ),
        id != "show_panel"@ ==> dispatch_of(id, request) == DispatchView::Transition(request),
{
}

/// What an account's step came to is told: that it is done, or what went wrong. After a switch that
/// leaves a session to restore, the user is asked first.
pub proof fn what_a_step_came_to_is_told(
    tool: Tool,
    result: CodexSwitchResult,
    session: DesktopSession,
    e: String,
)
    ensures
        step_after(tool, MenuEvent::CodexAdded(Err(e))) == Some(
            StepView::ShowMessage { title: "Codex Accounts"@, message: e@ },
        ),
        step_after(tool, MenuEvent::CodexAdded(Ok(()))) == Some(
            StepView::ShowMessage { title: "Codex Accounts"@, message: "Codex account added."@ },
        ),
        step_after(tool, MenuEvent::CodexSwitched(Err(e))) == Some(
            StepView::ShowMessage { title: "Codex Accounts"@, message: e@ },
        ),
        result.desktop_session_restore_path is None ==> step_after(
            tool,
            MenuEvent::CodexSwitched(Ok(result)),
        ) == Some(
            StepView::ShowMessage { title: "Codex Accounts"@, message: "Codex account switched."@ },
        ),
        result.desktop_session_restore_path matches Some(path) ==> {
            let step = step_after(tool, MenuEvent::CodexSwitched(Ok(result)));
            &&& step is Some
            &&& step->Some_0 is AskRestart
            &&& step->Some_0->AskRestart_0.restore_path == Some(path@)
            &&& step->Some_0->AskRestart_0.backup_path == seen(result.desktop_session_backup_path)
        },
        step_after(tool, (MenuEvent::RestartAnswered { yes: true, session })) == Some(
            StepView::RestartDesktop(session@),
        ),
        step_after(tool, MenuEvent::Restarted(Ok(()))) is None,
        step_after(tool, MenuEvent::Restarted(Err(e))) == Some(
            StepView::ShowMessage { title: "Codex Accounts"@, message: e@ },
        ),
        step_after(tool, MenuEvent::ClaudeAdded(Err(e))) == Some(
            StepView::ShowMessage { title: tool.accounts_title(), message: e@ },
        ),
        step_after(tool, MenuEvent::ClaudeSaved(Err(e))) == Some(
            StepView::ShowMessage { title: tool.accounts_title(), message: e@ },
        ),
        step_after(tool, MenuEvent::ClaudeSwitched(Err(e))) == Some(
            StepView::ShowMessage { title: tool.accounts_title(), message: e@ },
        ),
        step_after(tool, MenuEvent::ClaudeAdded(Ok(()))) == Some(
            StepView::ShowMessage { title: tool.accounts_title(), message: tool.account_added() },
        ),
        step_after(tool, MenuEvent::ClaudeSaved(Ok(()))) == Some(
            StepView::ShowMessage { title: tool.accounts_title(), message: tool.account_saved() },
        ),
        step_after(tool, MenuEvent::ClaudeSwitched(Ok(()))) == Some(
            StepView::ShowMessage { title: tool.accounts_title(), message: tool.account_switched() },
        ),
{
}

/// A point lies on a monitor from its left and upper edge up to, but not on, its right and lower
/// one; of several monitors that cover it the first counts.
pub proof fn a_point_lies_on_the_first_monitor_that_covers_it(
    monitors: Seq<MonitorBounds>,
    x: int,
    y: int,
    i: int,
)
    requires
        0 <= i,
    ensures
        match monitor_from(monitors, x, y, i) {
            Some(k) => i <= k < monitors.len() && monitors[k].covers(x, y) && forall|j: int|
                i <= j < k ==> !(#[trigger] monitors[j]).covers(x, y),
            None => forall|j: int| i <= j < monitors.len() ==> !(#[trigger] monitors[j]).covers(x, y),
        },
    decreases monitors.len() - i,
{
    if i < monitors.len() && !monitors[i].covers(x, y) {
        a_point_lies_on_the_first_monitor_that_covers_it(monitors, x, y, i + 1);
    }
}

/// The corner at the left and on top belongs to a monitor, the one at the right and below does not.
pub proof fn edges_belong_to_one_side(m: MonitorBounds, px: int, py: int)
    ensures
        m.covers(px * 0x1_0000_0000_0000_0000, py * 0x1_0000_0000_0000_0000) <==> m.physical_x <= px
            < m.physical_x + m.physical_width && m.physical_y <= py < m.physical_y
            + m.physical_height,
{
}

/// What the shell gives in pixels is taken as it is, and the rest from the scaled rectangle; without
/// either there is no place.
pub proof fn given_pixels_are_taken_as_they_are(
    position: Option<(i32, i32)>,
    size: Option<(u32, u32)>,
    scaled: Option<TrayAnchor>,
    r: Option<TrayAnchor>,
)
    requires
        call_ensures(resolve_tray_anchor, (position, size, scaled), r),
    ensures
        position is Some && size is Some ==> r is Some,
        r is Some && position is Some ==> r->Some_0.x == position->Some_0.0 && r->Some_0.y
            == position->Some_0.1,
        r is Some && size is Some ==> r->Some_0.width == size->Some_0.0 && r->Some_0.height
            == size->Some_0.1,
        r is Some && position is None ==> r->Some_0.x == scaled->Some_0.x && r->Some_0.y
            == scaled->Some_0.y,
        r is Some && size is None ==> r->Some_0.width == scaled->Some_0.width && r->Some_0.height
            == scaled->Some_0.height,
        (position is None || size is None) ==> (r is Some <==> scaled is Some),
{
}

/// An entry is drawn as what it is, and can be clicked unless it is disabled.
pub proof fn entries_are_drawn_as_they_are(entry: EntryView, mark: bool)
    ensures
        entry.is_separator ==> native_of(entry) == NativeEntry::Separator,
        !entry.is_separator && entry.children.len() > 0 ==> native_of(entry) == NativeEntry::Submenu,
        !entry.is_separator && entry.children.len() == 0 && entry.checked == Some(mark)
            ==> native_of(entry) == (NativeEntry::CheckItem {
            enabled: !entry.disabled,
            checked: mark,
        }),
        !entry.is_separator && entry.children.len() == 0 && entry.checked is None ==> native_of(
            entry,
        ) == (NativeEntry::Item { enabled: !entry.disabled }),
{
}

/// The icon is promoted three times more, after longer and longer waits, and only while it is to be.
pub proof fn promotion_is_tried_three_times_more(
    promote: bool,
    attempt: usize,
    next: usize,
    r: Option<u64>,
    s: Option<u64>,
)
    requires
        call_ensures(next_promotion, (promote, attempt), r),
        call_ensures(next_promotion, (promote, next), s),
        attempt < next,
    ensures
        r is Some <==> promote && attempt < 3,
        s is Some ==> r is Some && r->Some_0 < s->Some_0,
        promote && attempt == 0 ==> r == Some(1u64),
{
}

} // verus!
