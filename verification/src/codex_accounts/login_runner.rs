//! Signing in with the command line tool: what it is called with and what its run comes to.

use vstd::prelude::*;
use vstd::string::StrSliceExecFns;
use vstd::utf8::{decode_utf8, valid_utf8};
use crate::moment::Moment;
use crate::outside::{decode_lossy, decode_strict, lossy_text};
use crate::sorting::{is_stable_order, key_views, lex_less, stable_order};
use crate::text::{a_path_leads_to_its_part, join, join_path, joined, joined_texts_follow_one_another, path_with, lemma_trimmed_alone, str_views, trim, trimmed, trimmed_has_no_white_ends, views};

verus! {

/// What a sign-in came to.
#[derive(Debug)]
pub enum CodexLoginOutcome {
    MissingBinary,
    LaunchFailed(String),
    TimedOut(String),
    Cancelled,
    Failed(String),
    Success(String),
}

pub enum LoginView {
    MissingBinary,
    LaunchFailed(Seq<char>),
    TimedOut(Seq<char>),
    Cancelled,
    Failed(Seq<char>),
    Success(Seq<char>),
}

impl View for CodexLoginOutcome {
    type V = LoginView;

    open spec fn view(&self) -> LoginView {
        match self {
            CodexLoginOutcome::MissingBinary => LoginView::MissingBinary,
            CodexLoginOutcome::LaunchFailed(s) => LoginView::LaunchFailed(s@),
            CodexLoginOutcome::TimedOut(s) => LoginView::TimedOut(s@),
            CodexLoginOutcome::Cancelled => LoginView::Cancelled,
            CodexLoginOutcome::Failed(s) => LoginView::Failed(s@),
            CodexLoginOutcome::Success(s) => LoginView::Success(s@),
        }
    }
}

impl CodexLoginOutcome {
    /// The name of the outcome.
    pub fn as_str(&self) -> (r: &'static str)
        ensures
            r@ == (match self@ {
                LoginView::MissingBinary => "missing_binary"@,
                LoginView::LaunchFailed(_) => "launch_failed"@,
                LoginView::TimedOut(_) => "timed_out"@,
                LoginView::Cancelled => "cancelled"@,
                LoginView::Failed(_) => "failed"@,
                LoginView::Success(_) => "success"@,
            }),
    {
        match self {
            CodexLoginOutcome::MissingBinary => "missing_binary",
            CodexLoginOutcome::LaunchFailed(_) => "launch_failed",
            CodexLoginOutcome::TimedOut(_) => "timed_out",
            CodexLoginOutcome::Cancelled => "cancelled",
            CodexLoginOutcome::Failed(_) => "failed",
            CodexLoginOutcome::Success(_) => "success",
        }
    }

    /// What the tool printed, or why it did not start.
    pub fn output(&self) -> (r: &str)
        ensures
            r@ == (match self@ {
                LoginView::MissingBinary => Seq::empty(),
                LoginView::LaunchFailed(s) => s,
                LoginView::TimedOut(s) => s,
                LoginView::Cancelled => Seq::empty(),
                LoginView::Failed(s) => s,
                LoginView::Success(s) => s,
            }),
    {
        proof {
            reveal_strlit("");
            assert(""@ =~= Seq::<char>::empty());
        }
        match self {
            CodexLoginOutcome::MissingBinary => "",
            CodexLoginOutcome::LaunchFailed(s) => s.as_str(),
            CodexLoginOutcome::TimedOut(s) => s.as_str(),
            CodexLoginOutcome::Cancelled => "",
            CodexLoginOutcome::Failed(s) => s.as_str(),
            CodexLoginOutcome::Success(s) => s.as_str(),
        }
    }
}

/// The result of a sign-in.
#[derive(Debug)]
pub struct CodexLoginResult {
    pub outcome: CodexLoginOutcome,
}

/// The longest output that is kept, in characters.
pub const OUTPUT_LIMIT: usize = 4000;

/// The trimmed outputs that are not blank.
pub open spec fn spoken(stdout: Seq<char>, stderr: Seq<char>) -> Seq<Seq<char>> {
    let a = trimmed(stdout);
    let b = trimmed(stderr);
    (if a.len() > 0 {
        seq![a]
    } else {
        Seq::empty()
    }) + (if b.len() > 0 {
        seq![b]
    } else {
        Seq::empty()
    })
}

/// Both outputs in one text, each trimmed, a line break between them, cut to `OUTPUT_LIMIT`.
pub open spec fn combined(stdout: Seq<char>, stderr: Seq<char>) -> Seq<char> {
    let merged = trimmed(joined(spoken(stdout, stderr), "\n"@));
    if merged.len() == 0 {
        "No output captured."@
    } else if merged.len() > OUTPUT_LIMIT {
        merged.take(OUTPUT_LIMIT as int)
    } else {
        merged
    }
}

/// Both outputs in one text.
pub fn combine_texts(stdout: &str, stderr: &str) -> (r: String)
    ensures
        r@ == combined(stdout@, stderr@),
{
    let mut parts: Vec<String> = Vec::new();
    let a = trim(stdout);
    if !a.is_empty() {
        parts.push(a.to_owned());
    }
    let b = trim(stderr);
    if !b.is_empty() {
        parts.push(b.to_owned());
    }
    assert(views(parts@) =~= spoken(stdout@, stderr@));
    let merged = join(parts.as_slice(), "\n");
    let merged = trim(merged.as_str());
    if merged.is_empty() {
        return "No output captured.".to_owned();
    }
    if merged.unicode_len() > OUTPUT_LIMIT {
        assert(merged@.subrange(0, OUTPUT_LIMIT as int) =~= merged@.take(OUTPUT_LIMIT as int));
        merged.substring_char(0, OUTPUT_LIMIT).to_owned()
    } else {
        merged.to_owned()
    }
}

/// Both outputs of a process in one text.
pub fn combine_output(stdout: &[u8], stderr: &[u8]) -> (r: String)
    ensures
        r@ == combined(lossy_text(stdout@), lossy_text(stderr@)),
{
    combine_texts(decode_lossy(stdout).as_str(), decode_lossy(stderr).as_str())
}

/// The text that is kept of an output is never empty and never longer than the limit.
pub proof fn combined_output_is_bounded(stdout: Seq<char>, stderr: Seq<char>)
    ensures
        0 < combined(stdout, stderr).len() <= OUTPUT_LIMIT,
{
    reveal_strlit("No output captured.");
}

/// What running the tool came to.
pub enum LoginRun {
    /// The tool was not found.
    NotFound,
    /// The tool did not start.
    NotStarted(String),
    /// The tool was stopped after the time allowed.
    TimedOut { stdout: Vec<u8>, stderr: Vec<u8> },
    /// The tool ended by itself or was cancelled.
    Ended { success: bool, cancelled: bool, stdout: Vec<u8>, stderr: Vec<u8> },
}

/// Signs in with the command line tool.
pub struct CodexLoginRunner;

impl CodexLoginRunner {
    /// The result of a run. A run that was cancelled counts as cancelled whatever the tool
    /// came to.
    pub fn run(run: &LoginRun) -> (r: CodexLoginResult)
        ensures
            r.outcome@ == (match run {
                LoginRun::NotFound => LoginView::MissingBinary,
                LoginRun::NotStarted(e) => LoginView::LaunchFailed(e@),
                LoginRun::TimedOut { stdout, stderr } => LoginView::TimedOut(
                    combined(lossy_text(stdout@), lossy_text(stderr@)),
                ),
                LoginRun::Ended { success, cancelled, stdout, stderr } => if *cancelled {
                    LoginView::Cancelled
                } else if *success {
                    LoginView::Success(combined(lossy_text(stdout@), lossy_text(stderr@)))
                } else {
                    LoginView::Failed(combined(lossy_text(stdout@), lossy_text(stderr@)))
                },
            }),
    {
        let outcome = match run {
            LoginRun::NotFound => CodexLoginOutcome::MissingBinary,
            LoginRun::NotStarted(e) => CodexLoginOutcome::LaunchFailed(e.clone()),
            LoginRun::TimedOut { stdout, stderr } => CodexLoginOutcome::TimedOut(
                combine_output(stdout.as_slice(), stderr.as_slice()),
            ),
            LoginRun::Ended { success, cancelled, stdout, stderr } => {
                if *cancelled {
                    CodexLoginOutcome::Cancelled
                } else if *success {
                    CodexLoginOutcome::Success(combine_output(stdout.as_slice(), stderr.as_slice()))
                } else {
                    CodexLoginOutcome::Failed(combine_output(stdout.as_slice(), stderr.as_slice()))
                }
            },
        };
        CodexLoginResult { outcome }
    }

    /// The arguments of the tool: credentials go to a file in the account's home.
    pub fn arguments() -> (r: Vec<String>)
        ensures
            views(r@) == seq!["-c"@, "cli_auth_credentials_store=\"file\""@, "login"@],
    {
        let mut out: Vec<String> = Vec::new();
        out.push("-c".to_owned());
        out.push("cli_auth_credentials_store=\"file\"".to_owned());
        out.push("login".to_owned());
        assert(views(out@) =~= seq!["-c"@, "cli_auth_credentials_store=\"file\""@, "login"@]);
        out
    }

    /// Where the tool is used from: the search path first, then the first known place that
    /// holds a file, then the desktop package.
    pub fn locate_codex_binary(
        on_path: Option<String>,
        candidates: Vec<(String, bool)>,
        packaged: Option<String>,
    ) -> (r: Option<String>)
        ensures
            crate::text::seen(r) == first_binary(
                crate::text::seen(on_path),
                candidates@,
                crate::text::seen(packaged),
            ),
    {
        if on_path.is_some() {
            return on_path;
        }
        let mut i: usize = 0;
        assert(candidates@.skip(0) =~= candidates@);
        while i < candidates.len()
            invariant
                on_path is None,
                i <= candidates@.len(),
                first_file(candidates@) == first_file(candidates@.skip(i as int)),
            decreases candidates@.len() - i,
        {
            assert(candidates@.skip(i as int).skip(1) =~= candidates@.skip(i + 1));
            if candidates[i].1 {
                return Some(candidates[i].0.clone());
            }
            i += 1;
        }
        packaged
    }
}

/// The first place that holds a file.
pub open spec fn first_file(candidates: Seq<(String, bool)>) -> Option<Seq<char>>
    decreases candidates.len(),
{
    if candidates.len() == 0 {
        None
    } else if candidates[0].1 {
        Some(candidates[0].0@)
    } else {
        first_file(candidates.skip(1))
    }
}

/// Where the tool is used from.
pub open spec fn first_binary(
    on_path: Option<Seq<char>>,
    candidates: Seq<(String, bool)>,
    packaged: Option<Seq<char>>,
) -> Option<Seq<char>> {
    if on_path is Some {
        on_path
    } else if first_file(candidates) is Some {
        first_file(candidates)
    } else {
        packaged
    }
}

/// What waiting for the tool does next.
#[derive(Clone, Copy, Debug, PartialEq, Eq, Structural)]
pub enum WaitStep {
    /// Collect what the tool printed.
    Collect,
    /// Stop the tool.
    GiveUp,
    /// Look again in a moment.
    WaitOn,
}

/// One look at the running tool. A cancelled or finished run is collected, also past the
/// deadline.
pub fn wait_step(cancelled: bool, finished: bool, now_ms: u64, deadline_ms: u64) -> (r: WaitStep)
    ensures
        r == (if cancelled || finished {
            WaitStep::Collect
        } else if now_ms >= deadline_ms {
            WaitStep::GiveUp
        } else {
            WaitStep::WaitOn
        }),
{
    if cancelled || finished {
        WaitStep::Collect
    } else if now_ms >= deadline_ms {
        WaitStep::GiveUp
    } else {
        WaitStep::WaitOn
    }
}

/// A path made of a base and the given parts.
pub open spec fn path_of(base: Seq<char>, parts: Seq<Seq<char>>, separator: char) -> Seq<char>
    decreases parts.len(),
{
    if parts.len() == 0 {
        base
    } else {
        path_with(path_of(base, parts.drop_last(), separator), parts.last(), separator)
    }
}

/// A path made of a base and the given parts.
fn path_under(base: &str, parts: &[&str], separator: char) -> (r: String)
    ensures
        r@ == path_of(base@, str_views(parts@), separator),
{
    let mut out = base.to_owned();
    let mut i: usize = 0;
    assert(str_views(parts@).take(0) =~= Seq::empty());
    while i < parts.len()
        invariant
            i <= parts@.len(),
            out@ == path_of(base@, str_views(parts@).take(i as int), separator),
        decreases parts@.len() - i,
    {
        out = join_path(out.as_str(), parts[i], separator);
        assert(str_views(parts@).take(i + 1).drop_last() =~= str_views(parts@).take(i as int));
        assert(str_views(parts@).take(i + 1).last() == parts@[i as int]@);
        i += 1;
    }
    assert(str_views(parts@).take(i as int) =~= str_views(parts@));
    out
}

/// The places where the tool may have been installed, in the order of the search.
pub open spec fn known_places(
    local_app_data: Seq<char>,
    home: Seq<char>,
    roaming: Option<Seq<char>>,
    versioned: Seq<Seq<char>>,
    separator: char,
) -> Seq<Seq<char>> {
    let fixed = seq![
        path_of(local_app_data, seq!["OpenAI"@, "Codex"@, "bin"@, "codex.exe"@], separator),
        path_of(home, seq![".bun"@, "bin"@, "codex.exe"@], separator),
        path_of(local_app_data, seq!["Microsoft"@, "WindowsApps"@, "codex.exe"@], separator),
    ];
    fixed + versioned + (match roaming {
        Some(dir) => seq![
            path_of(dir, seq!["npm"@, "codex.cmd"@], separator),
            path_of(dir, seq!["fnm"@, "aliases"@, "default"@, "codex.cmd"@], separator),
        ],
        None => Seq::empty(),
    })
}

/// The places where the tool may have been installed. `versioned` are the files found in the
/// subdirectories that desktop updates leave, newest first.
pub fn path_candidates(
    local_app_data: &str,
    home: &str,
    roaming: Option<&str>,
    versioned: &Vec<String>,
    separator: char,
) -> (r: Vec<String>)
    ensures
        views(r@) == known_places(
            local_app_data@,
            home@,
            crate::text::glimpsed(roaming),
            views(versioned@),
            separator,
        ),
{
    let mut out: Vec<String> = Vec::new();
    out.push(path_under(local_app_data, &["OpenAI", "Codex", "bin", "codex.exe"], separator));
    out.push(path_under(home, &[".bun", "bin", "codex.exe"], separator));
    out.push(path_under(local_app_data, &["Microsoft", "WindowsApps", "codex.exe"], separator));
    let ghost fixed = seq![
        path_of(local_app_data@, seq!["OpenAI"@, "Codex"@, "bin"@, "codex.exe"@], separator),
        path_of(home@, seq![".bun"@, "bin"@, "codex.exe"@], separator),
        path_of(local_app_data@, seq!["Microsoft"@, "WindowsApps"@, "codex.exe"@], separator),
    ];
    proof {
        assert(str_views(["OpenAI", "Codex", "bin", "codex.exe"]@) =~= seq![
            "OpenAI"@,
            "Codex"@,
            "bin"@,
            "codex.exe"@,
        ]);
        assert(str_views([".bun", "bin", "codex.exe"]@) =~= seq![".bun"@, "bin"@, "codex.exe"@]);
        assert(str_views(["Microsoft", "WindowsApps", "codex.exe"]@) =~= seq![
            "Microsoft"@,
            "WindowsApps"@,
            "codex.exe"@,
        ]);
        assert(views(out@) =~= fixed);
    }
    let mut i: usize = 0;
    assert(views(versioned@).take(0) =~= Seq::empty());
    assert(fixed + Seq::<Seq<char>>::empty() =~= fixed);
    while i < versioned.len()
        invariant
            i <= versioned@.len(),
            views(out@) == fixed + views(versioned@).take(i as int),
        decreases versioned@.len() - i,
    {
        let ghost before = out@;
        out.push(versioned[i].clone());
        assert(views(out@) =~= views(before).push(versioned@[i as int]@));
        assert(views(versioned@).take(i + 1) =~= views(versioned@).take(i as int).push(
            versioned@[i as int]@,
        ));
        i += 1;
    }
    assert(views(versioned@).take(i as int) =~= views(versioned@));
    let ghost most = views(out@);
    if let Some(dir) = roaming {
        out.push(path_under(dir, &["npm", "codex.cmd"], separator));
        out.push(path_under(dir, &["fnm", "aliases", "default", "codex.cmd"], separator));
    }
    proof {
        let places = known_places(
            local_app_data@,
            home@,
            crate::text::glimpsed(roaming),
            views(versioned@),
            separator,
        );
        assert(str_views(["npm", "codex.cmd"]@) =~= seq!["npm"@, "codex.cmd"@]);
        assert(str_views(["fnm", "aliases", "default", "codex.cmd"]@) =~= seq![
            "fnm"@,
            "aliases"@,
            "default"@,
            "codex.cmd"@,
        ]);
        match roaming {
            Some(dir) => {
                assert(views(out@) =~= most.push(
                    path_of(dir@, seq!["npm"@, "codex.cmd"@], separator),
                ).push(
                    path_of(dir@, seq!["fnm"@, "aliases"@, "default"@, "codex.cmd"@], separator),
                ));
            },
            None => {},
        }
        assert(views(out@) =~= places);
    }
    out
}

/// The key that puts the newest first and those without a time last.
pub open spec fn newest_key(modified: Option<Moment>) -> Seq<i64> {
    match modified {
        Some(t) => seq![0i64, (-1 - t.secs) as i64, (-1 - t.nanos) as i64],
        None => seq![1i64],
    }
}

pub open spec fn newest_keys(found: Seq<(String, Option<Moment>)>) -> Seq<Seq<i64>> {
    found.map_values(|f: (String, Option<Moment>)| newest_key(f.1))
}

/// The files that desktop updates left, the newest first.
pub fn versioned_binaries(found: &Vec<(String, Option<Moment>)>) -> (r: Vec<String>)
    ensures
        exists|order: Seq<usize>|
            #![trigger is_stable_order(newest_keys(found@), order)]
            is_stable_order(newest_keys(found@), order) && views(r@) == order.map_values(
                |i: usize| found@[i as int].0@,
            ),
{
    let mut keys: Vec<Vec<i64>> = Vec::new();
    let mut i: usize = 0;
    while i < found.len()
        invariant
            i <= found@.len(),
            key_views(keys@) == newest_keys(found@).take(i as int),
        decreases found@.len() - i,
    {
        let mut key: Vec<i64> = Vec::new();
        match found[i].1 {
            Some(t) => {
                key.push(0);
                key.push(-1 - t.secs);
                key.push(-1 - t.nanos as i64);
            },
            None => {
                key.push(1);
            },
        }
        assert(key@ =~= newest_key(found@[i as int].1));
        let ghost before = keys@;
        keys.push(key);
        assert(key_views(keys@) =~= key_views(before).push(key@));
        assert(newest_keys(found@).take(i + 1) =~= newest_keys(found@).take(i as int).push(key@));
        i += 1;
    }
    assert(newest_keys(found@).take(i as int) =~= newest_keys(found@));
    let order = stable_order(&keys);
    let mut out: Vec<String> = Vec::new();
    let mut k: usize = 0;
    let ghost names = order@.map_values(|i: usize| found@[i as int].0@);
    while k < order.len()
        invariant
            k <= order@.len(),
            is_stable_order(newest_keys(found@), order@),
            names == order@.map_values(|i: usize| found@[i as int].0@),
            views(out@) == names.take(k as int),
        decreases order@.len() - k,
    {
        let ghost before = out@;
        out.push(found[order[k]].0.clone());
        assert(views(out@) =~= views(before).push(names[k as int]));
        assert(names.take(k + 1) =~= names.take(k as int).push(names[k as int]));
        k += 1;
    }
    assert(names.take(k as int) =~= names);
    assert(is_stable_order(newest_keys(found@), order@));
    out
}

/// The path that the search for the desktop package reports, before it is looked for on disk:
/// what the search printed, where it succeeded and printed UTF-8.
pub fn packaged_binary(success: bool, stdout: &[u8]) -> (r: Option<String>)
    ensures
        r is Some <==> success && valid_utf8(stdout@),
        r matches Some(path) ==> path@ == trimmed(decode_utf8(stdout@)),
{
    if !success {
        return None;
    }
    match decode_strict(stdout) {
        Some(text) => Some(trim(text.as_str()).to_owned()),
        None => None,
    }
}

/// What is kept of the outputs is what they say, without white space around it: the one that says
/// something, or the first and then the second on a new line; where neither does, that is said.
pub proof fn both_outputs_are_kept(stdout: Seq<char>, stderr: Seq<char>)
    ensures
        ({
            let a = trimmed(stdout);
            let b = trimmed(stderr);
            &&& a.len() == 0 && b.len() == 0 ==> combined(stdout, stderr) == "No output captured."@
            &&& 0 < a.len() <= OUTPUT_LIMIT && b.len() == 0 ==> combined(stdout, stderr) == a
            &&& a.len() == 0 && 0 < b.len() <= OUTPUT_LIMIT ==> combined(stdout, stderr) == b
            &&& a.len() > 0 && b.len() > 0 && a.len() + b.len() < OUTPUT_LIMIT ==> combined(
                stdout,
                stderr,
            ) == a + "\n"@ + b
            &&& a.len() > OUTPUT_LIMIT && b.len() == 0 ==> combined(stdout, stderr) == a.take(4000)
        }),
{
    let a = trimmed(stdout);
    let b = trimmed(stderr);
    trimmed_has_no_white_ends(stdout);
    trimmed_has_no_white_ends(stderr);
    let parts = spoken(stdout, stderr);
    reveal_strlit("\n");
    assert("\n"@.len() == 1);
    if a.len() == 0 && b.len() == 0 {
        assert(parts =~= Seq::empty());
        lemma_trimmed_alone(Seq::empty());
        assert(joined(parts, "\n"@) =~= Seq::empty());
    } else if b.len() == 0 {
        assert(parts =~= seq![a]);
        assert(joined(parts, "\n"@) == a);
    } else if a.len() == 0 {
        assert(parts =~= seq![b]);
        assert(joined(parts, "\n"@) == b);
    } else {
        assert(parts =~= seq![a, b]);
        joined_texts_follow_one_another(seq![a], b, "\n"@);
        joined_texts_follow_one_another(Seq::empty(), a, "\n"@);
        assert(seq![a].push(b) =~= parts);
        let whole = a + "\n"@ + b;
        assert(joined(parts, "\n"@) == whole);
        assert(whole[0] == a[0]);
        assert(whole.last() == b.last());
        lemma_trimmed_alone(whole);
    }
}

/// A run succeeds only where the tool ended well and was not cancelled; one that was cancelled is
/// told as such, however it ended.
pub proof fn a_run_succeeds_where_the_tool_ended_well(run: &LoginRun, r: CodexLoginResult)
    requires
        call_ensures(CodexLoginRunner::run, (run,), r),
    ensures
        r.outcome@ is Success <==> *run is Ended && run->success && !run->cancelled,
        r.outcome@ is Cancelled <==> *run is Ended && run->cancelled,
        r.outcome@ is Failed <==> *run is Ended && !run->success && !run->cancelled,
        r.outcome@ is MissingBinary <==> *run is NotFound,
        r.outcome@ is TimedOut <==> *run is TimedOut,
        *run is NotStarted ==> r.outcome@ is LaunchFailed,
        *run is Ended && r.outcome@ is Success ==> r.outcome@->Success_0 == combined(
            lossy_text(run->Ended_stdout@),
            lossy_text(run->Ended_stderr@),
        ),
{
}

/// The first known place that holds a file is used, and none where none does.
pub proof fn the_first_place_with_a_file_is_used(candidates: Seq<(String, bool)>, k: int)
    ensures
        0 <= k < candidates.len() && candidates[k].1 && (forall|j: int|
            0 <= j < k ==> !(#[trigger] candidates[j]).1) ==> first_file(candidates) == Some(
            candidates[k].0@,
        ),
        (forall|j: int| 0 <= j < candidates.len() ==> !(#[trigger] candidates[j]).1) ==> first_file(
            candidates,
        ) is None,
    decreases candidates.len(),
{
    if candidates.len() > 0 && !candidates[0].1 {
        let rest = candidates.skip(1);
        the_first_place_with_a_file_is_used(rest, k - 1);
        if 0 < k < candidates.len() {
            assert(rest[k - 1] == candidates[k]);
        }
        assert forall|j: int| 0 <= j < rest.len() implies rest[j] == #[trigger] candidates[j + 1] by {
        }
        if forall|j: int| 0 <= j < candidates.len() ==> !(#[trigger] candidates[j]).1 {
            assert forall|j: int| 0 <= j < rest.len() implies !(#[trigger] rest[j]).1 by {
                assert(rest[j] == candidates[j + 1]);
            }
        }
        if 0 <= k < candidates.len() && candidates[k].1 && (forall|j: int|
            0 <= j < k ==> !(#[trigger] candidates[j]).1) {
            assert forall|j: int| 0 <= j < k - 1 implies !(#[trigger] rest[j]).1 by {
                assert(rest[j] == candidates[j + 1]);
            }
        }
    }
}

/// The search path goes before the known places, and these before the desktop package.
pub proof fn the_search_path_goes_first(
    on_path: Option<Seq<char>>,
    candidates: Seq<(String, bool)>,
    packaged: Option<Seq<char>>,
)
    ensures
        on_path is Some ==> first_binary(on_path, candidates, packaged) == on_path,
        on_path is None && first_file(candidates) is Some ==> first_binary(
            on_path,
            candidates,
            packaged,
        ) == first_file(candidates),
        on_path is None && first_file(candidates) is None ==> first_binary(
            on_path,
            candidates,
            packaged,
        ) == packaged,
{
}

/// A run is collected as soon as it ended or was cancelled, and given up only after its time.
pub proof fn a_run_is_given_up_after_its_time(
    cancelled: bool,
    finished: bool,
    now: u64,
    deadline: u64,
    r: WaitStep,
)
    requires
        call_ensures(wait_step, (cancelled, finished, now, deadline), r),
    ensures
        r == WaitStep::Collect <==> cancelled || finished,
        r == WaitStep::GiveUp <==> !cancelled && !finished && now >= deadline,
        r == WaitStep::WaitOn <==> !cancelled && !finished && now < deadline,
{
}

/// A path begins with its base and ends with its last part.
pub proof fn a_path_ends_with_its_last_part(
    base: Seq<char>,
    parts: Seq<Seq<char>>,
    last: Seq<char>,
    separator: char,
)
    ensures
        path_of(base, Seq::empty(), separator) == base,
        path_of(base, parts.push(last), separator) == path_with(
            path_of(base, parts, separator),
            last,
            separator,
        ),
        last.is_suffix_of(path_of(base, parts.push(last), separator)),
{
    assert(parts.push(last).drop_last() =~= parts);
    a_path_leads_to_its_part(path_of(base, parts, separator), last, separator);
}

/// The place of the desktop's own tool is looked at first, then the others that are fixed, then the
/// files that updates left, in their order, and the places of other installers last.
pub proof fn places_are_looked_at_in_their_order(
    local: Seq<char>,
    home: Seq<char>,
    roaming: Option<Seq<char>>,
    versioned: Seq<Seq<char>>,
    separator: char,
    i: int,
)
    ensures
        ({
            let places = known_places(local, home, roaming, versioned, separator);
            &&& places[0] == path_of(
                local,
                seq!["OpenAI"@, "Codex"@, "bin"@, "codex.exe"@],
                separator,
            )
            &&& places[1] == path_of(home, seq![".bun"@, "bin"@, "codex.exe"@], separator)
            &&& places[2] == path_of(
                local,
                seq!["Microsoft"@, "WindowsApps"@, "codex.exe"@],
                separator,
            )
            &&& 0 <= i < versioned.len() ==> places[3 + i] == versioned[i]
            &&& roaming is None ==> places.len() == 3 + versioned.len()
            &&& roaming matches Some(dir) ==> places.len() == 5 + versioned.len()
                && places[places.len() - 2] == path_of(dir, seq!["npm"@, "codex.cmd"@], separator)
                && places.last() == path_of(
                dir,
                seq!["fnm"@, "aliases"@, "default"@, "codex.cmd"@],
                separator,
            )
        }),
{
}

/// Of two files the one that was changed later comes first, and one whose time is not known last.
pub proof fn the_newest_file_comes_first(a: Moment, b: Moment)
    ensures
        a.secs > b.secs ==> lex_less(newest_key(Some(a)), newest_key(Some(b))),
        a.secs == b.secs && a.nanos > b.nanos ==> lex_less(
            newest_key(Some(a)),
            newest_key(Some(b)),
        ),
        lex_less(newest_key(Some(a)), newest_key(None)),
{
    let x = newest_key(Some(a));
    let y = newest_key(Some(b));
    reveal_with_fuel(lex_less, 4);
    assert(x.skip(1)[0] == x[1] && y.skip(1)[0] == y[1]);
    assert(x.skip(1).skip(1)[0] == x[2] && y.skip(1).skip(1)[0] == y[2]);
}

/// The package that a search found is what it printed, without white space around it, and nothing
/// where the search failed.
pub proof fn a_packaged_tool_is_what_the_search_printed(
    success: bool,
    stdout: &[u8],
    r: Option<String>,
)
    requires
        call_ensures(packaged_binary, (success, stdout), r),
    ensures
        !success ==> r is None,
        success && valid_utf8(stdout@) ==> r is Some && r->Some_0@ == trimmed(decode_utf8(stdout@)),
{
}

} // verus!
