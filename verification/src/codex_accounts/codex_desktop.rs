//! Restarting the desktop application: the script that does it, and its command line.

use vstd::prelude::*;
use vstd::string::StringExecFns;
use crate::outside::{base64_text, encode_base64};
use crate::text::{a_path_leads_to_its_part, chars_of, concat2, concat3, decimal, digits, glimpsed, join, join_path, joined, path_with, views};

verus! {

/// What went wrong with the desktop application.
#[derive(Debug)]
pub enum CodexDesktopControlError {
    Message(String),
    Io(String),
}

impl CodexDesktopControlError {
    /// The error as shown to the user.
    pub open spec fn text(self) -> Seq<char> {
        match self {
            CodexDesktopControlError::Message(s) => s@,
            CodexDesktopControlError::Io(s) => s@,
        }
    }

    /// The error as shown to the user.
    pub fn to_text(&self) -> (r: String)
        ensures
            r@ == self.text(),
    {
        match self {
            CodexDesktopControlError::Message(s) => s.clone(),
            CodexDesktopControlError::Io(s) => s.clone(),
        }
    }
}

/// How long a restart waits before it stops the application, in milliseconds.
pub const DEFAULT_RESTART_DELAY_MS: u64 = 800;

pub const SCRIPT_BEFORE_LOG: &'static str = r#"$ErrorActionPreference = 'Stop'
$logPath = "#;

pub const SCRIPT_BEFORE_SESSION: &'static str = r#"
$sessionRoot = "#;

pub const SCRIPT_BEFORE_BACKUP: &'static str = r#"
$backupDestination = "#;

pub const SCRIPT_BEFORE_RESTORE: &'static str = r#"
$restoreSource = "#;

pub const SCRIPT_BEFORE_ENTRIES: &'static str = r#"
$sessionEntries = "#;

pub const SCRIPT_BEFORE_DELAY: &'static str = r#"
New-Item -ItemType Directory -Path ([System.IO.Path]::GetDirectoryName($logPath)) -Force | Out-Null
trap {
    Add-Content -LiteralPath $logPath -Value ("Restart failed: " + $_.Exception.Message)
    exit 1
}
function Write-Log([string]$message) {
    Add-Content -LiteralPath $logPath -Value ("[{0}] {1}" -f (Get-Date -Format 'yyyy-MM-dd HH:mm:ss.fff'), $message)
}
function Clear-SessionEntry([string]$root, [string]$relativePath) {
    if (-not $root) {
        return
    }
    $resolvedRoot = [System.IO.Path]::GetFullPath($root).TrimEnd('\') + '\'
    $targetPath = [System.IO.Path]::GetFullPath((Join-Path $resolvedRoot $relativePath))
    if (-not $targetPath.StartsWith($resolvedRoot, [StringComparison]::OrdinalIgnoreCase)) {
        throw 'Session entry escaped its root.'
    }
    if (Test-Path -LiteralPath $targetPath) {
        Remove-Item -LiteralPath $targetPath -Recurse -Force -ErrorAction Stop
    }
}
function Copy-SessionEntry([string]$sourceRoot, [string]$destinationRoot, [string]$relativePath) {
    if (-not $sourceRoot -or -not $destinationRoot) {
        return
    }
    $sourcePath = Join-Path $sourceRoot $relativePath
    if (-not (Test-Path -LiteralPath $sourcePath)) {
        return
    }
    $destinationPath = Join-Path $destinationRoot $relativePath
    $parentPath = [System.IO.Path]::GetDirectoryName($destinationPath)
    if ($parentPath) {
        New-Item -ItemType Directory -Path $parentPath -Force | Out-Null
    }
    $item = Get-Item -LiteralPath $sourcePath -Force
    if ($item.PSIsContainer) {
        Copy-Item -LiteralPath $sourcePath -Destination $destinationPath -Recurse -Force
        return
    }
    Copy-Item -LiteralPath $sourcePath -Destination $destinationPath -Force
}
function Sync-DesktopSessionState() {
    if (-not $sessionRoot) {
        Write-Log 'Desktop session root was not detected.'
        return
    }
    Write-Log ("Desktop session root: " + $sessionRoot)
    Write-Log ("Backup destination: " + $(if ($backupDestination) { $backupDestination } else { '<none>' }))
    Write-Log ("Restore source: " + $(if ($restoreSource) { $restoreSource } else { '<none>' }))
    if (-not (Test-Path -LiteralPath $sessionRoot)) {
        Write-Log ("Desktop session root is missing: " + $sessionRoot)
        return
    }
    if ($backupDestination) {
        New-Item -ItemType Directory -Path $backupDestination -Force | Out-Null
        foreach ($relativePath in $sessionEntries) {
            try {
                Clear-SessionEntry $backupDestination $relativePath
                Copy-SessionEntry $sessionRoot $backupDestination $relativePath
                Write-Log ("Backed up session entry: " + $relativePath)
            } catch {
                Write-Log ("Failed to back up session entry " + $relativePath + ": " + $_.Exception.Message)
                throw
            }
        }
        Write-Log ("Backed up desktop session state to " + $backupDestination)
    }
    if ($restoreSource) {
        if (-not (Test-Path -LiteralPath $restoreSource)) {
            Write-Log ("No saved session for target; clearing the previous desktop session: " + $restoreSource)
        }
        foreach ($relativePath in $sessionEntries) {
            try {
                Clear-SessionEntry $sessionRoot $relativePath
                Copy-SessionEntry $restoreSource $sessionRoot $relativePath
                Write-Log ("Restored session entry: " + $relativePath)
            } catch {
                Write-Log ("Failed to restore session entry " + $relativePath + ": " + $_.Exception.Message)
                throw
            }
        }
        Write-Log ("Restored desktop session state from " + $restoreSource)
    }
}
Write-Log 'Restart requested.'
$package = Get-AppxPackage -Name OpenAI.Codex | Sort-Object Version -Descending | Select-Object -First 1
if (-not $package -or -not $package.InstallLocation) {
    throw 'Unable to locate the Codex Desktop package.'
}
$packageRoot = [System.IO.Path]::GetFullPath($package.InstallLocation).TrimEnd('\') + '\'
[xml]$manifest = Get-Content -LiteralPath (Join-Path $packageRoot 'AppxManifest.xml')
$application = $manifest.Package.Applications.Application | Select-Object -First 1
$launcherPath = [System.IO.Path]::GetFullPath((Join-Path $packageRoot $application.Executable))
if (-not $launcherPath.StartsWith($packageRoot, [StringComparison]::OrdinalIgnoreCase) -or
    -not (Test-Path -LiteralPath $launcherPath -PathType Leaf)) {
    throw 'Unable to locate the Codex Desktop executable.'
}
Write-Log ("Using package launcher path: " + $launcherPath)
Start-Sleep -Milliseconds "#;

pub const SCRIPT_END: &'static str = r#"
# Do not kill process trees: this helper can descend from a Codex task.
# Stop only this package's GUI executable, including its renderer processes.
# Standalone codex.exe processes and the restart helper must stay running.
$codexProcesses = Get-CimInstance Win32_Process | Where-Object {
    $_.ExecutablePath -and $_.ExecutablePath -ieq $launcherPath
}
foreach ($process in $codexProcesses) {
    if (-not (Get-Process -Id $process.ProcessId -ErrorAction SilentlyContinue)) { continue }
    Write-Log ("Stopping Desktop GUI process " + $process.ProcessId)
    & taskkill.exe /PID $process.ProcessId /F 2>&1 | Out-Null
    if ($LASTEXITCODE -ne 0 -and (Get-Process -Id $process.ProcessId -ErrorAction SilentlyContinue)) {
        throw 'Unable to stop Codex Desktop. Session files were left unchanged.'
    }
}
$deadline = (Get-Date).AddSeconds(8)
do {
    $remaining = Get-CimInstance Win32_Process | Where-Object {
        $_.ExecutablePath -and $_.ExecutablePath -ieq $launcherPath
    }
    if (-not $remaining) { break }
    Start-Sleep -Milliseconds 250
} while ((Get-Date) -lt $deadline)
if ($remaining) {
    throw 'Codex Desktop is still running. Session files were left unchanged.'
}
Sync-DesktopSessionState
Start-Sleep -Milliseconds 700
Start-Process -FilePath $launcherPath
Write-Log 'Codex Desktop relaunched.'"#;

/// Where the restart writes its log.
pub fn restart_log_path(app_support_directory: &str, separator: char) -> (r: String)
    ensures
        r@ == path_with(app_support_directory@, "codex-desktop-restart.log"@, separator),
{
    join_path(app_support_directory, "codex-desktop-restart.log", separator)
}

/// Where the restart script is written.
pub fn restart_script_path(app_support_directory: &str, separator: char) -> (r: String)
    ensures
        r@ == path_with(app_support_directory@, "codex-desktop-restart.ps1"@, separator),
{
    join_path(app_support_directory, "codex-desktop-restart.ps1", separator)
}

/// `s` with every single quote doubled.
pub open spec fn doubled(s: Seq<char>) -> Seq<char>
    decreases s.len(),
{
    if s.len() == 0 {
        Seq::empty()
    } else if s.last() == '\'' {
        doubled(s.drop_last()).push('\'').push('\'')
    } else {
        doubled(s.drop_last()).push(s.last())
    }
}

/// `s` as a PowerShell literal in single quotes.
pub open spec fn quoted(s: Seq<char>) -> Seq<char> {
    seq!['\''] + doubled(s) + seq!['\'']
}

/// What PowerShell reads between the quotes of a literal: two quotes in a row are one.
pub open spec fn undoubled(s: Seq<char>) -> Seq<char>
    decreases s.len(),
{
    if s.len() == 0 {
        Seq::empty()
    } else if s.len() >= 2 && s.last() == '\'' && s[s.len() - 2] == '\'' {
        undoubled(s.subrange(0, s.len() - 2)).push('\'')
    } else {
        undoubled(s.drop_last()).push(s.last())
    }
}

/// A quoted text reads back as itself.
pub proof fn quoting_reads_back(s: Seq<char>)
    ensures
        undoubled(doubled(s)) == s,
        quotes_in_pairs(doubled(s)),
    decreases s.len(),
{
    if s.len() > 0 {
        quoting_reads_back(s.drop_last());
        let d = doubled(s.drop_last());
        if s.last() == '\'' {
            let e = d.push('\'').push('\'');
            assert(e.subrange(0, e.len() - 2) =~= d);
            assert(undoubled(e) =~= s.drop_last().push('\''));
            assert(s.drop_last().push('\'') =~= s);
        } else {
            let e = d.push(s.last());
            assert(e.drop_last() =~= d);
            assert(s.drop_last().push(s.last()) =~= s);
        }
    } else {
        assert(s =~= Seq::empty());
    }
}

/// No quote in `s` could end the literal that `s` stands in: they come in pairs.
pub open spec fn quotes_in_pairs(s: Seq<char>) -> bool
    decreases s.len(),
{
    if s.len() == 0 {
        true
    } else if s.last() == '\'' {
        s.len() >= 2 && s[s.len() - 2] == '\'' && quotes_in_pairs(s.subrange(0, s.len() - 2))
    } else {
        quotes_in_pairs(s.drop_last())
    }
}

/// Writes a text as a PowerShell literal in single quotes.
fn quote(s: &str) -> (r: String)
    ensures
        r@ == quoted(s@),
{
    let v = chars_of(s);
    let mut out = String::new();
    out.push('\'');
    let mut i: usize = 0;
    assert(s@.take(0) =~= Seq::empty());
    assert(out@ =~= seq!['\''] + doubled(s@.take(0)));
    while i < v.len()
        invariant
            v@ == s@,
            i <= v@.len(),
            out@ == seq!['\''] + doubled(s@.take(i as int)),
        decreases v@.len() - i,
    {
        let c: char = v[i];
        assert(s@.take(i + 1).drop_last() =~= s@.take(i as int));
        if c == '\'' {
            out.push('\'');
        }
        out.push(c);
        assert(out@ =~= seq!['\''] + doubled(s@.take(i + 1)));
        i += 1;
    }
    assert(s@.take(i as int) =~= s@);
    out.push('\'');
    assert(out@ =~= quoted(s@));
    out
}

/// `s` with every slash turned into a backslash.
pub open spec fn backslashed(s: Seq<char>) -> Seq<char> {
    s.map_values(
        |c: char|
            if c == '/' {
                '\\'
            } else {
                c
            },
    )
}

/// A path as a PowerShell literal.
pub fn powershell_literal_path(path: &str) -> (r: String)
    ensures
        r@ == quoted(backslashed(path@)),
{
    let v = chars_of(path);
    let mut out = String::new();
    let mut i: usize = 0;
    while i < v.len()
        invariant
            v@ == path@,
            i <= v@.len(),
            out@ == backslashed(path@.take(i as int)),
        decreases v@.len() - i,
    {
        let c: char = if v[i] == '/' { '\\' } else { v[i] };
        out.push(c);
        assert(backslashed(path@.take(i + 1)) =~= backslashed(path@.take(i as int)).push(c));
        i += 1;
    }
    assert(path@.take(i as int) =~= path@);
    quote(out.as_str())
}

/// An optional path as PowerShell writes it.
pub open spec fn path_or_null(path: Option<Seq<char>>) -> Seq<char> {
    match path {
        Some(p) => quoted(backslashed(p)),
        None => "$null"@,
    }
}

/// An optional path as PowerShell writes it.
pub fn powershell_path_or_null(path: Option<&str>) -> (r: String)
    ensures
        r@ == path_or_null(glimpsed(path)),
{
    match path {
        Some(p) => powershell_literal_path(p),
        None => "$null".to_owned(),
    }
}

/// Texts as a PowerShell array.
pub open spec fn string_array(values: Seq<Seq<char>>) -> Seq<char> {
    "@("@ + joined(values.map_values(|v: Seq<char>| quoted(v)), ", "@) + ")"@
}

/// Texts as a PowerShell array.
pub fn powershell_string_array(values: &Vec<String>) -> (r: String)
    ensures
        r@ == string_array(views(values@)),
{
    let mut parts: Vec<String> = Vec::new();
    let ghost all = views(values@).map_values(|v: Seq<char>| quoted(v));
    let mut i: usize = 0;
    while i < values.len()
        invariant
            all == views(values@).map_values(|v: Seq<char>| quoted(v)),
            i <= values@.len(),
            views(parts@) == all.take(i as int),
        decreases values@.len() - i,
    {
        let ghost before = parts@;
        parts.push(quote(values[i].as_str()));
        assert(views(parts@) =~= views(before).push(all[i as int]));
        assert(all.take(i + 1) =~= all.take(i as int).push(all[i as int]));
        i += 1;
    }
    assert(all.take(i as int) =~= all);
    concat3("@(", join(parts.as_slice(), ", ").as_str(), ")")
}

/// The restart script.
pub open spec fn restart_script(
    delay_ms: nat,
    log_path: Seq<char>,
    session_root: Option<Seq<char>>,
    backup_destination: Option<Seq<char>>,
    restore_source: Option<Seq<char>>,
    session_entries: Seq<Seq<char>>,
) -> Seq<char> {
    SCRIPT_BEFORE_LOG@ + quoted(backslashed(log_path)) + SCRIPT_BEFORE_SESSION@ + path_or_null(
        session_root,
    ) + SCRIPT_BEFORE_BACKUP@ + path_or_null(backup_destination) + SCRIPT_BEFORE_RESTORE@
        + path_or_null(restore_source) + SCRIPT_BEFORE_ENTRIES@ + string_array(session_entries)
        + SCRIPT_BEFORE_DELAY@ + digits(delay_ms) + SCRIPT_END@
}

/// Writes the script that stops the desktop application, saves and restores its session and
/// starts it again.
pub fn build_restart_script(
    delay_ms: u64,
    log_path: &str,
    session_root: Option<&str>,
    backup_destination: Option<&str>,
    restore_source: Option<&str>,
    session_entries: &Vec<String>,
) -> (r: String)
    ensures
        r@ == restart_script(
            delay_ms as nat,
            log_path@,
            glimpsed(session_root),
            glimpsed(backup_destination),
            glimpsed(restore_source),
            views(session_entries@),
        ),
{
    let mut out = SCRIPT_BEFORE_LOG.to_owned();
    out.append(powershell_literal_path(log_path).as_str());
    out.append(SCRIPT_BEFORE_SESSION);
    out.append(powershell_path_or_null(session_root).as_str());
    out.append(SCRIPT_BEFORE_BACKUP);
    out.append(powershell_path_or_null(backup_destination).as_str());
    out.append(SCRIPT_BEFORE_RESTORE);
    out.append(powershell_path_or_null(restore_source).as_str());
    out.append(SCRIPT_BEFORE_ENTRIES);
    out.append(powershell_string_array(session_entries).as_str());
    out.append(SCRIPT_BEFORE_DELAY);
    out.append(decimal(delay_ms).as_str());
    out.append(SCRIPT_END);
    out
}

/// The UTF-16 form of a character: one unit, or two for one beyond the basic plane.
pub open spec fn utf16_units(c: char) -> Seq<u16> {
    let n = c as u32;
    if n < 0x10000 {
        seq![n as u16]
    } else {
        seq![(0xd800 + (n - 0x10000) / 0x400) as u16, (0xdc00 + (n - 0x10000) % 0x400) as u16]
    }
}

/// A unit with its low byte first.
pub open spec fn little_endian(unit: u16) -> Seq<u8> {
    seq![(unit % 256) as u8, (unit / 256) as u8]
}

/// The bytes of a text in UTF-16 with the low byte first.
pub open spec fn utf16_bytes(s: Seq<char>) -> Seq<u8>
    decreases s.len(),
{
    if s.len() == 0 {
        Seq::empty()
    } else {
        let units = utf16_units(s.last());
        if units.len() == 1 {
            utf16_bytes(s.drop_last()) + little_endian(units[0])
        } else {
            utf16_bytes(s.drop_last()) + little_endian(units[0]) + little_endian(units[1])
        }
    }
}

/// The bytes of a text in UTF-16 with the low byte first.
pub fn utf16_le(s: &str) -> (r: Vec<u8>)
    ensures
        r@ == utf16_bytes(s@),
{
    let v = chars_of(s);
    let mut out: Vec<u8> = Vec::new();
    let mut i: usize = 0;
    assert(s@.take(0) =~= Seq::empty());
    while i < v.len()
        invariant
            v@ == s@,
            i <= v@.len(),
            out@ == utf16_bytes(s@.take(i as int)),
        decreases v@.len() - i,
    {
        let n: u32 = v[i] as u32;
        let ghost before = out@;
        let ghost units = utf16_units(s@[i as int]);
        assert(s@.take(i + 1).drop_last() =~= s@.take(i as int));
        if n < 0x10000 {
            let u: u16 = n as u16;
            out.push((u % 256) as u8);
            out.push((u / 256) as u8);
            assert(out@ =~= before + little_endian(units[0]));
        } else {
            let a: u16 = (0xd800 + (n - 0x10000) / 0x400) as u16;
            let b: u16 = (0xdc00 + (n - 0x10000) % 0x400) as u16;
            out.push((a % 256) as u8);
            out.push((a / 256) as u8);
            out.push((b % 256) as u8);
            out.push((b / 256) as u8);
            assert(out@ =~= before + little_endian(units[0]) + little_endian(units[1]));
        }
        i += 1;
    }
    assert(s@.take(i as int) =~= s@);
    out
}

/// Encodes a script the way PowerShell takes it on its command line.
pub fn encode_powershell_script(script: &str) -> (r: String)
    ensures
        r@ == base64_text(utf16_bytes(script@)),
{
    encode_base64(utf16_le(script).as_slice())
}

/// The place of PowerShell below the system's directory.
pub const POWERSHELL_BELOW: &'static str = "System32\\WindowsPowerShell\\v1.0\\powershell.exe";

/// The place of PowerShell where the system's directory is not known.
pub const POWERSHELL_DEFAULT: &'static str = "C:\\Windows\\System32\\WindowsPowerShell\\v1.0\\powershell.exe";

/// The command line that runs a script file in a hidden window.
pub open spec fn restart_command(
    script_path: Seq<char>,
    windir: Option<Seq<char>>,
    separator: char,
) -> Seq<Seq<char>> {
    seq![
        match windir {
            Some(dir) => path_with(dir, POWERSHELL_BELOW@, separator),
            None => POWERSHELL_DEFAULT@,
        },
        "-NoProfile"@,
        "-NonInteractive"@,
        "-WindowStyle"@,
        "Hidden"@,
        "-ExecutionPolicy"@,
        "Bypass"@,
        "-File"@,
        script_path,
    ]
}

/// The command line that runs a script file in a hidden window; `windir` is the system's
/// directory, where it is known, and `separator` what stands between the parts of a path.
pub fn build_restart_command(
    script_path: &str,
    windir: Option<&str>,
    separator: char,
) -> (r: Vec<String>)
    ensures
        views(r@) == restart_command(script_path@, glimpsed(windir), separator),
{
    let powershell = match windir {
        Some(dir) => join_path(dir, POWERSHELL_BELOW, separator),
        None => POWERSHELL_DEFAULT.to_owned(),
    };
    let mut out: Vec<String> = Vec::new();
    out.push(powershell);
    out.push("-NoProfile".to_owned());
    out.push("-NonInteractive".to_owned());
    out.push("-WindowStyle".to_owned());
    out.push("Hidden".to_owned());
    out.push("-ExecutionPolicy".to_owned());
    out.push("Bypass".to_owned());
    out.push("-File".to_owned());
    out.push(script_path.to_owned());
    assert(views(out@) =~= restart_command(script_path@, glimpsed(windir), separator));
    out
}

/// What running the restart script came to.
pub enum RestartRun {
    /// The system has no PowerShell to run it.
    Unsupported,
    NotStarted(String),
    Ended { success: bool },
}

/// What a restart came to, given where its log is.
pub fn launch_hidden_powershell(run: &RestartRun, log_path: &str) -> (r: Result<
    (),
    CodexDesktopControlError,
>)
    ensures
        r is Ok <==> (run matches RestartRun::Ended { success } && *success),
        r matches Err(e) ==> e is Message && e.text() == (match run {
            RestartRun::Unsupported => "Codex Desktop restart is only available on Windows."@,
            RestartRun::NotStarted(error) => "Failed to restart Codex Desktop: "@ + error@,
            RestartRun::Ended { success } =>
            "Codex Desktop could not restart. Its session backup or restore may have failed. See "@
                + log_path@ + " for details."@,
        }),
{
    match run {
        RestartRun::Unsupported => Err(
            CodexDesktopControlError::Message(
                "Codex Desktop restart is only available on Windows.".to_owned(),
            ),
        ),
        RestartRun::NotStarted(error) => Err(
            CodexDesktopControlError::Message(
                concat2("Failed to restart Codex Desktop: ", error.as_str()),
            ),
        ),
        RestartRun::Ended { success } => {
            if *success {
                Ok(())
            } else {
                Err(
                    CodexDesktopControlError::Message(
                        concat3(
                            "Codex Desktop could not restart. Its session backup or restore may have failed. See ",
                            log_path,
                            " for details.",
                        ),
                    ),
                )
            }
        },
    }
}

/// In a path for PowerShell every slash is a backslash, and no other character changes.
pub proof fn slashes_become_backslashes(s: Seq<char>, i: int)
    requires
        0 <= i < s.len(),
    ensures
        backslashed(s).len() == s.len(),
        s[i] == '/' ==> backslashed(s)[i] == '\\',
        s[i] != '/' ==> backslashed(s)[i] == s[i],
{
}

/// A path that is there is written in quotes, and one that is not as nothing.
pub proof fn a_missing_path_is_written_as_nothing(p: Seq<char>)
    ensures
        path_or_null(None) == "$null"@,
        path_or_null(Some(p)) == seq!['\''] + doubled(backslashed(p)) + seq!['\''],
{
}

/// The texts of an array stand in it one after another, each in quotes.
pub proof fn an_array_holds_its_texts(values: Seq<Seq<char>>, last: Seq<char>)
    ensures
        string_array(Seq::empty()) == "@("@ + ")"@,
        string_array(seq![last]) == "@("@ + quoted(last) + ")"@,
        values.len() > 0 ==> string_array(values.push(last)) == "@("@ + (joined(
            values.map_values(|v: Seq<char>| quoted(v)),
            ", "@,
        ) + ", "@ + quoted(last)) + ")"@,
{
    let f = |v: Seq<char>| quoted(v);
    let none = Seq::<Seq<char>>::empty();
    assert(none.map_values(f) =~= none);
    assert(joined(none, ", "@) =~= Seq::empty());
    assert("@("@ + Seq::empty() + ")"@ =~= "@("@ + ")"@);
    assert(seq![last].map_values(f) =~= seq![quoted(last)]);
    assert(values.push(last).map_values(f) =~= values.map_values(f).push(quoted(last)));
    assert(values.map_values(f).push(quoted(last)).drop_last() =~= values.map_values(f));
}

/// The script says where its log is, where the session lies, where it is kept and where it is
/// restored from, each under its own name, and then what belongs to it and how long to wait.
pub proof fn the_script_names_its_paths(
    delay: nat,
    log: Seq<char>,
    root: Option<Seq<char>>,
    backup: Option<Seq<char>>,
    restore: Option<Seq<char>>,
    entries: Seq<Seq<char>>,
)
    ensures
        ({
            let script = restart_script(delay, log, root, backup, restore, entries);
            let a = SCRIPT_BEFORE_LOG@ + quoted(backslashed(log)) + SCRIPT_BEFORE_SESSION@;
            let b = a + path_or_null(root) + SCRIPT_BEFORE_BACKUP@;
            let c = b + path_or_null(backup) + SCRIPT_BEFORE_RESTORE@;
            let d = c + path_or_null(restore) + SCRIPT_BEFORE_ENTRIES@;
            let e = d + string_array(entries) + SCRIPT_BEFORE_DELAY@;
            &&& script == e + digits(delay) + SCRIPT_END@
            &&& "$logPath = "@.is_suffix_of(SCRIPT_BEFORE_LOG@)
            &&& "$sessionRoot = "@.is_suffix_of(SCRIPT_BEFORE_SESSION@)
            &&& "$backupDestination = "@.is_suffix_of(SCRIPT_BEFORE_BACKUP@)
            &&& "$restoreSource = "@.is_suffix_of(SCRIPT_BEFORE_RESTORE@)
            &&& "$sessionEntries = "@.is_suffix_of(SCRIPT_BEFORE_ENTRIES@)
        }),
{
    reveal_strlit("$logPath = ");
    reveal_strlit("$sessionRoot = ");
    reveal_strlit("$backupDestination = ");
    reveal_strlit("$restoreSource = ");
    reveal_strlit("$sessionEntries = ");
    reveal_strlit(r#"$ErrorActionPreference = 'Stop'
$logPath = "#);
    reveal_strlit(r#"
$sessionRoot = "#);
    reveal_strlit(r#"
$backupDestination = "#);
    reveal_strlit(r#"
$restoreSource = "#);
    reveal_strlit(r#"
$sessionEntries = "#);
}

/// A character of the basic plane is one unit, with the low byte first; any other one is a pair of
/// surrogates that stand for it.
pub proof fn characters_are_written_in_utf16(s: Seq<char>, c: char)
    ensures
        utf16_bytes(Seq::empty()).len() == 0,
        (c as u32) < 0x1_0000 ==> utf16_bytes(s.push(c)) == utf16_bytes(s) + seq![
            ((c as u32) % 0x100) as u8,
            ((c as u32) / 0x100) as u8,
        ],
        (c as u32) >= 0x1_0000 ==> utf16_units(c).len() == 2 && 0xd800 <= utf16_units(c)[0] < 0xdc00
            && 0xdc00 <= utf16_units(c)[1] < 0xe000 && (utf16_units(c)[0] - 0xd800) * 0x400 + (
        utf16_units(c)[1] - 0xdc00) + 0x1_0000 == c as u32,
{
    assert(s.push(c).drop_last() =~= s);
    let n = c as u32;
    if n < 0x1_0000 {
        let unit = n as u16;
        assert(utf16_bytes(s.push(c)) =~= utf16_bytes(s) + seq![(n % 0x100) as u8, (n / 0x100) as u8]);
    }
}

/// The script that is run is the last argument, behind `-File`, and it runs hidden, without the
/// user's own profile; PowerShell is taken from the system's directory where that is known.
pub proof fn the_script_is_run_hidden(script: Seq<char>, windir: Option<Seq<char>>, separator: char)
    ensures
        ({
            let line = restart_command(script, windir, separator);
            &&& line.last() == script
            &&& line[line.len() - 2] == "-File"@
            &&& line.contains("-NoProfile"@)
            &&& line.contains("-NonInteractive"@)
            &&& line[3] == "-WindowStyle"@ && line[4] == "Hidden"@
            &&& windir matches Some(dir) ==> dir.is_prefix_of(line[0]) && POWERSHELL_BELOW@.is_suffix_of(
                line[0],
            )
            &&& windir is None ==> line[0]
                == "C:\\Windows\\System32\\WindowsPowerShell\\v1.0\\powershell.exe"@
        }),
{
    let line = restart_command(script, windir, separator);
    assert(line[1] == "-NoProfile"@);
    assert(line[2] == "-NonInteractive"@);
    if let Some(dir) = windir {
        a_path_leads_to_its_part(dir, POWERSHELL_BELOW@, separator);
    }
}

/// A restart succeeded exactly where its script ended well; every failure is told.
pub proof fn a_restart_succeeds_where_its_script_does(
    run: &RestartRun,
    log_path: &str,
    r: Result<(), CodexDesktopControlError>,
)
    requires
        call_ensures(launch_hidden_powershell, (run, log_path), r),
    ensures
        r is Ok <==> *run is Ended && run->success,
        *run is Unsupported ==> r is Err,
        *run is NotStarted ==> r is Err,
{
}

} // verus!
