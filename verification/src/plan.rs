//! What each platform-dependent operation asks of the runtime, in which
//! order, and how it ends, as a function of the replies received so far.

use vstd::prelude::*;
use crate::monitor::MonitorSelection;
use crate::protocol::{
    CommandLine, CommandSpec, Operation, OperationSpec, Outcome, OutcomeSpec, Platform, Reply,
    ReplySpec, Request, RequestSpec, Step, StepSpec, replies_spec,
};
use crate::script::{
    capture_script, clipboard_script, escape_powershell_path, escape_quotes,
    generate_clipboard_script, generate_powershell_script_with_monitor, ps_escaped,
    quote_escaped, LIST_MONITORS_SCRIPT,
};
use crate::text::{
    all_ascii, ascii_lowercase, contains_text, lowercase, occurs_in, to_lowercase, trim,
    trimmed, utf8_lossy, utf8_lossy_text,
};

verus! {

/// The file whose content tells WSL apart from native Linux.
pub const PROC_VERSION: &'static str = "/proc/version";

/// The file that exists when WSL interop is enabled.
pub const WSL_INTEROP: &'static str = "/proc/sys/fs/binfmt_misc/WSLInterop";

/// The message of a capture on an unsupported platform.
pub const CAPTURE_UNSUPPORTED: &'static str = "Screenshot capture is only supported on Windows and WSL";

/// The message of a monitor listing on an unsupported platform.
pub const LISTING_UNSUPPORTED: &'static str = "Monitor listing is only supported on Windows and WSL";

/// The message of a clipboard copy on an unsupported platform.
pub const CLIPBOARD_UNSUPPORTED: &'static str = "Clipboard copy is only supported on Windows and WSL";

/// A `/proc/version` text that names Microsoft or WSL, in any case.
pub open spec fn wsl_marker(content: Seq<char>) -> bool {
    occurs_in(lowercase(content), "microsoft"@) || occurs_in(lowercase(content), "wsl"@)
}

/// Check if running under WSL by examining `/proc/version` content.
pub fn check_wsl_from_proc_version(content: &str) -> (r: bool)
    ensures
        r == wsl_marker(content@),
        all_ascii(content@) ==> r == (occurs_in(ascii_lowercase(content@), "microsoft"@)
            || occurs_in(ascii_lowercase(content@), "wsl"@)),
{
    let lower = to_lowercase(content);
    contains_text(lower.as_str(), "microsoft") || contains_text(lower.as_str(), "wsl")
}

/// The text of a command's output: decoded leniently, then trimmed.
pub open spec fn decoded(bytes: Seq<u8>) -> Seq<char> {
    trimmed(utf8_lossy(bytes))
}

/// Decode a command's output leniently and trim it.
pub fn decode_output(bytes: &Vec<u8>) -> (s: String)
    ensures
        s@ == decoded(bytes@),
{
    let text = utf8_lossy_text(bytes.as_slice());
    String::from_str(trim(text.as_str()))
}

/// A PowerShell invocation running a script.
pub open spec fn powershell(program: Seq<char>, script: Seq<char>) -> CommandSpec {
    CommandSpec {
        program,
        args: seq!["-NoProfile"@, "-NonInteractive"@, "-Command"@, script],
    }
}

/// `wslpath` with one flag and one path.
pub open spec fn wslpath(flag: Seq<char>, path: Seq<char>) -> CommandSpec {
    CommandSpec { program: "wslpath"@, args: seq![flag, path] }
}

/// The command that prints the Windows `%TEMP%` directory.
pub open spec fn echo_temp() -> CommandSpec {
    CommandSpec { program: "cmd.exe"@, args: seq!["/C"@, "echo %TEMP%"@] }
}

/// `cmd /C start "" <path>`, with the given name for `cmd`.
pub open spec fn start_with(program: Seq<char>, path: Seq<char>) -> CommandSpec {
    CommandSpec { program, args: seq!["/C"@, "start"@, ""@, path] }
}

/// `xdg-open <path>`.
pub open spec fn xdg_open(path: Seq<char>) -> CommandSpec {
    CommandSpec { program: "xdg-open"@, args: seq![path] }
}

/// A yes/no reply; any other reply counts as no.
pub open spec fn flag_of(a: ReplySpec) -> bool {
    match a {
        ReplySpec::Flag(b) => b,
        _ => false,
    }
}

/// A file read that succeeded; any other reply counts as a failed read.
pub open spec fn text_of(a: ReplySpec) -> Option<Seq<char>> {
    match a {
        ReplySpec::Text(Ok(t)) => Some(t),
        _ => None,
    }
}

/// A directory reply; any other reply counts as an empty path.
pub open spec fn dir_of(a: ReplySpec) -> Seq<char> {
    match a {
        ReplySpec::Dir(d) => d,
        _ => Seq::empty(),
    }
}

/// A command's output; any other reply counts as a failure without message.
pub open spec fn output_of(a: ReplySpec) -> Result<Seq<u8>, Seq<char>> {
    match a {
        ReplySpec::Output(o) => o,
        _ => Err(Seq::empty()),
    }
}

/// A spawn's result; any other reply counts as a failure without message.
pub open spec fn spawned_of(a: ReplySpec) -> Result<(), Seq<char>> {
    match a {
        ReplySpec::Spawned(s) => s,
        _ => Err(Seq::empty()),
    }
}

/// The progress of platform detection.
pub enum ProbeSpec {
    /// Detection needs this answer next.
    Ask(RequestSpec),
    /// The platform is known after this many replies.
    Known(Platform, nat),
}

/// Platform detection: native Windows if the runtime says so; otherwise WSL
/// if `/proc/version` names Microsoft or WSL, or if the WSL interop file
/// exists; otherwise another platform.
pub open spec fn probe(r: Seq<ReplySpec>) -> ProbeSpec {
    if r.len() == 0 {
        ProbeSpec::Ask(RequestSpec::IsWindows)
    } else if flag_of(r[0]) {
        ProbeSpec::Known(Platform::Windows, 1)
    } else if r.len() == 1 {
        ProbeSpec::Ask(RequestSpec::ReadToString(PROC_VERSION@))
    } else if (match text_of(r[1]) {
        Some(t) => wsl_marker(t),
        None => false,
    }) {
        ProbeSpec::Known(Platform::Wsl, 2)
    } else if r.len() == 2 {
        ProbeSpec::Ask(RequestSpec::PathExists(WSL_INTEROP@))
    } else if flag_of(r[2]) {
        ProbeSpec::Known(Platform::Wsl, 3)
    } else {
        ProbeSpec::Known(Platform::Other, 3)
    }
}

/// Run a command; finish when it succeeds, fail with its message otherwise.
pub open spec fn after_exec(cmd: CommandSpec, rest: Seq<ReplySpec>) -> StepSpec {
    if rest.len() == 0 {
        StepSpec::Ask(RequestSpec::Exec(cmd))
    } else {
        match output_of(rest[0]) {
            Ok(_) => StepSpec::Done(OutcomeSpec::Finished),
            Err(e) => StepSpec::Done(OutcomeSpec::Failed(e)),
        }
    }
}

/// Start a command; finish when it starts, fail with its message otherwise.
pub open spec fn after_spawn(cmd: CommandSpec, rest: Seq<ReplySpec>) -> StepSpec {
    if rest.len() == 0 {
        StepSpec::Ask(RequestSpec::Spawn(cmd))
    } else {
        match spawned_of(rest[0]) {
            Ok(_) => StepSpec::Done(OutcomeSpec::Finished),
            Err(e) => StepSpec::Done(OutcomeSpec::Failed(e)),
        }
    }
}

/// Run the monitor listing; its output, decoded leniently, is the result.
pub open spec fn after_listing(program: Seq<char>, rest: Seq<ReplySpec>) -> StepSpec {
    if rest.len() == 0 {
        StepSpec::Ask(RequestSpec::Exec(powershell(program, LIST_MONITORS_SCRIPT@)))
    } else {
        match output_of(rest[0]) {
            Ok(b) => StepSpec::Done(OutcomeSpec::Text(utf8_lossy(b))),
            Err(e) => StepSpec::Done(OutcomeSpec::Failed(e)),
        }
    }
}

/// Ask for the runtime's temporary directory and end with it.
pub open spec fn plain_temp_dir(rest: Seq<ReplySpec>) -> StepSpec {
    if rest.len() == 0 {
        StepSpec::Ask(RequestSpec::TempDir)
    } else {
        StepSpec::Done(OutcomeSpec::Text(dir_of(rest[0])))
    }
}

/// Fetch `%TEMP%` from Windows and convert it with `wslpath -u`. On a
/// failure either fail with its message or, with `fall_back`, end with the
/// runtime's temporary directory.
pub open spec fn windows_temp(rest: Seq<ReplySpec>, fall_back: bool) -> StepSpec {
    if rest.len() == 0 {
        StepSpec::Ask(RequestSpec::Exec(echo_temp()))
    } else {
        match output_of(rest[0]) {
            Err(e) => if fall_back {
                plain_temp_dir(rest.skip(1))
            } else {
                StepSpec::Done(OutcomeSpec::Failed(e))
            },
            Ok(b) => if rest.len() == 1 {
                StepSpec::Ask(RequestSpec::Exec(wslpath("-u"@, decoded(b))))
            } else {
                match output_of(rest[1]) {
                    Err(e) => if fall_back {
                        plain_temp_dir(rest.skip(2))
                    } else {
                        StepSpec::Done(OutcomeSpec::Failed(e))
                    },
                    Ok(b2) => StepSpec::Done(OutcomeSpec::Text(decoded(b2))),
                }
            },
        }
    }
}

/// Convert a WSL path with `wslpath -w`.
pub open spec fn to_windows_path(path: Seq<char>, rest: Seq<ReplySpec>) -> StepSpec {
    if rest.len() == 0 {
        StepSpec::Ask(RequestSpec::Exec(wslpath("-w"@, path)))
    } else {
        match output_of(rest[0]) {
            Ok(b) => StepSpec::Done(OutcomeSpec::Text(decoded(b))),
            Err(e) => StepSpec::Done(OutcomeSpec::Failed(e)),
        }
    }
}

/// Capture, once the platform is known.
pub open spec fn capture_on(p: Platform, path: Seq<char>, m: MonitorSelection, rest: Seq<ReplySpec>) -> StepSpec {
    match p {
        Platform::Windows => after_exec(powershell("powershell"@, capture_script(path, m)), rest),
        Platform::Wsl => if rest.len() == 0 {
            StepSpec::Ask(RequestSpec::Exec(wslpath("-w"@, path)))
        } else {
            match output_of(rest[0]) {
                Err(e) => StepSpec::Done(OutcomeSpec::Failed(e)),
                Ok(b) => after_exec(
                    powershell("powershell.exe"@, capture_script(decoded(b), m)),
                    rest.skip(1),
                ),
            }
        },
        Platform::Other => StepSpec::Done(OutcomeSpec::Failed(CAPTURE_UNSUPPORTED@)),
    }
}

/// Clipboard copy, once the platform is known.
pub open spec fn clipboard_on(p: Platform, path: Seq<char>, rest: Seq<ReplySpec>) -> StepSpec {
    match p {
        Platform::Windows => after_exec(
            powershell("powershell"@, clipboard_script(quote_escaped(path))),
            rest,
        ),
        Platform::Wsl => if rest.len() == 0 {
            StepSpec::Ask(RequestSpec::Exec(wslpath("-w"@, path)))
        } else {
            match output_of(rest[0]) {
                Err(e) => StepSpec::Done(OutcomeSpec::Failed(e)),
                Ok(b) => after_exec(
                    powershell("powershell.exe"@, clipboard_script(ps_escaped(decoded(b)))),
                    rest.skip(1),
                ),
            }
        },
        Platform::Other => StepSpec::Done(OutcomeSpec::Failed(CLIPBOARD_UNSUPPORTED@)),
    }
}

/// Opening a file, once the platform is known.
pub open spec fn open_on(p: Platform, path: Seq<char>, rest: Seq<ReplySpec>) -> StepSpec {
    match p {
        Platform::Windows => after_spawn(start_with("cmd"@, path), rest),
        Platform::Wsl => if rest.len() == 0 {
            StepSpec::Ask(RequestSpec::Exec(wslpath("-w"@, path)))
        } else {
            match output_of(rest[0]) {
                Err(e) => StepSpec::Done(OutcomeSpec::Failed(e)),
                Ok(b) => after_spawn(start_with("cmd.exe"@, decoded(b)), rest.skip(1)),
            }
        },
        Platform::Other => after_spawn(xdg_open(path), rest),
    }
}

/// Monitor listing, once the platform is known.
pub open spec fn listing_on(p: Platform, rest: Seq<ReplySpec>) -> StepSpec {
    match p {
        Platform::Windows => after_listing("powershell"@, rest),
        Platform::Wsl => after_listing("powershell.exe"@, rest),
        Platform::Other => StepSpec::Done(OutcomeSpec::Failed(LISTING_UNSUPPORTED@)),
    }
}

/// The screenshot directory, once the platform is known: under WSL the
/// Windows temporary directory, falling back to the runtime's own.
pub open spec fn temp_dir_on(p: Platform, rest: Seq<ReplySpec>) -> StepSpec {
    match p {
        Platform::Wsl => windows_temp(rest, true),
        _ => plain_temp_dir(rest),
    }
}

/// Detect the platform, then go on as `then` says.
pub open spec fn detected(r: Seq<ReplySpec>, then: spec_fn(Platform, Seq<ReplySpec>) -> StepSpec) -> StepSpec {
    match probe(r) {
        ProbeSpec::Ask(q) => StepSpec::Ask(q),
        ProbeSpec::Known(p, k) => then(p, r.skip(k as int)),
    }
}

/// The next step of an operation, given the replies received so far.
pub open spec fn plan(op: OperationSpec, r: Seq<ReplySpec>) -> StepSpec {
    match op {
        OperationSpec::DetectWsl => detected(
            r,
            |p: Platform, rest: Seq<ReplySpec>| StepSpec::Done(OutcomeSpec::Flag(p == Platform::Wsl)),
        ),
        OperationSpec::WindowsTempDir => windows_temp(r, false),
        OperationSpec::TempDir => detected(r, |p: Platform, rest: Seq<ReplySpec>| temp_dir_on(p, rest)),
        OperationSpec::WslToWindowsPath(path) => to_windows_path(path, r),
        OperationSpec::ListMonitors => detected(r, |p: Platform, rest: Seq<ReplySpec>| listing_on(p, rest)),
        OperationSpec::Capture(path, m) => detected(
            r,
            |p: Platform, rest: Seq<ReplySpec>| capture_on(p, path, m, rest),
        ),
        OperationSpec::CopyToClipboard(path) => detected(
            r,
            |p: Platform, rest: Seq<ReplySpec>| clipboard_on(p, path, rest),
        ),
        OperationSpec::Open(path) => detected(r, |p: Platform, rest: Seq<ReplySpec>| open_on(p, path, rest)),
    }
}

/// On native Windows, detection never reports WSL, whatever else is asked.
pub proof fn law_windows_is_never_wsl(r: Seq<ReplySpec>)
    requires
        r.len() >= 1,
        flag_of(r[0]),
    ensures
        plan(OperationSpec::DetectWsl, r) == StepSpec::Done(OutcomeSpec::Flag(false)),
{
}

/// The replies of a platform that is neither Windows nor WSL: not Windows,
/// `/proc/version` without a WSL marker, and no interop file.
pub open spec fn other_platform(r: Seq<ReplySpec>) -> bool {
    &&& r.len() == 3
    &&& !flag_of(r[0])
    &&& !(match text_of(r[1]) {
        Some(t) => wsl_marker(t),
        None => false,
    })
    &&& !flag_of(r[2])
}

/// On a platform that is neither Windows nor WSL, capture, clipboard copy
/// and monitor listing fail with their message before running any command,
/// opening falls back to `xdg-open`, the screenshot directory is the
/// runtime's own, and WSL is not detected.
pub proof fn law_other_platform(r: Seq<ReplySpec>, path: Seq<char>, m: MonitorSelection)
    requires
        other_platform(r),
    ensures
        plan(OperationSpec::Capture(path, m), r) == StepSpec::Done(OutcomeSpec::Failed(CAPTURE_UNSUPPORTED@)),
        plan(OperationSpec::CopyToClipboard(path), r) == StepSpec::Done(OutcomeSpec::Failed(CLIPBOARD_UNSUPPORTED@)),
        plan(OperationSpec::ListMonitors, r) == StepSpec::Done(OutcomeSpec::Failed(LISTING_UNSUPPORTED@)),
        plan(OperationSpec::Open(path), r) == StepSpec::Ask(RequestSpec::Spawn(xdg_open(path))),
        plan(OperationSpec::TempDir, r) == StepSpec::Ask(RequestSpec::TempDir),
        plan(OperationSpec::DetectWsl, r) == StepSpec::Done(OutcomeSpec::Flag(false)),
{
    assert(r.skip(3).len() == 0);
}

/// On native Windows a capture runs one PowerShell command, with the script
/// for the path as given, and ends as that command ends.
pub proof fn law_capture_on_windows(r0: ReplySpec, r1: ReplySpec, path: Seq<char>, m: MonitorSelection)
    requires
        flag_of(r0),
    ensures
        plan(OperationSpec::Capture(path, m), seq![r0]) == StepSpec::Ask(
            RequestSpec::Exec(
                CommandSpec {
                    program: "powershell"@,
                    args: seq!["-NoProfile"@, "-NonInteractive"@, "-Command"@, capture_script(path, m)],
                },
            ),
        ),
        plan(OperationSpec::Capture(path, m), seq![r0, r1]) == match output_of(r1) {
            Ok(_) => StepSpec::Done(OutcomeSpec::Finished),
            Err(e) => StepSpec::Done(OutcomeSpec::Failed(e)),
        },
{
    assert(seq![r0].skip(1) =~= Seq::<ReplySpec>::empty());
    assert(seq![r0, r1].skip(1) =~= seq![r1]);
}

/// Under WSL a capture first converts the path with `wslpath -w`, then runs
/// `powershell.exe` with the script for the converted path; a failed
/// conversion ends the capture with its message.
pub proof fn law_capture_on_wsl(r: Seq<ReplySpec>, k: nat, out: ReplySpec, path: Seq<char>, m: MonitorSelection)
    requires
        probe(r) == ProbeSpec::Known(Platform::Wsl, k),
        k == r.len(),
    ensures
        plan(OperationSpec::Capture(path, m), r) == StepSpec::Ask(
            RequestSpec::Exec(CommandSpec { program: "wslpath"@, args: seq!["-w"@, path] }),
        ),
        plan(OperationSpec::Capture(path, m), r.push(out)) == match output_of(out) {
            Ok(b) => StepSpec::Ask(
                RequestSpec::Exec(
                    CommandSpec {
                        program: "powershell.exe"@,
                        args: seq![
                            "-NoProfile"@,
                            "-NonInteractive"@,
                            "-Command"@,
                            capture_script(decoded(b), m),
                        ],
                    },
                ),
            ),
            Err(e) => StepSpec::Done(OutcomeSpec::Failed(e)),
        },
{
    assert(r.skip(k as int) =~= Seq::<ReplySpec>::empty());
    assert(probe(r.push(out)) == ProbeSpec::Known(Platform::Wsl, k)) by {
        assert(forall|i: int| 0 <= i < r.len() ==> r.push(out)[i] == r[i]);
    }
    assert(r.push(out).skip(k as int) =~= seq![out]);
    assert(seq![out].skip(1) =~= Seq::<ReplySpec>::empty());
}

/// On native Windows a clipboard copy runs one PowerShell command whose
/// script loads the path as given, with its quotes doubled, and ends as that
/// command ends; opening a file starts `cmd /C start "" <path>`.
pub proof fn law_clipboard_and_open_on_windows(r0: ReplySpec, r1: ReplySpec, path: Seq<char>)
    requires
        flag_of(r0),
    ensures
        plan(OperationSpec::CopyToClipboard(path), seq![r0]) == StepSpec::Ask(
            RequestSpec::Exec(
                CommandSpec {
                    program: "powershell"@,
                    args: seq![
                        "-NoProfile"@,
                        "-NonInteractive"@,
                        "-Command"@,
                        clipboard_script(quote_escaped(path)),
                    ],
                },
            ),
        ),
        plan(OperationSpec::CopyToClipboard(path), seq![r0, r1]) == match output_of(r1) {
            Ok(_) => StepSpec::Done(OutcomeSpec::Finished),
            Err(e) => StepSpec::Done(OutcomeSpec::Failed(e)),
        },
        plan(OperationSpec::Open(path), seq![r0]) == StepSpec::Ask(
            RequestSpec::Spawn(CommandSpec { program: "cmd"@, args: seq!["/C"@, "start"@, ""@, path] }),
        ),
        plan(OperationSpec::Open(path), seq![r0, r1]) == match spawned_of(r1) {
            Ok(_) => StepSpec::Done(OutcomeSpec::Finished),
            Err(e) => StepSpec::Done(OutcomeSpec::Failed(e)),
        },
{
    assert(seq![r0].skip(1) =~= Seq::<ReplySpec>::empty());
    assert(seq![r0, r1].skip(1) =~= seq![r1]);
}

/// Under WSL a clipboard copy first converts the path to a Windows path with
/// `wslpath -w`, then runs `powershell.exe` with the script that loads the
/// converted path (escaped for PowerShell), and ends as that command ends;
/// a failed conversion ends the copy with its message.
pub proof fn law_clipboard_on_wsl(
    r: Seq<ReplySpec>,
    k: nat,
    out: ReplySpec,
    res: ReplySpec,
    path: Seq<char>,
)
    requires
        probe(r) == ProbeSpec::Known(Platform::Wsl, k),
        k == r.len(),
    ensures
        plan(OperationSpec::CopyToClipboard(path), r) == StepSpec::Ask(
            RequestSpec::Exec(CommandSpec { program: "wslpath"@, args: seq!["-w"@, path] }),
        ),
        plan(OperationSpec::CopyToClipboard(path), r.push(out)) == match output_of(out) {
            Ok(b) => StepSpec::Ask(
                RequestSpec::Exec(
                    CommandSpec {
                        program: "powershell.exe"@,
                        args: seq![
                            "-NoProfile"@,
                            "-NonInteractive"@,
                            "-Command"@,
                            clipboard_script(ps_escaped(decoded(b))),
                        ],
                    },
                ),
            ),
            Err(e) => StepSpec::Done(OutcomeSpec::Failed(e)),
        },
        output_of(out) is Ok ==> plan(OperationSpec::CopyToClipboard(path), r.push(out).push(res))
            == match output_of(res) {
            Ok(_) => StepSpec::Done(OutcomeSpec::Finished),
            Err(e) => StepSpec::Done(OutcomeSpec::Failed(e)),
        },
{
    lemma_wsl_tail(r, k, out, res);
}

/// Under WSL opening a file first converts the path to a Windows path with
/// `wslpath -w`, then starts `cmd.exe /C start "" <converted path>`, and
/// ends as that start ends; a failed conversion ends with its message.
pub proof fn law_open_on_wsl(r: Seq<ReplySpec>, k: nat, out: ReplySpec, res: ReplySpec, path: Seq<char>)
    requires
        probe(r) == ProbeSpec::Known(Platform::Wsl, k),
        k == r.len(),
    ensures
        plan(OperationSpec::Open(path), r) == StepSpec::Ask(
            RequestSpec::Exec(CommandSpec { program: "wslpath"@, args: seq!["-w"@, path] }),
        ),
        plan(OperationSpec::Open(path), r.push(out)) == match output_of(out) {
            Ok(b) => StepSpec::Ask(
                RequestSpec::Spawn(
                    CommandSpec { program: "cmd.exe"@, args: seq!["/C"@, "start"@, ""@, decoded(b)] },
                ),
            ),
            Err(e) => StepSpec::Done(OutcomeSpec::Failed(e)),
        },
        output_of(out) is Ok ==> plan(OperationSpec::Open(path), r.push(out).push(res)) == match spawned_of(
            res,
        ) {
            Ok(_) => StepSpec::Done(OutcomeSpec::Finished),
            Err(e) => StepSpec::Done(OutcomeSpec::Failed(e)),
        },
{
    lemma_wsl_tail(r, k, out, res);
}

/// Replies after a detection of WSL leave the detection as it was.
proof fn lemma_wsl_tail(r: Seq<ReplySpec>, k: nat, out: ReplySpec, res: ReplySpec)
    requires
        probe(r) == ProbeSpec::Known(Platform::Wsl, k),
        k == r.len(),
    ensures
        r.skip(k as int) =~= Seq::<ReplySpec>::empty(),
        probe(r.push(out)) == ProbeSpec::Known(Platform::Wsl, k),
        probe(r.push(out).push(res)) == ProbeSpec::Known(Platform::Wsl, k),
        r.push(out).skip(k as int) =~= seq![out],
        r.push(out).push(res).skip(k as int) =~= seq![out, res],
        seq![out].skip(1) =~= Seq::<ReplySpec>::empty(),
        seq![out, res].skip(1) =~= seq![res],
{
    assert(forall|i: int| 0 <= i < r.len() ==> r.push(out)[i] == r[i]);
    assert(forall|i: int| 0 <= i < r.len() ==> r.push(out).push(res)[i] == r[i]);
}

/// Under WSL, when fetching the Windows temporary directory fails at either
/// command, the screenshot directory falls back to the runtime's own.
pub proof fn law_temp_dir_falls_back(r: Seq<ReplySpec>, k: nat, tail: Seq<ReplySpec>, dir: Seq<char>)
    requires
        probe(r) == ProbeSpec::Known(Platform::Wsl, k),
        k == r.len(),
        (tail.len() == 1 && output_of(tail[0]) is Err)
            || (tail.len() == 2 && output_of(tail[0]) is Ok && output_of(tail[1]) is Err),
    ensures
        plan(OperationSpec::TempDir, r + tail) == StepSpec::Ask(RequestSpec::TempDir),
        plan(OperationSpec::TempDir, r + tail.push(ReplySpec::Dir(dir))) == StepSpec::Done(OutcomeSpec::Text(dir)),
{
    let r1 = r + tail;
    let r2 = r + tail.push(ReplySpec::Dir(dir));
    assert(probe(r1) == ProbeSpec::Known(Platform::Wsl, k)) by {
        assert(forall|i: int| 0 <= i < r.len() ==> r1[i] == r[i]);
    }
    assert(probe(r2) == ProbeSpec::Known(Platform::Wsl, k)) by {
        assert(forall|i: int| 0 <= i < r.len() ==> r2[i] == r[i]);
    }
    assert(r1.skip(k as int) =~= tail);
    assert(r2.skip(k as int) =~= tail.push(ReplySpec::Dir(dir)));
    if tail.len() == 1 {
        assert(tail.skip(1) =~= Seq::<ReplySpec>::empty());
        assert(tail.push(ReplySpec::Dir(dir)).skip(1) =~= seq![ReplySpec::Dir(dir)]);
    } else {
        assert(tail.skip(2) =~= Seq::<ReplySpec>::empty());
        assert(tail.push(ReplySpec::Dir(dir)).skip(2) =~= seq![ReplySpec::Dir(dir)]);
    }
}

/// The replies after the first `at`, as values.
proof fn lemma_rest(r: Seq<Reply>, at: int)
    requires
        0 <= at <= r.len(),
    ensures
        replies_spec(r).skip(at).len() == r.len() - at,
        forall|k: int| 0 <= k < r.len() - at ==> #[trigger] replies_spec(r).skip(at)[k] == r[at + k]@,
        forall|j: int| 0 <= j <= r.len() - at ==> #[trigger] replies_spec(r).skip(at).skip(j) == replies_spec(r).skip(at + j),
{
    assert forall|j: int| 0 <= j <= r.len() - at implies #[trigger] replies_spec(r).skip(at).skip(j) == replies_spec(r).skip(at + j) by {
        assert(replies_spec(r).skip(at).skip(j) =~= replies_spec(r).skip(at + j));
    }
}

/// An owned copy of a string slice.
fn owned(s: &str) -> (r: String)
    ensures
        r@ == s@,
{
    String::from_str(s)
}

/// A PowerShell invocation running a script.
pub fn powershell_command(program: &str, script: String) -> (c: CommandLine)
    ensures
        c@ == powershell(program@, script@),
{
    let mut args: Vec<String> = Vec::new();
    args.push(owned("-NoProfile"));
    args.push(owned("-NonInteractive"));
    args.push(owned("-Command"));
    args.push(script);
    let c = CommandLine { program: owned(program), args };
    assert(c@.args =~= powershell(program@, script@).args);
    c
}

/// `wslpath` with one flag and one path.
pub fn wslpath_command(flag: &str, path: String) -> (c: CommandLine)
    ensures
        c@ == wslpath(flag@, path@),
{
    let mut args: Vec<String> = Vec::new();
    args.push(owned(flag));
    args.push(path);
    let c = CommandLine { program: owned("wslpath"), args };
    assert(c@.args =~= wslpath(flag@, path@).args);
    c
}

/// The command that prints the Windows `%TEMP%` directory.
pub fn echo_temp_command() -> (c: CommandLine)
    ensures
        c@ == echo_temp(),
{
    let mut args: Vec<String> = Vec::new();
    args.push(owned("/C"));
    args.push(owned("echo %TEMP%"));
    let c = CommandLine { program: owned("cmd.exe"), args };
    assert(c@.args =~= echo_temp().args);
    c
}

/// `cmd /C start "" <path>`.
pub fn start_command(program: &str, path: String) -> (c: CommandLine)
    ensures
        c@ == start_with(program@, path@),
{
    let mut args: Vec<String> = Vec::new();
    args.push(owned("/C"));
    args.push(owned("start"));
    args.push(owned(""));
    args.push(path);
    let c = CommandLine { program: owned(program), args };
    assert(c@.args =~= start_with(program@, path@).args);
    c
}

/// `xdg-open <path>`.
pub fn xdg_open_command(path: String) -> (c: CommandLine)
    ensures
        c@ == xdg_open(path@),
{
    let mut args: Vec<String> = Vec::new();
    args.push(path);
    let c = CommandLine { program: owned("xdg-open"), args };
    assert(c@.args =~= xdg_open(path@).args);
    c
}

/// The progress of platform detection.
pub enum Probe {
    Ask(Request),
    Known(Platform, usize),
}

impl View for Probe {
    type V = ProbeSpec;

    open spec fn view(&self) -> ProbeSpec {
        match self {
            Probe::Ask(q) => ProbeSpec::Ask(q@),
            Probe::Known(p, k) => ProbeSpec::Known(*p, *k as nat),
        }
    }
}

/// Whether a reply is a `true` flag.
fn reply_flag(a: &Reply) -> (b: bool)
    ensures
        b == flag_of(a@),
{
    match a {
        Reply::Flag(b) => *b,
        _ => false,
    }
}

/// Platform detection over the replies received so far.
pub fn probe_replies(r: &Vec<Reply>) -> (p: Probe)
    ensures
        p@ == probe(replies_spec(r@)),
{
    proof {
        reveal_strlit("/proc/version");
    }
    if r.len() == 0 {
        return Probe::Ask(Request::IsWindows);
    }
    if reply_flag(&r[0]) {
        return Probe::Known(Platform::Windows, 1);
    }
    if r.len() == 1 {
        return Probe::Ask(Request::ReadToString(owned(PROC_VERSION)));
    }
    let marked = match &r[1] {
        Reply::Text(Ok(t)) => check_wsl_from_proc_version(t.as_str()),
        _ => false,
    };
    if marked {
        return Probe::Known(Platform::Wsl, 2);
    }
    if r.len() == 2 {
        return Probe::Ask(Request::PathExists(owned(WSL_INTEROP)));
    }
    if reply_flag(&r[2]) {
        Probe::Known(Platform::Wsl, 3)
    } else {
        Probe::Known(Platform::Other, 3)
    }
}

/// Run a command; finish when it succeeds.
fn exec_step(cmd: CommandLine, r: &Vec<Reply>, at: usize) -> (s: Step)
    requires
        at <= r.len(),
    ensures
        s@ == after_exec(cmd@, replies_spec(r@).skip(at as int)),
{
    proof { lemma_rest(r@, at as int); }
    if at == r.len() {
        return Step::Ask(Request::Exec(cmd));
    }
    match &r[at] {
        Reply::Output(Ok(_)) => Step::Done(Outcome::Finished),
        Reply::Output(Err(e)) => Step::Done(Outcome::Failed(e.clone())),
        _ => Step::Done(Outcome::Failed(String::new())),
    }
}

/// Start a command; finish when it starts.
fn spawn_step(cmd: CommandLine, r: &Vec<Reply>, at: usize) -> (s: Step)
    requires
        at <= r.len(),
    ensures
        s@ == after_spawn(cmd@, replies_spec(r@).skip(at as int)),
{
    proof { lemma_rest(r@, at as int); }
    if at == r.len() {
        return Step::Ask(Request::Spawn(cmd));
    }
    match &r[at] {
        Reply::Spawned(Ok(())) => Step::Done(Outcome::Finished),
        Reply::Spawned(Err(e)) => Step::Done(Outcome::Failed(e.clone())),
        _ => Step::Done(Outcome::Failed(String::new())),
    }
}

/// Run the monitor listing with the given PowerShell.
fn listing_step(program: &str, r: &Vec<Reply>, at: usize) -> (s: Step)
    requires
        at <= r.len(),
    ensures
        s@ == after_listing(program@, replies_spec(r@).skip(at as int)),
{
    proof { lemma_rest(r@, at as int); }
    if at == r.len() {
        return Step::Ask(Request::Exec(powershell_command(program, owned(LIST_MONITORS_SCRIPT))));
    }
    match &r[at] {
        Reply::Output(Ok(b)) => Step::Done(Outcome::Text(utf8_lossy_text(b.as_slice()))),
        Reply::Output(Err(e)) => Step::Done(Outcome::Failed(e.clone())),
        _ => Step::Done(Outcome::Failed(String::new())),
    }
}

/// Ask for the runtime's temporary directory and end with it.
fn plain_temp_step(r: &Vec<Reply>, at: usize) -> (s: Step)
    requires
        at <= r.len(),
    ensures
        s@ == plain_temp_dir(replies_spec(r@).skip(at as int)),
{
    proof { lemma_rest(r@, at as int); }
    if at == r.len() {
        return Step::Ask(Request::TempDir);
    }
    match &r[at] {
        Reply::Dir(d) => Step::Done(Outcome::Text(d.clone())),
        _ => Step::Done(Outcome::Text(String::new())),
    }
}

/// Fetch and convert the Windows temporary directory.
fn windows_temp_step(r: &Vec<Reply>, at: usize, fall_back: bool) -> (s: Step)
    requires
        at <= r.len(),
    ensures
        s@ == windows_temp(replies_spec(r@).skip(at as int), fall_back),
{
    proof { lemma_rest(r@, at as int); }
    if at == r.len() {
        return Step::Ask(Request::Exec(echo_temp_command()));
    }
    let first = match &r[at] {
        Reply::Output(Ok(b)) => Ok(decode_output(b)),
        Reply::Output(Err(e)) => Err(e.clone()),
        _ => Err(String::new()),
    };
    match first {
        Err(e) => {
            if fall_back {
                plain_temp_step(r, at + 1)
            } else {
                Step::Done(Outcome::Failed(e))
            }
        },
        Ok(windows_dir) => {
            if at + 1 == r.len() {
                return Step::Ask(Request::Exec(wslpath_command("-u", windows_dir)));
            }
            match &r[at + 1] {
                Reply::Output(Ok(b2)) => Step::Done(Outcome::Text(decode_output(b2))),
                Reply::Output(Err(e)) => {
                    if fall_back {
                        plain_temp_step(r, at + 2)
                    } else {
                        Step::Done(Outcome::Failed(e.clone()))
                    }
                },
                _ => {
                    if fall_back {
                        plain_temp_step(r, at + 2)
                    } else {
                        Step::Done(Outcome::Failed(String::new()))
                    }
                },
            }
        },
    }
}

/// The Windows form of a WSL path, from the `wslpath -w` reply at `at`.
fn windows_path_reply(r: &Vec<Reply>, at: usize) -> (w: Result<String, String>)
    requires
        at < r.len(),
    ensures
        match output_of(r@[at as int]@) {
            Ok(b) => w matches Ok(s) && s@ == decoded(b),
            Err(e) => w matches Err(m) && m@ == e,
        },
{
    match &r[at] {
        Reply::Output(Ok(b)) => Ok(decode_output(b)),
        Reply::Output(Err(e)) => Err(e.clone()),
        _ => Err(String::new()),
    }
}

/// Convert a WSL path with `wslpath -w`.
fn to_windows_path_step(path: &String, r: &Vec<Reply>, at: usize) -> (s: Step)
    requires
        at <= r.len(),
    ensures
        s@ == to_windows_path(path@, replies_spec(r@).skip(at as int)),
{
    proof { lemma_rest(r@, at as int); }
    if at == r.len() {
        return Step::Ask(Request::Exec(wslpath_command("-w", path.clone())));
    }
    match windows_path_reply(r, at) {
        Ok(w) => Step::Done(Outcome::Text(w)),
        Err(e) => Step::Done(Outcome::Failed(e)),
    }
}

/// Capture, once the platform is known.
fn capture_step(p: Platform, path: &String, m: &MonitorSelection, r: &Vec<Reply>, at: usize) -> (s: Step)
    requires
        at <= r.len(),
    ensures
        s@ == capture_on(p, path@, *m, replies_spec(r@).skip(at as int)),
{
    proof { lemma_rest(r@, at as int); }
    match p {
        Platform::Windows => {
            let script = generate_powershell_script_with_monitor(path.as_str(), m);
            exec_step(powershell_command("powershell", script), r, at)
        },
        Platform::Wsl => {
            if at == r.len() {
                return Step::Ask(Request::Exec(wslpath_command("-w", path.clone())));
            }
            match windows_path_reply(r, at) {
                Err(e) => Step::Done(Outcome::Failed(e)),
                Ok(w) => {
                    let script = generate_powershell_script_with_monitor(w.as_str(), m);
                    exec_step(powershell_command("powershell.exe", script), r, at + 1)
                },
            }
        },
        Platform::Other => Step::Done(Outcome::Failed(owned(CAPTURE_UNSUPPORTED))),
    }
}

/// Clipboard copy, once the platform is known.
fn clipboard_step(p: Platform, path: &String, r: &Vec<Reply>, at: usize) -> (s: Step)
    requires
        at <= r.len(),
    ensures
        s@ == clipboard_on(p, path@, replies_spec(r@).skip(at as int)),
{
    proof { lemma_rest(r@, at as int); }
    match p {
        Platform::Windows => {
            let quoted = escape_quotes(path.as_str());
            let script = generate_clipboard_script(quoted.as_str());
            exec_step(powershell_command("powershell", script), r, at)
        },
        Platform::Wsl => {
            if at == r.len() {
                return Step::Ask(Request::Exec(wslpath_command("-w", path.clone())));
            }
            match windows_path_reply(r, at) {
                Err(e) => Step::Done(Outcome::Failed(e)),
                Ok(w) => {
                    let escaped = escape_powershell_path(w.as_str());
                    let script = generate_clipboard_script(escaped.as_str());
                    exec_step(powershell_command("powershell.exe", script), r, at + 1)
                },
            }
        },
        Platform::Other => Step::Done(Outcome::Failed(owned(CLIPBOARD_UNSUPPORTED))),
    }
}

/// Opening a file, once the platform is known.
fn open_step(p: Platform, path: &String, r: &Vec<Reply>, at: usize) -> (s: Step)
    requires
        at <= r.len(),
    ensures
        s@ == open_on(p, path@, replies_spec(r@).skip(at as int)),
{
    proof { lemma_rest(r@, at as int); }
    match p {
        Platform::Windows => spawn_step(start_command("cmd", path.clone()), r, at),
        Platform::Wsl => {
            if at == r.len() {
                return Step::Ask(Request::Exec(wslpath_command("-w", path.clone())));
            }
            match windows_path_reply(r, at) {
                Err(e) => Step::Done(Outcome::Failed(e)),
                Ok(w) => spawn_step(start_command("cmd.exe", w), r, at + 1),
            }
        },
        Platform::Other => spawn_step(xdg_open_command(path.clone()), r, at),
    }
}

/// Monitor listing, once the platform is known.
fn listing_on_step(p: Platform, r: &Vec<Reply>, at: usize) -> (s: Step)
    requires
        at <= r.len(),
    ensures
        s@ == listing_on(p, replies_spec(r@).skip(at as int)),
{
    match p {
        Platform::Windows => listing_step("powershell", r, at),
        Platform::Wsl => listing_step("powershell.exe", r, at),
        Platform::Other => Step::Done(Outcome::Failed(owned(LISTING_UNSUPPORTED))),
    }
}

/// The screenshot directory, once the platform is known.
fn temp_dir_on_step(p: Platform, r: &Vec<Reply>, at: usize) -> (s: Step)
    requires
        at <= r.len(),
    ensures
        s@ == temp_dir_on(p, replies_spec(r@).skip(at as int)),
{
    match p {
        Platform::Wsl => windows_temp_step(r, at, true),
        _ => plain_temp_step(r, at),
    }
}

/// The next step of an operation, given the replies received so far.
pub fn next_step(op: &Operation, r: &Vec<Reply>) -> (s: Step)
    ensures
        s@ == plan(op@, replies_spec(r@)),
{
    proof {
        lemma_rest(r@, 0);
        assert(replies_spec(r@).skip(0) =~= replies_spec(r@));
    }
    match op {
        Operation::WindowsTempDir => return windows_temp_step(r, 0, false),
        Operation::WslToWindowsPath(path) => return to_windows_path_step(path, r, 0),
        _ => {},
    }
    let probe = probe_replies(r);
    match probe {
        Probe::Ask(q) => Step::Ask(q),
        Probe::Known(p, k) => {
            assert(k <= r.len());
            match op {
                Operation::DetectWsl => Step::Done(Outcome::Flag(p == Platform::Wsl)),
                Operation::TempDir => temp_dir_on_step(p, r, k),
                Operation::ListMonitors => listing_on_step(p, r, k),
                Operation::Capture(path, m) => capture_step(p, path, m, r, k),
                Operation::CopyToClipboard(path) => clipboard_step(p, path, r, k),
                Operation::Open(path) => open_step(p, path, r, k),
                Operation::WindowsTempDir => windows_temp_step(r, 0, false),
                Operation::WslToWindowsPath(path) => to_windows_path_step(path, r, 0),
            }
        },
    }
}

} // verus!
