//! One invocation of the tool, as a plan: from the command-line arguments
//! and what each step brought back, the next thing to do.

use vstd::prelude::*;
use crate::filename::{filename_for, is_timestamp, lemma_generated_name_is_plain, optional_text};
use crate::monitor::{MonitorSelection, parse_monitor_selection, selection_from_lowered};
use crate::paths::{
    debug_ok, debug_plain, dotted_name, ends_with, has_char, has_extension_ok, join_ok,
    final_name, joined_form, last_segment, lemma_plain_is_relative, no_share, parent_ok, path_debug_text,
    path_has_extension, path_is_relative, path_join, path_parent, path_with_extension,
    plain_file_name, relative_ok, relative_text, verbatim, with_extension_ok,
};
use crate::text::{decimal, lowercase, push_decimal_u64};

verus! {

/// The command-line arguments, with paths as text.
#[derive(Debug, Clone, PartialEq, Eq)]
pub struct Args {
    /// Output file path (e.g. screenshot.png). Overrides `name` and `output`.
    pub file: Option<String>,
    /// Custom filename suffix, appended after the date.
    pub name: Option<String>,
    /// Output directory (defaults to the temporary directory).
    pub output: Option<String>,
    /// Delay in seconds before taking the screenshot.
    pub delay: u64,
    /// Open the screenshot after saving.
    pub open: bool,
    /// Print the output path without capturing.
    pub dry_run: bool,
    /// Suppress all output.
    pub quiet: bool,
    /// Copy the screenshot to the clipboard.
    pub clipboard: bool,
    /// Don't save to file, only copy to the clipboard.
    pub no_save: bool,
    /// Monitor to capture: `primary`, `all`, or an index.
    pub monitor: String,
    /// List available monitors and exit.
    pub list_monitors: bool,
}

/// The arguments, as values.
pub struct ArgsView {
    pub file: Option<Seq<char>>,
    pub name: Option<Seq<char>>,
    pub output: Option<Seq<char>>,
    pub delay: u64,
    pub open: bool,
    pub dry_run: bool,
    pub quiet: bool,
    pub clipboard: bool,
    pub no_save: bool,
    pub monitor: Seq<char>,
    pub list_monitors: bool,
}

impl View for Args {
    type V = ArgsView;

    open spec fn view(&self) -> ArgsView {
        ArgsView {
            file: optional_text(self.file),
            name: optional_text(self.name),
            output: optional_text(self.output),
            delay: self.delay,
            open: self.open,
            dry_run: self.dry_run,
            quiet: self.quiet,
            clipboard: self.clipboard,
            no_save: self.no_save,
            monitor: self.monitor@,
            list_monitors: self.list_monitors,
        }
    }
}

/// Where an invocation stands.
#[derive(Debug, Clone, Copy, PartialEq, Eq, Structural)]
pub enum Stage {
    Start,
    AwaitListing,
    ListingShown,
    AwaitFileDir,
    AwaitCwd,
    AwaitTempDir,
    AwaitOutputDir,
    AwaitFilename,
    DryRunShown,
    Waiting,
    Slept,
    AwaitTempFile,
    Capturing,
    Saved,
    Copying,
    Copied,
    Removing,
    Opening,
    Finished,
}

/// What the invocation does next.
pub enum RunAction {
    /// List the monitors; reply with the listing (`Located`).
    ListMonitors,
    /// Create a directory and its parents; reply with `Done`.
    CreateDir(String),
    /// Find the current directory; reply with `Located`.
    CurrentDir,
    /// Find the directory for screenshots (`get_temp_dir`); reply with `Located`.
    TempDir,
    /// Generate a timestamped file name with this suffix; reply with `Located`.
    GenerateFilename(Option<String>),
    /// Write this text to standard output.
    Print(String),
    /// Wait this many seconds.
    Sleep(u64),
    /// Find the system temporary directory and the process id; reply with `TempFile`.
    TempFile,
    /// Capture the screen into a file; reply with `Done`.
    Capture(String, MonitorSelection),
    /// Copy an image to the clipboard; reply with `Done`.
    CopyToClipboard(String),
    /// Remove a file; the reply is ignored.
    RemoveFile(String),
    /// Open a file with the default application; reply with `Done`.
    Open(String),
    /// The invocation is over, with this result.
    Finish(Result<(), String>),
}

/// An action, as values.
pub enum RunActionView {
    ListMonitors,
    CreateDir(Seq<char>),
    CurrentDir,
    TempDir,
    GenerateFilename(Option<Seq<char>>),
    Print(Seq<char>),
    Sleep(u64),
    TempFile,
    Capture(Seq<char>, MonitorSelection),
    CopyToClipboard(Seq<char>),
    RemoveFile(Seq<char>),
    Open(Seq<char>),
    Finish(Result<(), Seq<char>>),
}

impl View for RunAction {
    type V = RunActionView;

    open spec fn view(&self) -> RunActionView {
        match self {
            RunAction::ListMonitors => RunActionView::ListMonitors,
            RunAction::CreateDir(d) => RunActionView::CreateDir(d@),
            RunAction::CurrentDir => RunActionView::CurrentDir,
            RunAction::TempDir => RunActionView::TempDir,
            RunAction::GenerateFilename(n) => RunActionView::GenerateFilename(optional_text(*n)),
            RunAction::Print(t) => RunActionView::Print(t@),
            RunAction::Sleep(s) => RunActionView::Sleep(*s),
            RunAction::TempFile => RunActionView::TempFile,
            RunAction::Capture(p, m) => RunActionView::Capture(p@, *m),
            RunAction::CopyToClipboard(p) => RunActionView::CopyToClipboard(p@),
            RunAction::RemoveFile(p) => RunActionView::RemoveFile(p@),
            RunAction::Open(p) => RunActionView::Open(p@),
            RunAction::Finish(Ok(())) => RunActionView::Finish(Ok(())),
            RunAction::Finish(Err(e)) => RunActionView::Finish(Err(e@)),
        }
    }
}

/// What the last action brought back.
pub enum RunEvent {
    /// Nothing yet: the invocation starts.
    Begin,
    /// An action that succeeds or fails.
    Done(Result<(), String>),
    /// A path, a listing or a file name, or a failure.
    Located(Result<String, String>),
    /// The system temporary directory and the process id.
    TempFile(String, u32),
}

/// An event, as values.
pub enum RunEventView {
    Begin,
    Done(Result<(), Seq<char>>),
    Located(Result<Seq<char>, Seq<char>>),
    TempFile(Seq<char>, u32),
}

impl View for RunEvent {
    type V = RunEventView;

    open spec fn view(&self) -> RunEventView {
        match self {
            RunEvent::Begin => RunEventView::Begin,
            RunEvent::Done(Ok(())) => RunEventView::Done(Ok(())),
            RunEvent::Done(Err(e)) => RunEventView::Done(Err(e@)),
            RunEvent::Located(Ok(t)) => RunEventView::Located(Ok(t@)),
            RunEvent::Located(Err(e)) => RunEventView::Located(Err(e@)),
            RunEvent::TempFile(d, p) => RunEventView::TempFile(d@, *p),
        }
    }
}

/// The state of an invocation.
pub struct RunState {
    pub stage: Stage,
    pub args: Args,
    /// The parsed monitor selection.
    pub monitor: MonitorSelection,
    /// The directory being created.
    pub dir: String,
    /// The explicit output file, with its extension.
    pub target: String,
    /// Where the screenshot is saved.
    pub output: String,
    /// Where the screenshot is captured (a temporary file with `no_save`).
    pub actual: String,
}

/// The state, as values.
pub struct RunView {
    pub stage: Stage,
    pub args: ArgsView,
    pub monitor: MonitorSelection,
    pub dir: Seq<char>,
    pub target: Seq<char>,
    pub output: Seq<char>,
    pub actual: Seq<char>,
}

impl View for RunState {
    type V = RunView;

    open spec fn view(&self) -> RunView {
        RunView {
            stage: self.stage,
            args: self.args@,
            monitor: self.monitor,
            dir: self.dir@,
            target: self.target@,
            output: self.output@,
            actual: self.actual@,
        }
    }
}

/// What the platform's path functions gave in one step: whether the
/// explicit file has an extension, the file with `png` as extension, its
/// parent if it has one, whether the file is relative, the one join of the step, and the
/// quoted form of the directory being created.
pub struct PathFacts {
    pub has_extension: bool,
    pub with_png: Seq<char>,
    pub parent: Option<Seq<char>>,
    pub relative: bool,
    pub joined: Seq<char>,
    pub quoted: Seq<char>,
}

/// The message when an output directory cannot be created, from the quoted
/// form of the directory.
pub open spec fn dir_failure(quoted: Seq<char>) -> Seq<char> {
    "Failed to create output directory: "@ + quoted
}

/// The message before waiting.
pub open spec fn waiting_message(delay: u64) -> Seq<char> {
    "Waiting "@ + decimal(delay as nat) + " seconds before capture...\n"@
}

/// The message after saving.
pub open spec fn saved_message(output: Seq<char>) -> Seq<char> {
    "Screenshot saved to: "@ + output + "\n"@
}

/// The message after copying to the clipboard.
pub open spec fn copied_message() -> Seq<char> {
    "Screenshot copied to clipboard\n"@
}

/// The name of the temporary capture file for a process.
pub open spec fn temp_capture_name(pid: u32) -> Seq<char> {
    "mdscreensnap_temp_"@ + decimal(pid as nat) + ".png"@
}

/// The message carried by a failed event; empty for any other event.
pub open spec fn failure_of(e: RunEventView) -> Seq<char> {
    match e {
        RunEventView::Done(Err(m)) => m,
        RunEventView::Located(Err(m)) => m,
        _ => Seq::empty(),
    }
}

/// Move to a stage with an action.
pub open spec fn goto(s: RunView, stage: Stage, a: RunActionView) -> (RunView, RunActionView) {
    (RunView { stage, ..s }, a)
}

/// End the invocation.
pub open spec fn finish(s: RunView, r: Result<(), Seq<char>>) -> (RunView, RunActionView) {
    goto(s, Stage::Finished, RunActionView::Finish(r))
}

/// Open the saved file if asked to, then end.
pub open spec fn open_stage(s: RunView) -> (RunView, RunActionView) {
    if s.args.open && !s.args.no_save {
        goto(s, Stage::Opening, RunActionView::Open(s.output))
    } else {
        finish(s, Ok(()))
    }
}

/// Remove the temporary capture with `no_save`.
pub open spec fn cleanup_stage(s: RunView) -> (RunView, RunActionView) {
    if s.args.no_save {
        goto(s, Stage::Removing, RunActionView::RemoveFile(s.actual))
    } else {
        open_stage(s)
    }
}

/// Copy to the clipboard if asked to.
pub open spec fn clipboard_stage(s: RunView) -> (RunView, RunActionView) {
    if s.args.clipboard {
        goto(s, Stage::Copying, RunActionView::CopyToClipboard(s.actual))
    } else {
        cleanup_stage(s)
    }
}

/// After a capture: report the saved file, unless quiet or not saved.
pub open spec fn after_capture(s: RunView) -> (RunView, RunActionView) {
    if !s.args.no_save && !s.args.quiet {
        goto(s, Stage::Saved, RunActionView::Print(saved_message(s.output)))
    } else {
        clipboard_stage(s)
    }
}

/// Capture into `s.actual`.
pub open spec fn capture_stage(s: RunView) -> (RunView, RunActionView) {
    goto(s, Stage::Capturing, RunActionView::Capture(s.actual, s.monitor))
}

/// After the delay: capture into the output, or first find a temporary file
/// with `no_save`.
pub open spec fn after_sleep(s: RunView) -> (RunView, RunActionView) {
    if s.args.no_save {
        goto(s, Stage::AwaitTempFile, RunActionView::TempFile)
    } else {
        capture_stage(RunView { actual: s.output, ..s })
    }
}

/// Wait if asked to, announcing it unless quiet.
pub open spec fn delay_stage(s: RunView) -> (RunView, RunActionView) {
    if s.args.delay > 0 {
        if !s.args.quiet {
            goto(s, Stage::Waiting, RunActionView::Print(waiting_message(s.args.delay)))
        } else {
            goto(s, Stage::Slept, RunActionView::Sleep(s.args.delay))
        }
    } else {
        after_sleep(s)
    }
}

/// Once the output path is known: print it for a dry run, otherwise go on.
pub open spec fn proceed(s: RunView, output: Seq<char>) -> (RunView, RunActionView) {
    let s2 = RunView { output, ..s };
    if s.args.dry_run {
        goto(s2, Stage::DryRunShown, RunActionView::Print(output + "\n"@))
    } else {
        delay_stage(s2)
    }
}

/// The first step: list monitors, or prepare the output location.
pub open spec fn start(s: RunView, d: PathFacts) -> (RunView, RunActionView) {
    if s.args.list_monitors {
        goto(s, Stage::AwaitListing, RunActionView::ListMonitors)
    } else {
        let s1 = RunView { monitor: selection_from_lowered(lowercase(s.args.monitor)), ..s };
        match s.args.file {
            Some(f) => {
                let target = if d.has_extension { f } else { d.with_png };
                let parent = match d.parent {
                    Some(p) => p,
                    None => "."@,
                };
                goto(RunView { target, dir: parent, ..s1 }, Stage::AwaitFileDir, RunActionView::CreateDir(parent))
            },
            None => match s.args.output {
                Some(o) => goto(RunView { dir: o, ..s1 }, Stage::AwaitOutputDir, RunActionView::CreateDir(o)),
                None => goto(s1, Stage::AwaitTempDir, RunActionView::TempDir),
            },
        }
    }
}

/// One step of an invocation, given what the platform's path functions gave.
pub open spec fn run_step_spec(s: RunView, e: RunEventView, d: PathFacts) -> (RunView, RunActionView) {
    match s.stage {
        Stage::Start => start(s, d),
        Stage::AwaitListing => match e {
            RunEventView::Located(Ok(t)) => goto(s, Stage::ListingShown, RunActionView::Print(t)),
            _ => finish(s, Err(failure_of(e))),
        },
        Stage::ListingShown => finish(s, Ok(())),
        Stage::AwaitFileDir => if e == RunEventView::Done(Ok(())) {
            if d.relative {
                goto(s, Stage::AwaitCwd, RunActionView::CurrentDir)
            } else {
                proceed(s, s.target)
            }
        } else {
            finish(s, Err(dir_failure(d.quoted)))
        },
        Stage::AwaitCwd => match e {
            RunEventView::Located(Ok(_)) => proceed(s, d.joined),
            _ => finish(s, Err(failure_of(e))),
        },
        Stage::AwaitTempDir => match e {
            RunEventView::Located(Ok(dir)) => goto(
                RunView { dir, ..s },
                Stage::AwaitOutputDir,
                RunActionView::CreateDir(dir),
            ),
            _ => finish(s, Err(failure_of(e))),
        },
        Stage::AwaitOutputDir => if e == RunEventView::Done(Ok(())) {
            goto(s, Stage::AwaitFilename, RunActionView::GenerateFilename(s.args.name))
        } else {
            finish(s, Err(dir_failure(d.quoted)))
        },
        Stage::AwaitFilename => match e {
            RunEventView::Located(Ok(_)) => proceed(s, d.joined),
            _ => finish(s, Err(failure_of(e))),
        },
        Stage::DryRunShown => finish(s, Ok(())),
        Stage::Waiting => goto(s, Stage::Slept, RunActionView::Sleep(s.args.delay)),
        Stage::Slept => after_sleep(s),
        Stage::AwaitTempFile => match e {
            RunEventView::TempFile(_, _) => capture_stage(RunView { actual: d.joined, ..s }),
            _ => finish(s, Err(failure_of(e))),
        },
        Stage::Capturing => if e == RunEventView::Done(Ok(())) {
            after_capture(s)
        } else {
            finish(s, Err(failure_of(e)))
        },
        Stage::Saved => clipboard_stage(s),
        Stage::Copying => if e == RunEventView::Done(Ok(())) {
            if !s.args.quiet {
                goto(s, Stage::Copied, RunActionView::Print(copied_message()))
            } else {
                cleanup_stage(s)
            }
        } else {
            finish(s, Err(failure_of(e)))
        },
        Stage::Copied => cleanup_stage(s),
        Stage::Removing => open_stage(s),
        Stage::Opening => if e == RunEventView::Done(Ok(())) {
            finish(s, Ok(()))
        } else {
            finish(s, Err(failure_of(e)))
        },
        Stage::Finished => finish(s, Ok(())),
    }
}

/// What the platform's path functions are known to have given in a step, on
/// every platform (see `crate::paths`): the extension test, the `png`
/// extension and the parent of an explicit file; whether the file is
/// relative; the quoted directory of a failure; and the one join of the step.
pub open spec fn path_facts(s: RunView, e: RunEventView, d: PathFacts) -> bool {
    &&& s.stage == Stage::Start && !s.args.list_monitors ==> match s.args.file {
        Some(f) => {
            &&& has_extension_ok(f, d.has_extension)
            &&& !d.has_extension ==> with_extension_ok(f, "png"@, d.with_png)
            &&& parent_ok(if d.has_extension { f } else { d.with_png }, d.parent)
        },
        None => true,
    }
    &&& s.stage == Stage::AwaitFileDir && e == RunEventView::Done(Ok(())) ==> relative_ok(
        s.target,
        d.relative,
    )
    &&& (s.stage == Stage::AwaitFileDir || s.stage == Stage::AwaitOutputDir) && e
        != RunEventView::Done(Ok(())) ==> debug_ok(s.dir, d.quoted)
    &&& s.stage == Stage::AwaitCwd ==> match e {
        RunEventView::Located(Ok(cwd)) => join_ok(cwd, s.target, d.joined),
        _ => true,
    }
    &&& s.stage == Stage::AwaitFilename ==> match e {
        RunEventView::Located(Ok(name)) => join_ok(s.dir, name, d.joined),
        _ => true,
    }
    &&& s.stage == Stage::AwaitTempFile ==> match e {
        RunEventView::TempFile(dir, pid) => join_ok(dir, temp_capture_name(pid), d.joined),
        _ => true,
    }
}

impl RunState {
    /// The state of an invocation that has not started yet.
    pub fn new(args: Args) -> (s: RunState)
        ensures
            s@.stage == Stage::Start,
            s@.args == args@,
    {
        RunState {
            stage: Stage::Start,
            args,
            monitor: MonitorSelection::Primary,
            dir: String::new(),
            target: String::new(),
            output: String::new(),
            actual: String::new(),
        }
    }
}

/// A copy of an optional string.
fn copy_opt(o: &Option<String>) -> (r: Option<String>)
    ensures
        optional_text(r) == optional_text(*o),
{
    match o {
        Some(s) => Some(s.clone()),
        None => None,
    }
}

/// Move to a stage with an action.
fn goto_exec(s: RunState, stage: Stage, a: RunAction) -> (res: (RunState, RunAction))
    ensures
        res.0@ == goto(s@, stage, a@).0,
        res.1@ == a@,
{
    (RunState { stage, ..s }, a)
}

/// End the invocation.
fn finish_exec(s: RunState, r: Result<(), String>) -> (res: (RunState, RunAction))
    ensures
        res.0@ == finish(s@, match r { Ok(()) => Ok(()), Err(e) => Err(e@) }).0,
        res.1@ == finish(s@, match r { Ok(()) => Ok(()), Err(e) => Err(e@) }).1,
{
    goto_exec(s, Stage::Finished, RunAction::Finish(r))
}

/// The message carried by a failed event.
fn failure_text(e: &RunEvent) -> (m: String)
    ensures
        m@ == failure_of(e@),
{
    match e {
        RunEvent::Done(Err(m)) => m.clone(),
        RunEvent::Located(Err(m)) => m.clone(),
        _ => String::new(),
    }
}

/// The message when an output directory cannot be created, from the quoted
/// form of the directory.
fn dir_failure_text(quoted: &String) -> (m: String)
    ensures
        m@ == dir_failure(quoted@),
{
    let mut m = String::from_str("Failed to create output directory: ");
    m.append(quoted.as_str());
    m
}

/// The message before waiting.
fn waiting_text(delay: u64) -> (m: String)
    ensures
        m@ == waiting_message(delay),
{
    let mut m = String::from_str("Waiting ");
    push_decimal_u64(&mut m, delay);
    m.append(" seconds before capture...\n");
    m
}

/// The message after saving.
fn saved_text(output: &String) -> (m: String)
    ensures
        m@ == saved_message(output@),
{
    let mut m = String::from_str("Screenshot saved to: ");
    m.append(output.as_str());
    m.append("\n");
    m
}

/// The name of the temporary capture file for a process.
pub fn temp_capture_file_name(pid: u32) -> (m: String)
    ensures
        m@ == temp_capture_name(pid),
{
    let mut m = String::from_str("mdscreensnap_temp_");
    push_decimal_u64(&mut m, pid as u64);
    m.append(".png");
    m
}

/// Whether an event is a success without payload.
fn is_success(e: &RunEvent) -> (b: bool)
    ensures
        b == (e@ == RunEventView::Done(Ok(()))),
{
    match e {
        RunEvent::Done(Ok(())) => true,
        _ => false,
    }
}

fn open_stage_exec(s: RunState) -> (res: (RunState, RunAction))
    ensures
        res.0@ == open_stage(s@).0,
        res.1@ == open_stage(s@).1,
{
    if s.args.open && !s.args.no_save {
        let out = s.output.clone();
        goto_exec(s, Stage::Opening, RunAction::Open(out))
    } else {
        finish_exec(s, Ok(()))
    }
}

fn cleanup_stage_exec(s: RunState) -> (res: (RunState, RunAction))
    ensures
        res.0@ == cleanup_stage(s@).0,
        res.1@ == cleanup_stage(s@).1,
{
    if s.args.no_save {
        let p = s.actual.clone();
        goto_exec(s, Stage::Removing, RunAction::RemoveFile(p))
    } else {
        open_stage_exec(s)
    }
}

fn clipboard_stage_exec(s: RunState) -> (res: (RunState, RunAction))
    ensures
        res.0@ == clipboard_stage(s@).0,
        res.1@ == clipboard_stage(s@).1,
{
    if s.args.clipboard {
        let p = s.actual.clone();
        goto_exec(s, Stage::Copying, RunAction::CopyToClipboard(p))
    } else {
        cleanup_stage_exec(s)
    }
}

fn after_capture_exec(s: RunState) -> (res: (RunState, RunAction))
    ensures
        res.0@ == after_capture(s@).0,
        res.1@ == after_capture(s@).1,
{
    if !s.args.no_save && !s.args.quiet {
        let m = saved_text(&s.output);
        goto_exec(s, Stage::Saved, RunAction::Print(m))
    } else {
        clipboard_stage_exec(s)
    }
}

fn capture_stage_exec(s: RunState) -> (res: (RunState, RunAction))
    ensures
        res.0@ == capture_stage(s@).0,
        res.1@ == capture_stage(s@).1,
{
    let p = s.actual.clone();
    let m = s.monitor;
    goto_exec(s, Stage::Capturing, RunAction::Capture(p, m))
}

fn after_sleep_exec(s: RunState) -> (res: (RunState, RunAction))
    ensures
        res.0@ == after_sleep(s@).0,
        res.1@ == after_sleep(s@).1,
{
    if s.args.no_save {
        goto_exec(s, Stage::AwaitTempFile, RunAction::TempFile)
    } else {
        let actual = s.output.clone();
        capture_stage_exec(RunState { actual, ..s })
    }
}

fn delay_stage_exec(s: RunState) -> (res: (RunState, RunAction))
    ensures
        res.0@ == delay_stage(s@).0,
        res.1@ == delay_stage(s@).1,
{
    if s.args.delay > 0 {
        let delay = s.args.delay;
        if !s.args.quiet {
            goto_exec(s, Stage::Waiting, RunAction::Print(waiting_text(delay)))
        } else {
            goto_exec(s, Stage::Slept, RunAction::Sleep(delay))
        }
    } else {
        after_sleep_exec(s)
    }
}

fn proceed_exec(s: RunState, output: String) -> (res: (RunState, RunAction))
    ensures
        res.0@ == proceed(s@, output@).0,
        res.1@ == proceed(s@, output@).1,
{
    if s.args.dry_run {
        let mut line = output.clone();
        line.append("\n");
        goto_exec(RunState { output, ..s }, Stage::DryRunShown, RunAction::Print(line))
    } else {
        delay_stage_exec(RunState { output, ..s })
    }
}

/// One step of an invocation: from its state and what the last action
/// brought back, the next state and action. The path functions of the
/// platform are the only freedom: the step is `run_step_spec` for what they
/// gave, and what they gave meets `path_facts`.
pub fn run_step(s: RunState, e: RunEvent) -> (res: (RunState, RunAction))
    ensures
        exists|d: PathFacts|
            path_facts(s@, e@, d) && res.0@ == (#[trigger] run_step_spec(s@, e@, d)).0
                && res.1@ == run_step_spec(s@, e@, d).1,
{
    let ghost sv = s@;
    let ghost ev = e@;
    let ghost none = PathFacts {
        has_extension: false,
        with_png: Seq::empty(),
        parent: None,
        relative: false,
        joined: Seq::empty(),
        quoted: Seq::empty(),
    };
    match s.stage {
        Stage::Start => {
            if s.args.list_monitors {
                let r = goto_exec(s, Stage::AwaitListing, RunAction::ListMonitors);
                assert(path_facts(sv, ev, none) && r.0@ == run_step_spec(sv, ev, none).0);
                return r;
            }
            let monitor = parse_monitor_selection(s.args.monitor.as_str());
            match &s.args.file {
                Some(f) => {
                    let has = path_has_extension(f.as_str());
                    let target = if has {
                        f.clone()
                    } else {
                        proof {
                            reveal_strlit("png");
                            assert(!crate::paths::has_char("png"@, '/'));
                            assert(!crate::paths::has_char("png"@, '\\'));
                        }
                        path_with_extension(f.as_str(), "png")
                    };
                    let found = path_parent(target.as_str());
                    let ghost parent_found = optional_text(found);
                    let parent = match found {
                        Some(p) => p,
                        None => String::from_str("."),
                    };
                    let ghost d = PathFacts {
                        has_extension: has,
                        with_png: if has { Seq::empty() } else { target@ },
                        parent: parent_found,
                        relative: false,
                        joined: Seq::empty(),
                        quoted: Seq::empty(),
                    };
                    let a = RunAction::CreateDir(parent.clone());
                    let r = goto_exec(RunState { monitor, target, dir: parent, ..s }, Stage::AwaitFileDir, a);
                    assert(path_facts(sv, ev, d) && r.0@ == run_step_spec(sv, ev, d).0);
                    r
                },
                None => {
                    match &s.args.output {
                        Some(o) => {
                            let dir = o.clone();
                            let a = RunAction::CreateDir(o.clone());
                            let r = goto_exec(RunState { monitor, dir, ..s }, Stage::AwaitOutputDir, a);
                            assert(path_facts(sv, ev, none) && r.0@ == run_step_spec(sv, ev, none).0);
                            r
                        },
                        None => {
                            let r = goto_exec(RunState { monitor, ..s }, Stage::AwaitTempDir, RunAction::TempDir);
                            assert(path_facts(sv, ev, none) && r.0@ == run_step_spec(sv, ev, none).0);
                            r
                        },
                    }
                },
            }
        },
        Stage::AwaitListing => {
            let r = match e {
                RunEvent::Located(Ok(t)) => goto_exec(s, Stage::ListingShown, RunAction::Print(t)),
                _ => {
                    let m = failure_text(&e);
                    finish_exec(s, Err(m))
                },
            };
            assert(path_facts(sv, ev, none) && r.0@ == run_step_spec(sv, ev, none).0);
            r
        },
        Stage::ListingShown | Stage::DryRunShown | Stage::Finished => {
            let r = finish_exec(s, Ok(()));
            assert(path_facts(sv, ev, none) && r.0@ == run_step_spec(sv, ev, none).0);
            r
        },
        Stage::AwaitFileDir => {
            if is_success(&e) {
                let relative = path_is_relative(s.target.as_str());
                let ghost d = PathFacts { relative, ..none };
                if relative {
                    let r = goto_exec(s, Stage::AwaitCwd, RunAction::CurrentDir);
                    assert(path_facts(sv, ev, d) && r.0@ == run_step_spec(sv, ev, d).0);
                    r
                } else {
                    let t = s.target.clone();
                    let r = proceed_exec(s, t);
                    assert(path_facts(sv, ev, d) && r.0@ == run_step_spec(sv, ev, d).0);
                    r
                }
            } else {
                let quoted = path_debug_text(s.dir.as_str());
                let ghost d = PathFacts { quoted: quoted@, ..none };
                let m = dir_failure_text(&quoted);
                let r = finish_exec(s, Err(m));
                assert(path_facts(sv, ev, d) && r.0@ == run_step_spec(sv, ev, d).0);
                r
            }
        },
        Stage::AwaitCwd => {
            match e {
                RunEvent::Located(Ok(cwd)) => {
                    let joined = path_join(cwd.as_str(), s.target.as_str());
                    let ghost d = PathFacts { joined: joined@, ..none };
                    let r = proceed_exec(s, joined);
                    assert(path_facts(sv, ev, d) && r.0@ == run_step_spec(sv, ev, d).0);
                    r
                },
                _ => {
                    let m = failure_text(&e);
                    let r = finish_exec(s, Err(m));
                    assert(path_facts(sv, ev, none) && r.0@ == run_step_spec(sv, ev, none).0);
                    r
                },
            }
        },
        Stage::AwaitTempDir => {
            let r = match e {
                RunEvent::Located(Ok(dir)) => {
                    let a = RunAction::CreateDir(dir.clone());
                    goto_exec(RunState { dir, ..s }, Stage::AwaitOutputDir, a)
                },
                _ => {
                    let m = failure_text(&e);
                    finish_exec(s, Err(m))
                },
            };
            assert(path_facts(sv, ev, none) && r.0@ == run_step_spec(sv, ev, none).0);
            r
        },
        Stage::AwaitOutputDir => {
            if is_success(&e) {
                let name = copy_opt(&s.args.name);
                let r = goto_exec(s, Stage::AwaitFilename, RunAction::GenerateFilename(name));
                assert(path_facts(sv, ev, none) && r.0@ == run_step_spec(sv, ev, none).0);
                r
            } else {
                let quoted = path_debug_text(s.dir.as_str());
                let ghost d = PathFacts { quoted: quoted@, ..none };
                let m = dir_failure_text(&quoted);
                let r = finish_exec(s, Err(m));
                assert(path_facts(sv, ev, d) && r.0@ == run_step_spec(sv, ev, d).0);
                r
            }
        },
        Stage::AwaitFilename => {
            match e {
                RunEvent::Located(Ok(name)) => {
                    let joined = path_join(s.dir.as_str(), name.as_str());
                    let ghost d = PathFacts { joined: joined@, ..none };
                    let r = proceed_exec(s, joined);
                    assert(path_facts(sv, ev, d) && r.0@ == run_step_spec(sv, ev, d).0);
                    r
                },
                _ => {
                    let m = failure_text(&e);
                    let r = finish_exec(s, Err(m));
                    assert(path_facts(sv, ev, none) && r.0@ == run_step_spec(sv, ev, none).0);
                    r
                },
            }
        },
        Stage::Waiting => {
            let delay = s.args.delay;
            let r = goto_exec(s, Stage::Slept, RunAction::Sleep(delay));
            assert(path_facts(sv, ev, none) && r.0@ == run_step_spec(sv, ev, none).0);
            r
        },
        Stage::Slept => {
            let r = after_sleep_exec(s);
            assert(path_facts(sv, ev, none) && r.0@ == run_step_spec(sv, ev, none).0);
            r
        },
        Stage::AwaitTempFile => {
            match e {
                RunEvent::TempFile(dir, pid) => {
                    let name = temp_capture_file_name(pid);
                    let joined = path_join(dir.as_str(), name.as_str());
                    let ghost d = PathFacts { joined: joined@, ..none };
                    let r = capture_stage_exec(RunState { actual: joined, ..s });
                    assert(path_facts(sv, ev, d) && r.0@ == run_step_spec(sv, ev, d).0);
                    r
                },
                _ => {
                    let m = failure_text(&e);
                    let r = finish_exec(s, Err(m));
                    assert(path_facts(sv, ev, none) && r.0@ == run_step_spec(sv, ev, none).0);
                    r
                },
            }
        },
        Stage::Capturing => {
            let r = if is_success(&e) {
                after_capture_exec(s)
            } else {
                let m = failure_text(&e);
                finish_exec(s, Err(m))
            };
            assert(path_facts(sv, ev, none) && r.0@ == run_step_spec(sv, ev, none).0);
            r
        },
        Stage::Saved => {
            let r = clipboard_stage_exec(s);
            assert(path_facts(sv, ev, none) && r.0@ == run_step_spec(sv, ev, none).0);
            r
        },
        Stage::Copying => {
            let r = if is_success(&e) {
                if !s.args.quiet {
                    goto_exec(s, Stage::Copied, RunAction::Print(String::from_str("Screenshot copied to clipboard\n")))
                } else {
                    cleanup_stage_exec(s)
                }
            } else {
                let m = failure_text(&e);
                finish_exec(s, Err(m))
            };
            assert(path_facts(sv, ev, none) && r.0@ == run_step_spec(sv, ev, none).0);
            r
        },
        Stage::Copied => {
            let r = cleanup_stage_exec(s);
            assert(path_facts(sv, ev, none) && r.0@ == run_step_spec(sv, ev, none).0);
            r
        },
        Stage::Removing => {
            let r = open_stage_exec(s);
            assert(path_facts(sv, ev, none) && r.0@ == run_step_spec(sv, ev, none).0);
            r
        },
        Stage::Opening => {
            let r = if is_success(&e) {
                finish_exec(s, Ok(()))
            } else {
                let m = failure_text(&e);
                finish_exec(s, Err(m))
            };
            assert(path_facts(sv, ev, none) && r.0@ == run_step_spec(sv, ev, none).0);
            r
        },
    }
}

/// The temporary capture name is a single path component.
proof fn lemma_temp_name_is_plain(pid: u32)
    ensures
        plain_file_name(temp_capture_name(pid)),
{
    reveal_strlit("mdscreensnap_temp_");
    reveal_strlit(".png");
    let n = temp_capture_name(pid);
    let digits = decimal(pid as nat);
    crate::text::lemma_decimal_reads_back(pid as nat);
    assert forall|i: int| 0 <= i < n.len() implies #[trigger] n[i] != '/' && n[i] != '\\' && n[i] != ':' by {
        if 18 <= i < 18 + digits.len() {
            assert(n[i] == digits[i - 18]);
            assert(crate::text::is_digit(digits[i - 18]));
        }
    }
    assert(n.len() > 2);
    assert(n != seq!['.']);
    assert(n != seq!['.', '.']);
}

/// The stages a dry run can be in: it never gets past printing the path.
pub open spec fn dry_run_stage(stage: Stage) -> bool {
    stage == Stage::Start || stage == Stage::AwaitListing || stage == Stage::ListingShown
        || stage == Stage::AwaitFileDir || stage == Stage::AwaitCwd || stage == Stage::AwaitTempDir
        || stage == Stage::AwaitOutputDir || stage == Stage::AwaitFilename
        || stage == Stage::DryRunShown || stage == Stage::Finished
}

/// An action that touches the screen, the clipboard or the saved file, or
/// waits.
pub open spec fn capture_work(a: RunActionView) -> bool {
    a is Sleep || a is TempFile || a is Capture || a is CopyToClipboard || a is RemoveFile || a is Open
}

/// A dry run prints the output path without capturing: from any state a dry
/// run can be in, a step stays in such a state and does nothing that waits,
/// captures, copies, removes or opens.
pub proof fn law_dry_run_never_captures(s: RunView, e: RunEventView, d: PathFacts)
    requires
        s.args.dry_run,
        dry_run_stage(s.stage),
    ensures
        dry_run_stage(run_step_spec(s, e, d).0.stage),
        run_step_spec(s, e, d).0.args == s.args,
        !capture_work(run_step_spec(s, e, d).1),
{
}

/// The stages of a monitor listing.
pub open spec fn listing_stage(stage: Stage) -> bool {
    stage == Stage::Start || stage == Stage::AwaitListing || stage == Stage::ListingShown
        || stage == Stage::Finished
}

/// Listing the monitors does nothing else: with `list_monitors`, each step
/// only lists, prints the listing, or ends.
pub proof fn law_listing_does_nothing_else(s: RunView, e: RunEventView, d: PathFacts)
    requires
        s.args.list_monitors,
        listing_stage(s.stage),
    ensures
        listing_stage(run_step_spec(s, e, d).0.stage),
        run_step_spec(s, e, d).0.args == s.args,
        run_step_spec(s, e, d).1 is ListMonitors || run_step_spec(s, e, d).1 is Print
            || run_step_spec(s, e, d).1 is Finish,
{
}

/// Without saving, the tool never opens a file and never reaches the stage
/// that reports a saved file; after copying to the clipboard it removes the temporary capture.
pub proof fn law_no_save_leaves_nothing(s: RunView, e: RunEventView, d: PathFacts)
    requires
        s.args.no_save,
    ensures
        !(run_step_spec(s, e, d).1 is Open),
        run_step_spec(s, e, d).0.stage != Stage::Saved,
        run_step_spec(s, e, d).0.args == s.args,
        s.stage == Stage::Copied ==> run_step_spec(s, e, d).1 == RunActionView::RemoveFile(s.actual),
        s.stage == Stage::Copying && e == RunEventView::Done(Ok(())) && s.args.quiet
            ==> run_step_spec(s, e, d).1 == RunActionView::RemoveFile(s.actual),
{
}

/// Quiet mode prints nothing but the dry-run path and the monitor listing.
pub proof fn law_quiet_prints_only_what_was_asked(s: RunView, e: RunEventView, d: PathFacts)
    requires
        s.args.quiet,
    ensures
        run_step_spec(s, e, d).1 is Print ==> (run_step_spec(s, e, d).0.stage == Stage::DryRunShown
            || run_step_spec(s, e, d).0.stage == Stage::ListingShown),
{
}

/// A step ends the invocation exactly when it reaches the final stage.
pub proof fn law_finish_is_final(s: RunView, e: RunEventView, d: PathFacts)
    ensures
        (run_step_spec(s, e, d).1 is Finish) == (run_step_spec(s, e, d).0.stage == Stage::Finished),
{
}

/// The monitor that is captured is the one the arguments name: once the
/// first step has read it, it stays, and every capture uses it.
pub proof fn law_capture_uses_selected_monitor(s: RunView, e: RunEventView, d: PathFacts)
    requires
        s.stage != Stage::Start ==> s.monitor == selection_from_lowered(lowercase(s.args.monitor)),
    ensures
        run_step_spec(s, e, d).0.args == s.args,
        !s.args.list_monitors ==> run_step_spec(s, e, d).0.monitor == selection_from_lowered(
            lowercase(s.args.monitor),
        ),
        run_step_spec(s, e, d).1 matches RunActionView::Capture(_, m) ==> m == selection_from_lowered(
            lowercase(s.args.monitor),
        ),
{
}

/// The stages after the capture target is fixed.
pub open spec fn after_target_stage(stage: Stage) -> bool {
    stage == Stage::Capturing || stage == Stage::Saved || stage == Stage::Copying
        || stage == Stage::Copied || stage == Stage::Removing || stage == Stage::Opening
}

/// When the screenshot is saved, no temporary file is involved and it is
/// captured straight into the output path: the capture target and the reported, copied and opened file are
/// the same path.
pub proof fn law_saved_capture_goes_to_output(s: RunView, e: RunEventView, d: PathFacts)
    requires
        !s.args.no_save,
        s.stage != Stage::AwaitTempFile,
        after_target_stage(s.stage) ==> s.actual == s.output,
    ensures
        run_step_spec(s, e, d).0.stage != Stage::AwaitTempFile,
        after_target_stage(run_step_spec(s, e, d).0.stage) ==> run_step_spec(s, e, d).0.actual
            == run_step_spec(s, e, d).0.output,
        run_step_spec(s, e, d).1 matches RunActionView::Capture(p, _) ==> p == run_step_spec(s, e, d).0.output,
{
}

/// The stages before the wait.
pub open spec fn before_wait(stage: Stage) -> bool {
    stage == Stage::Start || stage == Stage::AwaitListing || stage == Stage::ListingShown
        || stage == Stage::AwaitFileDir || stage == Stage::AwaitCwd || stage == Stage::AwaitTempDir
        || stage == Stage::AwaitOutputDir || stage == Stage::AwaitFilename
        || stage == Stage::DryRunShown || stage == Stage::Waiting || stage == Stage::Finished
}

/// With a delay, nothing is captured before the tool has slept for that
/// many seconds: from the stages before the wait, a step either stays
/// before the wait or sleeps for the delay, and never captures.
pub proof fn law_delay_comes_before_capture(s: RunView, e: RunEventView, d: PathFacts)
    requires
        s.args.delay > 0,
        before_wait(s.stage),
    ensures
        before_wait(run_step_spec(s, e, d).0.stage) || run_step_spec(s, e, d).0.stage == Stage::Slept,
        run_step_spec(s, e, d).0.stage == Stage::Slept ==> run_step_spec(s, e, d).1 == RunActionView::Sleep(
            s.args.delay,
        ),
        !(run_step_spec(s, e, d).1 is Capture),
        !(run_step_spec(s, e, d).1 is TempFile),
{
}

/// The file handled after a capture is the captured one: the capture target
/// changes only when a capture is started, and the clipboard copy and the
/// clean-up use it; opening uses the output path.
pub proof fn law_later_steps_use_the_captured_file(s: RunView, e: RunEventView, d: PathFacts)
    ensures
        run_step_spec(s, e, d).0.actual != s.actual ==> run_step_spec(s, e, d).1 is Capture,
        run_step_spec(s, e, d).1 matches RunActionView::Capture(p, _) ==> p == run_step_spec(s, e, d).0.actual,
        run_step_spec(s, e, d).1 matches RunActionView::CopyToClipboard(p) ==> p == s.actual,
        run_step_spec(s, e, d).1 matches RunActionView::RemoveFile(p) ==> p == s.actual,
        run_step_spec(s, e, d).1 matches RunActionView::Open(p) ==> p == s.output,
{
}

/// An explicit file gets the `png` extension only when it has none, and its
/// parent directory is created: a path ending in a file name with no `.`
/// after its last `/` becomes the path with `.png` appended, a path whose
/// file name ends in a dotted name is kept, and a bare file name is created
/// in the empty (current) directory.
pub proof fn law_explicit_file_gets_png(s: RunView, e: RunEventView, d: PathFacts, f: Seq<char>)
    requires
        s.stage == Stage::Start,
        !s.args.list_monitors,
        s.args.file == Some(f),
        path_facts(s, e, d),
    ensures
        no_share(f) && final_name(f).len() > 0 && !has_char(last_segment(f), '.')
            ==> run_step_spec(s, e, d).0.target == f + ".png"@,
        no_share(f) && dotted_name(final_name(f)) ==> run_step_spec(s, e, d).0.target == f,
        run_step_spec(s, e, d).0.stage == Stage::AwaitFileDir,
        run_step_spec(s, e, d).1 == RunActionView::CreateDir(run_step_spec(s, e, d).0.dir),
        ({
            let t = run_step_spec(s, e, d).0.target;
            t.len() > 0 && !has_char(t, '/') && !has_char(t, '\\') && !has_char(t, ':')
        }) ==> run_step_spec(s, e, d).0.dir == Seq::<char>::empty(),
{
    reveal_strlit("png");
    reveal_strlit(".png");
    assert(".png"@ =~= seq!['.'] + "png"@);
}

/// A relative explicit file is resolved against the current directory: once
/// its directory exists, a file that starts with no separator and has no
/// drive marker asks for the current directory, and the output path is that
/// directory adjoined with the file (outside verbatim directories).
pub proof fn law_relative_file_resolved_against_cwd(
    s: RunView,
    e: RunEventView,
    d: PathFacts,
    cwd: Seq<char>,
)
    requires
        path_facts(s, e, d),
    ensures
        s.stage == Stage::AwaitFileDir && e == RunEventView::Done(Ok(())) && (s.target.len() == 0
            || (s.target[0] != '/' && s.target[0] != '\\')) && !has_char(s.target, ':')
            ==> run_step_spec(s, e, d) == goto(s, Stage::AwaitCwd, RunActionView::CurrentDir),
        s.stage == Stage::AwaitCwd && e == RunEventView::Located(Ok(cwd)) && relative_text(s.target)
            && !verbatim(cwd) ==> joined_form(run_step_spec(s, e, d).0.output, cwd, s.target),
        s.stage == Stage::AwaitCwd && e == RunEventView::Located(Ok(cwd)) ==> run_step_spec(
            s,
            e,
            d,
        ) == proceed(s, d.joined),
{
}

/// A generated file name goes into the output directory: the output path
/// ends with the name, and outside verbatim directories it is the directory
/// adjoined with the name.
pub proof fn law_generated_output_in_dir(
    s: RunView,
    e: RunEventView,
    d: PathFacts,
    suffix: Option<Seq<char>>,
    stamp: Seq<char>,
)
    requires
        s.stage == Stage::AwaitFilename,
        e == RunEventView::Located(Ok(filename_for(suffix, stamp))),
        is_timestamp(stamp),
        path_facts(s, e, d),
    ensures
        ends_with(run_step_spec(s, e, d).0.output, filename_for(suffix, stamp)),
        !verbatim(s.dir) ==> joined_form(
            run_step_spec(s, e, d).0.output,
            s.dir,
            filename_for(suffix, stamp),
        ),
{
    lemma_generated_name_is_plain(suffix, stamp);
    lemma_plain_is_relative(filename_for(suffix, stamp));
}

/// With `no_save`, the temporary capture is a file of the temporary
/// directory named after the process.
pub proof fn law_temp_capture_in_temp_dir(
    s: RunView,
    e: RunEventView,
    d: PathFacts,
    dir: Seq<char>,
    pid: u32,
)
    requires
        s.stage == Stage::AwaitTempFile,
        e == RunEventView::TempFile(dir, pid),
        path_facts(s, e, d),
    ensures
        run_step_spec(s, e, d).1 == RunActionView::Capture(run_step_spec(s, e, d).0.actual, s.monitor),
        ends_with(run_step_spec(s, e, d).0.actual, temp_capture_name(pid)),
        !verbatim(dir) ==> joined_form(run_step_spec(s, e, d).0.actual, dir, temp_capture_name(pid)),
{
    lemma_temp_name_is_plain(pid);
    lemma_plain_is_relative(temp_capture_name(pid));
}

/// A directory that cannot be created is reported by its quoted form: for
/// plain printable text, the message is the directory in double quotes.
pub proof fn law_failed_dir_reports_quoted_dir(s: RunView, e: RunEventView, d: PathFacts)
    requires
        s.stage == Stage::AwaitFileDir || s.stage == Stage::AwaitOutputDir,
        e != RunEventView::Done(Ok(())),
        debug_plain(s.dir),
        path_facts(s, e, d),
    ensures
        run_step_spec(s, e, d).1 == RunActionView::Finish(
            Err("Failed to create output directory: \""@ + s.dir + "\""@),
        ),
{
    reveal_strlit("Failed to create output directory: \"");
    reveal_strlit("Failed to create output directory: ");
    reveal_strlit("\"");
    assert("Failed to create output directory: \""@ + s.dir + "\""@ =~= dir_failure(
        seq!['"'] + s.dir + seq!['"'],
    ));
}

/// The state with the `quiet` flag set.
pub open spec fn quieted(s: RunView) -> RunView {
    RunView { args: ArgsView { quiet: true, ..s.args }, ..s }
}

/// Quiet mode changes only what is printed: a step of a quiet invocation
/// does what the same step of the invocation does, with the same reply and
/// path results, except that a progress message is left out, the quiet
/// invocation going on at once as the other does after the message (whatever
/// the reply to a message is).
pub proof fn law_quiet_changes_only_printing(
    s: RunView,
    e: RunEventView,
    d: PathFacts,
    e2: RunEventView,
    d2: PathFacts,
)
    ensures
        ({
            let (n, a) = run_step_spec(s, e, d);
            if a is Print && n.stage != Stage::DryRunShown && n.stage != Stage::ListingShown {
                run_step_spec(quieted(s), e, d) == run_step_spec(quieted(n), e2, d2)
            } else {
                run_step_spec(quieted(s), e, d) == (quieted(n), a)
            }
        }),
{
}

/// A step that prints a progress message: a print other than the dry-run
/// path and the monitor listing.
pub open spec fn progress_message(s: RunView, e: RunEventView, d: PathFacts) -> bool {
    &&& run_step_spec(s, e, d).1 is Print
    &&& run_step_spec(s, e, d).0.stage != Stage::DryRunShown
    &&& run_step_spec(s, e, d).0.stage != Stage::ListingShown
}

/// The actions of a run from `s`, given the reply to each action and the
/// path results of each step, as long as both last.
pub open spec fn run_actions(s: RunView, replies: Seq<RunEventView>, facts: Seq<PathFacts>) -> Seq<
    RunActionView,
>
    decreases replies.len(),
{
    if replies.len() == 0 || facts.len() == 0 {
        Seq::empty()
    } else {
        let next = run_step_spec(s, replies[0], facts[0]);
        seq![next.1] + run_actions(next.0, replies.drop_first(), facts.drop_first())
    }
}

/// The actions of the same run with its progress messages left out.
pub open spec fn unprinted_actions(
    s: RunView,
    replies: Seq<RunEventView>,
    facts: Seq<PathFacts>,
) -> Seq<RunActionView>
    decreases replies.len(),
{
    if replies.len() == 0 || facts.len() == 0 {
        Seq::empty()
    } else {
        let next = run_step_spec(s, replies[0], facts[0]);
        let rest = unprinted_actions(next.0, replies.drop_first(), facts.drop_first());
        if progress_message(s, replies[0], facts[0]) {
            rest
        } else {
            seq![next.1] + rest
        }
    }
}

/// The replies and path results that the quiet run of the same invocation
/// gets: the same, without the reply to each progress message and the path
/// results of the step that reply starts (a run that ends on a message ends
/// there).
pub open spec fn quiet_inputs(s: RunView, replies: Seq<RunEventView>, facts: Seq<PathFacts>) -> (
    Seq<RunEventView>,
    Seq<PathFacts>,
)
    decreases replies.len(),
{
    if replies.len() == 0 || facts.len() == 0 {
        (Seq::empty(), Seq::empty())
    } else {
        let next = run_step_spec(s, replies[0], facts[0]);
        if progress_message(s, replies[0], facts[0]) {
            if replies.len() >= 2 && facts.len() >= 2 {
                let after = run_step_spec(next.0, replies[1], facts[1]);
                let rest = quiet_inputs(after.0, replies.skip(2), facts.skip(2));
                (seq![replies[0]] + rest.0, seq![facts[0]] + rest.1)
            } else {
                (Seq::empty(), Seq::empty())
            }
        } else {
            let rest = quiet_inputs(next.0, replies.drop_first(), facts.drop_first());
            (seq![replies[0]] + rest.0, seq![facts[0]] + rest.1)
        }
    }
}

/// A step never changes the arguments.
proof fn lemma_step_keeps_args(s: RunView, e: RunEventView, d: PathFacts)
    ensures
        run_step_spec(s, e, d).0.args == s.args,
{
}

/// The step after a progress message prints nothing of the kind.
proof fn lemma_message_is_followed_by_work(
    s: RunView,
    e: RunEventView,
    d: PathFacts,
    e2: RunEventView,
    d2: PathFacts,
)
    requires
        progress_message(s, e, d),
    ensures
        !progress_message(run_step_spec(s, e, d).0, e2, d2),
{
}

/// Quiet mode changes only what is printed, over a whole invocation: the
/// quiet run, given the replies and path results of a loud run less those
/// of its progress messages, takes exactly the actions of the loud run
/// without its progress messages, and so makes the same calls and ends with
/// the same result.
pub proof fn law_quiet_run_leaves_out_only_messages(
    s: RunView,
    replies: Seq<RunEventView>,
    facts: Seq<PathFacts>,
)
    ensures
        run_actions(quieted(s), quiet_inputs(s, replies, facts).0, quiet_inputs(s, replies, facts).1)
            == unprinted_actions(s, replies, facts),
    decreases replies.len(),
{
    if replies.len() == 0 || facts.len() == 0 {
    } else {
        let next = run_step_spec(s, replies[0], facts[0]);
        let q = quiet_inputs(s, replies, facts);
        if progress_message(s, replies[0], facts[0]) {
            if replies.len() >= 2 && facts.len() >= 2 {
                let after = run_step_spec(next.0, replies[1], facts[1]);
                lemma_message_is_followed_by_work(s, replies[0], facts[0], replies[1], facts[1]);
                law_quiet_changes_only_printing(s, replies[0], facts[0], replies[1], facts[1]);
                law_quiet_changes_only_printing(next.0, replies[1], facts[1], replies[1], facts[1]);
                law_quiet_run_leaves_out_only_messages(after.0, replies.skip(2), facts.skip(2));
                let rest = quiet_inputs(after.0, replies.skip(2), facts.skip(2));
                assert(q.0.drop_first() =~= rest.0);
                assert(q.1.drop_first() =~= rest.1);
                assert(replies.drop_first().drop_first() =~= replies.skip(2));
                assert(facts.drop_first().drop_first() =~= facts.skip(2));
                assert(replies.drop_first()[0] == replies[1]);
                assert(facts.drop_first()[0] == facts[1]);
                assert(unprinted_actions(next.0, replies.drop_first(), facts.drop_first()) == seq![
                    after.1,
                ] + unprinted_actions(after.0, replies.skip(2), facts.skip(2)));
                assert(q.0[0] == replies[0] && q.1[0] == facts[0]);
                assert(run_step_spec(quieted(s), replies[0], facts[0]) == (quieted(after.0), after.1));
                assert(run_actions(quieted(s), q.0, q.1) =~= seq![after.1] + run_actions(
                    quieted(after.0),
                    rest.0,
                    rest.1,
                ));
                assert(unprinted_actions(s, replies, facts) == unprinted_actions(
                    next.0,
                    replies.drop_first(),
                    facts.drop_first(),
                ));
            } else {
                assert(replies.drop_first().len() == 0 || facts.drop_first().len() == 0);
                assert(q.0.len() == 0);
                assert(unprinted_actions(next.0, replies.drop_first(), facts.drop_first()).len()
                    == 0);
            }
        } else {
            law_quiet_changes_only_printing(s, replies[0], facts[0], replies[0], facts[0]);
            law_quiet_run_leaves_out_only_messages(next.0, replies.drop_first(), facts.drop_first());
            let rest = quiet_inputs(next.0, replies.drop_first(), facts.drop_first());
            assert(q.0.drop_first() =~= rest.0);
            assert(q.1.drop_first() =~= rest.1);
            assert(q.0[0] == replies[0] && q.1[0] == facts[0]);
            assert(run_actions(quieted(s), q.0, q.1) =~= seq![next.1] + run_actions(
                quieted(next.0),
                rest.0,
                rest.1,
            ));
            assert(unprinted_actions(s, replies, facts) == seq![next.1] + unprinted_actions(
                next.0,
                replies.drop_first(),
                facts.drop_first(),
            ));
        }
    }
}

/// A quiet invocation prints no progress message at any step of a run: its
/// actions are those of the run with the messages left out.
pub proof fn law_quiet_run_prints_no_message(
    s: RunView,
    replies: Seq<RunEventView>,
    facts: Seq<PathFacts>,
)
    requires
        s.args.quiet,
    ensures
        unprinted_actions(s, replies, facts) == run_actions(s, replies, facts),
    decreases replies.len(),
{
    if replies.len() == 0 || facts.len() == 0 {
    } else {
        let next = run_step_spec(s, replies[0], facts[0]);
        law_quiet_prints_only_what_was_asked(s, replies[0], facts[0]);
        lemma_step_keeps_args(s, replies[0], facts[0]);
        law_quiet_run_prints_no_message(next.0, replies.drop_first(), facts.drop_first());
    }
}

/// Without an explicit file or an output directory, the screenshot goes into
/// the screenshot directory the runtime gives: over the steps that ask for
/// that directory, create it, generate a file name and join them, the
/// directory created is the one replied, and the output path is that
/// directory adjoined with the generated name (outside verbatim
/// directories); a dry run prints that path.
pub proof fn law_default_output_is_in_temp_dir(
    s: RunView,
    e0: RunEventView,
    d0: PathFacts,
    dir: Seq<char>,
    d1: PathFacts,
    d2: PathFacts,
    name: Seq<char>,
    d3: PathFacts,
    n1: (RunView, RunActionView),
    n2: (RunView, RunActionView),
    n3: (RunView, RunActionView),
    n4: (RunView, RunActionView),
)
    requires
        s.stage == Stage::Start,
        !s.args.list_monitors,
        s.args.file is None,
        s.args.output is None,
        n1 == run_step_spec(s, e0, d0),
        n2 == run_step_spec(n1.0, RunEventView::Located(Ok(dir)), d1),
        n3 == run_step_spec(n2.0, RunEventView::Done(Ok(())), d2),
        n4 == run_step_spec(n3.0, RunEventView::Located(Ok(name)), d3),
        path_facts(n3.0, RunEventView::Located(Ok(name)), d3),
    ensures
        n1.1 == RunActionView::TempDir,
        n2.1 == RunActionView::CreateDir(dir),
        n3.1 == RunActionView::GenerateFilename(s.args.name),
        plain_file_name(name) ==> ends_with(n4.0.output, name),
        relative_text(name) && !verbatim(dir) ==> joined_form(n4.0.output, dir, name),
        s.args.dry_run ==> n4.1 == RunActionView::Print(n4.0.output + "\n"@),
{
}

/// With an output directory, the screenshot goes into it: the directory
/// created is the one given, and the output path is that directory
/// adjoined with the generated name (outside verbatim directories).
pub proof fn law_output_dir_holds_the_screenshot(
    s: RunView,
    e0: RunEventView,
    d0: PathFacts,
    dir: Seq<char>,
    d1: PathFacts,
    name: Seq<char>,
    d2: PathFacts,
    n1: (RunView, RunActionView),
    n2: (RunView, RunActionView),
    n3: (RunView, RunActionView),
)
    requires
        s.stage == Stage::Start,
        !s.args.list_monitors,
        s.args.file is None,
        s.args.output == Some(dir),
        n1 == run_step_spec(s, e0, d0),
        n2 == run_step_spec(n1.0, RunEventView::Done(Ok(())), d1),
        n3 == run_step_spec(n2.0, RunEventView::Located(Ok(name)), d2),
        path_facts(n2.0, RunEventView::Located(Ok(name)), d2),
    ensures
        n1.1 == RunActionView::CreateDir(dir),
        n2.1 == RunActionView::GenerateFilename(s.args.name),
        plain_file_name(name) ==> ends_with(n3.0.output, name),
        relative_text(name) && !verbatim(dir) ==> joined_form(n3.0.output, dir, name),
        s.args.dry_run ==> n3.1 == RunActionView::Print(n3.0.output + "\n"@),
{
}

} // verus!
