//! The `Runtime` through which the tool reaches the system, and the
//! platform-dependent operations carried out through it.

use vstd::prelude::*;
use crate::monitor::MonitorSelection;
use crate::plan::{next_step, plan};
use crate::protocol::{
    Operation, OperationSpec, Outcome, OutcomeSpec, Reply, ReplySpec, Request, Step, StepSpec,
    fits, replies_spec,
};

verus! {

/// Abstraction for system side effects. Paths are passed as text and
/// failures as their messages.
pub trait Runtime {
    /// Sleep for a number of seconds.
    fn sleep(&self, seconds: u64);

    /// Get the system temporary directory.
    fn temp_dir(&self) -> String;

    /// Create a directory and all its parents.
    fn create_dir_all(&self, path: &str) -> Result<(), String>;

    /// Remove a file.
    fn remove_file(&self, path: &str) -> Result<(), String>;

    /// Read a file to string.
    fn read_to_string(&self, path: &str) -> Result<String, String>;

    /// Check if a path exists.
    fn path_exists(&self, path: &str) -> bool;

    /// Execute a command and return its standard output.
    fn exec_command(&self, command: &str, args: &[&str]) -> Result<Vec<u8>, String>;

    /// Spawn a command without waiting for it.
    fn spawn_command(&self, command: &str, args: &[&str]) -> Result<(), String>;

    /// Whether the tool runs on native Windows.
    fn is_windows(&self) -> bool;
}

/// The arguments of a command line as string slices.
fn arg_slices<'a>(args: &'a Vec<String>) -> (v: Vec<&'a str>)
    ensures
        v.len() == args.len(),
        forall|i: int| 0 <= i < v.len() ==> #[trigger] v@[i]@ == args@[i]@,
{
    let mut v: Vec<&'a str> = Vec::new();
    let mut i: usize = 0;
    while i < args.len()
        invariant
            i <= args.len(),
            v.len() == i,
            forall|k: int| 0 <= k < i ==> #[trigger] v@[k]@ == args@[k]@,
        decreases args.len() - i,
    {
        v.push(args[i].as_str());
        i = i + 1;
    }
    v
}

/// Hand one request to the runtime and collect its reply.
fn perform<R: Runtime>(rt: &R, req: &Request) -> (a: Reply)
    ensures
        fits(req@, a@),
{
    match req {
        Request::IsWindows => Reply::Flag(rt.is_windows()),
        Request::ReadToString(p) => Reply::Text(rt.read_to_string(p.as_str())),
        Request::PathExists(p) => Reply::Flag(rt.path_exists(p.as_str())),
        Request::TempDir => Reply::Dir(rt.temp_dir()),
        Request::Exec(c) => {
            let args = arg_slices(&c.args);
            Reply::Output(rt.exec_command(c.program.as_str(), args.as_slice()))
        },
        Request::Spawn(c) => {
            let args = arg_slices(&c.args);
            Reply::Spawned(rt.spawn_command(c.program.as_str(), args.as_slice()))
        },
    }
}

/// Every reply answers, with a reply of the right kind, the request the
/// operation made at that point.
pub open spec fn answered(op: OperationSpec, r: Seq<ReplySpec>) -> bool {
    forall|i: int|
        0 <= i < r.len() ==> match #[trigger] plan(op, r.take(i)) {
            StepSpec::Ask(q) => fits(q, r[i]),
            StepSpec::Done(_) => false,
        }
}

/// The operation can end with this outcome: some conversation in which the
/// runtime answered each request ends there.
pub open spec fn may_end(op: OperationSpec, o: OutcomeSpec) -> bool {
    exists|r: Seq<ReplySpec>| answered(op, r) && plan(op, r) == StepSpec::Done(o)
}

/// No operation asks more than five questions.
pub proof fn lemma_plan_asks_at_most_five(op: OperationSpec, r: Seq<ReplySpec>)
    ensures
        plan(op, r) is Ask ==> r.len() <= 5,
{
}

/// Carry out an operation: ask the runtime what the plan asks, until the
/// plan ends.
pub fn carry_out<R: Runtime>(rt: &R, op: &Operation) -> (o: Outcome)
    ensures
        may_end(op@, o@),
{
    let mut replies: Vec<Reply> = Vec::new();
    loop
        invariant
            replies.len() <= 6,
            answered(op@, replies_spec(replies@)),
        decreases 6 - replies.len(),
    {
        let ghost before = replies_spec(replies@);
        match next_step(op, &replies) {
            Step::Done(o) => {
                return o;
            },
            Step::Ask(q) => {
                proof {
                    lemma_plan_asks_at_most_five(op@, before);
                }
                let a = perform(rt, &q);
                replies.push(a);
                proof {
                    let after = replies_spec(replies@);
                    assert(after =~= before.push(a@));
                    assert forall|i: int| 0 <= i < after.len() implies match #[trigger] plan(op@, after.take(i)) {
                        StepSpec::Ask(q) => fits(q, after[i]),
                        StepSpec::Done(_) => false,
                    } by {
                        if i < before.len() {
                            assert(after.take(i) =~= before.take(i));
                            assert(plan(op@, before.take(i)) == plan(op@, after.take(i)));
                        } else {
                            assert(after.take(i) =~= before);
                        }
                    }
                }
            },
        }
    }
}

/// The kinds of outcome each operation can end with.
pub open spec fn outcome_kind_ok(op: OperationSpec, o: OutcomeSpec) -> bool {
    match op {
        OperationSpec::DetectWsl => o is Flag,
        OperationSpec::TempDir => o is Text,
        OperationSpec::WindowsTempDir | OperationSpec::WslToWindowsPath(_)
        | OperationSpec::ListMonitors => o is Text || o is Failed,
        _ => o is Finished || o is Failed,
    }
}

/// An operation ends only with an outcome of its kind.
pub proof fn lemma_outcome_kind(op: OperationSpec, r: Seq<ReplySpec>)
    ensures
        plan(op, r) matches StepSpec::Done(o) ==> outcome_kind_ok(op, o),
{
}

/// An operation that can end with `o` ends only with outcomes of its kind.
proof fn lemma_may_end_kind(op: OperationSpec, o: OutcomeSpec)
    requires
        may_end(op, o),
    ensures
        outcome_kind_ok(op, o),
{
    let r = choose|r: Seq<ReplySpec>| answered(op, r) && plan(op, r) == StepSpec::Done(o);
    lemma_outcome_kind(op, r);
}

/// Text, or a failure with its message.
fn text_result(op: &Operation, o: Outcome) -> (res: Result<String, String>)
    requires
        may_end(op@, o@),
        op@ is WindowsTempDir || op@ is WslToWindowsPath || op@ is ListMonitors,
    ensures
        match res {
            Ok(s) => may_end(op@, OutcomeSpec::Text(s@)),
            Err(e) => may_end(op@, OutcomeSpec::Failed(e@)),
        },
{
    match o {
        Outcome::Text(s) => {
            Ok(s)
        },
        Outcome::Failed(e) => Err(e),
        Outcome::Flag(_) => {
            proof { lemma_may_end_kind(op@, o@); }
            Err(String::new())
        },
        Outcome::Finished => {
            proof { lemma_may_end_kind(op@, o@); }
            Err(String::new())
        },
    }
}

/// Completion, or a failure with its message.
fn unit_result(op: &Operation, o: Outcome) -> (res: Result<(), String>)
    requires
        may_end(op@, o@),
        op@ is Capture || op@ is CopyToClipboard || op@ is Open,
    ensures
        match res {
            Ok(()) => may_end(op@, OutcomeSpec::Finished),
            Err(e) => may_end(op@, OutcomeSpec::Failed(e@)),
        },
{
    match o {
        Outcome::Finished => Ok(()),
        Outcome::Failed(e) => Err(e),
        Outcome::Flag(_) => {
            proof { lemma_may_end_kind(op@, o@); }
            Ok(())
        },
        Outcome::Text(_) => {
            proof { lemma_may_end_kind(op@, o@); }
            Ok(())
        },
    }
}

/// Check if running under WSL.
pub fn is_wsl<R: Runtime>(rt: &R) -> (b: bool)
    ensures
        may_end(OperationSpec::DetectWsl, OutcomeSpec::Flag(b)),
{
    let op = Operation::DetectWsl;
    let o = carry_out(rt, &op);
    match o {
        Outcome::Flag(b) => b,
        _ => {
            proof { lemma_may_end_kind(op@, o@); }
            false
        },
    }
}

/// Get the Windows temp directory from WSL, as a WSL path.
pub fn get_windows_temp_from_wsl<R: Runtime>(rt: &R) -> (res: Result<String, String>)
    ensures
        match res {
            Ok(s) => may_end(OperationSpec::WindowsTempDir, OutcomeSpec::Text(s@)),
            Err(e) => may_end(OperationSpec::WindowsTempDir, OutcomeSpec::Failed(e@)),
        },
{
    let op = Operation::WindowsTempDir;
    let o = carry_out(rt, &op);
    text_result(&op, o)
}

/// Get the directory for screenshots when none is given: on WSL the Windows
/// temp directory (falling back to the system one), elsewhere the system
/// temp directory.
pub fn get_temp_dir<R: Runtime>(rt: &R) -> (dir: String)
    ensures
        may_end(OperationSpec::TempDir, OutcomeSpec::Text(dir@)),
{
    let op = Operation::TempDir;
    let o = carry_out(rt, &op);
    match o {
        Outcome::Text(s) => s,
        _ => {
            proof { lemma_may_end_kind(op@, o@); }
            String::new()
        },
    }
}

/// Convert a WSL path to a Windows path.
pub fn wsl_to_windows_path<R: Runtime>(rt: &R, path: &str) -> (res: Result<String, String>)
    ensures
        match res {
            Ok(s) => may_end(OperationSpec::WslToWindowsPath(path@), OutcomeSpec::Text(s@)),
            Err(e) => may_end(OperationSpec::WslToWindowsPath(path@), OutcomeSpec::Failed(e@)),
        },
{
    let op = Operation::WslToWindowsPath(String::from_str(path));
    let o = carry_out(rt, &op);
    text_result(&op, o)
}

/// List available monitors: the listing printed by PowerShell, for the
/// caller to show.
pub fn list_monitors<R: Runtime>(rt: &R) -> (res: Result<String, String>)
    ensures
        match res {
            Ok(s) => may_end(OperationSpec::ListMonitors, OutcomeSpec::Text(s@)),
            Err(e) => may_end(OperationSpec::ListMonitors, OutcomeSpec::Failed(e@)),
        },
{
    let op = Operation::ListMonitors;
    let o = carry_out(rt, &op);
    text_result(&op, o)
}

/// Capture a screenshot with monitor selection.
pub fn capture_screenshot_with_monitor<R: Runtime>(
    rt: &R,
    output_path: &str,
    monitor: &MonitorSelection,
) -> (res: Result<(), String>)
    ensures
        match res {
            Ok(()) => may_end(OperationSpec::Capture(output_path@, *monitor), OutcomeSpec::Finished),
            Err(e) => may_end(OperationSpec::Capture(output_path@, *monitor), OutcomeSpec::Failed(e@)),
        },
{
    let op = Operation::Capture(String::from_str(output_path), *monitor);
    let o = carry_out(rt, &op);
    unit_result(&op, o)
}

/// Copy a screenshot to the clipboard.
pub fn copy_to_clipboard<R: Runtime>(rt: &R, path: &str) -> (res: Result<(), String>)
    ensures
        match res {
            Ok(()) => may_end(OperationSpec::CopyToClipboard(path@), OutcomeSpec::Finished),
            Err(e) => may_end(OperationSpec::CopyToClipboard(path@), OutcomeSpec::Failed(e@)),
        },
{
    let op = Operation::CopyToClipboard(String::from_str(path));
    let o = carry_out(rt, &op);
    unit_result(&op, o)
}

/// Open a file with the default application.
pub fn open_file<R: Runtime>(rt: &R, path: &str) -> (res: Result<(), String>)
    ensures
        match res {
            Ok(()) => may_end(OperationSpec::Open(path@), OutcomeSpec::Finished),
            Err(e) => may_end(OperationSpec::Open(path@), OutcomeSpec::Failed(e@)),
        },
{
    let op = Operation::Open(String::from_str(path));
    let o = carry_out(rt, &op);
    unit_result(&op, o)
}

} // verus!
