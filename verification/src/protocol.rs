//! The conversation between the tool's platform-dependent operations and the
//! `Runtime` that performs side effects: what the tool asks for, what comes
//! back, and how an operation ends.

use vstd::prelude::*;

verus! {

/// A program and its arguments.
pub struct CommandLine {
    pub program: String,
    pub args: Vec<String>,
}

/// The text of a command line.
pub struct CommandSpec {
    pub program: Seq<char>,
    pub args: Seq<Seq<char>>,
}

impl View for CommandLine {
    type V = CommandSpec;

    open spec fn view(&self) -> CommandSpec {
        CommandSpec { program: self.program@, args: self.args.deep_view() }
    }
}

/// What the tool asks the runtime for.
pub enum Request {
    /// Whether the tool runs on native Windows.
    IsWindows,
    /// The content of a file.
    ReadToString(String),
    /// Whether a path exists.
    PathExists(String),
    /// The system temporary directory.
    TempDir,
    /// Run a command and collect its standard output.
    Exec(CommandLine),
    /// Start a command without waiting for it.
    Spawn(CommandLine),
}

/// A request, as text.
pub enum RequestSpec {
    IsWindows,
    ReadToString(Seq<char>),
    PathExists(Seq<char>),
    TempDir,
    Exec(CommandSpec),
    Spawn(CommandSpec),
}

impl View for Request {
    type V = RequestSpec;

    open spec fn view(&self) -> RequestSpec {
        match self {
            Request::IsWindows => RequestSpec::IsWindows,
            Request::ReadToString(p) => RequestSpec::ReadToString(p@),
            Request::PathExists(p) => RequestSpec::PathExists(p@),
            Request::TempDir => RequestSpec::TempDir,
            Request::Exec(c) => RequestSpec::Exec(c@),
            Request::Spawn(c) => RequestSpec::Spawn(c@),
        }
    }
}

/// What the runtime answers; errors are carried as their messages.
pub enum Reply {
    /// The answer to `IsWindows` or `PathExists`.
    Flag(bool),
    /// The answer to `ReadToString`.
    Text(Result<String, String>),
    /// The answer to `TempDir`.
    Dir(String),
    /// The answer to `Exec`: the command's standard output.
    Output(Result<Vec<u8>, String>),
    /// The answer to `Spawn`.
    Spawned(Result<(), String>),
}

/// A reply, as values.
pub enum ReplySpec {
    Flag(bool),
    Text(Result<Seq<char>, Seq<char>>),
    Dir(Seq<char>),
    Output(Result<Seq<u8>, Seq<char>>),
    Spawned(Result<(), Seq<char>>),
}

impl View for Reply {
    type V = ReplySpec;

    open spec fn view(&self) -> ReplySpec {
        match self {
            Reply::Flag(b) => ReplySpec::Flag(*b),
            Reply::Text(Ok(t)) => ReplySpec::Text(Ok(t@)),
            Reply::Text(Err(e)) => ReplySpec::Text(Err(e@)),
            Reply::Dir(d) => ReplySpec::Dir(d@),
            Reply::Output(Ok(b)) => ReplySpec::Output(Ok(b@)),
            Reply::Output(Err(e)) => ReplySpec::Output(Err(e@)),
            Reply::Spawned(Ok(())) => ReplySpec::Spawned(Ok(())),
            Reply::Spawned(Err(e)) => ReplySpec::Spawned(Err(e@)),
        }
    }
}

/// The replies of a conversation, as values.
pub open spec fn replies_spec(v: Seq<Reply>) -> Seq<ReplySpec> {
    v.map_values(|r: Reply| r@)
}

/// A reply of the kind the request calls for.
pub open spec fn fits(q: RequestSpec, a: ReplySpec) -> bool {
    match (q, a) {
        (RequestSpec::IsWindows, ReplySpec::Flag(_)) => true,
        (RequestSpec::ReadToString(_), ReplySpec::Text(_)) => true,
        (RequestSpec::PathExists(_), ReplySpec::Flag(_)) => true,
        (RequestSpec::TempDir, ReplySpec::Dir(_)) => true,
        (RequestSpec::Exec(_), ReplySpec::Output(_)) => true,
        (RequestSpec::Spawn(_), ReplySpec::Spawned(_)) => true,
        _ => false,
    }
}

/// How an operation ends.
pub enum Outcome {
    /// A yes/no answer.
    Flag(bool),
    /// A piece of text (a path, or the output of a command).
    Text(String),
    /// A failure, with its message.
    Failed(String),
    /// Done, with nothing to report.
    Finished,
}

/// An outcome, as values.
pub enum OutcomeSpec {
    Flag(bool),
    Text(Seq<char>),
    Failed(Seq<char>),
    Finished,
}

impl View for Outcome {
    type V = OutcomeSpec;

    open spec fn view(&self) -> OutcomeSpec {
        match self {
            Outcome::Flag(b) => OutcomeSpec::Flag(*b),
            Outcome::Text(t) => OutcomeSpec::Text(t@),
            Outcome::Failed(e) => OutcomeSpec::Failed(e@),
            Outcome::Finished => OutcomeSpec::Finished,
        }
    }
}

/// The next move of an operation: a request to the runtime, or its end.
pub enum Step {
    Ask(Request),
    Done(Outcome),
}

/// A step, as values.
pub enum StepSpec {
    Ask(RequestSpec),
    Done(OutcomeSpec),
}

impl View for Step {
    type V = StepSpec;

    open spec fn view(&self) -> StepSpec {
        match self {
            Step::Ask(q) => StepSpec::Ask(q@),
            Step::Done(o) => StepSpec::Done(o@),
        }
    }
}

/// The platform the tool finds itself on.
#[derive(Debug, Clone, Copy, PartialEq, Eq, Structural)]
pub enum Platform {
    Windows,
    Wsl,
    Other,
}

/// The operations that depend on the platform.
pub enum Operation {
    /// Whether the tool runs under WSL.
    DetectWsl,
    /// The Windows temporary directory, as a WSL path.
    WindowsTempDir,
    /// The directory for screenshots when none is given.
    TempDir,
    /// A WSL path converted to a Windows path.
    WslToWindowsPath(String),
    /// The listing of the monitors.
    ListMonitors,
    /// Capture the screen into a file.
    Capture(String, crate::monitor::MonitorSelection),
    /// Copy an image file to the clipboard.
    CopyToClipboard(String),
    /// Open a file with the default application.
    Open(String),
}

/// An operation, as values.
pub enum OperationSpec {
    DetectWsl,
    WindowsTempDir,
    TempDir,
    WslToWindowsPath(Seq<char>),
    ListMonitors,
    Capture(Seq<char>, crate::monitor::MonitorSelection),
    CopyToClipboard(Seq<char>),
    Open(Seq<char>),
}

impl View for Operation {
    type V = OperationSpec;

    open spec fn view(&self) -> OperationSpec {
        match self {
            Operation::DetectWsl => OperationSpec::DetectWsl,
            Operation::WindowsTempDir => OperationSpec::WindowsTempDir,
            Operation::TempDir => OperationSpec::TempDir,
            Operation::WslToWindowsPath(p) => OperationSpec::WslToWindowsPath(p@),
            Operation::ListMonitors => OperationSpec::ListMonitors,
            Operation::Capture(p, m) => OperationSpec::Capture(p@, *m),
            Operation::CopyToClipboard(p) => OperationSpec::CopyToClipboard(p@),
            Operation::Open(p) => OperationSpec::Open(p@),
        }
    }
}

} // verus!
