use vstd::prelude::*;

verus! {

/// A location in the caller's source text, carried through to diagnostics.
#[derive(Clone, Copy, Debug, PartialEq, Eq, Structural)]
pub struct SourceSpan {
    pub start: usize,
    pub end: usize,
}

/// What a launch hands back once the process has been spawned.
#[derive(Clone, Copy, Debug, PartialEq, Eq, Structural)]
pub enum OutputMode {
    /// Spawn and return at once, with no value.
    Detached,
    /// Spawn and return at once, with the process id.
    ReturnPid,
    /// Spawn, capture both output streams, wait for the exit, and return
    /// the standard output; or the process id, where `return_pid` is set.
    CaptureOutput { return_pid: bool },
}

/// One launch: the program, its arguments in order, and how to run it.
#[derive(Clone, Debug)]
pub struct LaunchRequest {
    pub command: String,
    pub command_span: SourceSpan,
    pub arguments: Option<Vec<String>>,
    pub debug: bool,
    pub mode: OutputMode,
}

/// The mathematical value of a [`LaunchRequest`].
pub struct RequestView {
    pub command: Seq<char>,
    pub command_span: SourceSpan,
    pub arguments: Option<Seq<Seq<char>>>,
    pub debug: bool,
    pub mode: OutputMode,
}

impl View for LaunchRequest {
    type V = RequestView;

    open spec fn view(&self) -> RequestView {
        RequestView {
            command: self.command@,
            command_span: self.command_span,
            arguments: self.arguments.deep_view(),
            debug: self.debug,
            mode: self.mode,
        }
    }
}

/// The mode that the command's switches select.
pub open spec fn mode_for_flags(pid: bool) -> OutputMode {
    if pid {
        OutputMode::ReturnPid
    } else {
        OutputMode::Detached
    }
}

/// The `bg` command: it starts a process in the background.
pub struct Implementation;

impl Implementation {
    pub fn new() -> (r: Implementation) {
        Implementation
    }

    /// The name under which the command is invoked.
    pub fn name(&self) -> (r: &'static str)
        ensures
            r@ == "bg"@,
    {
        "bg"
    }

    /// A one-line description of the command.
    pub fn usage(&self) -> (r: &'static str)
        ensures
            r@ == "Start a process in the background."@,
    {
        "Start a process in the background."
    }

    /// The request for one invocation: the command, its optional argument
    /// list, and the `debug` and `pid` switches.
    pub fn request(
        &self,
        command: String,
        command_span: SourceSpan,
        arguments: Option<Vec<String>>,
        debug: bool,
        pid: bool,
    ) -> (r: LaunchRequest)
        ensures
            r.command == command,
            r.command_span == command_span,
            r.arguments == arguments,
            r.debug == debug,
            r.mode == mode_for_flags(pid),
    {
        let mode = if pid {
            OutputMode::ReturnPid
        } else {
            OutputMode::Detached
        };
        LaunchRequest { command, command_span, arguments, debug, mode }
    }
}

} // verus!
