use vstd::prelude::*;
use crate::message::{
    capture_failed_error, capture_failure, decode_lossy, exit_failed_error, exit_failure,
    launch_name, launch_name_text, lossy_text, no_command, no_command_error, read_failed_error,
    read_failure, spawn_failed_error, spawn_failure, start_line, start_line_text,
    wait_failed_error, wait_failure, Stream,
};
use crate::outcome::{LaunchError, LaunchErrorView, LaunchResult, LaunchResultView, outcome_view};
use crate::request::{LaunchRequest, OutputMode, RequestView, SourceSpan};

verus! {

/// An accepted request, ready to be spawned: what to start and how, and what
/// the later steps of the launch need to know.
#[derive(Clone, Debug)]
pub struct Launch {
    /// The executable to start, as given.
    pub program: String,
    /// Its arguments, each one token, in order.
    pub arguments: Vec<String>,
    /// Whether the process gets a process group of its own.
    pub own_process_group: bool,
    /// Whether standard output and standard error are piped to the launcher.
    pub capture_output: bool,
    /// The line to write to the diagnostic stream before the spawn.
    pub diagnostic: Option<String>,
    pub mode: OutputMode,
    /// How messages name this launch.
    pub name: String,
    pub command_span: SourceSpan,
}

pub struct LaunchView {
    pub program: Seq<char>,
    pub arguments: Seq<Seq<char>>,
    pub own_process_group: bool,
    pub capture_output: bool,
    pub diagnostic: Option<Seq<char>>,
    pub mode: OutputMode,
    pub name: Seq<char>,
    pub command_span: SourceSpan,
}

impl View for Launch {
    type V = LaunchView;

    open spec fn view(&self) -> LaunchView {
        LaunchView {
            program: self.program@,
            arguments: self.arguments.deep_view(),
            own_process_group: self.own_process_group,
            capture_output: self.capture_output,
            diagnostic: self.diagnostic.deep_view(),
            mode: self.mode,
            name: self.name@,
            command_span: self.command_span,
        }
    }
}

/// What the operating system made of the spawn.
#[derive(Clone, Debug)]
pub enum SpawnEvent {
    /// The process could not be created; the operating system's error text.
    Failed { os_error: String },
    /// The process runs with this id; whether each output pipe was handed back.
    Started { pid: u32, stdout_piped: bool, stderr_piped: bool },
}

pub enum SpawnEventView {
    Failed { os_error: Seq<char> },
    Started { pid: u32, stdout_piped: bool, stderr_piped: bool },
}

impl View for SpawnEvent {
    type V = SpawnEventView;

    open spec fn view(&self) -> SpawnEventView {
        match self {
            SpawnEvent::Failed { os_error } => SpawnEventView::Failed { os_error: os_error@ },
            SpawnEvent::Started { pid, stdout_piped, stderr_piped } => SpawnEventView::Started {
                pid: *pid,
                stdout_piped: *stdout_piped,
                stderr_piped: *stderr_piped,
            },
        }
    }
}

/// What follows the spawn.
#[derive(Debug)]
pub enum AfterSpawn {
    /// The launch is over, with this outcome.
    Finished(Result<LaunchResult, LaunchError>),
    /// Both streams of process `pid` are to be read to their end, and its
    /// exit awaited.
    AwaitCapture { pid: u32 },
}

pub enum AfterSpawnView {
    Finished(Result<LaunchResultView, LaunchErrorView>),
    AwaitCapture { pid: u32 },
}

impl View for AfterSpawn {
    type V = AfterSpawnView;

    open spec fn view(&self) -> AfterSpawnView {
        match self {
            AfterSpawn::Finished(r) => AfterSpawnView::Finished(outcome_view(*r)),
            AfterSpawn::AwaitCapture { pid } => AfterSpawnView::AwaitCapture { pid: *pid },
        }
    }
}

/// How a captured process ended.
#[derive(Clone, Debug)]
pub struct ExitReport {
    pub success: bool,
    /// The exit status as text.
    pub status: String,
}

/// What capturing a process gave: each stream's bytes or the error text of
/// reading it, and its exit or the error text of waiting for it.
#[derive(Debug)]
pub struct CaptureReport {
    pub stdout: Result<Vec<u8>, String>,
    pub stderr: Result<Vec<u8>, String>,
    pub exit: Result<ExitReport, String>,
}

pub struct CaptureView {
    pub stdout: Result<Seq<u8>, Seq<char>>,
    pub stderr: Result<Seq<u8>, Seq<char>>,
    pub exit: Result<(bool, Seq<char>), Seq<char>>,
}

pub open spec fn bytes_or_error(r: Result<Vec<u8>, String>) -> Result<Seq<u8>, Seq<char>> {
    match r {
        Ok(b) => Ok(b@),
        Err(e) => Err(e@),
    }
}

impl View for CaptureReport {
    type V = CaptureView;

    open spec fn view(&self) -> CaptureView {
        CaptureView {
            stdout: bytes_or_error(self.stdout),
            stderr: bytes_or_error(self.stderr),
            exit: match self.exit {
                Ok(x) => Ok((x.success, x.status@)),
                Err(e) => Err(e@),
            },
        }
    }
}

/// Whether a launch in `mode` answers with the process id.
pub open spec fn wants_pid(mode: OutputMode) -> bool {
    match mode {
        OutputMode::Detached => false,
        OutputMode::ReturnPid => true,
        OutputMode::CaptureOutput { return_pid } => return_pid,
    }
}

/// The launch that a request asks for, or the reason it is refused.
pub open spec fn planned(req: RequestView) -> Result<LaunchView, LaunchErrorView> {
    if req.command.len() == 0 {
        Err(no_command(req.command_span))
    } else {
        let name = launch_name_text(req.command, req.arguments);
        Ok(
            LaunchView {
                program: req.command,
                arguments: match req.arguments {
                    Some(a) => a,
                    None => Seq::empty(),
                },
                own_process_group: true,
                capture_output: req.mode is CaptureOutput,
                diagnostic: if req.debug {
                    Some(start_line_text(name))
                } else {
                    None
                },
                mode: req.mode,
                name,
                command_span: req.command_span,
            },
        )
    }
}

/// What follows a spawn with outcome `event`.
pub open spec fn after_spawn(l: LaunchView, event: SpawnEventView) -> AfterSpawnView {
    match event {
        SpawnEventView::Failed { os_error } => AfterSpawnView::Finished(
            Err(spawn_failure(l.name, os_error, l.command_span)),
        ),
        SpawnEventView::Started { pid, stdout_piped, stderr_piped } => match l.mode {
            OutputMode::Detached => AfterSpawnView::Finished(Ok(LaunchResultView::Empty)),
            OutputMode::ReturnPid => AfterSpawnView::Finished(Ok(LaunchResultView::Pid(pid))),
            OutputMode::CaptureOutput { .. } => {
                if !stdout_piped {
                    AfterSpawnView::Finished(
                        Err(capture_failure(Stream::Stdout, l.name, l.command_span)),
                    )
                } else if !stderr_piped {
                    AfterSpawnView::Finished(
                        Err(capture_failure(Stream::Stderr, l.name, l.command_span)),
                    )
                } else {
                    AfterSpawnView::AwaitCapture { pid }
                }
            },
        },
    }
}

/// The outcome of a successful exit of process `pid` that wrote `stdout`.
pub open spec fn success_value(mode: OutputMode, pid: u32, stdout: Seq<u8>) -> LaunchResultView {
    if wants_pid(mode) {
        LaunchResultView::Pid(pid)
    } else if stdout.len() == 0 {
        LaunchResultView::Empty
    } else {
        LaunchResultView::Text(lossy_text(stdout))
    }
}

/// The outcome of a captured launch of process `pid`.
pub open spec fn after_capture(l: LaunchView, pid: u32, c: CaptureView) -> Result<
    LaunchResultView,
    LaunchErrorView,
> {
    match c.stdout {
        Err(e) => Err(read_failure(Stream::Stdout, l.name, e, l.command_span)),
        Ok(out) => match c.stderr {
            Err(e) => Err(read_failure(Stream::Stderr, l.name, e, l.command_span)),
            Ok(err) => match c.exit {
                Err(e) => Err(wait_failure(l.name, e, l.command_span)),
                Ok((success, status)) => {
                    if success {
                        Ok(success_value(l.mode, pid, out))
                    } else {
                        Err(exit_failure(l.name, status, lossy_text(err), l.command_span))
                    }
                },
            },
        },
    }
}

fn copy_strings(v: &Vec<String>) -> (r: Vec<String>)
    ensures
        r.deep_view() == v.deep_view(),
{
    let mut r: Vec<String> = Vec::new();
    let mut i: usize = 0;
    while i < v.len()
        invariant
            i <= v.len(),
            r@.len() == i,
            forall|j: int| 0 <= j < i ==> #[trigger] r@[j]@ == v@[j]@,
        decreases v.len() - i,
    {
        r.push(v[i].clone());
        i = i + 1;
    }
    assert(r.deep_view() =~= v.deep_view());
    r
}

/// Accepts or refuses a request. An empty command is refused before anything
/// is started; otherwise the launch starts the command as given, with the
/// arguments as separate tokens in their order, in a process group of its
/// own, with its output piped only in capture mode.
pub fn plan_launch(request: &LaunchRequest) -> (r: Result<Launch, LaunchError>)
    ensures
        r is Err <==> request.command@.len() == 0,
        match r {
            Ok(l) => planned(request@) == Ok::<LaunchView, LaunchErrorView>(l@),
            Err(e) => planned(request@) == Err::<LaunchView, LaunchErrorView>(e@),
        },
{
    if request.command.as_str().is_empty() {
        return Err(no_command_error(request.command_span));
    }
    let name = launch_name(request.command.as_str(), &request.arguments);
    let arguments = match &request.arguments {
        Some(a) => copy_strings(a),
        None => Vec::new(),
    };
    let diagnostic = if request.debug {
        Some(start_line(name.as_str()))
    } else {
        None
    };
    let capture_output = match request.mode {
        OutputMode::CaptureOutput { .. } => true,
        _ => false,
    };
    let l = Launch {
        program: request.command.clone(),
        arguments,
        own_process_group: true,
        capture_output,
        diagnostic,
        mode: request.mode,
        name,
        command_span: request.command_span,
    };
    assert(l@.arguments =~= planned(request@)->Ok_0.arguments);
    Ok(l)
}

/// Decides what follows the spawn: in detached and pid mode the launch is
/// over at once; in capture mode it goes on to capture, unless a pipe is
/// missing.
pub fn on_spawned(launch: &Launch, event: SpawnEvent) -> (r: AfterSpawn)
    ensures
        r@ == after_spawn(launch@, event@),
{
    match event {
        SpawnEvent::Failed { os_error } => AfterSpawn::Finished(
            Err(spawn_failed_error(launch.name.as_str(), os_error.as_str(), launch.command_span)),
        ),
        SpawnEvent::Started { pid, stdout_piped, stderr_piped } => match launch.mode {
            OutputMode::Detached => AfterSpawn::Finished(Ok(LaunchResult::Empty)),
            OutputMode::ReturnPid => AfterSpawn::Finished(Ok(LaunchResult::Pid(pid))),
            OutputMode::CaptureOutput { .. } => {
                if !stdout_piped {
                    AfterSpawn::Finished(
                        Err(
                            capture_failed_error(
                                Stream::Stdout,
                                launch.name.as_str(),
                                launch.command_span,
                            ),
                        ),
                    )
                } else if !stderr_piped {
                    AfterSpawn::Finished(
                        Err(
                            capture_failed_error(
                                Stream::Stderr,
                                launch.name.as_str(),
                                launch.command_span,
                            ),
                        ),
                    )
                } else {
                    AfterSpawn::AwaitCapture { pid }
                }
            },
        },
    }
}

/// The value of a successful exit of process `pid`, given its standard
/// output and that output decoded.
pub fn success_result(mode: OutputMode, pid: u32, stdout: &Vec<u8>, stdout_text: String) -> (r:
    LaunchResult)
    ensures
        r@ == (if wants_pid(mode) {
            LaunchResultView::Pid(pid)
        } else if stdout@.len() == 0 {
            LaunchResultView::Empty
        } else {
            LaunchResultView::Text(stdout_text@)
        }),
{
    let pid_wanted = match mode {
        OutputMode::Detached => false,
        OutputMode::ReturnPid => true,
        OutputMode::CaptureOutput { return_pid } => return_pid,
    };
    if pid_wanted {
        LaunchResult::Pid(pid)
    } else if stdout.len() == 0 {
        LaunchResult::Empty
    } else {
        LaunchResult::Text(stdout_text)
    }
}

/// Decides the outcome of a captured launch of process `pid` from what the
/// capture gave.
pub fn on_captured(launch: &Launch, pid: u32, report: CaptureReport) -> (r: Result<
    LaunchResult,
    LaunchError,
>)
    ensures
        outcome_view(r) == after_capture(launch@, pid, report@),
{
    let name = launch.name.as_str();
    let span = launch.command_span;
    let out = match report.stdout {
        Err(e) => {
            return Err(read_failed_error(Stream::Stdout, name, e.as_str(), span));
        },
        Ok(b) => b,
    };
    let err = match report.stderr {
        Err(e) => {
            return Err(read_failed_error(Stream::Stderr, name, e.as_str(), span));
        },
        Ok(b) => b,
    };
    match report.exit {
        Err(e) => Err(wait_failed_error(name, e.as_str(), span)),
        Ok(x) => {
            if x.success {
                let text = decode_lossy(&out);
                Ok(success_result(launch.mode, pid, &out, text))
            } else {
                let text = decode_lossy(&err);
                Err(exit_failed_error(name, x.status.as_str(), text.as_str(), span))
            }
        },
    }
}

} // verus!
