use vstd::prelude::*;
use crate::request::SourceSpan;

verus! {

/// The value of a successful launch.
#[derive(Clone, Debug, PartialEq, Eq)]
pub enum LaunchResult {
    Empty,
    Pid(u32),
    Text(String),
}

/// The mathematical value of a [`LaunchResult`].
pub enum LaunchResultView {
    Empty,
    Pid(u32),
    Text(Seq<char>),
}

impl View for LaunchResult {
    type V = LaunchResultView;

    open spec fn view(&self) -> LaunchResultView {
        match self {
            LaunchResult::Empty => LaunchResultView::Empty,
            LaunchResult::Pid(p) => LaunchResultView::Pid(*p),
            LaunchResult::Text(s) => LaunchResultView::Text(s@),
        }
    }
}

/// Which way a launch failed.
#[derive(Clone, Copy, Debug, PartialEq, Eq, Structural)]
pub enum LaunchErrorKind {
    /// The command string was empty; nothing was started.
    NoCommand,
    /// The operating system refused to create the process.
    SpawnFailed,
    /// Standard output could not be captured or read.
    StdoutCaptureUnavailable,
    /// Standard error could not be captured or read.
    StderrCaptureUnavailable,
    /// Waiting for the captured process to exit failed.
    WaitFailed,
    /// The captured process exited unsuccessfully.
    NonZeroExit,
}

/// A failed launch: its kind, a short label, a message for people, and the
/// place in the invocation that it is anchored to.
#[derive(Clone, Debug)]
pub struct LaunchError {
    pub kind: LaunchErrorKind,
    pub label: String,
    pub message: String,
    pub span: SourceSpan,
}

/// The mathematical value of a [`LaunchError`].
pub struct LaunchErrorView {
    pub kind: LaunchErrorKind,
    pub label: Seq<char>,
    pub message: Seq<char>,
    pub span: SourceSpan,
}

impl View for LaunchError {
    type V = LaunchErrorView;

    open spec fn view(&self) -> LaunchErrorView {
        LaunchErrorView {
            kind: self.kind,
            label: self.label@,
            message: self.message@,
            span: self.span,
        }
    }
}

/// The mathematical value of the outcome of a launch.
pub open spec fn outcome_view(r: Result<LaunchResult, LaunchError>) -> Result<
    LaunchResultView,
    LaunchErrorView,
> {
    match r {
        Ok(v) => Ok(v@),
        Err(e) => Err(e@),
    }
}

} // verus!
