use vstd::prelude::*;
use crate::launcher::{
    after_capture, after_spawn, planned, AfterSpawnView, CaptureView, LaunchView, SpawnEventView,
};
use crate::message::{exit_message, lossy_text, no_command};
use crate::outcome::{LaunchErrorKind, LaunchErrorView, LaunchResultView};
use crate::request::{OutputMode, RequestView};

verus! {

/// Whether `part` occurs in `whole` as a contiguous run.
pub open spec fn contains(whole: Seq<char>, part: Seq<char>) -> bool {
    exists|i: int| 0 <= i && i + part.len() <= whole.len() && #[trigger] whole.subrange(i, i + part.len()) == part
}

/// An empty command is refused with `NoCommand`, and no launch is planned,
/// so nothing is started.
pub proof fn lemma_empty_command_is_refused(req: RequestView)
    requires
        req.command.len() == 0,
    ensures
        planned(req) == Err::<LaunchView, LaunchErrorView>(no_command(req.command_span)),
        planned(req)->Err_0.kind == LaunchErrorKind::NoCommand,
{
}

/// A launch starts the command as given, and passes each argument through
/// unchanged, as one token, in its order.
pub proof fn lemma_arguments_pass_through(req: RequestView)
    requires
        req.command.len() > 0,
    ensures
        planned(req) is Ok,
        planned(req)->Ok_0.program == req.command,
        req.arguments is None ==> planned(req)->Ok_0.arguments.len() == 0,
        req.arguments is Some ==> {
            let given = req.arguments->Some_0;
            let passed = planned(req)->Ok_0.arguments;
            &&& passed.len() == given.len()
            &&& forall|i: int| 0 <= i < given.len() ==> #[trigger] passed[i] == given[i]
        },
{
}

/// In detached and pid mode nothing is captured, and the launch is over as
/// soon as the spawn has returned: it never waits for the process.
pub proof fn lemma_immediate_modes_do_not_wait(req: RequestView, event: SpawnEventView)
    requires
        req.command.len() > 0,
        !(req.mode is CaptureOutput),
    ensures
        planned(req) is Ok,
        !planned(req)->Ok_0.capture_output,
        after_spawn(planned(req)->Ok_0, event) is Finished,
{
}

/// Every launch puts the process in a process group of its own; a detached
/// launch that spawned answers with no value and leaves the process running.
pub proof fn lemma_launch_is_detached(req: RequestView, pid: u32, stdout_piped: bool, stderr_piped: bool)
    requires
        req.command.len() > 0,
    ensures
        planned(req) is Ok,
        planned(req)->Ok_0.own_process_group,
        req.mode == OutputMode::Detached ==> after_spawn(
            planned(req)->Ok_0,
            SpawnEventView::Started { pid, stdout_piped, stderr_piped },
        ) == AfterSpawnView::Finished(Ok(LaunchResultView::Empty)),
{
}

/// In pid mode, a launch that spawned answers with the id that the
/// operating system gave the process.
pub proof fn lemma_pid_mode_returns_spawned_pid(
    req: RequestView,
    pid: u32,
    stdout_piped: bool,
    stderr_piped: bool,
)
    requires
        req.command.len() > 0,
        req.mode == OutputMode::ReturnPid,
    ensures
        after_spawn(
            planned(req)->Ok_0,
            SpawnEventView::Started { pid, stdout_piped, stderr_piped },
        ) == AfterSpawnView::Finished(Ok(LaunchResultView::Pid(pid))),
{
}

/// In capture mode, a process that exits successfully answers with its
/// decoded standard output, or with no value where it wrote none; where the
/// pid is also asked for, the pid takes precedence.
pub proof fn lemma_capture_returns_output(
    req: RequestView,
    pid: u32,
    stdout: Seq<u8>,
    stderr: Seq<u8>,
    status: Seq<char>,
)
    requires
        req.command.len() > 0,
        req.mode is CaptureOutput,
    ensures
        ({
            let r = after_capture(
                planned(req)->Ok_0,
                pid,
                CaptureView { stdout: Ok(stdout), stderr: Ok(stderr), exit: Ok((true, status)) },
            );
            if req.mode->return_pid {
                r == Ok::<_, LaunchErrorView>(LaunchResultView::Pid(pid))
            } else if stdout.len() == 0 {
                r == Ok::<_, LaunchErrorView>(LaunchResultView::Empty)
            } else {
                r == Ok::<_, LaunchErrorView>(LaunchResultView::Text(lossy_text(stdout)))
            }
        }),
{
}

/// In capture mode, a process that exits unsuccessfully gives a
/// `NonZeroExit` error whose message holds its decoded standard error.
pub proof fn lemma_failed_exit_reports_stderr(
    req: RequestView,
    pid: u32,
    stdout: Seq<u8>,
    stderr: Seq<u8>,
    status: Seq<char>,
)
    requires
        req.command.len() > 0,
        req.mode is CaptureOutput,
    ensures
        ({
            let r = after_capture(
                planned(req)->Ok_0,
                pid,
                CaptureView { stdout: Ok(stdout), stderr: Ok(stderr), exit: Ok((false, status)) },
            );
            &&& r is Err
            &&& r->Err_0.kind == LaunchErrorKind::NonZeroExit
            &&& contains(r->Err_0.message, lossy_text(stderr))
        }),
{
    let l = planned(req)->Ok_0;
    let text = lossy_text(stderr);
    let r = after_capture(
        l,
        pid,
        CaptureView { stdout: Ok(stdout), stderr: Ok(stderr), exit: Ok((false, status)) },
    );
    let msg = r->Err_0.message;
    assert(msg == exit_message(l.name, status, text));
    if text.len() == 0 {
        assert(msg.subrange(0, 0 + text.len() as int) =~= text);
    } else {
        let i = msg.len() - text.len();
        assert(msg.subrange(i, i + text.len()) =~= text);
    }
}

} // verus!
