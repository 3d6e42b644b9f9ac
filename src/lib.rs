//! Launching an external program as a detached background process.
//!
//! The library holds every decision of a launch: whether a request is
//! accepted, what is spawned and how, what follows the spawn in each output
//! mode, and how the captured output and exit status become a result or an
//! error. The process itself is created by the caller, which hands each
//! outcome back as a plain value: first [`plan_launch`], then the spawn, then
//! [`on_spawned`], and in capture mode the capture and [`on_captured`].

pub mod launcher;
pub mod laws;
pub mod message;
pub mod outcome;
pub mod request;

pub use launcher::{
    on_captured, on_spawned, plan_launch, success_result, AfterSpawn, CaptureReport, ExitReport,
    Launch, SpawnEvent,
};
pub use message::{
    capture_failed_error, describe, exit_failed_error, launch_name, no_command_error,
    read_failed_error, spawn_failed_error, start_line, wait_failed_error, Stream,
};
pub use outcome::{LaunchError, LaunchErrorKind, LaunchResult};
pub use request::{Implementation, LaunchRequest, OutputMode, SourceSpan};
