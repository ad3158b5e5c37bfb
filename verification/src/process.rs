//! The process launcher: what to start, and what to do on each report of the
//! child's status. Starting and polling the child is left to the caller.

use vstd::prelude::*;
use crate::checker::RUNTIME;
use crate::notifier::{display_notification, reports, Notice};

verus! {

/// What to start: `program`, found in `directory`, with `directory` as its
/// working directory and no arguments.
#[derive(Debug)]
pub struct LaunchPlan {
    pub directory: String,
    pub program: String,
}

/// What the caller saw of the child process.
#[derive(Debug)]
pub enum ChildEvent {
    /// The process could not be created; the system's message.
    SpawnFailed(String),
    /// The child has not exited yet.
    Running,
    /// The child has exited; its exit status as text.
    Exited(String),
    /// The child's status could not be read; the system's message.
    WaitFailed(String),
}

/// What the caller does next.
#[derive(Debug)]
pub enum LaunchStep {
    /// Poll the child again.
    Wait,
    /// Stop: log the line, show the notification if there is one, and return
    /// control to the interface.
    Done { log: String, notice: Option<Notice> },
}

/// The line logged when the child has exited.
pub open spec fn exit_log_of(file: Seq<char>, status: Seq<char>) -> Seq<char> {
    file + " exited with status code: "@ + status
}

/// The body of the notification shown when the child has exited.
pub open spec fn exit_body_of(status: Seq<char>) -> Seq<char> {
    "Process exited with status code: "@ + status
}

/// The line logged when the child could not be started or watched.
pub open spec fn launch_error_of(error: Seq<char>) -> Seq<char> {
    "Error upon calling open_process: "@ + error
}

/// The line to log once the launch of `file` is over, and `None` while the
/// child still runs.
pub open spec fn launch_log_of(file: Seq<char>, event: ChildEvent) -> Option<Seq<char>> {
    match event {
        ChildEvent::Running => None,
        ChildEvent::Exited(status) => Some(exit_log_of(file, status@)),
        ChildEvent::SpawnFailed(error) => Some(launch_error_of(error@)),
        ChildEvent::WaitFailed(error) => Some(launch_error_of(error@)),
    }
}

/// The body of the notification that an event calls for, if it calls for
/// one: the exit status on termination, the failure where no process could
/// be created.
pub open spec fn launch_notice_of(event: ChildEvent) -> Option<Seq<char>> {
    match event {
        ChildEvent::Exited(status) => Some(exit_body_of(status@)),
        ChildEvent::SpawnFailed(error) => Some(launch_error_of(error@)),
        _ => None,
    }
}

/// Whether `step` is the answer to `event` during the launch of `file`.
pub open spec fn answers(step: LaunchStep, file: Seq<char>, event: ChildEvent) -> bool {
    match step {
        LaunchStep::Wait => launch_log_of(file, event) is None,
        LaunchStep::Done { log, notice } => {
            &&& launch_log_of(file, event) == Some(log@)
            &&& reports(notice, RUNTIME@, launch_notice_of(event))
        },
    }
}

/// Plans the launch of `file` from `directory`.
pub fn launch_plan(directory: &str, file: &str) -> (plan: LaunchPlan)
    ensures
        plan.directory@ == directory@,
        plan.program@ == file@,
{
    LaunchPlan { directory: String::from_str(directory), program: String::from_str(file) }
}

/// Decides what follows one report on the child that runs `file`: keep
/// polling while it runs, and stop on anything else. A process that could
/// not be created is reported and ends the launch; it ends nothing more.
pub fn open_process(file: &str, event: &ChildEvent) -> (step: LaunchStep)
    ensures
        answers(step, file@, *event),
        step is Wait <==> *event is Running,
{
    match event {
        ChildEvent::Running => LaunchStep::Wait,
        ChildEvent::Exited(status) => {
            let log = String::from_str(file).concat(" exited with status code: ").concat(
                status.as_str(),
            );
            let body = String::from_str("Process exited with status code: ").concat(
                status.as_str(),
            );
            LaunchStep::Done {
                log: log,
                notice: Some(display_notification(RUNTIME, body.as_str())),
            }
        },
        ChildEvent::SpawnFailed(error) => {
            let log = String::from_str("Error upon calling open_process: ").concat(
                error.as_str(),
            );
            let notice = display_notification(RUNTIME, log.as_str());
            LaunchStep::Done { log: log, notice: Some(notice) }
        },
        ChildEvent::WaitFailed(error) => {
            let log = String::from_str("Error upon calling open_process: ").concat(
                error.as_str(),
            );
            LaunchStep::Done { log: log, notice: None }
        },
    }
}

} // verus!
