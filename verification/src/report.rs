//! What a node has to say: the text of its errors and of its log lines.

use crate::error::{RunError, TaskInitError};
use crate::task::TaskOutcome;
use vstd::prelude::*;

verus! {

/// The text of a task initialization error.
pub open spec fn init_error_text(error: TaskInitError) -> Seq<char> {
    match error {
        TaskInitError::ResourceMissing { name } => "Resource "@ + name@ + " is not provided"@,
        TaskInitError::ResourceTypeMismatch { name, expected } => "Resource "@ + name@
            + " is not of type "@ + expected@,
        TaskInitError::Custom(message) => message@,
    }
}

/// The text of a run error. It names the task that failed; the tasks that
/// could not be initialized are reported one by one before.
pub open spec fn run_error_text(error: RunError) -> Seq<char> {
    match error {
        RunError::InitializationFailed { .. } => "One or more task weren't able to start"@,
        RunError::NoTasks => "No tasks to run"@,
        RunError::TaskFailed { name } => "Task "@ + name@ + " failed"@,
    }
}

/// The log line on a task that could not be initialized.
pub open spec fn init_failure_line(task: Seq<char>, error: TaskInitError) -> Seq<char> {
    "Task "@ + task + " can't be initialized: "@ + init_error_text(error)
}

/// The log line on the task that resolved first. `error` is what the task
/// returned, and is read only where it returned an error.
pub open spec fn exit_line(task: Seq<char>, outcome: TaskOutcome, error: Seq<char>) -> Seq<char> {
    match outcome {
        TaskOutcome::Completed => "Task "@ + task + " completed"@,
        TaskOutcome::Failed => "Task "@ + task + " exited with an error: "@ + error,
        TaskOutcome::Panicked => "Task "@ + task + " panicked"@,
    }
}

impl TaskInitError {
    /// The text of the error.
    pub fn message(&self) -> (text: String)
        ensures
            text@ == init_error_text(*self),
    {
        match self {
            TaskInitError::ResourceMissing { name } => {
                let mut text = "Resource ".to_owned();
                text.append(name.as_str());
                text.append(" is not provided");
                text
            },
            TaskInitError::ResourceTypeMismatch { name, expected } => {
                let mut text = "Resource ".to_owned();
                text.append(name.as_str());
                text.append(" is not of type ");
                text.append(expected.as_str());
                text
            },
            TaskInitError::Custom(message) => message.clone(),
        }
    }
}

impl RunError {
    /// The text of the error.
    pub fn message(&self) -> (text: String)
        ensures
            text@ == run_error_text(*self),
    {
        match self {
            RunError::InitializationFailed { .. } => "One or more task weren't able to start".to_owned(),
            RunError::NoTasks => "No tasks to run".to_owned(),
            RunError::TaskFailed { name } => {
                let mut text = "Task ".to_owned();
                text.append(name.as_str());
                text.append(" failed");
                text
            },
        }
    }
}

/// The log line on the task `task`, whose constructor failed with `error`.
pub fn describe_init_failure(task: &str, error: &TaskInitError) -> (line: String)
    ensures
        line@ == init_failure_line(task@, *error),
{
    let mut line = "Task ".to_owned();
    line.append(task);
    line.append(" can't be initialized: ");
    let text = error.message();
    line.append(text.as_str());
    assert(line@ =~= init_failure_line(task@, *error));
    line
}

/// The log line on the task `task`, which resolved first with `outcome`.
pub fn describe_exit(task: &str, outcome: TaskOutcome, error: &str) -> (line: String)
    ensures
        line@ == exit_line(task@, outcome, error@),
{
    let mut line = "Task ".to_owned();
    line.append(task);
    match outcome {
        TaskOutcome::Completed => {
            line.append(" completed");
        },
        TaskOutcome::Failed => {
            line.append(" exited with an error: ");
            line.append(error);
        },
        TaskOutcome::Panicked => {
            line.append(" panicked");
        },
    }
    line
}

} // verus!
