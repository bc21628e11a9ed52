//! The errors of task construction and of a node's run.

use vstd::prelude::*;

verus! {

/// Why a task constructor gave up.
#[derive(Debug, PartialEq, Eq)]
pub enum TaskInitError {
    /// The constructor needs a resource that nobody provides.
    ResourceMissing { name: String },
    /// The resource stored under `name` is not of the type `expected`.
    ResourceTypeMismatch { name: String, expected: String },
    /// A failure that the constructor describes itself.
    Custom(String),
}

/// Why a node's run ended badly.
#[derive(Debug, PartialEq, Eq)]
pub enum RunError {
    /// At least one constructor failed; `names` lists every task that did, in registration order.
    InitializationFailed { names: Vec<String> },
    /// Nothing was registered.
    NoTasks,
    /// The task that resolved first returned an error or terminated abnormally.
    TaskFailed { name: String },
}

/// A node was asked for while another executor was already active on the thread.
#[derive(Debug, Clone, Copy, PartialEq, Eq)]
pub struct InvalidEnvironment;

/// The character sequences of a list of names, in order.
pub open spec fn name_seq(names: Seq<String>) -> Seq<Seq<char>> {
    Seq::new(names.len(), |i: int| names[i]@)
}

impl TaskInitError {
    /// This is the mismatch error for `name`, requested as `expected`.
    pub open spec fn is_type_mismatch(self, name: Seq<char>, expected: Seq<char>) -> bool {
        match self {
            TaskInitError::ResourceTypeMismatch { name: n, expected: e } => n@ == name && e@
                == expected,
            _ => false,
        }
    }

    /// This is the error for a missing resource `name`.
    pub open spec fn is_missing(self, name: Seq<char>) -> bool {
        match self {
            TaskInitError::ResourceMissing { name: n } => n@ == name,
            _ => false,
        }
    }
}

impl RunError {
    /// This is the initialization failure that lists exactly `names`.
    pub open spec fn is_init_failure(self, names: Seq<Seq<char>>) -> bool {
        match self {
            RunError::InitializationFailed { names: n } => name_seq(n@) == names,
            _ => false,
        }
    }

    /// This is the failure of the task `name`.
    pub open spec fn is_task_failure(self, name: Seq<char>) -> bool {
        match self {
            RunError::TaskFailed { name: n } => n@ == name,
            _ => false,
        }
    }
}

} // verus!
