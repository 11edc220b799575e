//! Job states and messages of geoprocessing tasks.

use vstd::prelude::*;

verus! {

/// Severity of a job message.
#[derive(Debug, Clone, Copy, PartialEq, Eq, Hash, Structural)]
pub enum GPMessageType {
    Informative,
    Warning,
    Error,
    Empty,
    Abort,
}

/// Status of an asynchronous geoprocessing job.
#[derive(Debug, Clone, Copy, PartialEq, Eq, Hash, Structural)]
pub enum GPJobStatus {
    New,
    Submitted,
    Submitting,
    Waiting,
    Executing,
    Succeeded,
    Failed,
    TimedOut,
    Cancelling,
    Cancelled,
    Deleting,
    Deleted,
}

impl GPJobStatus {
    /// The job has finished and its state will not change again.
    pub open spec fn terminal(self) -> bool {
        match self {
            GPJobStatus::Succeeded | GPJobStatus::Failed | GPJobStatus::TimedOut
            | GPJobStatus::Cancelled | GPJobStatus::Deleted => true,
            _ => false,
        }
    }

    /// The job is queued or executing.
    pub open spec fn running(self) -> bool {
        match self {
            GPJobStatus::New | GPJobStatus::Submitted | GPJobStatus::Submitting
            | GPJobStatus::Waiting | GPJobStatus::Executing => true,
            _ => false,
        }
    }

    /// Whether the job has reached a final state (succeeded, failed, timed
    /// out, cancelled or deleted).
    pub fn is_terminal(&self) -> (r: bool)
        ensures
            r == self.terminal(),
    {
        match self {
            GPJobStatus::Succeeded | GPJobStatus::Failed | GPJobStatus::TimedOut
            | GPJobStatus::Cancelled | GPJobStatus::Deleted => true,
            _ => false,
        }
    }

    /// Whether the job is new, submitted, submitting, waiting or executing.
    pub fn is_running(&self) -> (r: bool)
        ensures
            r == self.running(),
    {
        match self {
            GPJobStatus::New | GPJobStatus::Submitted | GPJobStatus::Submitting
            | GPJobStatus::Waiting | GPJobStatus::Executing => true,
            _ => false,
        }
    }
}

/// No status is both final and running; the two transitional states,
/// cancelling and deleting, are neither.
pub proof fn lemma_terminal_excludes_running(s: GPJobStatus)
    ensures
        !(s.terminal() && s.running()),
        (s == GPJobStatus::Cancelling || s == GPJobStatus::Deleting) <==> (!s.terminal()
            && !s.running()),
{
}

/// A job is final exactly when it succeeded, failed, timed out, was
/// cancelled or was deleted, and running exactly when it is new, submitted,
/// submitting, waiting or executing.
pub proof fn lemma_final_and_running_states(s: GPJobStatus)
    ensures
        s.terminal() <==> (s == GPJobStatus::Succeeded || s == GPJobStatus::Failed || s
            == GPJobStatus::TimedOut || s == GPJobStatus::Cancelled || s == GPJobStatus::Deleted),
        s.running() <==> (s == GPJobStatus::New || s == GPJobStatus::Submitted || s
            == GPJobStatus::Submitting || s == GPJobStatus::Waiting || s == GPJobStatus::Executing),
{
}

/// A message reported by a job.
#[derive(Debug, Clone)]
pub struct GPMessage {
    pub message_type: GPMessageType,
    pub description: String,
}

} // verus!
