//! The answer to a request to queue a command for the vibration loop.
use vstd::prelude::*;

verus! {

/// Why a command was not queued.
#[derive(Clone, Copy, Debug, PartialEq, Eq)]
pub enum PushMsgError {
    /// The command queue has not been set up yet.
    NotInitialized,
    /// The command queue is full; the command is dropped.
    Full,
}

/// What happened when a command was offered to the queue.
#[derive(Clone, Copy, Debug, PartialEq, Eq)]
pub enum SendOutcome {
    Sent,
    Full,
    /// The receiving loop is gone.
    Closed,
}

/// The result of queueing a command: `None` when there is no queue yet,
/// otherwise what the queue said. A closed queue cannot happen while the
/// loop runs and is left out.
pub fn push_result(outcome: Option<SendOutcome>) -> (r: Result<(), PushMsgError>)
    requires
        !(outcome matches Some(SendOutcome::Closed)),
    ensures
        r == (match outcome {
            None => Err(PushMsgError::NotInitialized),
            Some(SendOutcome::Full) => Err(PushMsgError::Full),
            _ => Ok(()),
        }),
{
    match outcome {
        None => Err(PushMsgError::NotInitialized),
        Some(SendOutcome::Sent) => Ok(()),
        Some(SendOutcome::Full) => Err(PushMsgError::Full),
        Some(SendOutcome::Closed) => Ok(()),
    }
}

} // verus!
