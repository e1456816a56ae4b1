//! How a task went during one update.
use vstd::prelude::*;

verus! {

/// Simple enum to tell how a task went. More complex tasks might opt to have their own types.
#[derive(PartialEq, Eq, Structural, Copy, Clone, Debug)]
pub enum TaskResult {
    Ongoing,
    Finished,
    /// Something unexpected went wrong (a target vanished, a component is missing); the task
    /// needs special handling to decide what to do next.
    Aborted,
}

} // verus!
