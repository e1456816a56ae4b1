//! Requesting access: the request is answered at once, and the ship either proceeds or waits
//! for a signal from the entity it asked.
use crate::ship_tasks::{AwaitingSignal, RequestAccess, ShipTask, TaskKind};
use crate::task_queue::TaskQueue;
use vstd::prelude::*;

verus! {

/// The answer of an interaction queue to an access request.
#[derive(PartialEq, Eq, Structural, Copy, Clone, Debug)]
pub enum InteractionQueueResult {
    /// Access is granted right away.
    ProceedImmediately,
    /// The ship was put into the queue and has to wait for a signal.
    EnteredQueuePleaseAddAwaitingSignalToQueue,
}

/// The task of waiting for a signal from the entity an access request was sent to.
pub open spec fn waiting_task_for(request: RequestAccess) -> TaskKind {
    TaskKind::AwaitingSignal { data: AwaitingSignal { from: request.target } }
}

/// Handles the answer to an access request of a ship: if it has to wait, waiting for a signal
/// from the requested entity becomes its next task. The request itself is always complete
/// afterwards.
pub fn handle_access_answer(
    task: &ShipTask<RequestAccess>,
    result: InteractionQueueResult,
    task_queue: &mut TaskQueue,
)
    ensures
        final(task_queue).active_task == old(task_queue).active_task,
        result == InteractionQueueResult::ProceedImmediately ==> final(task_queue).queue@
            == old(task_queue).queue@,
        result == InteractionQueueResult::EnteredQueuePleaseAddAwaitingSignalToQueue ==> final(task_queue).queue@
            == seq![waiting_task_for(task@)] + old(task_queue).queue@,
{
    match result {
        InteractionQueueResult::ProceedImmediately => {},
        InteractionQueueResult::EnteredQueuePleaseAddAwaitingSignalToQueue => {
            task_queue.push_front(
                TaskKind::AwaitingSignal { data: AwaitingSignal { from: task.data().target } },
            );
        },
    }
}

/// A ship that has to wait waits for a signal from the very entity it asked.
pub proof fn law_waiting_for_the_asked_entity(request: RequestAccess)
    ensures
        waiting_task_for(request) == (TaskKind::AwaitingSignal {
            data: AwaitingSignal { from: request.target },
        }),
{
}

} // verus!
