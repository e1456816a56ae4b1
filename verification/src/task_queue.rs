//! The task queue of a ship: which task is active, which come next, and how tasks are added,
//! started and cancelled.
use crate::entity::ShipEntity;
use crate::ship_tasks::{TaskKind, cancellable_while_active, tag_of};
use std::collections::VecDeque;
use vstd::prelude::*;

verus! {

/// The active task of a ship and the tasks queued after it.
pub struct TaskQueue {
    /// Tasks waiting to be started, first to last.
    pub queue: VecDeque<TaskKind>,
    /// The task currently being executed.
    pub active_task: Option<TaskKind>,
}

/// A request to stop whatever a ship is doing and to clear its entire task queue.
#[derive(PartialEq, Eq, Structural, Copy, Clone, Debug)]
pub struct TaskCancellationWhileActiveRequest {
    /// The affected ship.
    pub entity: ShipEntity,
}

/// A request to remove tasks from a ship's queue.
#[derive(PartialEq, Eq, Structural, Copy, Clone, Debug)]
pub struct TaskCancellationWhileInQueueRequest {
    /// The affected ship.
    pub entity: ShipEntity,
    /// The position of the first task to remove; it and all following tasks are removed.
    pub task_position_in_queue: usize,
}

/// Where newly created tasks go in a queue.
#[derive(PartialEq, Eq, Structural, Copy, Clone, Debug)]
pub enum TaskInsertionMode {
    /// After all queued tasks.
    Append,
    /// Before all queued tasks.
    Prepend,
}

/// The active task (if any) followed by the queued tasks.
pub open spec fn planned_tasks(active: Option<TaskKind>, queued: Seq<TaskKind>) -> Seq<TaskKind> {
    match active {
        Some(t) => seq![t] + queued,
        None => queued,
    }
}

/// The first task of `queued`, if there is one.
pub open spec fn first_task(queued: Seq<TaskKind>) -> Option<TaskKind> {
    if queued.len() > 0 {
        Some(queued[0])
    } else {
        None
    }
}

/// `queued` without its first task.
pub open spec fn without_first_task(queued: Seq<TaskKind>) -> Seq<TaskKind> {
    if queued.len() > 0 {
        queued.subrange(1, queued.len() as int)
    } else {
        queued
    }
}

/// The queued tasks after `new_tasks` have been inserted.
pub open spec fn queue_after_insertion(
    queued: Seq<TaskKind>,
    new_tasks: Seq<TaskKind>,
    mode: TaskInsertionMode,
) -> Seq<TaskKind> {
    match mode {
        TaskInsertionMode::Append => queued + new_tasks,
        TaskInsertionMode::Prepend => new_tasks + queued,
    }
}

impl TaskQueue {
    /// An empty queue without an active task.
    pub fn new() -> (q: TaskQueue)
        ensures
            q.queue@ == Seq::<TaskKind>::empty(),
            q.active_task is None,
    {
        TaskQueue { queue: VecDeque::new(), active_task: None }
    }

    /// Puts `task` in front of all queued tasks.
    pub fn push_front(&mut self, task: TaskKind)
        ensures
            final(self).queue@ == seq![task] + old(self).queue@,
            final(self).active_task == old(self).active_task,
    {
        self.queue.push_front(task);
    }

    /// Moves all of `tasks` to the end of the queue.
    pub fn append(&mut self, tasks: &mut VecDeque<TaskKind>)
        ensures
            final(self).queue@ == old(self).queue@ + old(tasks)@,
            final(self).active_task == old(self).active_task,
            final(tasks)@ == Seq::<TaskKind>::empty(),
    {
        self.queue.append(tasks);
    }
}

impl Default for TaskQueue {
    /// An empty queue without an active task.
    fn default() -> (q: TaskQueue)
        ensures
            q.queue@ == Seq::<TaskKind>::empty(),
            q.active_task is None,
    {
        TaskQueue::new()
    }
}

/// Makes the first queued task the new active task, or clears the active task if nothing is
/// queued. Returns the task that was started, which the caller attaches to the ship and
/// announces.
pub fn apply_next_task(task_queue: &mut TaskQueue) -> (started: Option<TaskKind>)
    ensures
        final(task_queue).active_task == first_task(old(task_queue).queue@),
        final(task_queue).queue@ == without_first_task(old(task_queue).queue@),
        started == final(task_queue).active_task,
{
    task_queue.active_task = task_queue.queue.pop_front();
    task_queue.active_task
}

/// Inserts `new_tasks` into `queue` and, if no task is active, starts the first queued task.
/// Returns the task that was started, if any.
///
/// Prepending while a task is active is not supported.
pub fn apply_tasks(
    new_tasks: VecDeque<TaskKind>,
    task_insertion_mode: TaskInsertionMode,
    queue: &mut TaskQueue,
) -> (started: Option<TaskKind>)
    requires
        !(task_insertion_mode == TaskInsertionMode::Prepend && old(queue).active_task is Some),
    ensures
        ({
            let inserted = queue_after_insertion(old(queue).queue@, new_tasks@, task_insertion_mode);
            match old(queue).active_task {
                Some(t) => {
                    &&& final(queue).active_task == Some(t)
                    &&& final(queue).queue@ == inserted
                    &&& started is None
                },
                None => {
                    &&& final(queue).active_task == first_task(inserted)
                    &&& final(queue).queue@ == without_first_task(inserted)
                    &&& started == first_task(inserted)
                },
            }
        }),
{
    let mut new_tasks = new_tasks;
    match task_insertion_mode {
        TaskInsertionMode::Append => {
            queue.append(&mut new_tasks);
        },
        TaskInsertionMode::Prepend => {
            let ghost queued_before = queue.queue@;
            let n: usize = new_tasks.len();
            let mut i: usize = n;
            while i > 0
                invariant
                    i <= n,
                    n == new_tasks@.len(),
                    queue.queue@ == new_tasks@.subrange(i as int, n as int) + queued_before,
                    queue.active_task == old(queue).active_task,
                decreases i,
            {
                i = i - 1;
                let task = new_tasks[i];
                queue.push_front(task);
                assert(new_tasks@.subrange(i as int, n as int) =~= seq![task]
                    + new_tasks@.subrange(i + 1, n as int));
            }
            assert(new_tasks@.subrange(0, n as int) =~= new_tasks@);
        },
    }
    if queue.active_task.is_none() {
        apply_next_task(queue)
    } else {
        None
    }
}

/// What happened to a request to cancel queued tasks.
pub enum InQueueCancellation {
    /// The request targeted the start of the queue while an access request is active; the
    /// whole task queue has to be cancelled while active instead.
    RequestCancellationWhileActive,
    /// These tasks were removed from the end of the queue, in queue order.
    Cancelled(VecDeque<TaskKind>),
}

/// Where a cancellation of queued tasks from `position` on actually cuts the queue: a directly
/// preceding access request is cancelled along with them.
pub open spec fn cancellation_split_position(queued: Seq<TaskKind>, position: int) -> int {
    if position > 0 && position - 1 < queued.len() && queued[position - 1] is RequestAccess {
        position - 1
    } else {
        position
    }
}

/// Cancelling queued tasks from `position` on also cancels the access request directly before
/// them, and only that: the cut is one earlier exactly when the preceding queued task is an
/// access request; a cut at the start of the queue stays there.
pub proof fn law_cancellation_takes_preceding_access_request(queued: Seq<TaskKind>, position: int)
    requires
        0 <= position <= queued.len(),
    ensures
        position == 0 ==> cancellation_split_position(queued, position) == 0,
        position >= 1 && queued[position - 1] is RequestAccess ==> cancellation_split_position(
            queued,
            position,
        ) == position - 1,
        position >= 1 && !(queued[position - 1] is RequestAccess) ==> cancellation_split_position(
            queued,
            position,
        ) == position,
        0 <= cancellation_split_position(queued, position) <= position,
{
}

/// Whether `active` is an access request.
pub open spec fn is_active_access_request(active: Option<TaskKind>) -> bool {
    match active {
        Some(t) => t is RequestAccess,
        None => false,
    }
}

/// Removes the task at `task_position_in_queue` and all following tasks from the queue
/// (together with a directly preceding access request), and returns them.
pub fn cancel_tasks_in_queue(queue: &mut TaskQueue, task_position_in_queue: usize) -> (outcome:
    InQueueCancellation)
    requires
        (task_position_in_queue == 0 && is_active_access_request(old(queue).active_task))
            || task_position_in_queue <= old(queue).queue@.len(),
    ensures
        final(queue).active_task == old(queue).active_task,
        (task_position_in_queue == 0 && is_active_access_request(old(queue).active_task)) ==> {
            &&& outcome is RequestCancellationWhileActive
            &&& final(queue).queue@ == old(queue).queue@
        },
        !(task_position_in_queue == 0 && is_active_access_request(old(queue).active_task)) ==> {
            let split = cancellation_split_position(old(queue).queue@, task_position_in_queue as int);
            &&& final(queue).queue@ == old(queue).queue@.subrange(0, split)
            &&& match outcome {
                InQueueCancellation::Cancelled(removed) => removed@ == old(queue).queue@.subrange(
                    split,
                    old(queue).queue@.len() as int,
                ),
                InQueueCancellation::RequestCancellationWhileActive => false,
            }
        },
{
    if task_position_in_queue == 0 {
        if let Some(TaskKind::RequestAccess { .. }) = queue.active_task {
            return InQueueCancellation::RequestCancellationWhileActive;
        }
    }
    let split_position = if task_position_in_queue > 0 {
        let previous = task_position_in_queue - 1;
        if previous < queue.queue.len() {
            if let TaskKind::RequestAccess { .. } = queue.queue[previous] {
                previous
            } else {
                task_position_in_queue
            }
        } else {
            task_position_in_queue
        }
    } else {
        task_position_in_queue
    };
    let removed = queue.queue.split_off(split_position);
    InQueueCancellation::Cancelled(removed)
}

/// What happened to a request to cancel the active task together with the whole queue.
pub enum ActiveCancellation {
    /// There was no active task; nothing changed.
    NoActiveTask,
    /// The active task cannot be cancelled while active; nothing changed.
    NotCancellable,
    /// The active task and all queued tasks were cancelled.
    Cancelled { active: TaskKind, queued: VecDeque<TaskKind> },
}

/// Cancels the active task and clears the queue, if the active task can be cancelled.
pub fn cancel_active_task(queue: &mut TaskQueue) -> (outcome: ActiveCancellation)
    ensures
        match old(queue).active_task {
            None => {
                &&& outcome is NoActiveTask
                &&& final(queue).queue@ == old(queue).queue@
                &&& final(queue).active_task is None
            },
            Some(active) => if !cancellable_while_active(tag_of(active)) {
                &&& outcome is NotCancellable
                &&& final(queue).queue@ == old(queue).queue@
                &&& final(queue).active_task == Some(active)
            } else {
                &&& final(queue).queue@ == Seq::<TaskKind>::empty()
                &&& final(queue).active_task is None
                &&& match outcome {
                    ActiveCancellation::Cancelled { active: a, queued } => {
                        &&& a == active
                        &&& queued@ == old(queue).queue@
                    },
                    _ => false,
                }
            },
        },
{
    let active = match queue.active_task {
        None => {
            return ActiveCancellation::NoActiveTask;
        },
        Some(active) => active,
    };
    if !active.can_task_be_cancelled_while_active() {
        return ActiveCancellation::NotCancellable;
    }
    let queued = queue.queue.split_off(0);
    queue.active_task = None;
    ActiveCancellation::Cancelled { active, queued }
}

/// Starting the next task drops the active task and keeps every queued task, in order.
pub proof fn law_apply_next_task_advances_plan(
    before: Seq<TaskKind>,
    active_after: Option<TaskKind>,
    queued_after: Seq<TaskKind>,
)
    requires
        active_after == first_task(before),
        queued_after == without_first_task(before),
    ensures
        planned_tasks(active_after, queued_after) == before,
{
    if before.len() > 0 {
        assert(seq![before[0]] + before.subrange(1, before.len() as int) =~= before);
    }
}

/// Starting the next task takes the first queued task, if any, and keeps the others in order.
pub proof fn law_next_task_is_the_first_queued(before: Seq<TaskKind>)
    ensures
        before.len() > 0 ==> first_task(before) == Some(before[0]),
        before.len() == 0 ==> first_task(before) is None && without_first_task(before).len() == 0,
        before.len() > 0 ==> without_first_task(before).len() == before.len() - 1,
        forall|i: int|
            0 <= i < before.len() - 1 ==> #[trigger] without_first_task(before)[i] == before[i + 1],
{
}

/// Appended tasks go after the queued ones, prepended tasks before them, each in their order.
pub proof fn law_insertion_order(queued: Seq<TaskKind>, new_tasks: Seq<TaskKind>)
    ensures
        ({
            let appended = queue_after_insertion(queued, new_tasks, TaskInsertionMode::Append);
            let prepended = queue_after_insertion(queued, new_tasks, TaskInsertionMode::Prepend);
            &&& appended.len() == queued.len() + new_tasks.len()
            &&& prepended.len() == queued.len() + new_tasks.len()
            &&& forall|i: int| 0 <= i < queued.len() ==> #[trigger] appended[i] == queued[i]
            &&& forall|i: int|
                0 <= i < new_tasks.len() ==> #[trigger] appended[queued.len() + i] == new_tasks[i]
            &&& forall|i: int| 0 <= i < new_tasks.len() ==> #[trigger] prepended[i] == new_tasks[i]
            &&& forall|i: int|
                0 <= i < queued.len() ==> #[trigger] prepended[new_tasks.len() + i] == queued[i]
        }),
{
}

/// The plan is the active task, if any, followed by the queued tasks.
pub proof fn law_planned_tasks(active: Option<TaskKind>, queued: Seq<TaskKind>)
    ensures
        active matches Some(t) ==> planned_tasks(active, queued).len() == queued.len() + 1
            && planned_tasks(active, queued)[0] == t && forall|i: int|
            0 <= i < queued.len() ==> #[trigger] planned_tasks(active, queued)[i + 1] == queued[i],
        active is None ==> planned_tasks(active, queued) == queued,
{
}

/// Appending tasks to a queue adds them after everything already planned, in order, whether
/// or not a task was started.
pub proof fn law_append_extends_plan(
    active_before: Option<TaskKind>,
    queued_before: Seq<TaskKind>,
    new_tasks: Seq<TaskKind>,
    active_after: Option<TaskKind>,
    queued_after: Seq<TaskKind>,
)
    requires
        ({
            let inserted = queue_after_insertion(queued_before, new_tasks, TaskInsertionMode::Append);
            match active_before {
                Some(t) => active_after == Some(t) && queued_after == inserted,
                None => active_after == first_task(inserted) && queued_after == without_first_task(
                    inserted,
                ),
            }
        }),
    ensures
        planned_tasks(active_after, queued_after) == planned_tasks(active_before, queued_before)
            + new_tasks,
{
    let inserted = queued_before + new_tasks;
    match active_before {
        Some(t) => {
            assert(seq![t] + (queued_before + new_tasks) =~= (seq![t] + queued_before) + new_tasks);
        },
        None => {
            law_apply_next_task_advances_plan(inserted, active_after, queued_after);
        },
    }
}

/// Cancelling queued tasks keeps a prefix of the queue; the kept tasks followed by the
/// cancelled tasks are the queue as it was.
pub proof fn law_in_queue_cancellation_splits_queue(
    before: Seq<TaskKind>,
    position: int,
    kept: Seq<TaskKind>,
    removed: Seq<TaskKind>,
)
    requires
        0 <= position <= before.len(),
        kept == before.subrange(0, cancellation_split_position(before, position)),
        removed == before.subrange(cancellation_split_position(before, position), before.len() as int),
    ensures
        kept + removed == before,
        kept.len() == position || (kept.len() == position - 1 && before[position - 1] is RequestAccess),
{
    assert(kept + removed =~= before);
}

} // verus!
