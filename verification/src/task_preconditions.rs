//! The tasks a ship needs to carry out before it can start a task elsewhere: undocking,
//! following a path through gates, moving to and docking at its target.
use crate::entity::{Entity, SectorEntity, TypedEntity};
use crate::path_element::PathElement;
use crate::ship_tasks::{
    DockAtEntity, FloatBits, GateTraversalState, MoveToEntity, RequestAccess, RequestAccessGoal,
    TaskKind, Undock, UseGate,
};
use crate::task_queue::TaskQueue;
use std::collections::VecDeque;
use vstd::prelude::*;

verus! {

/// Where a ship is once its planned tasks are done, and what it is docked at then.
#[derive(PartialEq, Eq, Structural, Copy, Clone, Debug)]
pub struct SectorAndDockingStatus {
    pub docked_at: Option<TypedEntity>,
    pub sector: SectorEntity,
}

/// The sector a task ends in: either known from the task itself, or the current sector of
/// an entity the task refers to.
#[derive(PartialEq, Eq, Structural, Copy, Clone, Debug)]
pub enum SectorSource {
    Known(SectorEntity),
    SectorOf(Entity),
}

/// Where a task ends, and what the ship is docked at afterwards.
#[derive(PartialEq, Eq, Structural, Copy, Clone, Debug)]
pub struct TaskEnd {
    pub docked_at: Option<TypedEntity>,
    pub sector: SectorSource,
}

/// Whether a task may stand last in a queue when more tasks are planned after it.
pub open spec fn can_end_a_plan(task: TaskKind) -> bool {
    !(task is AwaitingSignal) && !(task is RequestAccess)
}

/// Where `task` ends.
pub open spec fn task_end_of(task: TaskKind) -> TaskEnd {
    match task {
        TaskKind::Construct { data } => TaskEnd {
            docked_at: None,
            sector: SectorSource::SectorOf(data.target.0),
        },
        TaskKind::DockAtEntity { data } => TaskEnd {
            docked_at: Some(data.target),
            sector: SectorSource::SectorOf(crate::entity::typed_entity_inner(data.target)),
        },
        TaskKind::Undock { data } => TaskEnd {
            docked_at: None,
            sector: SectorSource::SectorOf(crate::entity::typed_entity_inner(data.from)),
        },
        TaskKind::ExchangeWares { data } => TaskEnd {
            docked_at: Some(data.target),
            sector: SectorSource::SectorOf(crate::entity::typed_entity_inner(data.target)),
        },
        TaskKind::MoveToEntity { data } => TaskEnd {
            docked_at: None,
            sector: SectorSource::SectorOf(crate::entity::typed_entity_inner(data.target)),
        },
        TaskKind::MoveToPosition { data } => TaskEnd {
            docked_at: None,
            sector: SectorSource::Known(data.sector_position.sector),
        },
        TaskKind::MoveToSector { data } => TaskEnd {
            docked_at: None,
            sector: SectorSource::Known(data.sector),
        },
        TaskKind::UseGate { data } => TaskEnd {
            docked_at: None,
            sector: SectorSource::Known(data.exit_sector),
        },
        TaskKind::MineAsteroid { data } => TaskEnd {
            docked_at: None,
            sector: SectorSource::SectorOf(data.target.0),
        },
        TaskKind::HarvestGas { data } => TaskEnd {
            docked_at: None,
            sector: SectorSource::SectorOf(data.target.0),
        },
        _ => TaskEnd { docked_at: None, sector: SectorSource::SectorOf(Entity { bits: 0 }) },
    }
}

/// After docking or trading a ship is docked at the target, in the target's sector; after any
/// other task that can end a plan it is not docked. Moving to a position or a sector and
/// passing through gates end in a known sector (for gates, the exit sector); the others end in
/// the sector of the entity they concern.
pub proof fn law_task_ends(task: TaskKind)
    requires
        can_end_a_plan(task),
    ensures
        (task_end_of(task).docked_at is Some) <==> (task is DockAtEntity || task is ExchangeWares),
        task matches TaskKind::DockAtEntity { data } ==> task_end_of(task).docked_at == Some(
            data.target,
        ),
        task matches TaskKind::ExchangeWares { data } ==> task_end_of(task).docked_at == Some(
            data.target,
        ),
        task matches TaskKind::MoveToSector { data } ==> task_end_of(task).sector
            == SectorSource::Known(data.sector),
        task matches TaskKind::MoveToPosition { data } ==> task_end_of(task).sector
            == SectorSource::Known(data.sector_position.sector),
        task matches TaskKind::UseGate { data } ==> task_end_of(task).sector == SectorSource::Known(
            data.exit_sector,
        ),
        task matches TaskKind::Undock { data } ==> task_end_of(task).sector
            == SectorSource::SectorOf(crate::entity::typed_entity_inner(data.from)),
        task matches TaskKind::MoveToEntity { data } ==> task_end_of(task).sector
            == SectorSource::SectorOf(crate::entity::typed_entity_inner(data.target)),
        task matches TaskKind::DockAtEntity { data } ==> task_end_of(task).sector
            == SectorSource::SectorOf(crate::entity::typed_entity_inner(data.target)),
        task matches TaskKind::ExchangeWares { data } ==> task_end_of(task).sector
            == SectorSource::SectorOf(crate::entity::typed_entity_inner(data.target)),
        task matches TaskKind::MineAsteroid { data } ==> task_end_of(task).sector
            == SectorSource::SectorOf(data.target.0),
        task matches TaskKind::HarvestGas { data } ==> task_end_of(task).sector
            == SectorSource::SectorOf(data.target.0),
        task matches TaskKind::Construct { data } ==> task_end_of(task).sector
            == SectorSource::SectorOf(data.target.0),
{
}

/// Waiting for a signal and requesting access never end a plan; every other task can.
pub proof fn law_plan_ending_tasks(task: TaskKind)
    ensures
        can_end_a_plan(task) <==> !(task is AwaitingSignal || task is RequestAccess),
{
}

/// New tasks start where the last queued task ends, or, with nothing queued, where the active
/// task ends.
pub proof fn law_task_determining_start(queued: Seq<TaskKind>, active: Option<TaskKind>)
    ensures
        queued.len() > 0 ==> last_planned_task(queued, active) == Some(queued[queued.len() - 1]),
        queued.len() == 0 ==> last_planned_task(queued, active) == active,
{
}

/// Where the given task ends and what the ship is docked at afterwards.
///
/// Waiting for a signal and requesting access never end a plan, so they have no answer.
pub fn get_task_end_sector_and_position(relevant_task: &TaskKind) -> (end: TaskEnd)
    requires
        can_end_a_plan(*relevant_task),
    ensures
        end == task_end_of(*relevant_task),
{
    match relevant_task {
        TaskKind::Construct { data } => TaskEnd {
            docked_at: None,
            sector: SectorSource::SectorOf(data.target.0),
        },
        TaskKind::DockAtEntity { data } => TaskEnd {
            docked_at: Some(data.target),
            sector: SectorSource::SectorOf(data.target.entity()),
        },
        TaskKind::Undock { data } => TaskEnd {
            docked_at: None,
            sector: SectorSource::SectorOf(data.from.entity()),
        },
        TaskKind::ExchangeWares { data } => TaskEnd {
            docked_at: Some(data.target),
            sector: SectorSource::SectorOf(data.target.entity()),
        },
        TaskKind::MoveToEntity { data } => TaskEnd {
            docked_at: None,
            sector: SectorSource::SectorOf(data.target.entity()),
        },
        TaskKind::MoveToPosition { data } => TaskEnd {
            docked_at: None,
            sector: SectorSource::Known(data.sector_position.sector),
        },
        TaskKind::MoveToSector { data } => TaskEnd {
            docked_at: None,
            sector: SectorSource::Known(data.sector),
        },
        TaskKind::UseGate { data } => TaskEnd {
            docked_at: None,
            sector: SectorSource::Known(data.exit_sector),
        },
        TaskKind::MineAsteroid { data } => TaskEnd {
            docked_at: None,
            sector: SectorSource::SectorOf(data.target.0),
        },
        TaskKind::HarvestGas { data } => TaskEnd {
            docked_at: None,
            sector: SectorSource::SectorOf(data.target.0),
        },
        TaskKind::AwaitingSignal { .. } | TaskKind::RequestAccess { .. } => {
            proof {
                assert(false);
            }
            TaskEnd { docked_at: None, sector: SectorSource::SectorOf(Entity { bits: 0 }) }
        },
    }
}

/// The last planned task of a queue: the last queued one, else the active one.
pub open spec fn last_planned_task(queued: Seq<TaskKind>, active: Option<TaskKind>) -> Option<
    TaskKind,
> {
    if queued.len() > 0 {
        Some(queued.last())
    } else {
        active
    }
}

/// The task whose end determines where newly planned tasks start: the last queued task,
/// else the active task. `None` means the ship's current location counts.
pub fn task_determining_start(task_queue: &TaskQueue) -> (task: Option<TaskKind>)
    ensures
        task == last_planned_task(task_queue.queue@, task_queue.active_task),
{
    let n: usize = task_queue.queue.len();
    if n > 0 {
        Some(task_queue.queue[n - 1])
    } else {
        task_queue.active_task
    }
}

/// The tasks to follow one step of a path: fly to its entry point, then pass through.
pub open spec fn path_element_tasks(x: PathElement) -> Seq<TaskKind> {
    seq![
        TaskKind::MoveToEntity {
            data: MoveToEntity {
                target: TypedEntity::Gate(x.gate_pair.from),
                stop_at_target: false,
                desired_distance_to_target: FloatBits { bits: 0 },
            },
        },
        TaskKind::UseGate {
            data: UseGate {
                progress: FloatBits { bits: 0 },
                traversal_state: GateTraversalState::JustCreated,
                enter_gate: x.gate_pair.from,
                exit_sector: x.exit_sector,
            },
        },
    ]
}

/// The tasks to follow a whole path, step by step.
pub open spec fn follow_path_tasks(path: Seq<PathElement>) -> Seq<TaskKind>
    decreases path.len(),
{
    if path.len() == 0 {
        Seq::empty()
    } else {
        follow_path_tasks(path.drop_last()) + path_element_tasks(path.last())
    }
}

/// Following a path takes two tasks per step.
pub proof fn lemma_follow_path_tasks_len(path: Seq<PathElement>)
    ensures
        follow_path_tasks(path).len() == 2 * path.len(),
    decreases path.len(),
{
    if path.len() > 0 {
        lemma_follow_path_tasks_len(path.drop_last());
    }
}

/// Step `i` of a path becomes tasks `2 * i` (fly to the entry point of the step) and
/// `2 * i + 1` (pass through it into the step's exit sector).
pub proof fn law_follow_path_tasks_pairs(path: Seq<PathElement>, i: int)
    requires
        0 <= i < path.len(),
    ensures
        follow_path_tasks(path).len() == 2 * path.len(),
        follow_path_tasks(path)[2 * i] == path_element_tasks(path[i])[0],
        follow_path_tasks(path)[2 * i + 1] == path_element_tasks(path[i])[1],
    decreases path.len(),
{
    lemma_follow_path_tasks_len(path);
    lemma_follow_path_tasks_len(path.drop_last());
    if i < path.len() - 1 {
        law_follow_path_tasks_pairs(path.drop_last(), i);
    }
}

/// Each step of a path is followed by flying into its entry gate without stopping, then using
/// that gate to reach the step's exit sector.
pub proof fn law_path_steps(path: Seq<PathElement>, i: int)
    requires
        0 <= i < path.len(),
    ensures
        follow_path_tasks(path)[2 * i] == (TaskKind::MoveToEntity {
            data: MoveToEntity {
                target: TypedEntity::Gate(path[i].gate_pair.from),
                stop_at_target: false,
                desired_distance_to_target: FloatBits { bits: 0 },
            },
        }),
        follow_path_tasks(path)[2 * i + 1] == (TaskKind::UseGate {
            data: UseGate {
                progress: FloatBits { bits: 0 },
                traversal_state: GateTraversalState::JustCreated,
                enter_gate: path[i].gate_pair.from,
                exit_sector: path[i].exit_sector,
            },
        }),
{
    law_follow_path_tasks_pairs(path, i);
}

/// Appends the individual tasks required to follow a precalculated path to `queue`.
pub fn create_tasks_to_follow_path(queue: &mut VecDeque<TaskKind>, path: Vec<PathElement>)
    ensures
        final(queue)@ == old(queue)@ + follow_path_tasks(path@),
{
    let n: usize = path.len();
    let mut i: usize = 0;
    while i < n
        invariant
            i <= n,
            n == path@.len(),
            queue@ == old(queue)@ + follow_path_tasks(path@.subrange(0, i as int)),
        decreases n - i,
    {
        let x = path[i];
        queue.push_back(
            TaskKind::MoveToEntity {
                data: MoveToEntity {
                    target: TypedEntity::Gate(x.gate_pair.from),
                    stop_at_target: false,
                    desired_distance_to_target: FloatBits::zero(),
                },
            },
        );
        queue.push_back(TaskKind::UseGate { data: UseGate::new(x.gate_pair.from, x.exit_sector) });
        assert(path@.subrange(0, i + 1).drop_last() =~= path@.subrange(0, i as int));
        i = i + 1;
    }
    assert(path@.subrange(0, n as int) =~= path@);
}

/// The tasks that get a ship from `current_sector` to `target_sector` along `path`; none if
/// it is already there.
pub open spec fn move_to_sector_tasks(
    current_sector: SectorEntity,
    target_sector: SectorEntity,
    path: Seq<PathElement>,
) -> Seq<TaskKind> {
    if target_sector != current_sector {
        follow_path_tasks(path)
    } else {
        Seq::empty()
    }
}

/// A ship already in the target sector needs no movement; otherwise it follows the path, two
/// tasks per step.
pub proof fn law_move_to_sector_tasks(
    current_sector: SectorEntity,
    target_sector: SectorEntity,
    path: Seq<PathElement>,
)
    ensures
        target_sector == current_sector ==> move_to_sector_tasks(
            current_sector,
            target_sector,
            path,
        ).len() == 0,
        target_sector != current_sector ==> move_to_sector_tasks(
            current_sector,
            target_sector,
            path,
        ).len() == 2 * path.len(),
{
    lemma_follow_path_tasks_len(path);
}

/// Appends the tasks needed to move from `current_sector` to `target_sector` to `tasks`.
/// `path` is the path between the two sectors; it is only used if they differ.
pub fn create_move_to_sector_tasks(
    current_sector: SectorEntity,
    target_sector: SectorEntity,
    path: Vec<PathElement>,
    tasks: &mut VecDeque<TaskKind>,
)
    ensures
        final(tasks)@ == old(tasks)@ + move_to_sector_tasks(current_sector, target_sector, path@),
{
    if target_sector != current_sector {
        create_tasks_to_follow_path(tasks, path);
    } else {
        assert(old(tasks)@ + Seq::<TaskKind>::empty() =~= old(tasks)@);
    }
}

/// The tasks to leave whatever the ship is docked at: request to undock, then undock.
pub open spec fn undock_tasks(docked_at: Option<TypedEntity>) -> Seq<TaskKind> {
    match docked_at {
        Some(d) => seq![
            TaskKind::RequestAccess {
                data: RequestAccess { target: d, goal: RequestAccessGoal::Undocking },
            },
            TaskKind::Undock { data: Undock { start_position: None, from: d } },
        ],
        None => Seq::empty(),
    }
}

/// All tasks needed to get from where the plan ends to `target_sector`.
pub open spec fn preconditions_and_move_to_sector(
    status: SectorAndDockingStatus,
    target_sector: SectorEntity,
    path: Seq<PathElement>,
) -> Seq<TaskKind> {
    undock_tasks(status.docked_at) + move_to_sector_tasks(status.sector, target_sector, path)
}

/// Creates all the necessary precondition (undock etc.) and movement tasks to move to a
/// specific sector, starting from where the ship's plan ends (`status`).
/// `path` leads from `status.sector` to `target_sector`.
pub fn create_preconditions_and_move_to_sector(
    status: SectorAndDockingStatus,
    target_sector: SectorEntity,
    path: Vec<PathElement>,
) -> (tasks: VecDeque<TaskKind>)
    ensures
        tasks@ == preconditions_and_move_to_sector(status, target_sector, path@),
{
    let mut new_tasks: VecDeque<TaskKind> = VecDeque::new();
    if let Some(docked_at) = status.docked_at {
        new_tasks.push_back(
            TaskKind::RequestAccess {
                data: RequestAccess { target: docked_at, goal: RequestAccessGoal::Undocking },
            },
        );
        new_tasks.push_back(
            TaskKind::Undock { data: Undock { start_position: None, from: docked_at } },
        );
    }
    assert(new_tasks@ =~= undock_tasks(status.docked_at));
    create_move_to_sector_tasks(status.sector, target_sector, path, &mut new_tasks);
    new_tasks
}

/// The final approach to an entity: stop at the given distance.
pub open spec fn approach_task(target: TypedEntity, distance: FloatBits) -> TaskKind {
    TaskKind::MoveToEntity {
        data: MoveToEntity { target, stop_at_target: true, desired_distance_to_target: distance },
    }
}

/// All tasks needed to get from where the plan ends next to `target`.
pub open spec fn preconditions_and_move_to_entity(
    status: SectorAndDockingStatus,
    target_sector: SectorEntity,
    path: Seq<PathElement>,
    target: TypedEntity,
    docking_distance: FloatBits,
) -> Seq<TaskKind> {
    preconditions_and_move_to_sector(status, target_sector, path).push(
        approach_task(target, docking_distance),
    )
}

/// Creates all the necessary precondition (undock etc.) and movement tasks to move to a
/// specific entity that currently is in `target_sector`; the ship stops at
/// `docking_distance` from it.
pub fn create_preconditions_and_move_to_entity(
    status: SectorAndDockingStatus,
    target_sector: SectorEntity,
    path: Vec<PathElement>,
    target: TypedEntity,
    docking_distance: FloatBits,
) -> (tasks: VecDeque<TaskKind>)
    ensures
        tasks@ == preconditions_and_move_to_entity(
            status,
            target_sector,
            path@,
            target,
            docking_distance,
        ),
{
    let mut new_tasks = create_preconditions_and_move_to_sector(status, target_sector, path);
    new_tasks.push_back(
        TaskKind::MoveToEntity {
            data: MoveToEntity {
                target,
                stop_at_target: true,
                desired_distance_to_target: docking_distance,
            },
        },
    );
    new_tasks
}

/// All tasks needed to dock at `target`; none if the ship is docked there right now.
pub open spec fn preconditions_and_dock_at_entity(
    currently_docked_at: Option<TypedEntity>,
    status: SectorAndDockingStatus,
    target_sector: SectorEntity,
    path: Seq<PathElement>,
    target: TypedEntity,
    docking_distance: FloatBits,
) -> Seq<TaskKind> {
    if currently_docked_at == Some(target) {
        Seq::empty()
    } else {
        preconditions_and_move_to_entity(
            status,
            target_sector,
            path,
            target,
            docking_distance,
        ).push(
            TaskKind::RequestAccess {
                data: RequestAccess { target, goal: RequestAccessGoal::Docking },
            },
        ).push(TaskKind::DockAtEntity { data: DockAtEntity { target } })
    }
}

/// A docking plan is empty exactly when the ship is docked at the target right now. Otherwise
/// it starts by leaving the station the plan ends at (if any), ends by approaching the target,
/// asking it for a docking slot and docking.
pub proof fn law_docking_plan(
    currently_docked_at: Option<TypedEntity>,
    status: SectorAndDockingStatus,
    target_sector: SectorEntity,
    path: Seq<PathElement>,
    target: TypedEntity,
    docking_distance: FloatBits,
)
    ensures
        ({
            let t = preconditions_and_dock_at_entity(
                currently_docked_at,
                status,
                target_sector,
                path,
                target,
                docking_distance,
            );
            &&& (t.len() == 0 <==> currently_docked_at == Some(target))
            &&& currently_docked_at != Some(target) ==> {
                &&& t.len() >= 3
                &&& t[t.len() - 1] == TaskKind::DockAtEntity { data: DockAtEntity { target } }
                &&& t[t.len() - 2] == TaskKind::RequestAccess {
                    data: RequestAccess { target, goal: RequestAccessGoal::Docking },
                }
                &&& t[t.len() - 3] == TaskKind::MoveToEntity {
                    data: MoveToEntity {
                        target,
                        stop_at_target: true,
                        desired_distance_to_target: docking_distance,
                    },
                }
                &&& status.docked_at matches Some(from) ==> {
                    &&& t[0] == TaskKind::RequestAccess {
                        data: RequestAccess { target: from, goal: RequestAccessGoal::Undocking },
                    }
                    &&& t[1] == TaskKind::Undock { data: Undock { start_position: None, from } }
                }
            }
        }),
{
    if currently_docked_at != Some(target) {
        let m = preconditions_and_move_to_entity(
            status,
            target_sector,
            path,
            target,
            docking_distance,
        );
        let u = undock_tasks(status.docked_at);
        let s = move_to_sector_tasks(status.sector, target_sector, path);
        assert(m == (u + s).push(approach_task(target, docking_distance)));
        if status.docked_at is Some {
            assert(m[0] == u[0]);
            assert(m[1] == u[1]);
        }
    }
}

/// Moving to a sector starts by leaving the station the plan ends at, if any; a ship whose
/// plan does not end docked starts moving right away.
pub proof fn law_move_to_sector_undocks_first(
    status: SectorAndDockingStatus,
    target_sector: SectorEntity,
    path: Seq<PathElement>,
)
    ensures
        ({
            let t = preconditions_and_move_to_sector(status, target_sector, path);
            &&& status.docked_at matches Some(from) ==> {
                &&& t.len() >= 2
                &&& t[0] == TaskKind::RequestAccess {
                    data: RequestAccess { target: from, goal: RequestAccessGoal::Undocking },
                }
                &&& t[1] == TaskKind::Undock { data: Undock { start_position: None, from } }
            }
            &&& status.docked_at is None ==> t == move_to_sector_tasks(
                status.sector,
                target_sector,
                path,
            )
        }),
{
    let u = undock_tasks(status.docked_at);
    let s = move_to_sector_tasks(status.sector, target_sector, path);
    if status.docked_at is None {
        assert(u + s =~= s);
    }
}

/// Creates all the necessary precondition (undock etc.), movement and docking tasks to dock
/// at a specific entity. `currently_docked_at` is what the ship is docked at right now.
pub fn create_preconditions_and_dock_at_entity(
    currently_docked_at: Option<TypedEntity>,
    status: SectorAndDockingStatus,
    target_sector: SectorEntity,
    path: Vec<PathElement>,
    target: TypedEntity,
    docking_distance: FloatBits,
) -> (tasks: VecDeque<TaskKind>)
    ensures
        tasks@ == preconditions_and_dock_at_entity(
            currently_docked_at,
            status,
            target_sector,
            path@,
            target,
            docking_distance,
        ),
{
    if let Some(docked) = currently_docked_at {
        if docked == target {
            return VecDeque::new();
        }
    }
    let mut new_tasks = create_preconditions_and_move_to_entity(
        status,
        target_sector,
        path,
        target,
        docking_distance,
    );
    new_tasks.push_back(
        TaskKind::RequestAccess { data: RequestAccess { target, goal: RequestAccessGoal::Docking } },
    );
    new_tasks.push_back(TaskKind::DockAtEntity { data: DockAtEntity { target } });
    new_tasks
}

} // verus!
