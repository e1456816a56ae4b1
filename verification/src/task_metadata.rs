//! Where tasks lead a ship: the position a task aims at, as far as the task itself says.
use crate::entity::{Entity, typed_entity_inner};
use crate::ship_tasks::{TaskKind, Vec2Bits};
use crate::task_queue::TaskQueue;
use vstd::prelude::*;

verus! {

/// Where the target position of a task comes from.
#[derive(PartialEq, Eq, Structural, Copy, Clone, Debug)]
pub enum TargetPositionSource {
    /// The task does not aim at a position.
    NoTarget,
    /// The task aims at the given position.
    Position(Vec2Bits),
    /// The task aims at the current position of an entity.
    EntityPosition(Entity),
}

/// Where the target position of a task comes from.
pub open spec fn target_position_source_of(task: TaskKind) -> TargetPositionSource {
    match task {
        TaskKind::MoveToEntity { data } => TargetPositionSource::EntityPosition(
            typed_entity_inner(data.target),
        ),
        TaskKind::MoveToPosition { data } => TargetPositionSource::Position(data.global_position),
        TaskKind::UseGate { data } => TargetPositionSource::EntityPosition(data.enter_gate.0),
        TaskKind::MineAsteroid { data } => TargetPositionSource::EntityPosition(data.target.0),
        TaskKind::HarvestGas { data } => TargetPositionSource::EntityPosition(data.target.0),
        TaskKind::DockAtEntity { data } => TargetPositionSource::EntityPosition(
            typed_entity_inner(data.target),
        ),
        TaskKind::Construct { data } => TargetPositionSource::EntityPosition(data.target.0),
        _ => TargetPositionSource::NoTarget,
    }
}

/// Tasks that move to, mine, harvest, dock at or build at an entity, or pass through gates, aim at
/// that entity (the entry gate); moving to a position aims at it; all other tasks aim nowhere.
pub proof fn law_target_position_sources(task: TaskKind)
    ensures
        task matches TaskKind::MoveToEntity { data } ==> target_position_source_of(task)
            == TargetPositionSource::EntityPosition(typed_entity_inner(data.target)),
        task matches TaskKind::DockAtEntity { data } ==> target_position_source_of(task)
            == TargetPositionSource::EntityPosition(typed_entity_inner(data.target)),
        task matches TaskKind::MoveToPosition { data } ==> target_position_source_of(task)
            == TargetPositionSource::Position(data.global_position),
        task matches TaskKind::UseGate { data } ==> target_position_source_of(task)
            == TargetPositionSource::EntityPosition(data.enter_gate.0),
        task matches TaskKind::MineAsteroid { data } ==> target_position_source_of(task)
            == TargetPositionSource::EntityPosition(data.target.0),
        task matches TaskKind::HarvestGas { data } ==> target_position_source_of(task)
            == TargetPositionSource::EntityPosition(data.target.0),
        task matches TaskKind::Construct { data } ==> target_position_source_of(task)
            == TargetPositionSource::EntityPosition(data.target.0),
        (task is ExchangeWares || task is MoveToSector || task is AwaitingSignal
            || task is RequestAccess || task is Undock) ==> target_position_source_of(task)
            == TargetPositionSource::NoTarget,
{
}

/// Where the target position of `task` comes from. Trades, sector moves, signals, access
/// requests and undocking do not aim at a position.
pub fn determine_task_target_position(task: &TaskKind) -> (source: TargetPositionSource)
    ensures
        source == target_position_source_of(*task),
{
    match task {
        TaskKind::ExchangeWares { .. } => TargetPositionSource::NoTarget,
        TaskKind::MoveToEntity { data } => TargetPositionSource::EntityPosition(
            data.target.entity(),
        ),
        TaskKind::MoveToPosition { data } => TargetPositionSource::Position(data.global_position),
        TaskKind::MoveToSector { .. } => TargetPositionSource::NoTarget,
        TaskKind::UseGate { data } => TargetPositionSource::EntityPosition(data.enter_gate.0),
        TaskKind::MineAsteroid { data } => TargetPositionSource::EntityPosition(data.target.0),
        TaskKind::HarvestGas { data } => TargetPositionSource::EntityPosition(data.target.0),
        TaskKind::AwaitingSignal { .. } => TargetPositionSource::NoTarget,
        TaskKind::RequestAccess { .. } => TargetPositionSource::NoTarget,
        TaskKind::DockAtEntity { data } => TargetPositionSource::EntityPosition(
            data.target.entity(),
        ),
        TaskKind::Undock { .. } => TargetPositionSource::NoTarget,
        TaskKind::Construct { data } => TargetPositionSource::EntityPosition(data.target.0),
    }
}

/// The target position sources of all queued tasks, in queue order; the first one that can
/// be resolved to a position is where an undocking ship turns to.
pub fn target_position_sources_in_queue(task_queue: &TaskQueue) -> (sources: Vec<
    TargetPositionSource,
>)
    ensures
        sources@.len() == task_queue.queue@.len(),
        forall|i: int|
            0 <= i < sources@.len() ==> #[trigger] sources@[i] == target_position_source_of(
                task_queue.queue@[i],
            ),
{
    let mut sources: Vec<TargetPositionSource> = Vec::new();
    let n: usize = task_queue.queue.len();
    let mut i: usize = 0;
    while i < n
        invariant
            i <= n,
            n == task_queue.queue@.len(),
            sources@.len() == i,
            forall|k: int|
                0 <= k < i ==> #[trigger] sources@[k] == target_position_source_of(
                    task_queue.queue@[k],
                ),
        decreases n - i,
    {
        sources.push(determine_task_target_position(&task_queue.queue[i]));
        i = i + 1;
    }
    sources
}

} // verus!
