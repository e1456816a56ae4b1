use ship_ai::entity::{Entity, ShipEntity, StationEntity, TypedEntity};
use ship_ai::ship_tasks::{
    Construct, FloatBits, MoveToEntity, MoveToSector, RequestAccess, RequestAccessGoal, TaskKind,
    TaskKindTag, Undock,
};
use ship_ai::entity::{ConstructionSiteEntity, SectorEntity};
use ship_ai::task_queue::{
    ActiveCancellation, InQueueCancellation, TaskInsertionMode, TaskQueue, apply_next_task,
    apply_tasks, cancel_active_task, cancel_tasks_in_queue,
};
use std::collections::VecDeque;

fn mock_entity(row: u32) -> Entity {
    Entity::from_bits(bevy::ecs::entity::Entity::from_raw_u32(row).unwrap().to_bits())
}

fn undock_from_station(row: u32) -> TaskKind {
    TaskKind::Undock {
        data: Undock { start_position: None, from: TypedEntity::Station(StationEntity(mock_entity(row))) },
    }
}

fn move_to_ship(row: u32) -> TaskKind {
    TaskKind::MoveToEntity {
        data: MoveToEntity {
            desired_distance_to_target: FloatBits { bits: 0.0f32.to_bits() },
            target: TypedEntity::Ship(ShipEntity(mock_entity(row))),
            stop_at_target: true,
        },
    }
}

fn move_to_sector(row: u32) -> TaskKind {
    TaskKind::MoveToSector { data: MoveToSector { sector: SectorEntity(mock_entity(row)) } }
}

fn request_docking(row: u32) -> TaskKind {
    TaskKind::RequestAccess {
        data: RequestAccess {
            target: TypedEntity::Station(StationEntity(mock_entity(row))),
            goal: RequestAccessGoal::Docking,
        },
    }
}

#[test]
fn applying_empty_queue_should_set_active_task_to_none() {
    let mut to_test = TaskQueue { queue: VecDeque::default(), active_task: Some(undock_from_station(1)) };
    let started = apply_next_task(&mut to_test);

    assert!(to_test.active_task.is_none());
    assert!(started.is_none());
}

#[test]
fn applying_filled_queue_should_set_active_task_to_first() {
    let mut to_test = TaskQueue {
        queue: vec![undock_from_station(1), move_to_ship(1)].into(),
        active_task: None,
    };
    let started = apply_next_task(&mut to_test);

    assert!(matches!(to_test.active_task, Some(TaskKind::Undock { .. })));
    assert!(matches!(to_test.queue.front(), Some(TaskKind::MoveToEntity { .. })));
    assert_eq!(started, Some(undock_from_station(1)));
    assert_eq!(to_test.queue.len(), 1);
}

#[test]
fn appending_to_idle_queue_starts_first_new_task() {
    let mut queue = TaskQueue::new();
    let started = apply_tasks(
        vec![move_to_sector(1), move_to_sector(2)].into(),
        TaskInsertionMode::Append,
        &mut queue,
    );
    assert_eq!(started, Some(move_to_sector(1)));
    assert_eq!(queue.active_task, Some(move_to_sector(1)));
    assert_eq!(queue.queue, VecDeque::from(vec![move_to_sector(2)]));
}

#[test]
fn appending_to_busy_queue_keeps_active_task() {
    let mut queue = TaskQueue { queue: vec![move_to_sector(2)].into(), active_task: Some(move_to_sector(1)) };
    let started = apply_tasks(vec![move_to_sector(3)].into(), TaskInsertionMode::Append, &mut queue);
    assert_eq!(started, None);
    assert_eq!(queue.active_task, Some(move_to_sector(1)));
    assert_eq!(queue.queue, VecDeque::from(vec![move_to_sector(2), move_to_sector(3)]));
}

#[test]
fn prepending_to_idle_queue_puts_new_tasks_first_in_order() {
    let mut queue = TaskQueue { queue: vec![move_to_sector(9)].into(), active_task: None };
    let started = apply_tasks(
        vec![move_to_sector(1), move_to_sector(2)].into(),
        TaskInsertionMode::Prepend,
        &mut queue,
    );
    assert_eq!(started, Some(move_to_sector(1)));
    assert_eq!(queue.queue, VecDeque::from(vec![move_to_sector(2), move_to_sector(9)]));
}

#[test]
fn cancelling_in_queue_removes_task_and_all_following() {
    let mut queue = TaskQueue {
        queue: vec![move_to_sector(1), move_to_sector(2), move_to_sector(3)].into(),
        active_task: Some(move_to_ship(5)),
    };
    let outcome = cancel_tasks_in_queue(&mut queue, 1);
    match outcome {
        InQueueCancellation::Cancelled(removed) => {
            assert_eq!(removed, VecDeque::from(vec![move_to_sector(2), move_to_sector(3)]))
        }
        InQueueCancellation::RequestCancellationWhileActive => panic!("unexpected outcome"),
    }
    assert_eq!(queue.queue, VecDeque::from(vec![move_to_sector(1)]));
    assert_eq!(queue.active_task, Some(move_to_ship(5)));
}

#[test]
fn cancelling_in_queue_also_removes_preceding_access_request() {
    let mut queue = TaskQueue {
        queue: vec![move_to_sector(1), request_docking(2), move_to_sector(3)].into(),
        active_task: None,
    };
    match cancel_tasks_in_queue(&mut queue, 2) {
        InQueueCancellation::Cancelled(removed) => {
            assert_eq!(removed, VecDeque::from(vec![request_docking(2), move_to_sector(3)]))
        }
        InQueueCancellation::RequestCancellationWhileActive => panic!("unexpected outcome"),
    }
    assert_eq!(queue.queue, VecDeque::from(vec![move_to_sector(1)]));
}

#[test]
fn cancelling_from_start_during_access_request_asks_for_active_cancellation() {
    let mut queue = TaskQueue { queue: vec![move_to_sector(1)].into(), active_task: Some(request_docking(2)) };
    let outcome = cancel_tasks_in_queue(&mut queue, 0);
    assert!(matches!(outcome, InQueueCancellation::RequestCancellationWhileActive));
    assert_eq!(queue.queue.len(), 1);
}

#[test]
fn cancelling_active_task_clears_everything() {
    let mut queue = TaskQueue {
        queue: vec![move_to_sector(2), move_to_sector(3)].into(),
        active_task: Some(move_to_sector(1)),
    };
    match cancel_active_task(&mut queue) {
        ActiveCancellation::Cancelled { active, queued } => {
            assert_eq!(active, move_to_sector(1));
            assert_eq!(queued, VecDeque::from(vec![move_to_sector(2), move_to_sector(3)]));
        }
        _ => panic!("unexpected outcome"),
    }
    assert!(queue.queue.is_empty());
    assert!(queue.active_task.is_none());
}

#[test]
fn active_undock_cannot_be_cancelled() {
    let mut queue = TaskQueue { queue: vec![move_to_sector(2)].into(), active_task: Some(undock_from_station(1)) };
    assert!(matches!(cancel_active_task(&mut queue), ActiveCancellation::NotCancellable));
    assert_eq!(queue.queue.len(), 1);
    assert_eq!(queue.active_task, Some(undock_from_station(1)));
}

#[test]
fn cancelling_without_active_task_does_nothing() {
    let mut queue = TaskQueue::new();
    assert!(matches!(cancel_active_task(&mut queue), ActiveCancellation::NoActiveTask));
}

#[test]
fn cancellation_table_matches_task_kinds() {
    assert!(TaskKindTag::Construct.can_task_be_cancelled_while_active());
    assert!(TaskKindTag::MoveToSector.can_task_be_cancelled_while_active());
    assert!(!TaskKindTag::RequestAccess.can_task_be_cancelled_while_active());
    assert!(!TaskKindTag::UseGate.can_task_be_cancelled_while_active());
    let construct = TaskKind::Construct {
        data: Construct { target: ConstructionSiteEntity(mock_entity(4)) },
    };
    assert!(construct.can_task_be_cancelled_while_active());
    assert_eq!(construct.tag(), TaskKindTag::Construct);
}

#[test]
fn kinds_with_cleanup_on_active_cancellation_listen_for_it() {
    assert!(TaskKindTag::Construct.lifecycle_listeners().cancelled_while_active);
    assert!(TaskKindTag::HarvestGas.lifecycle_listeners().cancelled_while_active);
    assert!(TaskKindTag::AwaitingSignal.lifecycle_listeners().cancelled_while_active);
    assert!(!TaskKindTag::MineAsteroid.lifecycle_listeners().cancelled_while_active);
    assert!(!TaskKindTag::MoveToSector.lifecycle_listeners().cancelled_while_active);
    assert!(TaskKindTag::ExchangeWares.lifecycle_listeners().cancelled_in_queue);
}
