use ship_ai::entity::{
    AsteroidEntity, CelestialEntity, ConstructionSiteEntity, Entity, GateEntity, SectorEntity,
    StationEntity, TypedEntity,
};
use ship_ai::path_element::{GatePairInSector, PathElement};
use ship_ai::ship_tasks::{
    Construct, DockAtEntity, ExchangeWareData, ExchangeWares, FloatBits, GateTraversalState,
    HarvestGas, ItemId, MineAsteroid, MoveToEntity, MoveToSector, RequestAccess,
    RequestAccessGoal, TaskKind, Undock, UseGate,
};
use ship_ai::task_creation::{
    TaskCreationErrorReason, create_construct_tasks, create_exchange_wares_tasks,
    create_harvest_gas_tasks, create_mine_asteroid_tasks, create_move_to_sector_command_tasks,
    create_request_access_tasks, inventory_error_reason,
};
use ship_ai::tasks::exchange_wares::{TradeIntent, TradeOrder};
use ship_ai::task_preconditions::{
    SectorAndDockingStatus, SectorSource, TaskEnd, create_preconditions_and_dock_at_entity,
    create_preconditions_and_move_to_sector, create_tasks_to_follow_path,
    get_task_end_sector_and_position, task_determining_start,
};
use ship_ai::task_queue::TaskQueue;
use std::collections::VecDeque;

fn e(row: u32) -> Entity {
    Entity::from_bits(bevy::ecs::entity::Entity::from_raw_u32(row).unwrap().to_bits())
}

fn path_step(from_gate: u32, to_gate: u32, exit_sector: u32) -> PathElement {
    PathElement::new(
        SectorEntity(e(exit_sector)),
        GatePairInSector { from: GateEntity(e(from_gate)), to: GateEntity(e(to_gate)) },
    )
}

fn fly_to_gate(gate: u32) -> TaskKind {
    TaskKind::MoveToEntity {
        data: MoveToEntity {
            target: TypedEntity::Gate(GateEntity(e(gate))),
            stop_at_target: false,
            desired_distance_to_target: FloatBits { bits: 0 },
        },
    }
}

fn use_gate(gate: u32, exit_sector: u32) -> TaskKind {
    TaskKind::UseGate {
        data: UseGate {
            progress: FloatBits { bits: 0.0f32.to_bits() },
            traversal_state: GateTraversalState::JustCreated,
            enter_gate: GateEntity(e(gate)),
            exit_sector: SectorEntity(e(exit_sector)),
        },
    }
}

#[test]
fn following_a_path_adds_two_tasks_per_step() {
    let mut queue: VecDeque<TaskKind> = VecDeque::new();
    create_tasks_to_follow_path(&mut queue, vec![path_step(10, 11, 2), path_step(12, 13, 3)]);
    assert_eq!(
        queue,
        VecDeque::from(vec![fly_to_gate(10), use_gate(10, 2), fly_to_gate(12), use_gate(12, 3)])
    );
}

#[test]
fn docked_ship_undocks_before_moving_to_another_sector() {
    let station = TypedEntity::Station(StationEntity(e(5)));
    let status = SectorAndDockingStatus { docked_at: Some(station), sector: SectorEntity(e(1)) };
    let tasks = create_preconditions_and_move_to_sector(status, SectorEntity(e(2)), vec![path_step(10, 11, 2)]);
    assert_eq!(
        tasks,
        VecDeque::from(vec![
            TaskKind::RequestAccess { data: RequestAccess { target: station, goal: RequestAccessGoal::Undocking } },
            TaskKind::Undock { data: Undock { start_position: None, from: station } },
            fly_to_gate(10),
            use_gate(10, 2),
        ])
    );
}

#[test]
fn ship_already_in_target_sector_needs_no_path() {
    let status = SectorAndDockingStatus { docked_at: None, sector: SectorEntity(e(1)) };
    let tasks = create_preconditions_and_move_to_sector(status, SectorEntity(e(1)), vec![path_step(10, 11, 2)]);
    assert!(tasks.is_empty());
}

#[test]
fn docking_where_already_docked_needs_no_tasks() {
    let station = TypedEntity::Station(StationEntity(e(5)));
    let status = SectorAndDockingStatus { docked_at: Some(station), sector: SectorEntity(e(1)) };
    let tasks = create_preconditions_and_dock_at_entity(
        Some(station),
        status,
        SectorEntity(e(1)),
        vec![],
        station,
        FloatBits { bits: 7 },
    );
    assert!(tasks.is_empty());
}

#[test]
fn trading_with_a_station_in_the_same_sector_docks_first() {
    let station = TypedEntity::Station(StationEntity(e(5)));
    let status = SectorAndDockingStatus { docked_at: None, sector: SectorEntity(e(1)) };
    let trade = ExchangeWares::new(station, ExchangeWareData::Sell(ItemId { id: 3 }, 4));
    let plan = create_exchange_wares_tasks(e(9), true, true, None, status, SectorEntity(e(1)), vec![], FloatBits { bits: 7 }, trade)
        .unwrap();
    assert_eq!(plan.ship_order, TradeOrder { item_id: ItemId { id: 3 }, intent: TradeIntent::Sell, amount: 4 });
    assert_eq!(plan.partner_order, TradeOrder { item_id: ItemId { id: 3 }, intent: TradeIntent::Buy, amount: 4 });
    assert_eq!(
        plan.tasks,
        VecDeque::from(vec![
            TaskKind::MoveToEntity {
                data: MoveToEntity { target: station, stop_at_target: true, desired_distance_to_target: FloatBits { bits: 7 } },
            },
            TaskKind::RequestAccess { data: RequestAccess { target: station, goal: RequestAccessGoal::Docking } },
            TaskKind::DockAtEntity { data: DockAtEntity { target: station } },
            TaskKind::ExchangeWares { data: trade },
        ])
    );
}

#[test]
fn trading_without_both_inventories_is_refused() {
    let station = TypedEntity::Station(StationEntity(e(5)));
    let status = SectorAndDockingStatus { docked_at: None, sector: SectorEntity(e(1)) };
    let trade = ExchangeWares::new(station, ExchangeWareData::Buy(ItemId { id: 3 }, 4));
    let error = create_exchange_wares_tasks(e(9), true, false, None, status, SectorEntity(e(1)), vec![], FloatBits { bits: 7 }, trade)
        .err()
        .unwrap();
    assert_eq!(error.entity, e(9));
    assert_eq!(error.reason, TaskCreationErrorReason::TargetNotFound);
}

#[test]
fn harvesting_requests_an_orbit_before_harvesting() {
    let planet = CelestialEntity(e(6));
    let status = SectorAndDockingStatus { docked_at: None, sector: SectorEntity(e(1)) };
    let data = HarvestGas::new(planet, ItemId { id: 9 });
    let tasks = create_harvest_gas_tasks(status, SectorEntity(e(1)), vec![], FloatBits { bits: 1 }, data);
    assert_eq!(tasks.len(), 3);
    assert_eq!(
        tasks[1],
        TaskKind::RequestAccess {
            data: RequestAccess { target: TypedEntity::Celestial(planet), goal: RequestAccessGoal::PlanetOrbit },
        }
    );
    assert_eq!(tasks[2], TaskKind::HarvestGas { data });
}

#[test]
fn construct_and_mine_end_with_their_own_task() {
    let status = SectorAndDockingStatus { docked_at: None, sector: SectorEntity(e(1)) };
    let site = Construct { target: ConstructionSiteEntity(e(8)) };
    let tasks = create_construct_tasks(status, SectorEntity(e(2)), vec![path_step(10, 11, 2)], FloatBits { bits: 1 }, site);
    assert_eq!(tasks.len(), 4);
    assert_eq!(tasks[3], TaskKind::Construct { data: site });

    let mine = MineAsteroid::new(AsteroidEntity(e(9)), 20);
    let tasks = create_mine_asteroid_tasks(status, SectorEntity(e(1)), vec![], FloatBits { bits: 1 }, mine);
    assert_eq!(tasks.len(), 2);
    assert_eq!(tasks[1], TaskKind::MineAsteroid { data: mine });
}

#[test]
fn moving_to_a_sector_adds_no_final_task() {
    let status = SectorAndDockingStatus { docked_at: None, sector: SectorEntity(e(1)) };
    let tasks = create_move_to_sector_command_tasks(
        status,
        vec![path_step(10, 11, 2)],
        MoveToSector { sector: SectorEntity(e(2)) },
    );
    assert_eq!(tasks, VecDeque::from(vec![fly_to_gate(10), use_gate(10, 2)]));
}

#[test]
fn access_requests_cannot_be_commanded() {
    let station = TypedEntity::Station(StationEntity(e(5)));
    let result = create_request_access_tasks(e(1), RequestAccess { target: station, goal: RequestAccessGoal::Docking });
    let error = result.unwrap_err();
    assert_eq!(error.reason, TaskCreationErrorReason::CreationOfThisTaskIsNotSupported);
    assert_eq!(error.entity, e(1));
}

#[test]
fn inventory_error_reasons() {
    assert_eq!(inventory_error_reason(false, false), TaskCreationErrorReason::BothNotFound);
    assert_eq!(inventory_error_reason(false, true), TaskCreationErrorReason::OwnEntityNotFound);
    assert_eq!(inventory_error_reason(true, false), TaskCreationErrorReason::TargetNotFound);
    assert_eq!(inventory_error_reason(true, true), TaskCreationErrorReason::UnspecifiedError);
}

#[test]
fn task_ends() {
    let station = TypedEntity::Station(StationEntity(e(5)));
    let dock = TaskKind::DockAtEntity { data: DockAtEntity { target: station } };
    assert_eq!(
        get_task_end_sector_and_position(&dock),
        TaskEnd { docked_at: Some(station), sector: SectorSource::SectorOf(e(5)) }
    );
    assert_eq!(
        get_task_end_sector_and_position(&use_gate(10, 2)),
        TaskEnd { docked_at: None, sector: SectorSource::Known(SectorEntity(e(2))) }
    );
    assert_eq!(
        get_task_end_sector_and_position(&fly_to_gate(10)),
        TaskEnd { docked_at: None, sector: SectorSource::SectorOf(e(10)) }
    );
}

#[test]
fn last_queued_task_determines_where_new_tasks_start() {
    let queue = TaskQueue { queue: vec![fly_to_gate(10), use_gate(10, 2)].into(), active_task: Some(fly_to_gate(3)) };
    assert_eq!(task_determining_start(&queue), Some(use_gate(10, 2)));
    let queue = TaskQueue { queue: VecDeque::new(), active_task: Some(fly_to_gate(3)) };
    assert_eq!(task_determining_start(&queue), Some(fly_to_gate(3)));
    assert_eq!(task_determining_start(&TaskQueue::new()), None);
}
