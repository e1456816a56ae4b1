use ship_ai::entity::{AsteroidEntity, CelestialEntity, Entity, StationEntity, TypedEntity};
use ship_ai::ship_tasks::{
    ExchangeWareData, ExchangeWares, HarvestGas, ItemId, MineAsteroid, RequestAccess,
    RequestAccessGoal, ShipTask, SimulationTimestamp, TaskKind, AwaitingSignal,
};
use ship_ai::task_queue::TaskQueue;
use ship_ai::task_result::TaskResult;
use ship_ai::tasks::exchange_wares::{
    TradeOrder, TradeIntent, trade_orders, finish_time_for_trade_started_at, run_task,
};
use ship_ai::tasks::harvest_gas::{self, HarvestResult, HarvestStep, first_update_for_task_started_at};
use ship_ai::tasks::mine_asteroid::{self, MiningResult, MiningShip, deduct_mined_ore, run_mining_tick};
use ship_ai::tasks::request_access::{InteractionQueueResult, handle_access_answer};

fn e(row: u32) -> Entity {
    Entity::from_bits(bevy::ecs::entity::Entity::from_raw_u32(row).unwrap().to_bits())
}

fn at(ms: u64) -> SimulationTimestamp {
    SimulationTimestamp { milliseconds: ms }
}

fn started_harvest(next: u64) -> ShipTask<HarvestGas> {
    let mut data = HarvestGas::new(CelestialEntity(e(1)), ItemId { id: 2 });
    data.next_update = Some(at(next));
    ShipTask::new(data)
}

fn started_mining(next: u64) -> ShipTask<MineAsteroid> {
    let mut data = MineAsteroid::new(AsteroidEntity(e(1)), 10);
    data.next_update = Some(at(next));
    ShipTask::new(data)
}

#[test]
fn harvesting_waits_for_its_update() {
    let step = harvest_gas::run(&mut started_harvest(1000), at(999), &mut 0, 50, 10);
    assert_eq!(step, HarvestStep { result: HarvestResult::Skip, harvested_amount: 0 });
}

#[test]
fn harvesting_fills_the_inventory_and_finishes() {
    let step = harvest_gas::run(&mut started_harvest(1000), at(1000), &mut 0, 50, 10);
    assert_eq!(step, HarvestStep { result: HarvestResult::Ongoing, harvested_amount: 10 });
    let step = harvest_gas::run(&mut started_harvest(1000), at(2000), &mut 0, 7, 10);
    assert_eq!(step, HarvestStep { result: HarvestResult::Finished, harvested_amount: 7 });
}

#[test]
fn harvest_tasks_start_unscheduled() {
    let data = HarvestGas::new(CelestialEntity(e(1)), ItemId { id: 2 });
    assert!(data.next_update.is_none());
    assert_eq!(first_update_for_task_started_at(at(500)), at(1500));
}

#[test]
fn mining_takes_the_smallest_limit() {
    assert_eq!(mine_asteroid::run(&mut started_mining(10), at(5), Some(100), &mut 0, 100, 10), MiningResult::Skip);
    assert_eq!(mine_asteroid::run(&mut started_mining(10), at(10), None, &mut 0, 100, 10), MiningResult::Finished { mined_amount: 0 });
    assert_eq!(mine_asteroid::run(&mut started_mining(10), at(10), Some(100), &mut 0, 100, 10), MiningResult::Ongoing { mined_amount: 10 });
    assert_eq!(mine_asteroid::run(&mut started_mining(10), at(10), Some(4), &mut 0, 100, 10), MiningResult::Ongoing { mined_amount: 4 });
    assert_eq!(mine_asteroid::run(&mut started_mining(10), at(10), Some(100), &mut 0, 6, 10), MiningResult::Finished { mined_amount: 6 });
    assert_eq!(mine_asteroid::run(&mut started_mining(10), at(10), Some(0), &mut 0, 6, 10), MiningResult::Finished { mined_amount: 0 });
}

#[test]
fn deducting_ore_reports_exhaustion() {
    let mut ore: u32 = 10;
    assert!(!deduct_mined_ore(&mut ore, 4));
    assert_eq!(ore, 6);
    assert!(deduct_mined_ore(&mut ore, 6));
    assert_eq!(ore, 0);
}

#[test]
fn trades_finish_when_their_time_is_up() {
    let station = TypedEntity::Station(StationEntity(e(3)));
    let mut data = ExchangeWares::new(station, ExchangeWareData::Buy(ItemId { id: 1 }, 5));
    assert_eq!(data.finishes_at, SimulationTimestamp { milliseconds: u64::MAX });
    data.finishes_at = finish_time_for_trade_started_at(at(1000));
    assert_eq!(data.finishes_at, at(3000));
    let task = ShipTask::new(data);
    assert_eq!(run_task(&task, at(2999)), TaskResult::Ongoing);
    assert_eq!(run_task(&task, at(3000)), TaskResult::Finished);
}

#[test]
fn queued_access_request_waits_for_a_signal() {
    let station = TypedEntity::Station(StationEntity(e(3)));
    let request = ShipTask::new(RequestAccess { target: station, goal: RequestAccessGoal::Docking });
    let mut queue = TaskQueue::new();
    handle_access_answer(&request, InteractionQueueResult::ProceedImmediately, &mut queue);
    assert!(queue.queue.is_empty());
    handle_access_answer(&request, InteractionQueueResult::EnteredQueuePleaseAddAwaitingSignalToQueue, &mut queue);
    assert_eq!(queue.queue.front(), Some(&TaskKind::AwaitingSignal { data: AwaitingSignal { from: station } }));
}

#[test]
fn trades_place_and_complete_opposite_orders() {
    let item = ItemId { id: 3 };
    let (ship, partner) = trade_orders(ExchangeWareData::Sell(item, 12));
    assert_eq!(ship, TradeOrder { item_id: item, intent: TradeIntent::Sell, amount: 12 });
    assert_eq!(partner, TradeOrder { item_id: item, intent: TradeIntent::Buy, amount: 12 });
    let (ship, partner) = trade_orders(ExchangeWareData::Buy(item, 5));
    assert_eq!(ship.intent, TradeIntent::Buy);
    assert_eq!(partner.intent, TradeIntent::Sell);
    assert_eq!(partner.amount, 5);
}

#[test]
fn ongoing_mining_schedules_the_next_transfer_one_second_later() {
    let mut task = started_mining(10);
    mine_asteroid::run(&mut task, at(10), Some(100), &mut 0, 100, 10);
    assert_eq!(task.data().next_update, Some(at(1010)));
    let mut task = started_mining(10);
    mine_asteroid::run(&mut task, at(10), Some(100), &mut 0, 6, 10);
    assert_eq!(task.data().next_update, Some(at(10)));
    let mut task = started_mining(10);
    mine_asteroid::run(&mut task, at(5), Some(100), &mut 0, 100, 10);
    assert_eq!(task.data().next_update, Some(at(10)));
}

#[test]
fn ongoing_harvesting_schedules_the_next_update_one_second_later() {
    let mut task = started_harvest(1000);
    harvest_gas::run(&mut task, at(1200), &mut 0, 50, 10);
    assert_eq!(task.data().next_update, Some(at(2000)));
    let mut task = started_harvest(1000);
    harvest_gas::run(&mut task, at(1200), &mut 0, 7, 10);
    assert_eq!(task.data().next_update, Some(at(1000)));
}

#[test]
fn mined_and_harvested_amounts_go_into_the_inventory() {
    let mut held: u32 = 7;
    mine_asteroid::run(&mut started_mining(10), at(10), Some(100), &mut held, 100, 10);
    assert_eq!(held, 17);
    let mut held: u32 = 7;
    mine_asteroid::run(&mut started_mining(10), at(5), Some(100), &mut held, 100, 10);
    assert_eq!(held, 7);
    let mut held: u32 = 3;
    harvest_gas::run(&mut started_harvest(1000), at(1000), &mut held, 4, 10);
    assert_eq!(held, 7);
}

fn mining_ship(row: u32, asteroid: usize, space: u32) -> MiningShip {
    MiningShip {
        entity: e(row),
        task: *started_mining(10).data(),
        asteroid,
        held_ore: 0,
        remaining_space: space,
        amount_per_second: 5,
    }
}

#[test]
fn several_ships_mining_one_asteroid_never_overdraw_it() {
    let mut ore: Vec<u32> = vec![5, 20];
    let mut ships = vec![
        mining_ship(1, 0, 100),
        mining_ship(2, 0, 100),
        mining_ship(3, 1, 3),
        mining_ship(4, 9, 100),
    ];
    let tick = run_mining_tick(&mut ore, &mut ships, at(10));
    assert_eq!(ore, vec![0, 17]);
    assert_eq!(
        tick.results,
        vec![
            MiningResult::Ongoing { mined_amount: 5 },
            MiningResult::Finished { mined_amount: 0 },
            MiningResult::Finished { mined_amount: 3 },
            MiningResult::Finished { mined_amount: 0 },
        ]
    );
    assert_eq!(tick.finished, vec![e(2), e(3), e(4)]);
    assert_eq!(tick.exhausted, vec![0]);
    assert_eq!(ships[0].held_ore, 5);
    assert_eq!(ships[0].remaining_space, 95);
    assert_eq!(ships[0].task.next_update, Some(at(1010)));
    assert_eq!(ships[1].held_ore, 0);
    assert_eq!(ships[2].held_ore, 3);
    assert_eq!(ships[2].remaining_space, 0);
}
