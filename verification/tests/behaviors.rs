use ship_ai::auto_mine_state::AutoMineState;
use ship_ai::behaviors::{
    AsteroidCandidate, IdleAction, closest_minable_asteroid, first_minimum, handle_idle_ship, is_due_for_idle_update, max_asteroid_age,
    retry_after_failed_sale,
};
use ship_ai::entity::{Entity, SectorEntity};
use ship_ai::ship_tasks::SimulationTimestamp;

fn e(row: u32) -> Entity {
    Entity::from_bits(bevy::ecs::entity::Entity::from_raw_u32(row).unwrap().to_bits())
}

fn at(ms: u64) -> SimulationTimestamp {
    SimulationTimestamp { milliseconds: ms }
}

#[test]
fn full_miner_switches_to_trading() {
    let mut state = AutoMineState::Mining;
    state.flip_task_depending_on_inventory(50, 0);
    assert_eq!(state, AutoMineState::Trading);
}

#[test]
fn empty_trader_switches_to_mining() {
    let mut state = AutoMineState::Trading;
    state.flip_task_depending_on_inventory(0, 100);
    assert_eq!(state, AutoMineState::Mining);
}

#[test]
fn states_stay_otherwise() {
    let mut state = AutoMineState::Mining;
    state.flip_task_depending_on_inventory(0, 1);
    assert_eq!(state, AutoMineState::Mining);
    let mut state = AutoMineState::Trading;
    state.flip_task_depending_on_inventory(1, 0);
    assert_eq!(state, AutoMineState::Trading);
}

#[test]
fn idle_miner_gathers_then_moves_then_waits() {
    let mut state = AutoMineState::Mining;
    assert_eq!(handle_idle_ship(&mut state, at(100), 0, 10, Some(e(4)), Some(SectorEntity(e(5)))), IdleAction::Gather(e(4)));
    assert_eq!(handle_idle_ship(&mut state, at(100), 0, 10, None, Some(SectorEntity(e(5)))), IdleAction::MoveToSector(SectorEntity(e(5))));
    assert_eq!(handle_idle_ship(&mut state, at(100), 0, 10, None, None), IdleAction::RetryAt(at(2100)));
}

#[test]
fn full_idle_miner_sells() {
    let mut state = AutoMineState::Mining;
    assert_eq!(handle_idle_ship(&mut state, at(0), 10, 0, Some(e(4)), None), IdleAction::Sell);
    assert_eq!(state, AutoMineState::Trading);
}

#[test]
fn closest_candidate_is_the_first_minimum() {
    assert_eq!(first_minimum(&vec![]), None);
    assert_eq!(first_minimum(&vec![5, 3, 8, 3]), Some(1));
    assert_eq!(first_minimum(&vec![7]), Some(0));
}

#[test]
fn timing_helpers() {
    assert_eq!(max_asteroid_age(at(1000)), at(16000));
    assert_eq!(retry_after_failed_sale(at(1000)), at(3000));
    assert!(is_due_for_idle_update(at(10), at(10)));
    assert!(!is_due_for_idle_update(at(9), at(10)));
}

#[test]
fn miners_skip_asteroids_about_to_leave() {
    let max_age = at(15000);
    let asteroids = vec![
        AsteroidCandidate { entity: e(1), despawn_at: at(15000), distance_squared: 1 },
        AsteroidCandidate { entity: e(2), despawn_at: at(20000), distance_squared: 9 },
        AsteroidCandidate { entity: e(3), despawn_at: at(30000), distance_squared: 4 },
        AsteroidCandidate { entity: e(4), despawn_at: at(30000), distance_squared: 4 },
    ];
    assert_eq!(closest_minable_asteroid(&asteroids, max_age), Some(e(3)));
    assert_eq!(closest_minable_asteroid(&asteroids[..1].to_vec(), max_age), None);
    assert_eq!(closest_minable_asteroid(&Vec::new(), max_age), None);
}
