//! What idle mining and harvesting ships decide to do next.
use crate::auto_mine_state::{AutoMineState, next_auto_mine_state};
use crate::entity::{Entity, SectorEntity};
use crate::ship_tasks::SimulationTimestamp;
use vstd::prelude::*;

verus! {

/// Milliseconds an idle ship waits before trying again when it found nothing to do.
pub const IDLE_RETRY_DELAY_MILLISECONDS: u64 = 2000;

/// Asteroids that despawn within this many milliseconds are not worth flying to.
pub const MIN_ASTEROID_REMAINING_LIFETIME_MILLISECONDS: u64 = 15000;

/// `i` is the first position holding the smallest key.
pub open spec fn is_first_minimum(keys: Seq<u32>, i: int) -> bool {
    &&& 0 <= i < keys.len()
    &&& forall|j: int| 0 <= j < keys.len() ==> keys[i] <= #[trigger] keys[j]
    &&& forall|j: int| 0 <= j < i ==> keys[i] < #[trigger] keys[j]
}

/// The position of the first smallest key, or `None` for no keys; the candidate a ship picks
/// among candidates ranked by `keys` (such as squared distances).
pub fn first_minimum(keys: &Vec<u32>) -> (r: Option<usize>)
    ensures
        match r {
            Some(i) => is_first_minimum(keys@, i as int),
            None => keys@.len() == 0,
        },
{
    let n: usize = keys.len();
    if n == 0 {
        return None;
    }
    let mut best: usize = 0;
    let mut i: usize = 1;
    while i < n
        invariant
            1 <= i <= n,
            n == keys@.len(),
            best < i,
            forall|j: int| 0 <= j < i ==> keys@[best as int] <= #[trigger] keys@[j],
            forall|j: int| 0 <= j < best ==> keys@[best as int] < #[trigger] keys@[j],
        decreases n - i,
    {
        if keys[i] < keys[best] {
            best = i;
        }
        i = i + 1;
    }
    Some(best)
}

/// An asteroid in a ship's sector, as seen by the ship looking for one to mine.
#[derive(PartialEq, Eq, Structural, Copy, Clone, Debug)]
pub struct AsteroidCandidate {
    pub entity: Entity,
    /// When the asteroid leaves the sector.
    pub despawn_at: SimulationTimestamp,
    /// Squared distance from the ship, rounded down.
    pub distance_squared: u32,
}

/// An asteroid stays long enough to be mined when it despawns after `max_age`.
pub open spec fn is_minable(asteroid: AsteroidCandidate, max_age: SimulationTimestamp) -> bool {
    max_age.milliseconds < asteroid.despawn_at.milliseconds
}

/// `i` is the first of the minable asteroids that lies closest to the ship.
pub open spec fn is_closest_minable(
    asteroids: Seq<AsteroidCandidate>,
    max_age: SimulationTimestamp,
    i: int,
) -> bool {
    &&& 0 <= i < asteroids.len()
    &&& is_minable(asteroids[i], max_age)
    &&& forall|j: int|
        0 <= j < asteroids.len() && is_minable(#[trigger] asteroids[j], max_age)
            ==> asteroids[i].distance_squared <= asteroids[j].distance_squared
    &&& forall|j: int|
        0 <= j < i && is_minable(#[trigger] asteroids[j], max_age)
            ==> asteroids[i].distance_squared < asteroids[j].distance_squared
}

/// The asteroid a mining ship picks in its sector: among those that stay past `max_age`, the
/// closest one, the first of them where several are equally close; `None` where none stays.
pub fn closest_minable_asteroid(
    asteroids: &Vec<AsteroidCandidate>,
    max_age: SimulationTimestamp,
) -> (r: Option<Entity>)
    ensures
        match r {
            Some(e) => exists|i: int|
                is_closest_minable(asteroids@, max_age, i) && #[trigger] asteroids@[i].entity == e,
            None => forall|j: int|
                0 <= j < asteroids@.len() ==> !is_minable(#[trigger] asteroids@[j], max_age),
        },
{
    let n: usize = asteroids.len();
    let mut best: Option<usize> = None;
    let mut i: usize = 0;
    while i < n
        invariant
            i <= n,
            n == asteroids@.len(),
            match best {
                Some(b) => b < i && is_minable(asteroids@[b as int], max_age) && (forall|j: int|
                    0 <= j < i && is_minable(#[trigger] asteroids@[j], max_age)
                        ==> asteroids@[b as int].distance_squared
                        <= asteroids@[j].distance_squared) && (forall|j: int|
                    0 <= j < b && is_minable(#[trigger] asteroids@[j], max_age)
                        ==> asteroids@[b as int].distance_squared
                        < asteroids@[j].distance_squared),
                None => forall|j: int|
                    0 <= j < i ==> !is_minable(#[trigger] asteroids@[j], max_age),
            },
        decreases n - i,
    {
        let candidate = asteroids[i];
        if max_age.has_not_passed(candidate.despawn_at) {
            match best {
                None => {
                    best = Some(i);
                },
                Some(b) => {
                    if candidate.distance_squared < asteroids[b].distance_squared {
                        best = Some(i);
                    }
                },
            }
        }
        i = i + 1;
    }
    match best {
        Some(b) => {
            assert(is_closest_minable(asteroids@, max_age, b as int));
            Some(asteroids[b].entity)
        },
        None => None,
    }
}

/// The latest despawn time at which an asteroid is still too close to leaving to be mined.
pub fn max_asteroid_age(now: SimulationTimestamp) -> (t: SimulationTimestamp)
    requires
        now.milliseconds + MIN_ASTEROID_REMAINING_LIFETIME_MILLISECONDS <= u64::MAX,
    ensures
        t.milliseconds == now.milliseconds + MIN_ASTEROID_REMAINING_LIFETIME_MILLISECONDS,
{
    now.add_milliseconds(MIN_ASTEROID_REMAINING_LIFETIME_MILLISECONDS)
}

/// Whether a ship whose behavior waits until `next_idle_update` is due at `now`.
pub fn is_due_for_idle_update(now: SimulationTimestamp, next_idle_update: SimulationTimestamp) -> (b:
    bool)
    ensures
        b == (next_idle_update.milliseconds <= now.milliseconds),
{
    now.has_passed(next_idle_update)
}

/// What an idle mining or harvesting ship does next.
#[derive(PartialEq, Eq, Structural, Copy, Clone, Debug)]
pub enum IdleAction {
    /// Start gathering from this target in the current sector.
    Gather(Entity),
    /// Fly to this sector, which has something to gather.
    MoveToSector(SectorEntity),
    /// Try to sell the inventory.
    Sell,
    /// Nothing to do; look again at this time.
    RetryAt(SimulationTimestamp),
}

/// The action that follows the flipped state.
pub open spec fn idle_action_of(
    state: AutoMineState,
    now: SimulationTimestamp,
    closest_target: Option<Entity>,
    nearby_sector: Option<SectorEntity>,
) -> IdleAction {
    match state {
        AutoMineState::Mining => match closest_target {
            Some(t) => IdleAction::Gather(t),
            None => match nearby_sector {
                Some(s) => IdleAction::MoveToSector(s),
                None => IdleAction::RetryAt(
                    SimulationTimestamp {
                        milliseconds: (now.milliseconds + IDLE_RETRY_DELAY_MILLISECONDS) as u64,
                    },
                ),
            },
        },
        AutoMineState::Trading => IdleAction::Sell,
    }
}

/// Decides what an idle mining or harvesting ship does: first its state flips according to its
/// inventory, then a miner gathers from the closest target in its sector, else flies to a
/// nearby sector with targets, else waits; a trader sells.
///
/// `closest_target` is the closest suitable target in the ship's sector, `nearby_sector` the
/// nearest other sector with suitable targets.
pub fn handle_idle_ship(
    state: &mut AutoMineState,
    now: SimulationTimestamp,
    used_inventory_space: u32,
    remaining_space_for_target_item: u32,
    closest_target: Option<Entity>,
    nearby_sector: Option<SectorEntity>,
) -> (action: IdleAction)
    requires
        now.milliseconds + IDLE_RETRY_DELAY_MILLISECONDS <= u64::MAX,
    ensures
        *final(state) == next_auto_mine_state(
            *old(state),
            used_inventory_space,
            remaining_space_for_target_item,
        ),
        action == idle_action_of(*final(state), now, closest_target, nearby_sector),
{
    state.flip_task_depending_on_inventory(used_inventory_space, remaining_space_for_target_item);
    match *state {
        AutoMineState::Mining => match closest_target {
            Some(t) => IdleAction::Gather(t),
            None => match nearby_sector {
                Some(s) => IdleAction::MoveToSector(s),
                None => IdleAction::RetryAt(now.add_milliseconds(IDLE_RETRY_DELAY_MILLISECONDS)),
            },
        },
        AutoMineState::Trading => IdleAction::Sell,
    }
}

/// What an idle ship does, by its state after flipping: a miner with a target in its sector
/// gathers from that target, whatever other sectors offer; a miner without one flies to the
/// nearby sector if there is one, and otherwise looks again [IDLE_RETRY_DELAY_MILLISECONDS]
/// later; a trader sells. Only a miner ever gathers, moves or waits.
pub proof fn law_idle_ship_actions(
    state: AutoMineState,
    now: SimulationTimestamp,
    closest_target: Option<Entity>,
    nearby_sector: Option<SectorEntity>,
)
    requires
        now.milliseconds + IDLE_RETRY_DELAY_MILLISECONDS <= u64::MAX,
    ensures
        ({
            let action = idle_action_of(state, now, closest_target, nearby_sector);
            &&& state == AutoMineState::Mining && closest_target is Some ==> action
                == IdleAction::Gather(closest_target.unwrap())
            &&& state == AutoMineState::Mining && closest_target is None && nearby_sector is Some
                ==> action == IdleAction::MoveToSector(nearby_sector.unwrap())
            &&& state == AutoMineState::Mining && closest_target is None && nearby_sector is None
                ==> (action matches IdleAction::RetryAt(t) && t.milliseconds == now.milliseconds
                + 2000)
            &&& state == AutoMineState::Trading ==> action == IdleAction::Sell
        }),
{
}

/// When a ship whose sale attempt at `now` found no buyer looks again.
pub fn retry_after_failed_sale(now: SimulationTimestamp) -> (t: SimulationTimestamp)
    requires
        now.milliseconds + IDLE_RETRY_DELAY_MILLISECONDS <= u64::MAX,
    ensures
        t.milliseconds == now.milliseconds + IDLE_RETRY_DELAY_MILLISECONDS,
{
    now.add_milliseconds(IDLE_RETRY_DELAY_MILLISECONDS)
}

/// A ship that is full of its target item never goes on gathering, and an empty trader
/// never tries to sell.
pub proof fn law_full_miners_trade_and_empty_traders_mine(
    state: AutoMineState,
    used_inventory_space: u32,
    remaining_space_for_target_item: u32,
)
    ensures
        state == AutoMineState::Mining && remaining_space_for_target_item == 0 ==> next_auto_mine_state(
            state,
            used_inventory_space,
            remaining_space_for_target_item,
        ) == AutoMineState::Trading,
        state == AutoMineState::Trading && used_inventory_space == 0 ==> next_auto_mine_state(
            state,
            used_inventory_space,
            remaining_space_for_target_item,
        ) == AutoMineState::Mining,
        state == AutoMineState::Mining && remaining_space_for_target_item != 0 ==> next_auto_mine_state(
            state,
            used_inventory_space,
            remaining_space_for_target_item,
        ) == AutoMineState::Mining,
        state == AutoMineState::Trading && used_inventory_space != 0 ==> next_auto_mine_state(
            state,
            used_inventory_space,
            remaining_space_for_target_item,
        ) == AutoMineState::Trading,
{
}

} // verus!
