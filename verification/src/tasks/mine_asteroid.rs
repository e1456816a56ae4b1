//! Mining asteroids: once per second the ship takes as much ore as the asteroid still has and
//! its inventory can hold.
use crate::entity::Entity;
use crate::ship_tasks::{MineAsteroid, ShipTask, SimulationTimestamp};
use vstd::prelude::*;

verus! {

/// How one update of a mining task went.
#[derive(PartialEq, Eq, Structural, Copy, Clone, Debug)]
pub enum MiningResult {
    /// The next update is not due yet; nothing happened.
    Skip,
    /// Ore was mined and the task goes on.
    Ongoing { mined_amount: u32 },
    /// The asteroid is gone or exhausted, or the inventory is full.
    Finished { mined_amount: u32 },
}

/// The smallest of three amounts.
pub open spec fn min3_u32(a: u32, b: u32, c: u32) -> u32 {
    let ab = if a < b {
        a
    } else {
        b
    };
    if ab < c {
        ab
    } else {
        c
    }
}

/// Milliseconds between two item transfers of a mining ship.
pub const MILLISECONDS_BETWEEN_UPDATES: u64 = 1000;

/// The task after a step with result `r`: an ongoing step schedules the next transfer one
/// interval after the one that just happened; otherwise the task is unchanged.
pub open spec fn mining_task_after(task: MineAsteroid, r: MiningResult) -> MineAsteroid {
    match r {
        MiningResult::Ongoing { .. } => MineAsteroid {
            next_update: Some(
                SimulationTimestamp {
                    milliseconds: (task.next_update.unwrap().milliseconds
                        + MILLISECONDS_BETWEEN_UPDATES) as u64,
                },
            ),
            ..task
        },
        _ => task,
    }
}

/// The result of one due update of a mining task.
pub open spec fn mining_result(
    asteroid_ore_remaining: Option<u32>,
    remaining_space: u32,
    amount_per_second: u32,
) -> MiningResult {
    match asteroid_ore_remaining {
        None => MiningResult::Finished { mined_amount: 0 },
        Some(ore) => {
            let mined = min3_u32(amount_per_second, remaining_space, ore);
            if ore == 0 || remaining_space == mined {
                MiningResult::Finished { mined_amount: mined }
            } else {
                MiningResult::Ongoing { mined_amount: mined }
            }
        },
    }
}

/// The ore a mining result takes from the asteroid and adds to the ship.
pub open spec fn taken_amount(r: MiningResult) -> u32 {
    match r {
        MiningResult::Skip => 0,
        MiningResult::Ongoing { mined_amount } => mined_amount,
        MiningResult::Finished { mined_amount } => mined_amount,
    }
}

/// One update of a mining task that has started (its next update is scheduled).
/// `asteroid_ore_remaining` is the ore left in the target, `None` if the asteroid no longer
/// exists; `held_ore` is how much of that ore the ship holds and `remaining_space` how much more
/// fits into its inventory. The mined ore goes into the ship's inventory; while mining goes on,
/// the next transfer is scheduled one interval later.
pub fn run(
    task: &mut ShipTask<MineAsteroid>,
    now: SimulationTimestamp,
    asteroid_ore_remaining: Option<u32>,
    held_ore: &mut u32,
    remaining_space: u32,
    amount_per_second: u32,
) -> (r: MiningResult)
    requires
        (old(task)@.next_update is Some),
        old(task)@.next_update.unwrap().milliseconds + MILLISECONDS_BETWEEN_UPDATES <= u64::MAX,
        *old(held_ore) + remaining_space <= u32::MAX,
    ensures
        r == (if now.milliseconds < old(task)@.next_update.unwrap().milliseconds {
            MiningResult::Skip
        } else {
            mining_result(asteroid_ore_remaining, remaining_space, amount_per_second)
        }),
        final(task)@ == mining_task_after(old(task)@, r),
        *final(held_ore) == *old(held_ore) + taken_amount(r),
        taken_amount(r) <= remaining_space,
        asteroid_ore_remaining matches Some(ore) ==> taken_amount(r) <= ore,
{
    let next_update = task.data().next_update.unwrap();
    if now.has_not_passed(next_update) {
        return MiningResult::Skip;
    }
    let ore_remaining = match asteroid_ore_remaining {
        None => {
            return MiningResult::Finished { mined_amount: 0 };
        },
        Some(ore) => ore,
    };
    let limited_by_space = if amount_per_second < remaining_space {
        amount_per_second
    } else {
        remaining_space
    };
    let mined_amount = if limited_by_space < ore_remaining {
        limited_by_space
    } else {
        ore_remaining
    };
    *held_ore = *held_ore + mined_amount;
    if ore_remaining == 0 || remaining_space == mined_amount {
        MiningResult::Finished { mined_amount }
    } else {
        let data = task.data_mut();
        data.next_update = Some(next_update.add_milliseconds(MILLISECONDS_BETWEEN_UPDATES));
        MiningResult::Ongoing { mined_amount }
    }
}

/// Takes `mined_amount` ore out of an asteroid; returns whether it is now fully mined.
pub fn deduct_mined_ore(ore_remaining: &mut u32, mined_amount: u32) -> (fully_mined: bool)
    requires
        mined_amount <= *old(ore_remaining),
    ensures
        *final(ore_remaining) == *old(ore_remaining) - mined_amount,
        fully_mined == (*final(ore_remaining) == 0),
{
    *ore_remaining = *ore_remaining - mined_amount;
    *ore_remaining == 0
}

/// A mining update never takes more ore than the asteroid has or the inventory can hold.
pub proof fn law_mining_respects_limits(
    ore: u32,
    remaining_space: u32,
    amount_per_second: u32,
)
    ensures
        min3_u32(amount_per_second, remaining_space, ore) <= ore,
        min3_u32(amount_per_second, remaining_space, ore) <= remaining_space,
        min3_u32(amount_per_second, remaining_space, ore) <= amount_per_second,
{
}

/// What a due mining update does, in terms of its inputs: it mines the most it can, which is
/// the smallest of the rate, the free space and the asteroid's ore; it finishes exactly when the
/// asteroid is gone or empty or the mined ore fills the remaining space, and goes on otherwise.
pub proof fn law_due_mining_update(
    asteroid_ore_remaining: Option<u32>,
    remaining_space: u32,
    amount_per_second: u32,
)
    ensures
        ({
            let r = mining_result(asteroid_ore_remaining, remaining_space, amount_per_second);
            let m = taken_amount(r);
            &&& r !is Skip
            &&& asteroid_ore_remaining is None ==> r == MiningResult::Finished { mined_amount: 0 }
            &&& asteroid_ore_remaining matches Some(ore) ==> {
                &&& m <= amount_per_second && m <= remaining_space && m <= ore
                &&& (m == amount_per_second || m == remaining_space || m == ore)
                &&& (r is Finished <==> (ore == 0 || m == remaining_space))
                &&& (r is Ongoing <==> (ore != 0 && m != remaining_space))
            }
        }),
{
}

/// A mining update that is not due yet does nothing; a due one takes no more ore than the
/// asteroid holds and no more than fits, puts exactly that ore into the ship, and reschedules
/// the task one interval later exactly when mining goes on.
pub proof fn law_mining_update_outcome(
    task: MineAsteroid,
    now: SimulationTimestamp,
    asteroid_ore_remaining: Option<u32>,
    remaining_space: u32,
    amount_per_second: u32,
    r: MiningResult,
)
    requires
        task.next_update is Some,
        r == (if now.milliseconds < task.next_update.unwrap().milliseconds {
            MiningResult::Skip
        } else {
            mining_result(asteroid_ore_remaining, remaining_space, amount_per_second)
        }),
    ensures
        now.milliseconds < task.next_update.unwrap().milliseconds ==> r == MiningResult::Skip
            && mining_task_after(task, r) == task,
        r is Finished ==> mining_task_after(task, r) == task,
        r is Ongoing ==> mining_task_after(task, r).next_update == Some(
            SimulationTimestamp {
                milliseconds: (task.next_update.unwrap().milliseconds + 1000) as u64,
            },
        ) && mining_task_after(task, r).target == task.target,
        now.milliseconds >= task.next_update.unwrap().milliseconds ==> (asteroid_ore_remaining
            matches Some(ore) ==> ((r is Finished) <==> (ore == 0 || taken_amount(r)
            == remaining_space))),
{
    if now.milliseconds >= task.next_update.unwrap().milliseconds {
        law_due_mining_update(asteroid_ore_remaining, remaining_space, amount_per_second);
    }
}

/// A ship with an active mining task, as one tick of the simulation sees it.
#[derive(PartialEq, Eq, Structural, Copy, Clone, Debug)]
pub struct MiningShip {
    pub entity: Entity,
    pub task: MineAsteroid,
    /// Position of the task's target in the tick's list of asteroids; past the end of the list
    /// if the asteroid no longer exists.
    pub asteroid: usize,
    /// How much of the asteroid's ore the ship holds.
    pub held_ore: u32,
    /// How much more of that ore fits into the ship's inventory.
    pub remaining_space: u32,
    pub amount_per_second: u32,
}

/// What one tick of all mining tasks did.
pub struct MiningTick {
    /// Each ship's result, in the order of the ships.
    pub results: Vec<MiningResult>,
    /// The ships whose task finished, in order.
    pub finished: Vec<Entity>,
    /// The asteroids that were mined empty, once for every ship that left one at no ore.
    pub exhausted: Vec<usize>,
}

/// The ore a ship sees in its target: `None` if the asteroid no longer exists.
pub open spec fn ore_seen(ore: Seq<u32>, asteroid: usize) -> Option<u32> {
    if asteroid < ore.len() {
        Some(ore[asteroid as int])
    } else {
        None
    }
}

/// A ship's result when the asteroids hold `ore`.
pub open spec fn ship_result(ore: Seq<u32>, ship: MiningShip, now: SimulationTimestamp) -> MiningResult {
    if now.milliseconds < ship.task.next_update.unwrap().milliseconds {
        MiningResult::Skip
    } else {
        mining_result(ore_seen(ore, ship.asteroid), ship.remaining_space, ship.amount_per_second)
    }
}

/// The asteroids' ore after `ship` took its share.
pub open spec fn ore_after_ship(ore: Seq<u32>, ship: MiningShip, now: SimulationTimestamp) -> Seq<u32> {
    let taken = taken_amount(ship_result(ore, ship, now));
    if ship.asteroid < ore.len() {
        ore.update(ship.asteroid as int, (ore[ship.asteroid as int] - taken) as u32)
    } else {
        ore
    }
}

/// The asteroids' ore after `ships` took their shares, one after the other: each ship sees
/// what the ships before it left.
pub open spec fn ore_after_ships(ore: Seq<u32>, ships: Seq<MiningShip>, now: SimulationTimestamp) -> Seq<u32>
    decreases ships.len(),
{
    if ships.len() == 0 {
        ore
    } else {
        ore_after_ship(ore_after_ships(ore, ships.drop_last(), now), ships.last(), now)
    }
}

/// The ore that `ships` take from asteroid `asteroid` in one tick.
pub open spec fn taken_from(
    ore: Seq<u32>,
    ships: Seq<MiningShip>,
    now: SimulationTimestamp,
    asteroid: int,
) -> int
    decreases ships.len(),
{
    if ships.len() == 0 {
        0
    } else {
        let before = ore_after_ships(ore, ships.drop_last(), now);
        taken_from(ore, ships.drop_last(), now, asteroid) + if ships.last().asteroid == asteroid {
            taken_amount(ship_result(before, ships.last(), now)) as int
        } else {
            0
        }
    }
}

/// A ship after its update: the task rescheduled as [mining_task_after] says, and the mined
/// ore moved into its inventory.
pub open spec fn ship_after(ship: MiningShip, r: MiningResult) -> MiningShip {
    MiningShip {
        task: mining_task_after(ship.task, r),
        held_ore: (ship.held_ore + taken_amount(r)) as u32,
        remaining_space: (ship.remaining_space - taken_amount(r)) as u32,
        ..ship
    }
}

/// The ships whose result is `Finished`, in order.
pub open spec fn finished_ships(ships: Seq<MiningShip>, results: Seq<MiningResult>) -> Seq<Entity>
    decreases ships.len(),
{
    if ships.len() == 0 {
        Seq::empty()
    } else {
        let earlier = finished_ships(ships.drop_last(), results.drop_last());
        if results[ships.len() - 1] is Finished {
            earlier.push(ships.last().entity)
        } else {
            earlier
        }
    }
}

/// Whether a result's ore counts against the asteroid: an ongoing update, or a finished one
/// that mined something.
pub open spec fn deducts_ore(r: MiningResult) -> bool {
    r is Ongoing || (r is Finished && taken_amount(r) > 0)
}

/// The asteroids reported as mined empty in one tick, in the order of the ships: one report
/// for each ship whose deducted ore leaves an existing asteroid with none.
pub open spec fn exhausted_asteroids(ore: Seq<u32>, ships: Seq<MiningShip>, now: SimulationTimestamp) -> Seq<usize>
    decreases ships.len(),
{
    if ships.len() == 0 {
        Seq::empty()
    } else {
        let earlier = exhausted_asteroids(ore, ships.drop_last(), now);
        let before = ore_after_ships(ore, ships.drop_last(), now);
        let ship = ships.last();
        if deducts_ore(ship_result(before, ship, now)) && ship.asteroid < ore.len()
            && ore_after_ship(before, ship, now)[ship.asteroid as int] == 0 {
            earlier.push(ship.asteroid)
        } else {
            earlier
        }
    }
}

/// What a ship can meet: its task has started, rescheduling fits in time, and its inventory
/// bookkeeping fits in `u32`.
pub open spec fn can_mine(ship: MiningShip) -> bool {
    &&& ship.task.next_update is Some
    &&& ship.task.next_update.unwrap().milliseconds + MILLISECONDS_BETWEEN_UPDATES <= u64::MAX
    &&& ship.held_ore + ship.remaining_space <= u32::MAX
}

/// One tick of all mining tasks. The ships take their turns in order; each ship mines from
/// what the ships before it left, so several ships on one asteroid never take more ore than it
/// holds. Each ship's ore goes into its inventory and its task is rescheduled; the tick reports
/// the finished ships and the asteroids that were mined empty.
pub fn run_mining_tick(
    ore: &mut Vec<u32>,
    ships: &mut Vec<MiningShip>,
    now: SimulationTimestamp,
) -> (tick: MiningTick)
    requires
        forall|i: int| 0 <= i < old(ships)@.len() ==> can_mine(#[trigger] old(ships)@[i]),
    ensures
        final(ore)@ == ore_after_ships(old(ore)@, old(ships)@, now),
        final(ships)@.len() == old(ships)@.len(),
        tick.results@.len() == old(ships)@.len(),
        forall|i: int|
            0 <= i < old(ships)@.len() ==> #[trigger] tick.results@[i] == ship_result(
                ore_after_ships(old(ore)@, old(ships)@.take(i), now),
                old(ships)@[i],
                now,
            ),
        forall|i: int|
            0 <= i < old(ships)@.len() ==> #[trigger] final(ships)@[i] == ship_after(
                old(ships)@[i],
                tick.results@[i],
            ),
        tick.finished@ == finished_ships(old(ships)@, tick.results@),
        tick.exhausted@ == exhausted_asteroids(old(ore)@, old(ships)@, now),
{
    let ghost ore0 = ore@;
    let ghost ships0 = ships@;
    let n: usize = ships.len();
    let mut results: Vec<MiningResult> = Vec::new();
    let mut finished: Vec<Entity> = Vec::new();
    let mut exhausted: Vec<usize> = Vec::new();
    let mut i: usize = 0;
    while i < n
        invariant
            n == ships0.len(),
            i <= n,
            ships@.len() == n,
            ore@.len() == ore0.len(),
            forall|j: int| 0 <= j < n ==> can_mine(#[trigger] ships0[j]),
            results@.len() == i,
            forall|j: int|
                0 <= j < i ==> #[trigger] results@[j] == ship_result(
                    ore_after_ships(ore0, ships0.take(j), now),
                    ships0[j],
                    now,
                ),
            forall|j: int| 0 <= j < i ==> #[trigger] ships@[j] == ship_after(ships0[j], results@[j]),
            forall|j: int| i <= j < n ==> #[trigger] ships@[j] == ships0[j],
            ore@ == ore_after_ships(ore0, ships0.take(i as int), now),
            finished@ == finished_ships(ships0.take(i as int), results@),
            exhausted@ == exhausted_asteroids(ore0, ships0.take(i as int), now),
        decreases n - i,
    {
        let ship = ships[i];
        assert(ships0.take(i + 1).drop_last() =~= ships0.take(i as int));
        assert(ships0.take(i + 1).last() == ships0[i as int]);
        let seen = if ship.asteroid < ore.len() {
            Some(ore[ship.asteroid])
        } else {
            None
        };
        let mut task = ShipTask::new(ship.task);
        let mut held = ship.held_ore;
        let r = run(&mut task, now, seen, &mut held, ship.remaining_space, ship.amount_per_second);
        let taken = match r {
            MiningResult::Skip => 0,
            MiningResult::Ongoing { mined_amount } => mined_amount,
            MiningResult::Finished { mined_amount } => mined_amount,
        };
        let deducts = match r {
            MiningResult::Skip => false,
            MiningResult::Ongoing { .. } => true,
            MiningResult::Finished { mined_amount } => mined_amount > 0,
        };
        let mut emptied = false;
        if ship.asteroid < ore.len() {
            let left = ore[ship.asteroid] - taken;
            ore.set(ship.asteroid, left);
            emptied = deducts && left == 0;
        }
        let updated = MiningShip {
            task: *task.data(),
            held_ore: held,
            remaining_space: ship.remaining_space - taken,
            ..ship
        };
        ships.set(i, updated);
        let ghost results_before = results@;
        results.push(r);
        proof {
            assert(results@.drop_last() =~= results_before);
        }
        let is_finished = match r {
            MiningResult::Finished { .. } => true,
            _ => false,
        };
        if is_finished {
            finished.push(ship.entity);
        }
        if emptied {
            exhausted.push(ship.asteroid);
        }
        proof {
            assert(ore@ =~= ore_after_ships(ore0, ships0.take(i + 1), now));
        }
        i = i + 1;
    }
    assert(ships0.take(n as int) =~= ships0);
    MiningTick { results, finished, exhausted }
}

/// The finished ships of a tick are exactly the ships whose update finished.
pub proof fn law_finished_ships(ships: Seq<MiningShip>, results: Seq<MiningResult>, e: Entity)
    requires
        results.len() == ships.len(),
    ensures
        finished_ships(ships, results).contains(e) <==> exists|i: int|
            0 <= i < ships.len() && (#[trigger] results[i]) is Finished && ships[i].entity == e,
    decreases ships.len(),
{
    if ships.len() > 0 {
        let n = ships.len() - 1;
        law_finished_ships(ships.drop_last(), results.drop_last(), e);
        let rest = finished_ships(ships.drop_last(), results.drop_last());
        assert forall|i: int| 0 <= i < n implies #[trigger] results.drop_last()[i] == results[i]
            && ships.drop_last()[i] == ships[i] by {}
        if exists|i: int| 0 <= i < ships.len() && (#[trigger] results[i]) is Finished
            && ships[i].entity == e {
            let i = choose|i: int|
                0 <= i < ships.len() && (#[trigger] results[i]) is Finished && ships[i].entity == e;
            if i < n {
                assert(results.drop_last()[i] is Finished);
            }
        }
        if results[n] is Finished {
            let full = rest.push(ships.last().entity);
            if full.contains(e) {
                let k = choose|k: int| 0 <= k < full.len() && full[k] == e;
                if k < rest.len() {
                    assert(rest[k] == e);
                }
            }
            if rest.contains(e) {
                let k = choose|k: int| 0 <= k < rest.len() && rest[k] == e;
                assert(full[k] == e);
            }
            if ships.last().entity == e {
                assert(full[rest.len() as int] == e);
            }
        }
    }
}

/// Within one tick the ore of an asteroid only goes down, and an asteroid that is reported as
/// mined empty has no ore left when the tick ends.
pub proof fn law_exhausted_asteroids_are_empty(
    ore: Seq<u32>,
    ships: Seq<MiningShip>,
    now: SimulationTimestamp,
    a: usize,
)
    ensures
        ore_after_ships(ore, ships, now).len() == ore.len(),
        a < ore.len() ==> ore_after_ships(ore, ships, now)[a as int] <= ore[a as int],
        exhausted_asteroids(ore, ships, now).contains(a) ==> a < ore.len() && ore_after_ships(
            ore,
            ships,
            now,
        )[a as int] == 0,
    decreases ships.len(),
{
    if ships.len() > 0 {
        let init = ships.drop_last();
        law_exhausted_asteroids_are_empty(ore, init, now, a);
        let before = ore_after_ships(ore, init, now);
        let ship = ships.last();
        let earlier = exhausted_asteroids(ore, init, now);
        let all = exhausted_asteroids(ore, ships, now);
        if all.contains(a) {
            let k = choose|k: int| 0 <= k < all.len() && all[k] == a;
            if k < earlier.len() {
                assert(earlier[k] == a);
                assert(earlier.contains(a));
            }
        }
    }
}

/// An asteroid that had ore when the tick began and has none when it ends is reported as mined
/// empty.
pub proof fn law_emptied_asteroids_are_reported(
    ore: Seq<u32>,
    ships: Seq<MiningShip>,
    now: SimulationTimestamp,
    a: usize,
)
    requires
        a < ore.len(),
        ore[a as int] > 0,
        ore_after_ships(ore, ships, now)[a as int] == 0,
    ensures
        exhausted_asteroids(ore, ships, now).contains(a),
    decreases ships.len(),
{
    law_exhausted_asteroids_are_empty(ore, ships, now, a);
    if ships.len() > 0 {
        let init = ships.drop_last();
        law_exhausted_asteroids_are_empty(ore, init, now, a);
        let before = ore_after_ships(ore, init, now);
        let earlier = exhausted_asteroids(ore, init, now);
        let all = exhausted_asteroids(ore, ships, now);
        if before[a as int] == 0 {
            law_emptied_asteroids_are_reported(ore, init, now, a);
            let k = choose|k: int| 0 <= k < earlier.len() && earlier[k] == a;
            assert(all[k] == a);
        } else {
            let ship = ships.last();
            law_due_mining_update(ore_seen(before, ship.asteroid), ship.remaining_space, ship.amount_per_second);
            assert(all[earlier.len() as int] == a);
        }
    }
}

/// In one tick, the ships working one asteroid together take no more ore than it held, and
/// what is left is exactly what they did not take.
pub proof fn law_mining_tick_never_overdraws(
    ore: Seq<u32>,
    ships: Seq<MiningShip>,
    now: SimulationTimestamp,
    asteroid: int,
)
    requires
        0 <= asteroid < ore.len(),
    ensures
        ore_after_ships(ore, ships, now).len() == ore.len(),
        0 <= taken_from(ore, ships, now, asteroid) <= ore[asteroid],
        ore_after_ships(ore, ships, now)[asteroid] == ore[asteroid] - taken_from(
            ore,
            ships,
            now,
            asteroid,
        ),
    decreases ships.len(),
{
    if ships.len() > 0 {
        law_mining_tick_never_overdraws(ore, ships.drop_last(), now, asteroid);
        let before = ore_after_ships(ore, ships.drop_last(), now);
        let ship = ships.last();
        let r = ship_result(before, ship, now);
        if ship.asteroid as int == asteroid {
            assert(taken_amount(r) <= before[asteroid]);
        }
    }
}

} // verus!
