//! Harvesting gas: once per second the ship collects as much gas as fits into its inventory.
use crate::ship_tasks::{HarvestGas, ShipTask, SimulationTimestamp};
use vstd::prelude::*;

verus! {

/// Milliseconds between two inventory updates of a harvesting ship.
pub const MILLISECONDS_BETWEEN_UPDATES: u64 = 1000;

/// How one update of a harvesting task went.
#[derive(PartialEq, Eq, Structural, Copy, Clone, Debug)]
pub enum HarvestResult {
    /// The next update is not due yet; nothing happened.
    Skip,
    /// Gas was harvested and there is still room for more.
    Ongoing,
    /// The inventory has no room left for the gas.
    Finished,
}

/// The outcome of one update, and how much gas goes into the ship's inventory.
#[derive(PartialEq, Eq, Structural, Copy, Clone, Debug)]
pub struct HarvestStep {
    pub result: HarvestResult,
    pub harvested_amount: u32,
}

/// The smaller of two amounts.
pub open spec fn min_u32(a: u32, b: u32) -> u32 {
    if a < b {
        a
    } else {
        b
    }
}

/// The task after a step with result `result`: an ongoing step schedules the next update one
/// interval after the one that just happened; otherwise the task is unchanged.
pub open spec fn harvest_task_after(task: HarvestGas, result: HarvestResult) -> HarvestGas {
    match result {
        HarvestResult::Ongoing => HarvestGas {
            next_update: Some(
                SimulationTimestamp {
                    milliseconds: (task.next_update.unwrap().milliseconds
                        + MILLISECONDS_BETWEEN_UPDATES) as u64,
                },
            ),
            ..task
        },
        _ => task,
    }
}

/// One update of a harvesting task that has started (its next update is scheduled).
/// `held_gas` is how much of the gas the ship holds, `remaining_space` how much more fits into
/// its inventory and `amount_per_second` what its harvester collects per update. The harvested
/// gas goes into the ship's inventory; while harvesting goes on, the next update is scheduled
/// one interval later.
pub fn run(
    task: &mut ShipTask<HarvestGas>,
    now: SimulationTimestamp,
    held_gas: &mut u32,
    remaining_space: u32,
    amount_per_second: u32,
) -> (step: HarvestStep)
    requires
        (old(task)@.next_update is Some),
        old(task)@.next_update.unwrap().milliseconds + MILLISECONDS_BETWEEN_UPDATES <= u64::MAX,
        *old(held_gas) + remaining_space <= u32::MAX,
    ensures
        now.milliseconds < old(task)@.next_update.unwrap().milliseconds ==> (step
            == HarvestStep { result: HarvestResult::Skip, harvested_amount: 0 }),
        now.milliseconds >= old(task)@.next_update.unwrap().milliseconds ==> {
            &&& step.harvested_amount == min_u32(amount_per_second, remaining_space)
            &&& step.result == (if remaining_space == step.harvested_amount {
                HarvestResult::Finished
            } else {
                HarvestResult::Ongoing
            })
        },
        final(task)@ == harvest_task_after(old(task)@, step.result),
        *final(held_gas) == *old(held_gas) + step.harvested_amount,
{
    let next_update = task.data().next_update.unwrap();
    if now.has_not_passed(next_update) {
        return HarvestStep { result: HarvestResult::Skip, harvested_amount: 0 };
    }
    let harvested_amount = if amount_per_second < remaining_space {
        amount_per_second
    } else {
        remaining_space
    };
    *held_gas = *held_gas + harvested_amount;
    if remaining_space == harvested_amount {
        HarvestStep { result: HarvestResult::Finished, harvested_amount }
    } else {
        let data = task.data_mut();
        data.next_update = Some(next_update.add_milliseconds(MILLISECONDS_BETWEEN_UPDATES));
        HarvestStep { result: HarvestResult::Ongoing, harvested_amount }
    }
}

/// When the first update of a task started at `now` is due.
pub fn first_update_for_task_started_at(now: SimulationTimestamp) -> (t: SimulationTimestamp)
    requires
        now.milliseconds + MILLISECONDS_BETWEEN_UPDATES <= u64::MAX,
    ensures
        t.milliseconds == now.milliseconds + MILLISECONDS_BETWEEN_UPDATES,
{
    now.add_milliseconds(MILLISECONDS_BETWEEN_UPDATES)
}

/// What a harvesting update does, in terms of its inputs: a due update collects the rate or the
/// free space, whichever is smaller, and finishes exactly when that fills the free space;
/// only an update that goes on is rescheduled, one interval later.
pub proof fn law_harvest_update(
    task: HarvestGas,
    remaining_space: u32,
    amount_per_second: u32,
    result: HarvestResult,
)
    requires
        task.next_update is Some,
    ensures
        min_u32(amount_per_second, remaining_space) <= amount_per_second,
        min_u32(amount_per_second, remaining_space) <= remaining_space,
        min_u32(amount_per_second, remaining_space) == amount_per_second || min_u32(
            amount_per_second,
            remaining_space,
        ) == remaining_space,
        result == HarvestResult::Ongoing ==> harvest_task_after(task, result).next_update == Some(
            SimulationTimestamp {
                milliseconds: (task.next_update.unwrap().milliseconds + 1000) as u64,
            },
        ) && harvest_task_after(task, result).target == task.target
            && harvest_task_after(task, result).gas == task.gas,
        result != HarvestResult::Ongoing ==> harvest_task_after(task, result) == task,
{
}

} // verus!
