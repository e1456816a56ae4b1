use vstd::prelude::*;

verus! {

/// Which half of its cycle a mining or harvesting ship is in.
#[derive(PartialEq, Eq, Structural, Copy, Clone, Debug)]
pub enum AutoMineState {
    Mining,
    Trading,
}

/// The state that follows `state` for the given inventory figures.
pub open spec fn next_auto_mine_state(
    state: AutoMineState,
    used_inventory_space: u32,
    remaining_space_for_target_item: u32,
) -> AutoMineState {
    match state {
        AutoMineState::Mining => if remaining_space_for_target_item == 0 {
            AutoMineState::Trading
        } else {
            AutoMineState::Mining
        },
        AutoMineState::Trading => if used_inventory_space == 0 {
            AutoMineState::Mining
        } else {
            AutoMineState::Trading
        },
    }
}

impl AutoMineState {
    /// A miner with no room left for its target item starts trading;
    /// a trader with an empty inventory goes back to mining.
    pub fn flip_task_depending_on_inventory(
        &mut self,
        used_inventory_space: u32,
        remaining_space_for_target_item: u32,
    )
        ensures
            *final(self) == next_auto_mine_state(
                *old(self),
                used_inventory_space,
                remaining_space_for_target_item,
            ),
    {
        if *self == AutoMineState::Mining && remaining_space_for_target_item == 0 {
            *self = AutoMineState::Trading;
        } else if *self == AutoMineState::Trading && used_inventory_space == 0 {
            *self = AutoMineState::Mining;
        }
    }
}

} // verus!
