//! The plugins that group the game's systems; the systems themselves are registered by the
//! application.
use vstd::prelude::*;

verus! {

/// Adds the systems through which ship tasks are run.
pub struct ShipAiPlugin;

/// Adds the systems through which the user can send commands to ships.
pub struct ShipControllerPlugin;

/// Adds the systems for selecting entities with the mouse.
pub struct EntitySelectionPlugin;

/// Adds two numbers.
pub fn add(left: u64, right: u64) -> (sum: u64)
    requires
        left + right <= u64::MAX,
    ensures
        sum == left + right,
{
    left + right
}

} // verus!
