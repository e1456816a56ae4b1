//! The long-running behaviors a ship can follow when it has no tasks.
use crate::auto_mine_state::AutoMineState;
use crate::ship_tasks::{ItemId, SimulationTimestamp};
use vstd::prelude::*;

verus! {

/// Marker trait to define that a struct may be used as a ship behavior during simulation.
pub trait ShipBehaviorData {}

/// Ships with this behavior search out construction sites and share their build power.
#[derive(PartialEq, Eq, Structural, Copy, Clone, Debug)]
pub struct AutoConstructBehavior {}

/// Ships with this behavior alternate between harvesting gas from gas giants and selling their
/// inventory to stations.
#[derive(PartialEq, Eq, Structural, Copy, Clone, Debug)]
pub struct AutoHarvestBehavior {
    pub harvested_gas: ItemId,
    pub state: AutoMineState,
}

/// Ships with this behavior alternate between mining asteroids and selling off their inventory.
#[derive(PartialEq, Eq, Structural, Copy, Clone, Debug)]
pub struct AutoMineBehavior {
    pub mined_ore: ItemId,
    pub state: AutoMineState,
}

/// Ships with this behavior attempt to buy low and sell high.
#[derive(PartialEq, Eq, Structural, Copy, Clone, Debug)]
pub struct AutoTradeBehavior {}

/// Ships with this behavior stay where they are.
#[derive(PartialEq, Eq, Structural, Copy, Clone, Debug)]
pub struct HoldPositionBehavior {}

impl ShipBehaviorData for AutoConstructBehavior {}
impl ShipBehaviorData for AutoHarvestBehavior {}
impl ShipBehaviorData for AutoMineBehavior {}
impl ShipBehaviorData for AutoTradeBehavior {}
impl ShipBehaviorData for HoldPositionBehavior {}

/// A behavior attached to a ship, and when the ship next looks for something to do.
pub struct ShipBehavior<T: ShipBehaviorData> {
    pub behavior: T,
    pub next_idle_update: SimulationTimestamp,
}

impl<T: ShipBehaviorData> ShipBehavior<T> {
    /// A behavior that is due for an idle update right away.
    pub fn new(behavior: T) -> (b: Self)
        ensures
            b.behavior == behavior,
            b.next_idle_update.milliseconds == 0,
    {
        ShipBehavior { behavior, next_idle_update: SimulationTimestamp { milliseconds: 0 } }
    }
}

/// Enum representing all ship behaviors, as chosen when a ship is spawned.
#[derive(PartialEq, Eq, Structural, Copy, Clone, Debug)]
pub enum BehaviorBuilder {
    AutoTrade,
    AutoConstruct,
    AutoMine { mined_ore: ItemId, state: AutoMineState },
    AutoHarvest { state: AutoMineState, harvested_gas: ItemId },
    HoldPosition,
}

/// The behavior component a [BehaviorBuilder] attaches to a ship.
#[derive(PartialEq, Eq, Structural, Copy, Clone, Debug)]
pub enum BuiltBehavior {
    AutoTrade(AutoTradeBehavior),
    AutoConstruct(AutoConstructBehavior),
    AutoMine(AutoMineBehavior),
    AutoHarvest(AutoHarvestBehavior),
    HoldPosition(HoldPositionBehavior),
}

/// The behavior data each builder variant stands for.
pub open spec fn built_behavior_of(builder: BehaviorBuilder) -> BuiltBehavior {
    match builder {
        BehaviorBuilder::AutoTrade => BuiltBehavior::AutoTrade(AutoTradeBehavior {}),
        BehaviorBuilder::AutoConstruct => BuiltBehavior::AutoConstruct(AutoConstructBehavior {}),
        BehaviorBuilder::AutoMine { mined_ore, state } => BuiltBehavior::AutoMine(
            AutoMineBehavior { mined_ore, state },
        ),
        BehaviorBuilder::AutoHarvest { state, harvested_gas } => BuiltBehavior::AutoHarvest(
            AutoHarvestBehavior { harvested_gas, state },
        ),
        BehaviorBuilder::HoldPosition => BuiltBehavior::HoldPosition(HoldPositionBehavior {}),
    }
}

/// Each builder attaches the behavior of its own kind, carrying over the ore or gas and the
/// state it was given.
pub proof fn law_built_behaviors(builder: BehaviorBuilder)
    ensures
        builder is AutoTrade <==> built_behavior_of(builder) is AutoTrade,
        builder is AutoConstruct <==> built_behavior_of(builder) is AutoConstruct,
        builder is HoldPosition <==> built_behavior_of(builder) is HoldPosition,
        builder matches BehaviorBuilder::AutoMine { mined_ore, state } ==> built_behavior_of(
            builder,
        ) == BuiltBehavior::AutoMine(AutoMineBehavior { mined_ore, state }),
        builder matches BehaviorBuilder::AutoHarvest { state, harvested_gas }
            ==> built_behavior_of(builder) == BuiltBehavior::AutoHarvest(
            AutoHarvestBehavior { harvested_gas, state },
        ),
{
}

impl BehaviorBuilder {
    /// The default behavior component for this builder; the caller attaches it to the ship.
    pub fn build_default_component(self) -> (b: BuiltBehavior)
        ensures
            b == built_behavior_of(self),
    {
        match self {
            BehaviorBuilder::AutoTrade => BuiltBehavior::AutoTrade(AutoTradeBehavior {}),
            BehaviorBuilder::AutoConstruct => BuiltBehavior::AutoConstruct(
                AutoConstructBehavior {},
            ),
            BehaviorBuilder::AutoMine { mined_ore, state } => BuiltBehavior::AutoMine(
                AutoMineBehavior { mined_ore, state },
            ),
            BehaviorBuilder::AutoHarvest { state, harvested_gas } => BuiltBehavior::AutoHarvest(
                AutoHarvestBehavior { harvested_gas, state },
            ),
            BehaviorBuilder::HoldPosition => BuiltBehavior::HoldPosition(HoldPositionBehavior {}),
        }
    }
}

/// Ships are roughly classified by the size of their chassis; this limits docking.
#[derive(PartialEq, Eq, Structural, Copy, Clone, Debug)]
pub enum ShipSize {
    S,
    M,
    L,
    XL,
}

} // verus!
