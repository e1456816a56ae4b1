//! The plain data a saved universe consists of.
use crate::auto_mine_state::AutoMineState;
use crate::game_data::{ProductionModuleId, RecipeId, ShipConfigId, ShipyardModuleId};
use crate::price_setting::PriceSetting;
use crate::ship_tasks::{ExchangeWareData, ItemId, SimulationTimestamp};
use vstd::prelude::*;

verus! {

/// A saved list of objects of one kind.
pub struct SaveDataCollection<T> {
    pub data: Vec<T>,
}

impl<T> Default for SaveDataCollection<T> {
    /// An empty collection.
    fn default() -> (c: Self)
        ensures
            c.data@.len() == 0,
    {
        SaveDataCollection { data: Vec::new() }
    }
}

/// The items in an inventory and their amounts.
pub struct InventorySaveData {
    pub items: Vec<(ItemId, u32)>,
}

/// What kind of celestial body was saved.
pub enum CelestialKindSaveData {
    Star,
    Terrestrial,
    GasGiant { resources: Vec<ItemId> },
}

impl CelestialKindSaveData {
    /// The name shown for this kind of celestial body.
    pub fn to_display_string(&self) -> (s: String)
        ensures
            s@ == match *self {
                CelestialKindSaveData::Star => "Star"@,
                CelestialKindSaveData::Terrestrial => "Planet"@,
                CelestialKindSaveData::GasGiant { .. } => "Gas Giant"@,
            },
    {
        match self {
            CelestialKindSaveData::Star => "Star".to_owned(),
            CelestialKindSaveData::Terrestrial => "Planet".to_owned(),
            CelestialKindSaveData::GasGiant { .. } => "Gas Giant".to_owned(),
        }
    }
}

/// The saved state of a mining or harvesting behavior.
#[derive(PartialEq, Eq, Structural, Copy, Clone, Debug)]
pub enum AutoMineStateSaveData {
    Mining,
    Trading,
}

/// The saved form of a behavior state.
pub open spec fn auto_mine_state_to_save_data(state: AutoMineState) -> AutoMineStateSaveData {
    match state {
        AutoMineState::Mining => AutoMineStateSaveData::Mining,
        AutoMineState::Trading => AutoMineStateSaveData::Trading,
    }
}

/// The behavior state a saved state stands for.
pub open spec fn auto_mine_state_from_save_data(data: AutoMineStateSaveData) -> AutoMineState {
    match data {
        AutoMineStateSaveData::Mining => AutoMineState::Mining,
        AutoMineStateSaveData::Trading => AutoMineState::Trading,
    }
}

impl AutoMineStateSaveData {
    /// The saved form of `state`.
    pub fn from_state(state: AutoMineState) -> (d: Self)
        ensures
            d == auto_mine_state_to_save_data(state),
    {
        match state {
            AutoMineState::Mining => AutoMineStateSaveData::Mining,
            AutoMineState::Trading => AutoMineStateSaveData::Trading,
        }
    }

    /// The behavior state this saved state stands for.
    pub fn to_state(&self) -> (s: AutoMineState)
        ensures
            s == auto_mine_state_from_save_data(*self),
    {
        match self {
            AutoMineStateSaveData::Mining => AutoMineState::Mining,
            AutoMineStateSaveData::Trading => AutoMineState::Trading,
        }
    }
}

/// Saving a behavior state and loading it again gives the same state, and the other way round.
pub proof fn law_auto_mine_state_save_round_trip(state: AutoMineState, data: AutoMineStateSaveData)
    ensures
        auto_mine_state_from_save_data(auto_mine_state_to_save_data(state)) == state,
        auto_mine_state_to_save_data(auto_mine_state_from_save_data(data)) == data,
{
}

/// A saved ship behavior.
#[derive(PartialEq, Eq, Structural, Copy, Clone, Debug)]
pub enum ShipBehaviorSaveData {
    AutoTrade,
    AutoConstruct,
    AutoMine { mined_ore: ItemId, state: AutoMineStateSaveData },
    AutoHarvest { harvested_gas: ItemId, state: AutoMineStateSaveData },
    HoldPosition,
}

/// A saved production facility.
pub struct ProductionSaveData {
    pub modules: Vec<ProductionModuleSaveData>,
}

/// A saved production module.
pub struct ProductionModuleSaveData {
    pub module_id: ProductionModuleId,
    pub amount: u32,
    pub running_recipes: Vec<RunningProductionModuleQueueElementSaveData>,
    pub queued_recipes: Vec<ProductionModuleQueueElementSaveData>,
}

/// A recipe queued in a production module.
#[derive(PartialEq, Eq, Structural, Copy, Clone, Debug)]
pub struct ProductionModuleQueueElementSaveData {
    pub recipe: RecipeId,
    pub is_repeating: bool,
}

/// A recipe running in a production module.
#[derive(PartialEq, Eq, Structural, Copy, Clone, Debug)]
pub struct RunningProductionModuleQueueElementSaveData {
    pub recipe: RecipeId,
    pub finished_at: SimulationTimestamp,
}

/// A saved shipyard module.
pub struct ShipyardModuleSaveData {
    pub module_id: ShipyardModuleId,
    pub amount: u32,
    pub active: Vec<ActiveShipyardOrderSaveData>,
}

/// A ship being built.
#[derive(PartialEq, Eq, Structural, Copy, Clone, Debug)]
pub struct ActiveShipyardOrderSaveData {
    pub finished_at: SimulationTimestamp,
    pub ship_config: ShipConfigId,
}

/// A saved shipyard.
pub struct ShipyardSaveData {
    pub queue: Vec<ShipConfigId>,
    pub modules: Vec<ShipyardModuleSaveData>,
}

/// Saved buy orders.
pub struct SerializedBuyOrder {
    pub orders: Vec<SerializedBuyOrderData>,
}

/// Saved sell orders.
pub struct SerializedSellOrder {
    pub orders: Vec<SerializedSellOrderData>,
}

/// One saved buy order.
#[derive(PartialEq, Eq, Structural, Copy, Clone, Debug)]
pub struct SerializedBuyOrderData {
    pub item_id: ItemId,
    pub amount: u32,
    pub buy_up_to: u32,
    pub price_setting: PriceSetting,
}

/// One saved sell order.
#[derive(PartialEq, Eq, Structural, Copy, Clone, Debug)]
pub struct SerializedSellOrderData {
    pub item_id: ItemId,
    pub amount: u32,
    pub keep_at_least: u32,
    pub price_setting: PriceSetting,
}

/// Saved data of a trade.
#[derive(PartialEq, Eq, Structural, Copy, Clone, Debug)]
pub enum ExchangeWareSaveData {
    Buy(ItemId, u32),
    Sell(ItemId, u32),
}

impl ExchangeWareSaveData {
    /// The saved form of `data`.
    pub fn from_data(data: ExchangeWareData) -> (d: Self)
        ensures
            d == match data {
                ExchangeWareData::Buy(item, amount) => ExchangeWareSaveData::Buy(item, amount),
                ExchangeWareData::Sell(item, amount) => ExchangeWareSaveData::Sell(item, amount),
            },
    {
        match data {
            ExchangeWareData::Buy(item, amount) => ExchangeWareSaveData::Buy(item, amount),
            ExchangeWareData::Sell(item, amount) => ExchangeWareSaveData::Sell(item, amount),
        }
    }

    /// The trade data this saved data stands for.
    pub fn to_data(&self) -> (d: ExchangeWareData)
        ensures
            d == match *self {
                ExchangeWareSaveData::Buy(item, amount) => ExchangeWareData::Buy(item, amount),
                ExchangeWareSaveData::Sell(item, amount) => ExchangeWareData::Sell(item, amount),
            },
    {
        match self {
            ExchangeWareSaveData::Buy(item, amount) => ExchangeWareData::Buy(*item, *amount),
            ExchangeWareSaveData::Sell(item, amount) => ExchangeWareData::Sell(*item, *amount),
        }
    }
}

/// A mining state is saved as mining and a trading state as trading, and back.
pub proof fn law_auto_mine_state_save_names()
    ensures
        auto_mine_state_to_save_data(AutoMineState::Mining) == AutoMineStateSaveData::Mining,
        auto_mine_state_to_save_data(AutoMineState::Trading) == AutoMineStateSaveData::Trading,
        auto_mine_state_from_save_data(AutoMineStateSaveData::Mining) == AutoMineState::Mining,
        auto_mine_state_from_save_data(AutoMineStateSaveData::Trading) == AutoMineState::Trading,
{
}

} // verus!
