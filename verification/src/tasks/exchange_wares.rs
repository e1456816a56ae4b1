//! Trading wares: the ship waits until the trade's time is up.
use crate::ship_tasks::{ExchangeWareData, ExchangeWares, ItemId, ShipTask, SimulationTimestamp};
use crate::task_result::TaskResult;
use vstd::prelude::*;

verus! {

/// Seconds a trade takes once it has started.
pub const EXCHANGE_DURATION_SECONDS: u64 = 2;

/// When a trade started at `now` finishes.
pub fn finish_time_for_trade_started_at(now: SimulationTimestamp) -> (t: SimulationTimestamp)
    requires
        now.milliseconds + EXCHANGE_DURATION_SECONDS * 1000 <= u64::MAX,
    ensures
        t.milliseconds == now.milliseconds + EXCHANGE_DURATION_SECONDS * 1000,
{
    now.add_milliseconds(EXCHANGE_DURATION_SECONDS * 1000)
}

/// A trade is ongoing until its finishing time has been reached.
pub fn run_task(task: &ShipTask<ExchangeWares>, now: SimulationTimestamp) -> (r: TaskResult)
    ensures
        r == (if now.milliseconds < task@.finishes_at.milliseconds {
            TaskResult::Ongoing
        } else {
            TaskResult::Finished
        }),
{
    if now.has_not_passed(task.data().finishes_at) {
        TaskResult::Ongoing
    } else {
        TaskResult::Finished
    }
}

/// Which side of an order an inventory completes.
#[derive(PartialEq, Eq, Structural, Copy, Clone, Debug)]
pub enum TradeIntent {
    Buy,
    Sell,
}

/// One order of a trade, in one inventory: the order is placed when the trade is planned and
/// completed when it is finished.
#[derive(PartialEq, Eq, Structural, Copy, Clone, Debug)]
pub struct TradeOrder {
    pub item_id: ItemId,
    pub intent: TradeIntent,
    pub amount: u32,
}

/// The orders of a trade: first the ship's, then the trade partner's. The ship takes the side
/// it trades on, the partner the other one.
pub open spec fn trade_orders_of(exchange_data: ExchangeWareData) -> (TradeOrder, TradeOrder) {
    match exchange_data {
        ExchangeWareData::Buy(item_id, amount) => (
            TradeOrder { item_id, intent: TradeIntent::Buy, amount },
            TradeOrder { item_id, intent: TradeIntent::Sell, amount },
        ),
        ExchangeWareData::Sell(item_id, amount) => (
            TradeOrder { item_id, intent: TradeIntent::Sell, amount },
            TradeOrder { item_id, intent: TradeIntent::Buy, amount },
        ),
    }
}

/// The orders that planning a trade places, and that finishing it completes, in the ship's
/// inventory and in the partner's.
pub fn trade_orders(exchange_data: ExchangeWareData) -> (r: (TradeOrder, TradeOrder))
    ensures
        r == trade_orders_of(exchange_data),
{
    match exchange_data {
        ExchangeWareData::Buy(item_id, amount) => (
            TradeOrder { item_id, intent: TradeIntent::Buy, amount },
            TradeOrder { item_id, intent: TradeIntent::Sell, amount },
        ),
        ExchangeWareData::Sell(item_id, amount) => (
            TradeOrder { item_id, intent: TradeIntent::Sell, amount },
            TradeOrder { item_id, intent: TradeIntent::Buy, amount },
        ),
    }
}

/// In every trade the ship and its partner place orders for the same item and amount as the
/// trade names, on opposite sides; the ship's side is the trade's.
pub proof fn law_trade_orders_are_opposite(exchange_data: ExchangeWareData)
    ensures
        ({
            let (ship, partner) = trade_orders_of(exchange_data);
            &&& ship.item_id == partner.item_id
            &&& ship.amount == partner.amount
            &&& ship.intent != partner.intent
            &&& exchange_data matches ExchangeWareData::Buy(item, amount) ==> ship.intent
                == TradeIntent::Buy && ship.item_id == item && ship.amount == amount
            &&& exchange_data matches ExchangeWareData::Sell(item, amount) ==> ship.intent
                == TradeIntent::Sell && ship.item_id == item && ship.amount == amount
        }),
{
}

} // verus!
