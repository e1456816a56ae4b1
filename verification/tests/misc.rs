use ship_ai::auto_mine_state::AutoMineState;
use ship_ai::mouse_interaction::{LastMouseInteraction, counts_as_click, is_double_click};
use ship_ai::price_setting::{PriceRange, PriceSetting};
use ship_ai::save_data::{AutoMineStateSaveData, CelestialKindSaveData, ExchangeWareSaveData};
use ship_ai::ship_behaviors::{
    AutoMineBehavior, BehaviorBuilder, BuiltBehavior, HoldPositionBehavior,
};
use ship_ai::ship_tasks::{ExchangeWareData, ItemId};
use ship_ai::station_spawn::{
    StationIcon, buy_sell_and_production_count, initial_stock_amount,
    production_reservation_amount, station_icon,
};

const MS: u128 = 1_000_000;

#[test]
fn clicks_are_short_presses() {
    assert!(counts_as_click(0, 99 * MS));
    assert!(!counts_as_click(0, 100 * MS));
    assert!(counts_as_click(5 * MS, 104 * MS + 999_999));
}

#[test]
fn double_clicks_follow_a_recent_click() {
    let last = LastMouseInteraction::from(0, 50 * MS);
    assert!(last.counts_as_click);
    assert!(is_double_click(349 * MS, Some(last)));
    assert!(!is_double_click(350 * MS, Some(last)));
    assert!(!is_double_click(100 * MS, None));
    let held = LastMouseInteraction::from(0, 200 * MS);
    assert!(!held.counts_as_click);
    assert!(!is_double_click(210 * MS, Some(held)));
}

#[test]
fn fixed_prices_are_returned_and_dynamic_ones_deferred() {
    assert_eq!(PriceSetting::Fixed(42).calculate_price(3, 10), Some(42));
    assert_eq!(PriceSetting::Dynamic(PriceRange { min: 1, max: 9 }).calculate_price(3, 10), None);
}

#[test]
fn celestial_kinds_have_display_names() {
    assert_eq!(CelestialKindSaveData::Star.to_display_string(), "Star");
    assert_eq!(CelestialKindSaveData::Terrestrial.to_display_string(), "Planet");
    assert_eq!(CelestialKindSaveData::GasGiant { resources: vec![] }.to_display_string(), "Gas Giant");
}

#[test]
fn saved_states_round_trip() {
    for state in [AutoMineState::Mining, AutoMineState::Trading] {
        assert_eq!(AutoMineStateSaveData::from_state(state).to_state(), state);
    }
    let data = ExchangeWareData::Sell(ItemId { id: 4 }, 9);
    assert_eq!(ExchangeWareSaveData::from_data(data).to_data(), data);
    assert_eq!(ExchangeWareSaveData::from_data(data), ExchangeWareSaveData::Sell(ItemId { id: 4 }, 9));
}

#[test]
fn behavior_builders_build_their_behavior() {
    let built = BehaviorBuilder::AutoMine { mined_ore: ItemId { id: 3 }, state: AutoMineState::Trading }
        .build_default_component();
    assert_eq!(built, BuiltBehavior::AutoMine(AutoMineBehavior { mined_ore: ItemId { id: 3 }, state: AutoMineState::Trading }));
    assert_eq!(BehaviorBuilder::HoldPosition.build_default_component(), BuiltBehavior::HoldPosition(HoldPositionBehavior {}));
}

#[test]
fn station_icons() {
    assert_eq!(station_icon(&vec![ItemId { id: 7 }, ItemId { id: 8 }], true), StationIcon::Item(ItemId { id: 7 }));
    assert_eq!(station_icon(&vec![], true), StationIcon::Ship);
    assert_eq!(station_icon(&vec![], false), StationIcon::Unknown);
}

#[test]
fn station_slots_and_stock() {
    assert_eq!(buy_sell_and_production_count(2, 1, &vec![1, 2]), 6);
    assert_eq!(buy_sell_and_production_count(0, 0, &vec![]), 0);
    assert_eq!(initial_stock_amount(12000, 6, 10), 100);
    assert_eq!(production_reservation_amount(12000, 6, 10), 200);
}
