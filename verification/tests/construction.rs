use ship_ai::construction::{
    ConstructionSite, ConstructionSiteSpawnData, ConstructionSiteStatus, deregister_ship,
    new_construction_site, register_ship, start_construction,
};
use ship_ai::entity::StationEntity;
use ship_ai::game_data::{ConstructableModuleId, ProductionModuleId};
use ship_ai::persistent_id::PersistentConstructionSiteId;
use ship_ai::ship_tasks::FloatBits;
use ship_ai::station_spawn::station_spawn_plan;
use ship_ai::entity::{Entity, ShipEntity};

fn ship(row: u32) -> ShipEntity {
    ShipEntity(Entity::from_bits(bevy::ecs::entity::Entity::from_raw_u32(row).unwrap().to_bits()))
}

fn new_site() -> ConstructionSite {
    let build_order = vec![ConstructableModuleId::ProductionModule(ProductionModuleId { id: 1 })];
    let data = ConstructionSiteSpawnData::new(PersistentConstructionSiteId { id: 1 }, build_order);
    new_construction_site(StationEntity(Entity::from_bits(99)), data)
}

#[test]
fn starting_task_should_add_construction_power_to_site() {
    let mut construction_site = new_site();
    let expected_build_power: u32 = 10;
    let registered = ship(1);

    assert!(start_construction(&mut construction_site, registered, Some(expected_build_power)));

    let (registered_ship, build_power) = construction_site.construction_ships.iter().next().unwrap();
    assert_eq!(*registered_ship, registered.0.bits);
    assert_eq!(expected_build_power, *build_power);
    assert_eq!(construction_site.total_build_power_of_ships, expected_build_power);
}

#[test]
fn registering_twice_replaces_the_earlier_power() {
    let mut site = new_site();
    register_ship(&mut site, ship(1), 10);
    register_ship(&mut site, ship(2), 5);
    register_ship(&mut site, ship(1), 3);
    assert_eq!(site.total_build_power_of_ships, 8);
    assert_eq!(site.construction_ships.len(), 2);
}

#[test]
fn deregistering_subtracts_the_ships_power() {
    let mut site = new_site();
    register_ship(&mut site, ship(1), 10);
    register_ship(&mut site, ship(2), 5);
    deregister_ship(&mut site, ship(1));
    assert_eq!(site.total_build_power_of_ships, 5);
    deregister_ship(&mut site, ship(7));
    assert_eq!(site.total_build_power_of_ships, 5);
    deregister_ship(&mut site, ship(2));
    assert_eq!(site.total_build_power_of_ships, 0);
    assert!(site.construction_ships.is_empty());
}

#[test]
fn starting_construction_without_build_power_leaves_the_site_alone() {
    let mut site = new_site();
    register_ship(&mut site, ship(1), 4);
    assert!(!start_construction(&mut site, ship(2), None));
    assert_eq!(site.total_build_power_of_ships, 4);
    assert_eq!(site.construction_ships.len(), 1);
}

#[test]
fn new_construction_sites_start_from_their_spawn_data() {
    let build_order = vec![ConstructableModuleId::ProductionModule(ProductionModuleId { id: 4 })];
    let data = ConstructionSiteSpawnData::new(PersistentConstructionSiteId { id: 7 }, build_order.clone());
    assert_eq!(data.current_progress, FloatBits { bits: 0 });
    let data = data.with_progress(FloatBits { bits: 0.5f32.to_bits() });
    let site = new_construction_site(StationEntity(Entity::from_bits(3)), data);
    assert_eq!(site.id, PersistentConstructionSiteId { id: 7 });
    assert_eq!(site.station, StationEntity(Entity::from_bits(3)));
    assert_eq!(site.build_order, build_order);
    assert_eq!(site.current_build_progress, FloatBits { bits: 0.5f32.to_bits() });
    assert_eq!(site.status, ConstructionSiteStatus::MissingBuilders);
    assert_eq!(site.next_construction_step, 0);
    assert_eq!(site.total_build_power_of_ships, 0);
    assert!(site.construction_ships.is_empty());
}

#[test]
fn stations_get_the_parts_their_spawn_data_asks_for() {
    let plan = station_spawn_plan(2, 0, true, false, true, true);
    assert!(plan.buy_orders);
    assert!(!plan.sell_orders);
    assert!(plan.production);
    assert!(!plan.shipyard);
    assert!(plan.orbit);
    assert!(plan.construction_site);
    assert!(plan.construction_site_orbit);
    let plan = station_spawn_plan(0, 1, false, true, false, false);
    assert!(!plan.buy_orders && plan.sell_orders && plan.shipyard);
    assert!(!plan.orbit && !plan.construction_site && !plan.construction_site_orbit);
}
