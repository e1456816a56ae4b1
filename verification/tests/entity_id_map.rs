use ship_ai::entity::{Entity, GateEntity};
use ship_ai::entity_id_map::{AllEntityIdMaps, EntityIdMap, GateIdMap, PersistentEntityId};
use ship_ai::persistent_id::{PersistentGateId, PersistentShipId, PersistentStationId, SectorCoordinate, PersistentId};
use ship_ai::entity::{ShipEntity, StationEntity, TypedEntity, SectorEntity};

fn gate(row: u32) -> GateEntity {
    let bevy_entity = bevy::ecs::entity::Entity::from_raw_u32(row).unwrap();
    GateEntity(Entity::from_bits(bevy_entity.to_bits()))
}

#[test]
fn inserting_and_getting_data() {
    let id1 = PersistentGateId { id: 1 };
    let id2 = PersistentGateId { id: 2 };

    let entity1 = gate(1);
    let entity2 = gate(2);

    let mut map = GateIdMap::new();
    map.insert(id1, entity1);
    map.insert(id2, entity2);

    assert_eq!(id1, map.get_id(entity1).unwrap());
    assert_eq!(id2, map.get_id(entity2).unwrap());

    assert_eq!(entity1, map.get_entity(id1).unwrap());
    assert_eq!(entity2, map.get_entity(id2).unwrap());
}

#[test]
fn removing_data() {
    let id1 = PersistentGateId { id: 1 };
    let id2 = PersistentGateId { id: 2 };

    let entity1 = gate(1);
    let entity2 = gate(2);

    let mut map = GateIdMap::new();
    map.insert(id1, entity1);
    map.insert(id2, entity2);

    map.remove_by_id(id1);

    assert_eq!(1, map.id_to_entity().len());
    assert_eq!(1, map.entity_to_id().len());

    assert_eq!(None, map.get_entity(id1));
    assert_eq!(None, map.get_id(entity1));

    assert_eq!(entity2, map.get_entity(id2).unwrap());
    assert_eq!(id2, map.get_id(entity2).unwrap());
}

#[test]
fn removing_by_entity_removes_both_directions() {
    let mut map = GateIdMap::new();
    map.insert(PersistentGateId { id: 7 }, gate(3));
    map.insert(PersistentGateId { id: 8 }, gate(4));

    map.remove_by_entity(gate(3));

    assert_eq!(None, map.get_id(gate(3)));
    assert_eq!(None, map.get_entity(PersistentGateId { id: 7 }));
    assert_eq!(Some(gate(4)), map.get_entity(PersistentGateId { id: 8 }));
    assert_eq!(1, map.id_to_entity().len());
    assert_eq!(1, map.entity_to_id().len());
}

#[test]
fn removing_unknown_keys_changes_nothing() {
    let mut map = GateIdMap::new();
    map.insert(PersistentGateId { id: 1 }, gate(1));

    map.remove_by_id(PersistentGateId { id: 99 });
    map.remove_by_entity(gate(42));

    assert_eq!(Some(gate(1)), map.get_entity(PersistentGateId { id: 1 }));
    assert_eq!(Some(PersistentGateId { id: 1 }), map.get_id(gate(1)));
}

#[test]
fn reinserting_an_id_or_entity_drops_the_stale_pair() {
    let mut map = GateIdMap::new();
    map.insert(PersistentGateId { id: 1 }, gate(1));
    map.insert(PersistentGateId { id: 1 }, gate(2));

    assert_eq!(Some(gate(2)), map.get_entity(PersistentGateId { id: 1 }));
    assert_eq!(Some(PersistentGateId { id: 1 }), map.get_id(gate(2)));
    assert_eq!(None, map.get_id(gate(1)));

    map.insert(PersistentGateId { id: 3 }, gate(3));
    map.insert(PersistentGateId { id: 4 }, gate(2));
    assert_eq!(None, map.get_entity(PersistentGateId { id: 1 }));
    assert_eq!(Some(PersistentGateId { id: 4 }), map.get_id(gate(2)));
    assert_eq!(Some(gate(3)), map.get_entity(PersistentGateId { id: 3 }));
    assert_eq!(Some(PersistentGateId { id: 3 }), map.get_id(gate(3)));
}

#[test]
fn typed_ids_are_looked_up_in_the_map_of_their_kind() {
    let ship = ShipEntity(Entity::from_bits(gate(5).0.bits));
    let station = StationEntity(Entity::from_bits(gate(6).0.bits));
    let mut maps = AllEntityIdMaps {
        asteroids: EntityIdMap::new(),
        gates: GateIdMap::new(),
        celestials: EntityIdMap::new(),
        sectors: EntityIdMap::new(),
        ships: EntityIdMap::new(),
        stations: EntityIdMap::new(),
        build_sites: EntityIdMap::new(),
    };
    maps.gates.insert(PersistentGateId { id: 11 }, gate(1));
    maps.ships.insert(PersistentShipId { id: 12 }, ship);
    maps.stations.insert(PersistentStationId { id: 13 }, station);
    let sector = SectorEntity(Entity::from_bits(gate(7).0.bits));
    maps.sectors.insert(SectorCoordinate { x: -3, y: 4 }, sector);

    assert_eq!(maps.get_typed_id_unchecked(TypedEntity::Gate(gate(1))), PersistentEntityId::Gate(PersistentGateId { id: 11 }));
    assert_eq!(maps.get_typed_id_unchecked(TypedEntity::AnyWithInventory(ship.0)), PersistentEntityId::Ship(PersistentShipId { id: 12 }));
    assert_eq!(maps.get_typed_id_unchecked(TypedEntity::AnyWithInventory(station.0)), PersistentEntityId::Station(PersistentStationId { id: 13 }));
    assert_eq!(maps.get_typed_id_unchecked(TypedEntity::Sector(sector)), PersistentEntityId::Sector(SectorCoordinate { x: -3, y: 4 }));
}

#[test]
fn sector_coordinates_round_trip_through_their_keys() {
    for (x, y) in [(0, 0), (-1, 1), (i32::MIN, i32::MAX), (7, -9)] {
        let c = SectorCoordinate { x, y };
        assert_eq!(SectorCoordinate::from_key(c.to_key()), c);
    }
    assert_eq!(SectorCoordinate { x: 1, y: 2 }.to_key(), (1u64 << 32) | 2);
}
