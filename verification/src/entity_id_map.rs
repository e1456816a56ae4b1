//! A bidirectional map between persistent ids and the entities they stand for.
use crate::entity::{
    AsteroidEntity, CelestialEntity, ConstructionSiteEntity, Entity, EntityWrapper, GateEntity,
    SectorEntity, ShipEntity, StationEntity, TypedEntity,
};
use crate::persistent_id::{
    PersistentAsteroidId, PersistentCelestialId, PersistentConstructionSiteId, PersistentGateId,
    PersistentId, PersistentShipId, PersistentStationId, SectorCoordinate,
};
use bevy::platform::collections::HashMap;
use bevy::platform::hash::FixedHasher;
use core::marker::PhantomData;
use vstd::prelude::*;

verus! {

/// The hasher builder that bevy's hash maps use by default.
#[verifier::external_type_specification]
#[verifier::external_body]
pub struct ExFixedHasher(FixedHasher);

/// bevy's hash map, a thin wrapper around hashbrown's.
#[verifier::external_type_specification]
#[verifier::external_body]
#[verifier::reject_recursive_types(K)]
#[verifier::reject_recursive_types(V)]
#[verifier::reject_recursive_types(S)]
pub struct ExBevyHashMap<K, V, S>(HashMap<K, V, S>);

/// The key/value pairs held by a bevy hash map from `u64` to `u64`.
pub uninterp spec fn u64_map_contents(m: HashMap<u64, u64, FixedHasher>) -> Map<u64, u64>;

/// `HashMap::new`: an empty map.
#[verifier::external_body]
fn u64_map_new() -> (empty: HashMap<u64, u64, FixedHasher>)
    ensures
        u64_map_contents(empty).dom() == Set::<u64>::empty(),
{
    HashMap::new()
}

/// `HashMap::insert`: maps `k` to `v` and hands back the value `k` had before, if any.
#[verifier::external_body]
fn u64_map_insert(m: &mut HashMap<u64, u64, FixedHasher>, k: u64, v: u64) -> (prev: Option<u64>)
    ensures
        u64_map_contents(*final(m)) == u64_map_contents(*old(m)).insert(k, v),
        prev == (if u64_map_contents(*old(m)).dom().contains(k) {
            Some(u64_map_contents(*old(m))[k])
        } else {
            None
        }),
{
    m.insert(k, v)
}

/// `HashMap::remove`: removes `k` and hands back its value, if it was there.
#[verifier::external_body]
fn u64_map_remove(m: &mut HashMap<u64, u64, FixedHasher>, k: u64) -> (prev: Option<u64>)
    ensures
        u64_map_contents(*final(m)) == u64_map_contents(*old(m)).remove(k),
        prev == (if u64_map_contents(*old(m)).dom().contains(k) {
            Some(u64_map_contents(*old(m))[k])
        } else {
            None
        }),
{
    m.remove(&k)
}

/// `HashMap::get`: the value of `k`, if it is there.
#[verifier::external_body]
fn u64_map_get(m: &HashMap<u64, u64, FixedHasher>, k: u64) -> (v: Option<u64>)
    ensures
        v == (if u64_map_contents(*m).dom().contains(k) {
            Some(u64_map_contents(*m)[k])
        } else {
            None
        }),
{
    m.get(&k).copied()
}

/// The pairs of `m` whose key is not `k` and whose value is not `v`.
pub open spec fn without_pairs_touching(m: Map<u64, u64>, k: u64, v: u64) -> Map<u64, u64> {
    m.restrict(m.dom().filter(|x: u64| x != k && m[x] != v))
}

/// `forward` and `backward` are each other's inverse.
pub open spec fn maps_are_inverse(forward: Map<u64, u64>, backward: Map<u64, u64>) -> bool {
    &&& forall|id: u64| #[trigger]
        forward.dom().contains(id) ==> backward.dom().contains(forward[id]) && backward[forward[id]]
            == id
    &&& forall|e: u64| #[trigger]
        backward.dom().contains(e) ==> forward.dom().contains(backward[e]) && forward[backward[e]]
            == e
}

/// Dropping the pairs that touch `key` or `bits` from two inverse maps, then adding the pair
/// `key`/`bits` to both, leaves them inverse.
pub proof fn lemma_insert_keeps_consistency(
    forward: Map<u64, u64>,
    backward: Map<u64, u64>,
    key: u64,
    bits: u64,
)
    requires
        maps_are_inverse(forward, backward),
    ensures
        maps_are_inverse(
            without_pairs_touching(forward, key, bits).insert(key, bits),
            without_pairs_touching(backward, bits, key).insert(bits, key),
        ),
{
    let f = without_pairs_touching(forward, key, bits).insert(key, bits);
    let b = without_pairs_touching(backward, bits, key).insert(bits, key);
    assert forall|i: u64| #[trigger] f.dom().contains(i) implies b.dom().contains(f[i]) && b[f[i]]
        == i by {
        if i != key {
            assert(forward.dom().contains(i) && forward[i] != bits);
            assert(backward.dom().contains(forward[i]));
            assert(backward[forward[i]] == i);
        }
    }
    assert forall|e: u64| #[trigger] b.dom().contains(e) implies f.dom().contains(b[e]) && f[b[e]]
        == e by {
        if e != bits {
            assert(backward.dom().contains(e) && backward[e] != key);
            assert(forward.dom().contains(backward[e]));
            assert(forward[backward[e]] == e);
        }
    }
}

/// The value of `k` in `m` as an option.
pub open spec fn map_lookup(m: Map<u64, u64>, k: u64) -> Option<u64> {
    if m.dom().contains(k) {
        Some(m[k])
    } else {
        None
    }
}

/// Maps persistent ids of kind `TId` to the entities of kind `TEntity` they represent, and
/// back.
///
/// Both directions are stored, ids by their keys and entities by their bits; lookups in
/// either direction are hash map lookups.
pub struct EntityIdMap<TId: PersistentId, TEntity: EntityWrapper> {
    id_to_entity: HashMap<u64, u64, FixedHasher>,
    entity_to_id: HashMap<u64, u64, FixedHasher>,
    id_kind: PhantomData<TId>,
    entity_kind: PhantomData<TEntity>,
}

impl<TId: PersistentId, TEntity: EntityWrapper> EntityIdMap<TId, TEntity> {
    /// Id key -> entity bits.
    pub closed spec fn forward(&self) -> Map<u64, u64> {
        u64_map_contents(self.id_to_entity)
    }

    /// Entity bits -> id key.
    pub closed spec fn backward(&self) -> Map<u64, u64> {
        u64_map_contents(self.entity_to_id)
    }

    /// The two directions are each other's inverse: the map is a bijection between the ids and
    /// the entities it holds.
    #[verifier::type_invariant]
    pub open spec fn is_consistent(&self) -> bool {
        maps_are_inverse(self.forward(), self.backward())
    }

    /// An empty map.
    pub fn new() -> (m: Self)
        ensures
            m.forward() == Map::<u64, u64>::empty(),
            m.backward() == Map::<u64, u64>::empty(),
            m.is_consistent(),
    {
        EntityIdMap {
            id_to_entity: u64_map_new(),
            entity_to_id: u64_map_new(),
            id_kind: PhantomData,
            entity_kind: PhantomData,
        }
    }

    /// Read-only access to the entity -> id direction.
    pub fn entity_to_id(&self) -> (m: &HashMap<u64, u64, FixedHasher>)
        ensures
            u64_map_contents(*m) == self.backward(),
    {
        &self.entity_to_id
    }

    /// Read-only access to the id -> entity direction.
    pub fn id_to_entity(&self) -> (m: &HashMap<u64, u64, FixedHasher>)
        ensures
            u64_map_contents(*m) == self.forward(),
    {
        &self.id_to_entity
    }

    /// Moves both directions out, leaving the map empty.
    fn take_maps(&mut self) -> (r: (HashMap<u64, u64, FixedHasher>, HashMap<u64, u64, FixedHasher>))
        ensures
            u64_map_contents(r.0) == old(self).forward(),
            u64_map_contents(r.1) == old(self).backward(),
            final(self).forward() == Map::<u64, u64>::empty(),
            final(self).backward() == Map::<u64, u64>::empty(),
    {
        let mut taken = EntityIdMap {
            id_to_entity: u64_map_new(),
            entity_to_id: u64_map_new(),
            id_kind: PhantomData,
            entity_kind: PhantomData,
        };
        core::mem::swap(self, &mut taken);
        (taken.id_to_entity, taken.entity_to_id)
    }

    /// Records that `id` stands for `entity`, in both directions. Pairs that held `id` or
    /// `entity` before are dropped, so the map stays a bijection; all other pairs are kept.
    pub fn insert(&mut self, id: TId, entity: TEntity)
        ensures
            final(self).forward() == without_pairs_touching(
                old(self).forward(),
                id.key(),
                entity.wrapped().bits,
            ).insert(id.key(), entity.wrapped().bits),
            final(self).backward() == without_pairs_touching(
                old(self).backward(),
                entity.wrapped().bits,
                id.key(),
            ).insert(entity.wrapped().bits, id.key()),
            final(self).is_consistent(),
    {
        proof {
            use_type_invariant(&*self);
        }
        let ghost before_forward = self.forward();
        let ghost before_backward = self.backward();
        let key = id.to_key();
        let bits = entity.entity().bits;
        let (mut id_to_entity, mut entity_to_id) = self.take_maps();
        if let Some(previous_bits) = u64_map_remove(&mut id_to_entity, key) {
            u64_map_remove(&mut entity_to_id, previous_bits);
        }
        if let Some(previous_key) = u64_map_remove(&mut entity_to_id, bits) {
            u64_map_remove(&mut id_to_entity, previous_key);
        }
        u64_map_insert(&mut id_to_entity, key, bits);
        u64_map_insert(&mut entity_to_id, bits, key);
        proof {
            assert(u64_map_contents(id_to_entity) =~= without_pairs_touching(
                before_forward,
                key,
                bits,
            ).insert(key, bits));
            assert(u64_map_contents(entity_to_id) =~= without_pairs_touching(
                before_backward,
                bits,
                key,
            ).insert(bits, key));
            lemma_insert_keeps_consistency(before_forward, before_backward, key, bits);
        }
        *self = EntityIdMap {
            id_to_entity,
            entity_to_id,
            id_kind: PhantomData,
            entity_kind: PhantomData,
        };
    }

    /// Removes `id` and, if it was there, the entity it stood for.
    pub fn remove_by_id(&mut self, id: TId)
        ensures
            old(self).forward().dom().contains(id.key()) ==> {
                &&& final(self).forward() == old(self).forward().remove(id.key())
                &&& final(self).backward() == old(self).backward().remove(
                    old(self).forward()[id.key()],
                )
            },
            !old(self).forward().dom().contains(id.key()) ==> {
                &&& final(self).forward() == old(self).forward()
                &&& final(self).backward() == old(self).backward()
            },
            final(self).is_consistent(),
    {
        proof {
            use_type_invariant(&*self);
        }
        let ghost before = *self;
        let (mut id_to_entity, mut entity_to_id) = self.take_maps();
        match u64_map_remove(&mut id_to_entity, id.to_key()) {
            Some(entity) => {
                u64_map_remove(&mut entity_to_id, entity);
            },
            None => {
                assert(u64_map_contents(id_to_entity) =~= before.forward());
            },
        }
        proof {
            law_remove_by_id_keeps_consistency(
                before,
                EntityIdMap { id_to_entity, entity_to_id, id_kind: PhantomData, entity_kind: PhantomData },
                id,
            );
        }
        *self = EntityIdMap { id_to_entity, entity_to_id, id_kind: PhantomData, entity_kind: PhantomData };
    }

    /// Removes `entity` and, if it was there, the id that stood for it.
    pub fn remove_by_entity(&mut self, entity: TEntity)
        ensures
            old(self).backward().dom().contains(entity.wrapped().bits) ==> {
                &&& final(self).backward() == old(self).backward().remove(entity.wrapped().bits)
                &&& final(self).forward() == old(self).forward().remove(
                    old(self).backward()[entity.wrapped().bits],
                )
            },
            !old(self).backward().dom().contains(entity.wrapped().bits) ==> {
                &&& final(self).forward() == old(self).forward()
                &&& final(self).backward() == old(self).backward()
            },
            final(self).is_consistent(),
    {
        proof {
            use_type_invariant(&*self);
        }
        let ghost before = *self;
        let bits = entity.entity().bits;
        let (mut id_to_entity, mut entity_to_id) = self.take_maps();
        match u64_map_remove(&mut entity_to_id, bits) {
            Some(id) => {
                u64_map_remove(&mut id_to_entity, id);
            },
            None => {
                assert(u64_map_contents(entity_to_id) =~= before.backward());
            },
        }
        proof {
            law_remove_by_entity_keeps_consistency(
                before,
                EntityIdMap { id_to_entity, entity_to_id, id_kind: PhantomData, entity_kind: PhantomData },
                entity,
            );
        }
        *self = EntityIdMap { id_to_entity, entity_to_id, id_kind: PhantomData, entity_kind: PhantomData };
    }

    /// The entity that `id` stands for, if any.
    pub fn get_entity(&self, id: TId) -> (e: Option<TEntity>)
        ensures
            match map_lookup(self.forward(), id.key()) {
                Some(bits) => e.is_some() && e.unwrap().wrapped().bits == bits,
                None => e.is_none(),
            },
    {
        match u64_map_get(&self.id_to_entity, id.to_key()) {
            Some(bits) => Some(TEntity::wrap(Entity::from_bits(bits))),
            None => None,
        }
    }

    /// The id standing for `entity`, if any.
    pub fn get_id(&self, entity: TEntity) -> (id: Option<TId>)
        ensures
            match map_lookup(self.backward(), entity.wrapped().bits) {
                Some(key) => id.is_some() && id.unwrap().key() == key,
                None => id.is_none(),
            },
    {
        match u64_map_get(&self.entity_to_id, entity.entity().bits) {
            Some(key) => Some(TId::from_key(key)),
            None => None,
        }
    }
}

impl<TId: PersistentId, TEntity: EntityWrapper> Default for EntityIdMap<TId, TEntity> {
    fn default() -> (m: Self)
        ensures
            m.forward() == Map::<u64, u64>::empty(),
            m.backward() == Map::<u64, u64>::empty(),
    {
        Self::new()
    }
}

/// After `insert(id, entity)`, looking up `id` gives `entity`, looking up `entity` gives `id`,
/// the map is still a bijection, and every earlier pair that shares neither the id nor the
/// entity is still there.
pub proof fn law_insert_then_lookup<TId: PersistentId, TEntity: EntityWrapper>(
    before: EntityIdMap<TId, TEntity>,
    after: EntityIdMap<TId, TEntity>,
    id: TId,
    entity: TEntity,
)
    requires
        before.is_consistent(),
        after.forward() == without_pairs_touching(
            before.forward(),
            id.key(),
            entity.wrapped().bits,
        ).insert(id.key(), entity.wrapped().bits),
        after.backward() == without_pairs_touching(
            before.backward(),
            entity.wrapped().bits,
            id.key(),
        ).insert(entity.wrapped().bits, id.key()),
    ensures
        map_lookup(after.forward(), id.key()) == Some(entity.wrapped().bits),
        map_lookup(after.backward(), entity.wrapped().bits) == Some(id.key()),
        after.is_consistent(),
        forall|k: u64|
            #![trigger before.forward().dom().contains(k)]
            before.forward().dom().contains(k) && k != id.key() && before.forward()[k]
                != entity.wrapped().bits ==> map_lookup(after.forward(), k) == Some(
                before.forward()[k],
            ),
        forall|k: u64|
            #![trigger after.forward().dom().contains(k)]
            after.forward().dom().contains(k) && k != id.key() ==> before.forward().dom().contains(
                k,
            ) && before.forward()[k] == after.forward()[k],
{
    lemma_insert_keeps_consistency(
        before.forward(),
        before.backward(),
        id.key(),
        entity.wrapped().bits,
    );
}

/// Removing by id keeps a consistent map consistent, and afterwards neither the id nor the
/// entity it stood for can be looked up.
pub proof fn law_remove_by_id_keeps_consistency<TId: PersistentId, TEntity: EntityWrapper>(
    before: EntityIdMap<TId, TEntity>,
    after: EntityIdMap<TId, TEntity>,
    id: TId,
)
    requires
        before.is_consistent(),
        before.forward().dom().contains(id.key()) ==> {
            &&& after.forward() == before.forward().remove(id.key())
            &&& after.backward() == before.backward().remove(before.forward()[id.key()])
        },
        !before.forward().dom().contains(id.key()) ==> {
            &&& after.forward() == before.forward()
            &&& after.backward() == before.backward()
        },
    ensures
        after.is_consistent(),
        map_lookup(after.forward(), id.key()) is None,
        before.forward().dom().contains(id.key()) ==> map_lookup(after.backward(), before.forward()[id.key()]) is None,
{
    if before.forward().dom().contains(id.key()) {
        assert forall|i: u64| #[trigger] after.forward().dom().contains(i) implies after.backward().dom().contains(
            after.forward()[i],
        ) && after.backward()[after.forward()[i]] == i by {
            assert(before.forward().dom().contains(i));
            assert(before.backward().dom().contains(before.forward()[i]));
            assert(before.backward()[before.forward()[i]] == i);
        }
        assert forall|e: u64| #[trigger] after.backward().dom().contains(e) implies after.forward().dom().contains(
            after.backward()[e],
        ) && after.forward()[after.backward()[e]] == e by {
            assert(before.backward().dom().contains(e));
            assert(before.forward().dom().contains(before.backward()[e]));
            assert(before.forward()[before.backward()[e]] == e);
        }
    }
}

/// Removing by entity keeps a consistent map consistent, and afterwards neither the entity nor
/// the id that stood for it can be looked up.
pub proof fn law_remove_by_entity_keeps_consistency<TId: PersistentId, TEntity: EntityWrapper>(
    before: EntityIdMap<TId, TEntity>,
    after: EntityIdMap<TId, TEntity>,
    entity: TEntity,
)
    requires
        before.is_consistent(),
        before.backward().dom().contains(entity.wrapped().bits) ==> {
            &&& after.backward() == before.backward().remove(entity.wrapped().bits)
            &&& after.forward() == before.forward().remove(before.backward()[entity.wrapped().bits])
        },
        !before.backward().dom().contains(entity.wrapped().bits) ==> {
            &&& after.forward() == before.forward()
            &&& after.backward() == before.backward()
        },
    ensures
        after.is_consistent(),
        map_lookup(after.backward(), entity.wrapped().bits) is None,
        before.backward().dom().contains(entity.wrapped().bits) ==> map_lookup(
            after.forward(),
            before.backward()[entity.wrapped().bits],
        ) is None,
{
    let bits = entity.wrapped().bits;
    if before.backward().dom().contains(bits) {
        assert forall|i: u64| #[trigger] after.forward().dom().contains(i) implies after.backward().dom().contains(
            after.forward()[i],
        ) && after.backward()[after.forward()[i]] == i by {
            assert(before.forward().dom().contains(i));
            assert(before.backward().dom().contains(before.forward()[i]));
            assert(before.backward()[before.forward()[i]] == i);
        }
        assert forall|e: u64| #[trigger] after.backward().dom().contains(e) implies after.forward().dom().contains(
            after.backward()[e],
        ) && after.forward()[after.backward()[e]] == e by {
            assert(before.backward().dom().contains(e));
            assert(before.forward().dom().contains(before.backward()[e]));
            assert(before.forward()[before.backward()[e]] == e);
        }
    }
}

/// Inserting an id and an entity that are both new, then removing the id again, leaves the
/// map as it was.
pub proof fn law_insert_then_remove_by_id_restores<TId: PersistentId, TEntity: EntityWrapper>(
    before: EntityIdMap<TId, TEntity>,
    inserted: EntityIdMap<TId, TEntity>,
    after: EntityIdMap<TId, TEntity>,
    id: TId,
    entity: TEntity,
)
    requires
        before.is_consistent(),
        !before.forward().dom().contains(id.key()),
        !before.backward().dom().contains(entity.wrapped().bits),
        inserted.forward() == without_pairs_touching(
            before.forward(),
            id.key(),
            entity.wrapped().bits,
        ).insert(id.key(), entity.wrapped().bits),
        inserted.backward() == without_pairs_touching(
            before.backward(),
            entity.wrapped().bits,
            id.key(),
        ).insert(entity.wrapped().bits, id.key()),
        inserted.forward().dom().contains(id.key()) ==> {
            &&& after.forward() == inserted.forward().remove(id.key())
            &&& after.backward() == inserted.backward().remove(inserted.forward()[id.key()])
        },
        !inserted.forward().dom().contains(id.key()) ==> {
            &&& after.forward() == inserted.forward()
            &&& after.backward() == inserted.backward()
        },
    ensures
        after.forward() == before.forward(),
        after.backward() == before.backward(),
{
    let bits = entity.wrapped().bits;
    assert forall|k: u64| #[trigger] before.forward().dom().contains(k) implies before.forward()[k]
        != bits by {
        assert(before.backward().dom().contains(before.forward()[k]));
    }
    assert forall|e: u64| #[trigger] before.backward().dom().contains(e) implies before.backward()[e]
        != id.key() by {
        assert(before.forward().dom().contains(before.backward()[e]));
    }
    assert(without_pairs_touching(before.forward(), id.key(), bits) =~= before.forward());
    assert(without_pairs_touching(before.backward(), bits, id.key()) =~= before.backward());
    assert(after.forward() =~= before.forward());
    assert(after.backward() =~= before.backward());
}

/// Maps asteroid ids to asteroid entities.
pub type AsteroidIdMap = EntityIdMap<PersistentAsteroidId, AsteroidEntity>;

/// Maps gate ids to gate entities.
pub type GateIdMap = EntityIdMap<PersistentGateId, GateEntity>;

/// Maps celestial ids to celestial entities.
pub type CelestialIdMap = EntityIdMap<PersistentCelestialId, CelestialEntity>;

/// Maps ship ids to ship entities.
pub type ShipIdMap = EntityIdMap<PersistentShipId, ShipEntity>;

/// Maps sector coordinates to sector entities.
pub type SectorIdMap = EntityIdMap<SectorCoordinate, SectorEntity>;

/// Maps station ids to station entities.
pub type StationIdMap = EntityIdMap<PersistentStationId, StationEntity>;

/// Maps construction site ids to construction site entities.
pub type ConstructionSiteIdMap = EntityIdMap<PersistentConstructionSiteId, ConstructionSiteEntity>;

/// The persistent id of any kind of entity.
#[derive(PartialEq, Eq, Structural, Copy, Clone, Debug)]
pub enum PersistentEntityId {
    Asteroid(PersistentAsteroidId),
    Celestial(PersistentCelestialId),
    ConstructionSite(PersistentConstructionSiteId),
    Gate(PersistentGateId),
    Sector(SectorCoordinate),
    Ship(PersistentShipId),
    Station(PersistentStationId),
}

/// The id maps of all entity kinds.
pub struct AllEntityIdMaps {
    pub asteroids: AsteroidIdMap,
    pub gates: GateIdMap,
    pub celestials: CelestialIdMap,
    pub sectors: SectorIdMap,
    pub ships: ShipIdMap,
    pub stations: StationIdMap,
    pub build_sites: ConstructionSiteIdMap,
}

/// Whether `m` has an id for the entity with these bits.
pub open spec fn has_id_for<TId: PersistentId, TEntity: EntityWrapper>(
    m: EntityIdMap<TId, TEntity>,
    bits: u64,
) -> bool {
    m.backward().dom().contains(bits)
}

/// The key of the id that `m` holds for the entity with these bits.
pub open spec fn id_key_for<TId: PersistentId, TEntity: EntityWrapper>(
    m: EntityIdMap<TId, TEntity>,
    bits: u64,
) -> u64 {
    m.backward()[bits]
}

impl AllEntityIdMaps {
    /// Whether the map of the entity's kind holds an id for it; an entity with an inventory
    /// needs an id as a ship or as a station.
    pub open spec fn knows(&self, typed_entity: TypedEntity) -> bool {
        match typed_entity {
            TypedEntity::Asteroid(x) => has_id_for(self.asteroids, x.0.bits),
            TypedEntity::ConstructionSite(x) => has_id_for(self.build_sites, x.0.bits),
            TypedEntity::Gate(x) => has_id_for(self.gates, x.0.bits),
            TypedEntity::Celestial(x) => has_id_for(self.celestials, x.0.bits),
            TypedEntity::Sector(x) => has_id_for(self.sectors, x.0.bits),
            TypedEntity::Ship(x) => has_id_for(self.ships, x.0.bits),
            TypedEntity::Station(x) => has_id_for(self.stations, x.0.bits),
            TypedEntity::AnyWithInventory(e) => has_id_for(self.ships, e.bits) || has_id_for(
                self.stations,
                e.bits,
            ),
        }
    }

    /// The id of `typed_entity`, looked up in the map of its kind. An entity with an inventory
    /// is looked up among ships first, then among stations.
    pub fn get_typed_id_unchecked(&self, typed_entity: TypedEntity) -> (id: PersistentEntityId)
        requires
            self.knows(typed_entity),
        ensures
            match typed_entity {
                TypedEntity::Asteroid(x) => id matches PersistentEntityId::Asteroid(i) && i.key()
                    == id_key_for(self.asteroids, x.0.bits),
                TypedEntity::ConstructionSite(x) => id matches PersistentEntityId::ConstructionSite(i)
                    && i.key() == id_key_for(self.build_sites, x.0.bits),
                TypedEntity::Gate(x) => id matches PersistentEntityId::Gate(i) && i.key()
                    == id_key_for(self.gates, x.0.bits),
                TypedEntity::Celestial(x) => id matches PersistentEntityId::Celestial(i) && i.key()
                    == id_key_for(self.celestials, x.0.bits),
                TypedEntity::Sector(x) => id matches PersistentEntityId::Sector(i) && i.key()
                    == id_key_for(self.sectors, x.0.bits),
                TypedEntity::Ship(x) => id matches PersistentEntityId::Ship(i) && i.key()
                    == id_key_for(self.ships, x.0.bits),
                TypedEntity::Station(x) => id matches PersistentEntityId::Station(i) && i.key()
                    == id_key_for(self.stations, x.0.bits),
                TypedEntity::AnyWithInventory(e) => if has_id_for(self.ships, e.bits) {
                    id matches PersistentEntityId::Ship(i) && i.key() == id_key_for(
                        self.ships,
                        e.bits,
                    )
                } else {
                    id matches PersistentEntityId::Station(i) && i.key() == id_key_for(
                        self.stations,
                        e.bits,
                    )
                },
            },
    {
        match typed_entity {
            TypedEntity::Asteroid(asteroid) => PersistentEntityId::Asteroid(
                self.asteroids.get_id(asteroid).unwrap(),
            ),
            TypedEntity::ConstructionSite(build_site) => PersistentEntityId::ConstructionSite(
                self.build_sites.get_id(build_site).unwrap(),
            ),
            TypedEntity::Gate(gate) => PersistentEntityId::Gate(self.gates.get_id(gate).unwrap()),
            TypedEntity::Celestial(celestial) => PersistentEntityId::Celestial(
                self.celestials.get_id(celestial).unwrap(),
            ),
            TypedEntity::Sector(sector) => PersistentEntityId::Sector(
                self.sectors.get_id(sector).unwrap(),
            ),
            TypedEntity::Ship(ship) => PersistentEntityId::Ship(self.ships.get_id(ship).unwrap()),
            TypedEntity::Station(station) => PersistentEntityId::Station(
                self.stations.get_id(station).unwrap(),
            ),
            TypedEntity::AnyWithInventory(entity_with_inventory) => {
                if let Some(id) = self.ships.get_id(ShipEntity(entity_with_inventory)) {
                    return PersistentEntityId::Ship(id);
                }
                PersistentEntityId::Station(
                    self.stations.get_id(StationEntity(entity_with_inventory)).unwrap(),
                )
            },
        }
    }
}

} // verus!
