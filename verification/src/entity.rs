//! Plain-value stand-ins for ECS entities and their typed wrappers.
use vstd::prelude::*;

verus! {

/// An ECS entity, held by the 64 bits that identify it (row and generation).
#[derive(PartialEq, Eq, Structural, Copy, Clone, Debug, Hash)]
pub struct Entity {
    pub bits: u64,
}

impl Entity {
    /// The entity identified by `bits`.
    pub fn from_bits(bits: u64) -> (e: Entity)
        ensures
            e.bits == bits,
    {
        Entity { bits }
    }

    /// The bits identifying this entity.
    pub fn to_bits(&self) -> (bits: u64)
        ensures
            bits == self.bits,
    {
        self.bits
    }
}

/// A wrapper around an [Entity] that is known to carry one specific kind of components.
pub trait EntityWrapper: Sized + Copy {
    /// The entity held by the wrapper.
    spec fn wrapped(&self) -> Entity;

    /// Wraps `entity`.
    fn wrap(entity: Entity) -> (w: Self)
        ensures
            w.wrapped() == entity,
    ;

    /// The entity held by the wrapper.
    fn entity(&self) -> (e: Entity)
        ensures
            e == self.wrapped(),
    ;

    /// Two wrappers of the same kind holding the same entity are the same value.
    proof fn lemma_wrapped_injective(a: Self, b: Self)
        requires
            a.wrapped() == b.wrapped(),
        ensures
            a == b,
    ;
}

/// An asteroid entity.
#[derive(PartialEq, Eq, Structural, Copy, Clone, Debug, Hash)]
pub struct AsteroidEntity(pub Entity);

/// A celestial (star, planet, gas giant) entity.
#[derive(PartialEq, Eq, Structural, Copy, Clone, Debug, Hash)]
pub struct CelestialEntity(pub Entity);

/// A construction site entity.
#[derive(PartialEq, Eq, Structural, Copy, Clone, Debug, Hash)]
pub struct ConstructionSiteEntity(pub Entity);

/// A gate entity.
#[derive(PartialEq, Eq, Structural, Copy, Clone, Debug, Hash)]
pub struct GateEntity(pub Entity);

/// A sector entity.
#[derive(PartialEq, Eq, Structural, Copy, Clone, Debug, Hash)]
pub struct SectorEntity(pub Entity);

/// A ship entity.
#[derive(PartialEq, Eq, Structural, Copy, Clone, Debug, Hash)]
pub struct ShipEntity(pub Entity);

/// A station entity.
#[derive(PartialEq, Eq, Structural, Copy, Clone, Debug, Hash)]
pub struct StationEntity(pub Entity);

impl EntityWrapper for AsteroidEntity {
    open spec fn wrapped(&self) -> Entity {
        self.0
    }

    fn wrap(entity: Entity) -> (w: Self) {
        AsteroidEntity(entity)
    }

    fn entity(&self) -> (e: Entity) {
        self.0
    }

    proof fn lemma_wrapped_injective(a: Self, b: Self) {
    }
}

impl EntityWrapper for CelestialEntity {
    open spec fn wrapped(&self) -> Entity {
        self.0
    }

    fn wrap(entity: Entity) -> (w: Self) {
        CelestialEntity(entity)
    }

    fn entity(&self) -> (e: Entity) {
        self.0
    }

    proof fn lemma_wrapped_injective(a: Self, b: Self) {
    }
}

impl EntityWrapper for ConstructionSiteEntity {
    open spec fn wrapped(&self) -> Entity {
        self.0
    }

    fn wrap(entity: Entity) -> (w: Self) {
        ConstructionSiteEntity(entity)
    }

    fn entity(&self) -> (e: Entity) {
        self.0
    }

    proof fn lemma_wrapped_injective(a: Self, b: Self) {
    }
}

impl EntityWrapper for GateEntity {
    open spec fn wrapped(&self) -> Entity {
        self.0
    }

    fn wrap(entity: Entity) -> (w: Self) {
        GateEntity(entity)
    }

    fn entity(&self) -> (e: Entity) {
        self.0
    }

    proof fn lemma_wrapped_injective(a: Self, b: Self) {
    }
}

impl EntityWrapper for SectorEntity {
    open spec fn wrapped(&self) -> Entity {
        self.0
    }

    fn wrap(entity: Entity) -> (w: Self) {
        SectorEntity(entity)
    }

    fn entity(&self) -> (e: Entity) {
        self.0
    }

    proof fn lemma_wrapped_injective(a: Self, b: Self) {
    }
}

impl EntityWrapper for ShipEntity {
    open spec fn wrapped(&self) -> Entity {
        self.0
    }

    fn wrap(entity: Entity) -> (w: Self) {
        ShipEntity(entity)
    }

    fn entity(&self) -> (e: Entity) {
        self.0
    }

    proof fn lemma_wrapped_injective(a: Self, b: Self) {
    }
}

impl EntityWrapper for StationEntity {
    open spec fn wrapped(&self) -> Entity {
        self.0
    }

    fn wrap(entity: Entity) -> (w: Self) {
        StationEntity(entity)
    }

    fn entity(&self) -> (e: Entity) {
        self.0
    }

    proof fn lemma_wrapped_injective(a: Self, b: Self) {
    }
}

/// An entity tagged with the kind of components it carries.
#[derive(PartialEq, Eq, Structural, Copy, Clone, Debug)]
pub enum TypedEntity {
    Asteroid(AsteroidEntity),
    Celestial(CelestialEntity),
    ConstructionSite(ConstructionSiteEntity),
    Gate(GateEntity),
    Sector(SectorEntity),
    Ship(ShipEntity),
    Station(StationEntity),
    AnyWithInventory(Entity),
}

/// The untyped entity behind a [TypedEntity].
pub open spec fn typed_entity_inner(value: TypedEntity) -> Entity {
    match value {
        TypedEntity::Asteroid(inner) => inner.0,
        TypedEntity::Celestial(inner) => inner.0,
        TypedEntity::ConstructionSite(inner) => inner.0,
        TypedEntity::Gate(inner) => inner.0,
        TypedEntity::Sector(inner) => inner.0,
        TypedEntity::Ship(inner) => inner.0,
        TypedEntity::Station(inner) => inner.0,
        TypedEntity::AnyWithInventory(inner) => inner,
    }
}

impl TypedEntity {
    /// The untyped entity behind this value, whatever its kind.
    pub fn entity(&self) -> (e: Entity)
        ensures
            e == typed_entity_inner(*self),
    {
        match self {
            TypedEntity::Asteroid(inner) => inner.0,
            TypedEntity::Celestial(inner) => inner.0,
            TypedEntity::ConstructionSite(inner) => inner.0,
            TypedEntity::Gate(inner) => inner.0,
            TypedEntity::Sector(inner) => inner.0,
            TypedEntity::Ship(inner) => inner.0,
            TypedEntity::Station(inner) => inner.0,
            TypedEntity::AnyWithInventory(inner) => *inner,
        }
    }
}

} // verus!
