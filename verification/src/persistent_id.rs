//! Identifiers that survive saving and loading, and the `u64` keys they are stored under.
use vstd::prelude::*;

verus! {

/// An identifier that can be stored under a `u64` key; distinct identifiers have distinct keys
/// and every key stands for an identifier.
pub trait PersistentId: Sized + Copy {
    /// The key this identifier is stored under.
    spec fn key(&self) -> u64;

    /// The key this identifier is stored under.
    fn to_key(&self) -> (k: u64)
        ensures
            k == self.key(),
    ;

    /// The identifier stored under `k`.
    fn from_key(k: u64) -> (id: Self)
        ensures
            id.key() == k,
    ;

    /// Distinct identifiers have distinct keys.
    proof fn lemma_key_injective(a: Self, b: Self)
        requires
            a.key() == b.key(),
        ensures
            a == b,
    ;
}

/// The persistent id of an asteroid.
#[derive(PartialEq, Eq, Structural, Copy, Clone, Debug, Hash)]
pub struct PersistentAsteroidId {
    pub id: u64,
}

/// The persistent id of a celestial body.
#[derive(PartialEq, Eq, Structural, Copy, Clone, Debug, Hash)]
pub struct PersistentCelestialId {
    pub id: u64,
}

/// The persistent id of a construction site.
#[derive(PartialEq, Eq, Structural, Copy, Clone, Debug, Hash)]
pub struct PersistentConstructionSiteId {
    pub id: u64,
}

/// The persistent id of a gate.
#[derive(PartialEq, Eq, Structural, Copy, Clone, Debug, Hash)]
pub struct PersistentGateId {
    pub id: u64,
}

/// The persistent id of a ship.
#[derive(PartialEq, Eq, Structural, Copy, Clone, Debug, Hash)]
pub struct PersistentShipId {
    pub id: u64,
}

/// The persistent id of a station.
#[derive(PartialEq, Eq, Structural, Copy, Clone, Debug, Hash)]
pub struct PersistentStationId {
    pub id: u64,
}

/// The axial hex coordinate of a sector on the map; sectors are identified by it.
#[derive(PartialEq, Eq, Structural, Copy, Clone, Debug, Hash)]
pub struct SectorCoordinate {
    pub x: i32,
    pub y: i32,
}

impl PersistentId for PersistentAsteroidId {
    open spec fn key(&self) -> u64 {
        self.id
    }

    fn to_key(&self) -> (k: u64) {
        self.id
    }

    fn from_key(k: u64) -> (id: Self) {
        PersistentAsteroidId { id: k }
    }

    proof fn lemma_key_injective(a: Self, b: Self) {
    }
}

impl PersistentId for PersistentCelestialId {
    open spec fn key(&self) -> u64 {
        self.id
    }

    fn to_key(&self) -> (k: u64) {
        self.id
    }

    fn from_key(k: u64) -> (id: Self) {
        PersistentCelestialId { id: k }
    }

    proof fn lemma_key_injective(a: Self, b: Self) {
    }
}

impl PersistentId for PersistentConstructionSiteId {
    open spec fn key(&self) -> u64 {
        self.id
    }

    fn to_key(&self) -> (k: u64) {
        self.id
    }

    fn from_key(k: u64) -> (id: Self) {
        PersistentConstructionSiteId { id: k }
    }

    proof fn lemma_key_injective(a: Self, b: Self) {
    }
}

impl PersistentId for PersistentGateId {
    open spec fn key(&self) -> u64 {
        self.id
    }

    fn to_key(&self) -> (k: u64) {
        self.id
    }

    fn from_key(k: u64) -> (id: Self) {
        PersistentGateId { id: k }
    }

    proof fn lemma_key_injective(a: Self, b: Self) {
    }
}

impl PersistentId for PersistentShipId {
    open spec fn key(&self) -> u64 {
        self.id
    }

    fn to_key(&self) -> (k: u64) {
        self.id
    }

    fn from_key(k: u64) -> (id: Self) {
        PersistentShipId { id: k }
    }

    proof fn lemma_key_injective(a: Self, b: Self) {
    }
}

impl PersistentId for PersistentStationId {
    open spec fn key(&self) -> u64 {
        self.id
    }

    fn to_key(&self) -> (k: u64) {
        self.id
    }

    fn from_key(k: u64) -> (id: Self) {
        PersistentStationId { id: k }
    }

    proof fn lemma_key_injective(a: Self, b: Self) {
    }
}

/// The key of a sector coordinate: `x` in the upper and `y` in the lower 32 bits, each as its
/// two's complement bit pattern.
pub open spec fn sector_coordinate_key(x: i32, y: i32) -> u64 {
    ((x as u32 as u64) << 32u64) | (y as u32 as u64)
}

impl PersistentId for SectorCoordinate {
    open spec fn key(&self) -> u64 {
        sector_coordinate_key(self.x, self.y)
    }

    fn to_key(&self) -> (k: u64) {
        ((self.x as u32 as u64) << 32u64) | (self.y as u32 as u64)
    }

    fn from_key(k: u64) -> (id: Self) {
        let x = (k >> 32u64) as u32 as i32;
        let y = k as u32 as i32;
        assert(sector_coordinate_key(x, y) == k) by (bit_vector)
            requires
                x == (k >> 32u64) as u32 as i32,
                y == k as u32 as i32,
        ;
        SectorCoordinate { x, y }
    }

    proof fn lemma_key_injective(a: Self, b: Self) {
        let (ax, ay, bx, by_) = (a.x, a.y, b.x, b.y);
        assert(ax == bx && ay == by_) by (bit_vector)
            requires
                sector_coordinate_key(ax, ay) == sector_coordinate_key(bx, by_),
        ;
    }
}

} // verus!
