//! Build-power bookkeeping of construction sites.
use crate::entity::{ShipEntity, StationEntity};
use crate::game_data::ConstructableModuleId;
use crate::persistent_id::PersistentConstructionSiteId;
use crate::ship_tasks::FloatBits;
use std::collections::HashMap;
use vstd::prelude::*;

verus! {

broadcast use vstd::std_specs::hash::group_hash_axioms;

/// The sum of all build powers in `ships`.
pub open spec fn total_build_power(ships: Map<u64, u32>) -> int
    decreases ships.dom().len(),
    when ships.dom().finite()
{
    if ships.dom().len() == 0 {
        0
    } else {
        let k = ships.dom().choose();
        ships[k] + total_build_power(ships.remove(k))
    }
}

/// Taking one ship out of the sum: the total is its build power plus the total of the others.
pub proof fn lemma_total_build_power_remove(ships: Map<u64, u32>, k: u64)
    requires
        ships.dom().finite(),
        ships.dom().contains(k),
    ensures
        total_build_power(ships) == ships[k] + total_build_power(ships.remove(k)),
    decreases ships.dom().len(),
{
    assert(ships.dom().len() > 0);
    let c = ships.dom().choose();
    if c != k {
        lemma_total_build_power_remove(ships.remove(c), k);
        lemma_total_build_power_remove(ships.remove(k), c);
        assert(ships.remove(c).remove(k) =~= ships.remove(k).remove(c));
    }
}

/// The total build power of finitely many ships is never negative.
pub proof fn lemma_total_build_power_nonnegative(ships: Map<u64, u32>)
    requires
        ships.dom().finite(),
    ensures
        total_build_power(ships) >= 0,
    decreases ships.dom().len(),
{
    if ships.dom().len() > 0 {
        let k = ships.dom().choose();
        lemma_total_build_power_nonnegative(ships.remove(k));
    }
}

/// The build power of a ship working on a site never exceeds the site's total.
pub proof fn lemma_single_ship_within_total(ships: Map<u64, u32>, k: u64)
    requires
        ships.dom().finite(),
        ships.dom().contains(k),
    ensures
        ships[k] <= total_build_power(ships),
{
    lemma_total_build_power_remove(ships, k);
    lemma_total_build_power_nonnegative(ships.remove(k));
}

/// How far a construction site has come.
#[derive(PartialEq, Eq, Structural, Copy, Clone, Debug)]
pub enum ConstructionSiteStatus {
    /// No ship is building yet.
    MissingBuilders,
}

/// A construction site: what it builds for which station, how far it has come, and the ships
/// working on it with their combined build power.
pub struct ConstructionSite {
    pub id: PersistentConstructionSiteId,
    /// The station the site builds for.
    pub station: StationEntity,
    /// The modules to build, in order.
    pub build_order: Vec<ConstructableModuleId>,
    /// The progress made so far (the bits of an `f32`).
    pub current_build_progress: FloatBits,
    pub status: ConstructionSiteStatus,
    /// The position in [Self::build_order] that is built next.
    pub next_construction_step: usize,
    /// The progress left until the next step (the bits of an `f32`).
    pub progress_until_next_step: FloatBits,
    /// The combined build power of all ships registered in [Self::construction_ships].
    pub total_build_power_of_ships: u32,
    /// The registered ships (by entity bits) and the build power each contributes.
    pub construction_ships: HashMap<u64, u32>,
}

/// What a new construction site is spawned from.
pub struct ConstructionSiteSpawnData {
    /// The persistent id the site will have.
    pub id: PersistentConstructionSiteId,
    /// The modules to build; never empty.
    pub build_order: Vec<ConstructableModuleId>,
    /// The progress made so far (the bits of an `f32`); 0 for a new site.
    pub current_progress: FloatBits,
    /// The position in the build order that is built next; 0 for a new site.
    pub next_construction_step: usize,
    /// The progress left until the next step (the bits of an `f32`); 0 for a new site.
    pub progress_until_next_step: FloatBits,
}

impl ConstructionSiteSpawnData {
    /// Spawn data for a site with id `id` that builds `build_order` from scratch. The build
    /// order must not be empty.
    pub fn new(id: PersistentConstructionSiteId, build_order: Vec<ConstructableModuleId>) -> (d: Self)
        requires
            build_order@.len() > 0,
        ensures
            d.id == id,
            d.build_order@ == build_order@,
            d.current_progress.bits == 0,
            d.next_construction_step == 0,
            d.progress_until_next_step.bits == 0,
    {
        ConstructionSiteSpawnData {
            id,
            build_order,
            current_progress: FloatBits::zero(),
            next_construction_step: 0,
            progress_until_next_step: FloatBits::zero(),
        }
    }

    /// The same spawn data with the progress made so far set to `value`.
    pub fn with_progress(self, value: FloatBits) -> (d: Self)
        ensures
            d.id == self.id,
            d.build_order@ == self.build_order@,
            d.current_progress == value,
            d.next_construction_step == self.next_construction_step,
            d.progress_until_next_step == self.progress_until_next_step,
    {
        let mut d = self;
        d.current_progress = value;
        d
    }
}

/// The construction site spawned from `data` for `station`: it takes over the spawn data, waits
/// for builders, and has no ships yet.
pub fn new_construction_site(station: StationEntity, data: ConstructionSiteSpawnData) -> (site:
    ConstructionSite)
    ensures
        site.id == data.id,
        site.station == station,
        site.build_order@ == data.build_order@,
        site.current_build_progress == data.current_progress,
        site.status == ConstructionSiteStatus::MissingBuilders,
        site.next_construction_step == data.next_construction_step,
        site.progress_until_next_step == data.progress_until_next_step,
        site.total_build_power_of_ships == 0,
        site.construction_ships@ == Map::<u64, u32>::empty(),
        site.is_well_formed(),
{
    ConstructionSite {
        id: data.id,
        station,
        build_order: data.build_order,
        current_build_progress: data.current_progress,
        status: ConstructionSiteStatus::MissingBuilders,
        next_construction_step: data.next_construction_step,
        progress_until_next_step: data.progress_until_next_step,
        total_build_power_of_ships: 0,
        construction_ships: HashMap::new(),
    }
}

impl ConstructionSite {
    /// Everything but the registered ships and their total is the same in `self` and `other`.
    pub open spec fn same_plan(&self, other: &ConstructionSite) -> bool {
        &&& self.id == other.id
        &&& self.station == other.station
        &&& self.build_order@ == other.build_order@
        &&& self.current_build_progress == other.current_build_progress
        &&& self.status == other.status
        &&& self.next_construction_step == other.next_construction_step
        &&& self.progress_until_next_step == other.progress_until_next_step
    }

    /// The recorded total equals the sum of the registered ships' build powers.
    pub open spec fn is_well_formed(&self) -> bool {
        self.total_build_power_of_ships == total_build_power(self.construction_ships@)
    }
}

/// The previous build power of `ship` on a site, or 0 if it was not registered.
pub open spec fn registered_power(ships: Map<u64, u32>, ship: u64) -> int {
    if ships.dom().contains(ship) {
        ships[ship] as int
    } else {
        0
    }
}

/// Registers a ship as an active worker for the provided [ConstructionSite], replacing an
/// earlier registration of the same ship.
pub fn register_ship(site: &mut ConstructionSite, entity: ShipEntity, build_power: u32)
    requires
        old(site).total_build_power_of_ships + build_power <= u32::MAX,
        old(site).total_build_power_of_ships + build_power >= registered_power(
            old(site).construction_ships@,
            entity.0.bits,
        ),
    ensures
        final(site).construction_ships@ == old(site).construction_ships@.insert(
            entity.0.bits,
            build_power,
        ),
        final(site).total_build_power_of_ships == old(site).total_build_power_of_ships
            + build_power - registered_power(old(site).construction_ships@, entity.0.bits),
        final(site).same_plan(&*old(site)),
{
    site.total_build_power_of_ships = site.total_build_power_of_ships + build_power;
    if let Some(old_value) = site.construction_ships.insert(entity.0.bits, build_power) {
        site.total_build_power_of_ships = site.total_build_power_of_ships - old_value;
    }
}

/// Removes a ship registration from the provided [ConstructionSite].
pub fn deregister_ship(site: &mut ConstructionSite, entity: ShipEntity)
    requires
        old(site).total_build_power_of_ships >= registered_power(
            old(site).construction_ships@,
            entity.0.bits,
        ),
    ensures
        final(site).construction_ships@ == old(site).construction_ships@.remove(entity.0.bits),
        final(site).total_build_power_of_ships == old(site).total_build_power_of_ships
            - registered_power(old(site).construction_ships@, entity.0.bits),
        final(site).same_plan(&*old(site)),
{
    if let Some(build_power) = site.construction_ships.remove(&entity.0.bits) {
        site.total_build_power_of_ships = site.total_build_power_of_ships - build_power;
    }
}

/// What starting a construction task does to its site: a ship with `build_power` (looked up
/// in its configuration) registers with the site; a ship without any build power leaves the
/// site unchanged. Returns whether the ship was registered.
pub fn start_construction(site: &mut ConstructionSite, ship: ShipEntity, build_power: Option<u32>) -> (registered: bool)
    requires
        build_power matches Some(p) ==> {
            &&& old(site).total_build_power_of_ships + p <= u32::MAX
            &&& old(site).total_build_power_of_ships + p >= registered_power(
                old(site).construction_ships@,
                ship.0.bits,
            )
        },
    ensures
        registered == build_power is Some,
        match build_power {
            Some(p) => {
                &&& final(site).construction_ships@ == old(site).construction_ships@.insert(
                    ship.0.bits,
                    p,
                )
                &&& final(site).total_build_power_of_ships == old(site).total_build_power_of_ships
                    + p - registered_power(old(site).construction_ships@, ship.0.bits)
            },
            None => {
                &&& final(site).construction_ships@ == old(site).construction_ships@
                &&& final(site).total_build_power_of_ships == old(site).total_build_power_of_ships
            },
        },
        final(site).same_plan(&*old(site)),
{
    match build_power {
        Some(p) => {
            register_ship(site, ship, p);
            true
        },
        None => false,
    }
}

/// Registering a ship on a well-formed site keeps the total equal to the sum of the
/// registered build powers; the precondition on overflow is then the only one left.
pub proof fn law_register_keeps_total(
    before: ConstructionSite,
    after: ConstructionSite,
    ship: ShipEntity,
    build_power: u32,
)
    requires
        before.is_well_formed(),
        after.construction_ships@ == before.construction_ships@.insert(ship.0.bits, build_power),
        after.total_build_power_of_ships == before.total_build_power_of_ships + build_power
            - registered_power(before.construction_ships@, ship.0.bits),
    ensures
        after.is_well_formed(),
        before.total_build_power_of_ships + build_power >= registered_power(
            before.construction_ships@,
            ship.0.bits,
        ),
{
    let m = before.construction_ships@;
    let k: u64 = ship.0.bits;
    assert(m.dom().finite());
    let n = m.insert(k, build_power);
    lemma_total_build_power_remove(n, k);
    if m.dom().contains(k) {
        lemma_total_build_power_remove(m, k);
        assert(n.remove(k) =~= m.remove(k));
    } else {
        assert(n.remove(k) =~= m);
    }
}

/// Deregistering a ship from a well-formed site keeps it well-formed, and its precondition
/// always holds there.
pub proof fn law_deregister_keeps_total(
    before: ConstructionSite,
    after: ConstructionSite,
    ship: ShipEntity,
)
    requires
        before.is_well_formed(),
        after.construction_ships@ == before.construction_ships@.remove(ship.0.bits),
        after.total_build_power_of_ships == before.total_build_power_of_ships - registered_power(
            before.construction_ships@,
            ship.0.bits,
        ),
    ensures
        after.is_well_formed(),
        before.total_build_power_of_ships >= registered_power(
            before.construction_ships@,
            ship.0.bits,
        ),
{
    let m = before.construction_ships@;
    let k: u64 = ship.0.bits;
    assert(m.dom().finite());
    if m.dom().contains(k) {
        lemma_total_build_power_remove(m, k);
        lemma_total_build_power_nonnegative(m.remove(k));
    } else {
        assert(m.remove(k) =~= m);
    }
}

/// Registering a ship that was not registered and deregistering it again leaves the site as
/// it was.
pub proof fn law_register_then_deregister_restores(
    before: ConstructionSite,
    registered: ConstructionSite,
    after: ConstructionSite,
    ship: ShipEntity,
    build_power: u32,
)
    requires
        !before.construction_ships@.dom().contains(ship.0.bits),
        registered.construction_ships@ == before.construction_ships@.insert(ship.0.bits, build_power),
        registered.total_build_power_of_ships == before.total_build_power_of_ships + build_power
            - registered_power(before.construction_ships@, ship.0.bits),
        after.construction_ships@ == registered.construction_ships@.remove(ship.0.bits),
        after.total_build_power_of_ships == registered.total_build_power_of_ships
            - registered_power(registered.construction_ships@, ship.0.bits),
    ensures
        after.construction_ships@ == before.construction_ships@,
        after.total_build_power_of_ships == before.total_build_power_of_ships,
{
    assert(after.construction_ships@ =~= before.construction_ships@);
}

} // verus!
