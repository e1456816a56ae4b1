//! One step of a path from sector to sector.
use crate::entity::{GateEntity, SectorEntity};
use vstd::prelude::*;

verus! {

/// A pair of connected gates, seen from the sector of `from`.
#[derive(PartialEq, Eq, Structural, Copy, Clone, Debug, Hash)]
pub struct GatePairInSector {
    /// The entry point inside the current sector.
    pub from: GateEntity,
    /// The exit point on the other side.
    pub to: GateEntity,
}

/// Leaving the current sector through `gate_pair.from` and arriving in `exit_sector`.
#[derive(PartialEq, Eq, Structural, Copy, Clone, Debug, Hash)]
pub struct PathElement {
    pub exit_sector: SectorEntity,
    pub gate_pair: GatePairInSector,
}

impl PathElement {
    /// The step into `exit_sector` through `gate_pair`.
    pub fn new(exit_sector: SectorEntity, gate_pair: GatePairInSector) -> (p: Self)
        ensures
            p.exit_sector == exit_sector,
            p.gate_pair == gate_pair,
    {
        PathElement { exit_sector, gate_pair }
    }
}

} // verus!
