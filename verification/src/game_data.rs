//! Identifiers of entries in the game's data manifests and of persistent objects.
use vstd::prelude::*;

verus! {

/// Identifies a production module kind.
#[derive(PartialEq, Eq, Structural, Copy, Clone, Debug, Hash)]
pub struct ProductionModuleId {
    pub id: u64,
}

/// Identifies a recipe.
#[derive(PartialEq, Eq, Structural, Copy, Clone, Debug, Hash)]
pub struct RecipeId {
    pub id: u64,
}

/// Identifies a shipyard module kind.
#[derive(PartialEq, Eq, Structural, Copy, Clone, Debug, Hash)]
pub struct ShipyardModuleId {
    pub id: u64,
}

/// Identifies a ship configuration.
#[derive(PartialEq, Eq, Structural, Copy, Clone, Debug, Hash)]
pub struct ShipConfigId {
    pub id: u64,
}

/// A module that a construction site can build.
#[derive(PartialEq, Eq, Structural, Copy, Clone, Debug, Hash)]
pub enum ConstructableModuleId {
    ProductionModule(ProductionModuleId),
}

} // verus!
