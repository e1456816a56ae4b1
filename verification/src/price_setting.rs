//! How the price of goods is set.
use vstd::prelude::*;

verus! {

/// The range within which a dynamic price moves.
#[derive(PartialEq, Eq, Structural, Copy, Clone, Debug)]
pub struct PriceRange {
    pub min: u32,
    pub max: u32,
}

/// Defines how the price for goods is being calculated.
#[derive(PartialEq, Eq, Structural, Copy, Clone, Debug)]
pub enum PriceSetting {
    /// The price moves within the given range depending on how full the storage is.
    Dynamic(PriceRange),
    /// The price is fixed to the given value.
    Fixed(u32),
}

impl PriceSetting {
    /// The price for the given storage situation, when it does not depend on the fill ratio:
    /// a fixed price is returned as is. A dynamic price is an interpolation over the float
    /// fill ratio `currently_in_storage / item_capacity` within its range; that computation
    /// is left to the caller, signalled by `None`.
    pub fn calculate_price(&self, currently_in_storage: u32, item_capacity: u32) -> (price:
        Option<u32>)
        ensures
            match *self {
                PriceSetting::Fixed(value) => price == Some(value),
                PriceSetting::Dynamic(_) => price is None,
            },
    {
        match self {
            PriceSetting::Dynamic(_) => None,
            PriceSetting::Fixed(value) => Some(*value),
        }
    }
}

} // verus!
