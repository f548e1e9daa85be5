//! The car record kept per owner, and its lifecycle status.

use vstd::prelude::*;

verus! {

/// Lifecycle status of a listed car.
///
/// A successful rental moves a car from `Available` to `Rented`; no
/// operation of this engine moves it back, nor into or out of
/// `Maintenance` (the status exists for forward compatibility and an
/// out-of-band administrative reset).
#[derive(Clone, Copy, Debug, PartialEq, Eq, Structural)]
pub enum CarStatus {
    Available,
    Rented,
    Maintenance,
}

/// A listed car, keyed in the inventory by its owner's principal.
#[derive(Clone, Copy, Debug, PartialEq, Eq, Structural)]
pub struct Car {
    /// Advisory daily price; positive at creation, never read back by the
    /// engine's accounting.
    pub price_per_day: i128,
    /// Current lifecycle status.
    pub car_status: CarStatus,
    /// Amount credited to the owner that has not yet been paid out.
    pub available_to_withdraw: i128,
}

impl Car {
    /// Record-level invariant: the listing price is positive and the
    /// accrued balance never goes negative.
    pub open spec fn valid(self) -> bool {
        &&& self.price_per_day > 0
        &&& self.available_to_withdraw >= 0
    }
}

} // verus!
