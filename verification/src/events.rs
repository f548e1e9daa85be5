//! Notifications emitted by the engine.
//!
//! Events are a side channel: the engine appends them to its log but never
//! reads them back, and the host forwards them to whoever listens.

use vstd::prelude::*;

verus! {

/// One emitted notification, carrying the identities and amount of the
/// operation that produced it.
#[derive(Clone, Copy, Debug, PartialEq, Eq, Structural)]
pub enum Event {
    /// The contract was initialized with its administrator and payment
    /// token.
    ContractInitialized { admin: u64, token: u64 },
    /// A car was listed for `owner` at the given daily price.
    CarAdded { owner: u64, price_per_day: i128 },
    /// A rental was captured: `renter` escrowed `amount` for `owner`'s car.
    Rented { renter: u64, owner: u64, total_days_to_rent: u32, amount: i128 },
    /// Accrued funds were released to a car's owner.
    Payout { owner: u64, amount: i128 },
    /// Accumulated commissions were released to the administrator.
    PayoutCommissions { admin: u64, amount: i128 },
    /// A car's listing was deleted.
    CarRemoved { owner: u64 },
}

} // verus!
