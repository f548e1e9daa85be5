//! The rental record captured when an escrow payment is taken.

use vstd::prelude::*;

verus! {

/// A captured rental, keyed by the (renter, owner) pair. At most one record
/// exists per pair: a new rental overwrites the previous one. The record is
/// historical; the car's status, not the record's presence, is the
/// authoritative lifecycle signal.
#[derive(Clone, Copy, Debug, PartialEq, Eq, Structural)]
pub struct Rental {
    /// Advisory duration; recorded but never enforced against elapsed time.
    pub total_days_to_rent: u32,
    /// The gross payment captured into custody.
    pub amount: i128,
}

impl Rental {
    /// Record-level invariant: a rental is always captured with a positive
    /// duration and a positive gross amount.
    pub open spec fn valid(self) -> bool {
        &&& self.total_days_to_rent > 0
        &&& self.amount > 0
    }
}

/// Every record of `rentals` is valid on its own (positive duration,
/// positive gross amount).
pub open spec fn rentals_valid(rentals: Map<u128, Rental>) -> bool {
    forall|key: u128| #[trigger] rentals.contains_key(key) ==> rentals[key].valid()
}

/// Capturing one valid record keeps a valid rental map valid.
pub proof fn lemma_rentals_valid_insert(rentals: Map<u128, Rental>, key: u128, rental: Rental)
    requires
        rentals_valid(rentals),
        rental.valid(),
    ensures
        rentals_valid(rentals.insert(key, rental)),
{
    assert forall|k: u128| #[trigger]
        rentals.insert(key, rental).contains_key(k) implies rentals.insert(key, rental)[k].valid() by {
        if k != key {
            assert(rentals.contains_key(k));
        }
    }
}

/// Storage key of the rental record for `renter` and `owner`: the two
/// 64-bit principals packed into the halves of one 128-bit key, so distinct
/// pairs always get distinct keys.
pub open spec fn rental_key(renter: u64, owner: u64) -> u128 {
    (renter as u128 * 0x1_0000_0000_0000_0000 + owner as u128) as u128
}

} // verus!
