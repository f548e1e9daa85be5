//! The platform's cut of a rental payment, and the owner's net share.
//!
//! The commission is a flat 2% rate, integer-truncated on the quotient
//! before the multiplication: `floor(amount / 100) * 2`. The truncation
//! means the commission is always an even amount no greater than 2% of the
//! gross, and the remainder of the division stays with the owner's net
//! share, so the split is exact: `commission + net == amount`.

use vstd::arithmetic::div_mod::{
    lemma_div_pos_is_pos, lemma_fundamental_div_mod, lemma_mod_bound,
};
use vstd::prelude::*;

verus! {

/// The platform commission taken from a gross payment of `amount`.
pub open spec fn commission_of(amount: int) -> int {
    amount / 100 * 2
}

/// The owner's net share of a gross payment of `amount`: whatever the
/// commission leaves behind.
pub open spec fn net_of(amount: int) -> int {
    amount - commission_of(amount)
}

/// The commission/net split loses nothing and never exceeds the gross: for
/// every positive `amount`, commission and net add back up to `amount`
/// exactly, the commission is a non-negative even amount of at most 2% of
/// the gross, and the net share is positive.
pub proof fn lemma_commission_net_split(amount: int)
    requires
        amount > 0,
    ensures
        commission_of(amount) + net_of(amount) == amount,
        commission_of(amount) == amount / 100 * 2,
        0 <= commission_of(amount) < amount,
        0 < net_of(amount) <= amount,
{
    lemma_fundamental_div_mod(amount, 100);
    lemma_mod_bound(amount, 100);
    lemma_div_pos_is_pos(amount, 100);
}

/// Executable commission computation; exact with respect to
/// [`commission_of`].
pub fn commission(amount: i128) -> (r: i128)
    requires
        amount > 0,
    ensures
        r as int == commission_of(amount as int),
        0 <= r < amount,
{
    proof {
        lemma_commission_net_split(amount as int);
    }
    let gross: u128 = amount as u128;
    let quotient: u128 = gross / 100;
    (quotient * 2) as i128
}

/// Executable net-share computation; exact with respect to [`net_of`].
pub fn net(amount: i128) -> (r: i128)
    requires
        amount > 0,
    ensures
        r as int == net_of(amount as int),
        0 < r <= amount,
{
    let c: i128 = commission(amount);
    amount - c
}

} // verus!
