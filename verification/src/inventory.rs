//! The inventory ledger: the set of listed cars, keyed by owner.
//!
//! A leaf component with no dependencies. The escrow engine reads and
//! rewrites car records through it; listing and deletion enforce the
//! ledger's own rules (positive price, no duplicate listing, deletion only
//! of an existing record).

use crate::car::{Car, CarStatus};
use crate::errors::Error;
use std::collections::HashMap;
use vstd::prelude::*;
use vstd::set::fold::{
    is_fun_commutative, lemma_finite_set_induct, lemma_fold_empty, lemma_fold_insert,
};

verus! {

/// The set of listed cars. Each owner principal has at most one car; the
/// record itself carries the owner's accrued balance and the car's status.
pub struct Inventory {
    cars: HashMap<u64, Car>,
}

impl View for Inventory {
    type V = Map<u64, Car>;

    closed spec fn view(&self) -> Map<u64, Car> {
        self.cars@
    }
}

/// Every record of `cars` is valid on its own (positive price,
/// non-negative accrued balance).
pub open spec fn cars_valid(cars: Map<u64, Car>) -> bool {
    forall|owner: u64| #[trigger] cars.contains_key(owner) ==> cars[owner].valid()
}

/// Storing one valid record keeps a valid car map valid.
pub proof fn lemma_cars_valid_insert(cars: Map<u64, Car>, owner: u64, car: Car)
    requires
        cars_valid(cars),
        car.valid(),
    ensures
        cars_valid(cars.insert(owner, car)),
{
    assert forall|k: u64| #[trigger]
        cars.insert(owner, car).contains_key(k) implies cars.insert(owner, car)[k].valid() by {
        if k != owner {
            assert(cars.contains_key(k));
        }
    }
}

/// Deleting a record keeps a valid car map valid.
pub proof fn lemma_cars_valid_remove(cars: Map<u64, Car>, owner: u64)
    requires
        cars_valid(cars),
    ensures
        cars_valid(cars.remove(owner)),
{
    assert forall|k: u64| #[trigger]
        cars.remove(owner).contains_key(k) implies cars.remove(owner)[k].valid() by {
        assert(cars.contains_key(k));
    }
}

/// The total amount still owed to owners: the sum, over every listed car,
/// of its accrued balance.
pub open spec fn owed_sum(cars: Map<u64, Car>) -> int {
    cars.dom().fold(0, |acc: int, owner: u64| acc + cars[owner].available_to_withdraw)
}

/// Folding the accrued balances over a key set reads only those keys: two
/// maps that agree on the set fold to the same total.
proof fn lemma_owed_fold_agree(s: Set<u64>, m1: Map<u64, Car>, m2: Map<u64, Car>)
    requires
        s.finite(),
        forall|k: u64| #[trigger] s.contains(k) ==> m1[k] == m2[k],
    ensures
        s.fold(0, |acc: int, k: u64| acc + m1[k].available_to_withdraw) == s.fold(
            0,
            |acc: int, k: u64| acc + m2[k].available_to_withdraw,
        ),
{
    let f1 = |acc: int, k: u64| acc + m1[k].available_to_withdraw;
    let f2 = |acc: int, k: u64| acc + m2[k].available_to_withdraw;
    let pred = |t: Set<u64>| t.subset_of(s) ==> t.fold(0, f1) == t.fold(0, f2);
    lemma_fold_empty(0, f1);
    lemma_fold_empty(0, f2);
    assert forall|t: Set<u64>, a: u64|
        pred(t) && t.finite() && !t.contains(a) implies #[trigger] pred(t.insert(a)) by {
        if t.insert(a).subset_of(s) {
            assert(t.subset_of(s));
            assert(s.contains(a));
            assert(is_fun_commutative(f1));
            assert(is_fun_commutative(f2));
            lemma_fold_insert(t, 0, f1, a);
            lemma_fold_insert(t, 0, f2, a);
        }
    }
    lemma_finite_set_induct(s, pred);
    assert(s.subset_of(s));
}

/// Listing a fresh owner adds exactly that record's accrued balance to the
/// total owed.
pub proof fn lemma_owed_sum_insert(cars: Map<u64, Car>, owner: u64, car: Car)
    requires
        cars.dom().finite(),
        !cars.contains_key(owner),
    ensures
        owed_sum(cars.insert(owner, car)) == owed_sum(cars) + car.available_to_withdraw,
{
    let m2 = cars.insert(owner, car);
    let f2 = |acc: int, k: u64| acc + m2[k].available_to_withdraw;
    assert(m2.dom() =~= cars.dom().insert(owner));
    assert(is_fun_commutative(f2));
    lemma_fold_insert(cars.dom(), 0, f2, owner);
    lemma_owed_fold_agree(cars.dom(), m2, cars);
}

/// Rewriting an existing owner's record moves the total owed by exactly
/// the difference of the two accrued balances.
pub proof fn lemma_owed_sum_update(cars: Map<u64, Car>, owner: u64, car: Car)
    requires
        cars.dom().finite(),
        cars.contains_key(owner),
    ensures
        owed_sum(cars.insert(owner, car)) == owed_sum(cars)
            - cars[owner].available_to_withdraw + car.available_to_withdraw,
{
    let m0 = cars.remove(owner);
    assert(m0.dom() =~= cars.dom().remove(owner));
    assert(cars =~= m0.insert(owner, cars[owner]));
    assert(cars.insert(owner, car) =~= m0.insert(owner, car));
    lemma_owed_sum_insert(m0, owner, cars[owner]);
    lemma_owed_sum_insert(m0, owner, car);
}

/// Deleting an owner's record takes exactly its accrued balance out of the
/// total owed.
pub proof fn lemma_owed_sum_remove(cars: Map<u64, Car>, owner: u64)
    requires
        cars.dom().finite(),
        cars.contains_key(owner),
    ensures
        owed_sum(cars.remove(owner)) == owed_sum(cars) - cars[owner].available_to_withdraw,
{
    let m0 = cars.remove(owner);
    assert(m0.dom() =~= cars.dom().remove(owner));
    assert(cars =~= m0.insert(owner, cars[owner]));
    lemma_owed_sum_insert(m0, owner, cars[owner]);
}

/// With every record valid the total owed is never negative.
pub proof fn lemma_owed_sum_nonneg(cars: Map<u64, Car>)
    requires
        cars.dom().finite(),
        cars_valid(cars),
    ensures
        owed_sum(cars) >= 0,
{
    let f = |acc: int, k: u64| acc + cars[k].available_to_withdraw;
    let pred = |t: Set<u64>| t.subset_of(cars.dom()) ==> t.fold(0, f) >= 0;
    lemma_fold_empty(0, f);
    assert forall|t: Set<u64>, a: u64|
        pred(t) && t.finite() && !t.contains(a) implies #[trigger] pred(t.insert(a)) by {
        if t.insert(a).subset_of(cars.dom()) {
            assert(t.subset_of(cars.dom()));
            assert(cars.contains_key(a));
            assert(is_fun_commutative(f));
            lemma_fold_insert(t, 0, f, a);
        }
    }
    lemma_finite_set_induct(cars.dom(), pred);
    assert(cars.dom().subset_of(cars.dom()));
}

/// A single owner's claim never exceeds the total owed to all owners.
pub proof fn lemma_owed_sum_member_bound(cars: Map<u64, Car>, owner: u64)
    requires
        cars.dom().finite(),
        cars_valid(cars),
        cars.contains_key(owner),
    ensures
        cars[owner].available_to_withdraw <= owed_sum(cars),
{
    lemma_owed_sum_remove(cars, owner);
    let m0 = cars.remove(owner);
    lemma_cars_valid_remove(cars, owner);
    assert(m0.dom() =~= cars.dom().remove(owner));
    lemma_owed_sum_nonneg(m0);
}

/// An empty inventory owes nothing.
pub proof fn lemma_owed_sum_empty()
    ensures
        owed_sum(Map::<u64, Car>::empty()) == 0,
{
    let m = Map::<u64, Car>::empty();
    assert(m.dom() =~= Set::<u64>::empty());
    lemma_fold_empty(0, |acc: int, k: u64| acc + m[k].available_to_withdraw);
}

impl Inventory {
    /// Ledger-level invariant: every stored record is valid on its own.
    pub open spec fn wf(self) -> bool {
        cars_valid(self@)
    }

    /// An empty ledger with no cars listed.
    pub fn new() -> (r: Inventory)
        ensures
            r@ == Map::<u64, Car>::empty(),
            r.wf(),
    {
        Inventory { cars: HashMap::new() }
    }

    /// Whether a car is listed for `owner`.
    pub fn has_car(&self, owner: u64) -> (r: bool)
        ensures
            r == self@.contains_key(owner),
    {
        self.cars.contains_key(&owner)
    }

    /// The car listed for `owner`, who must have one.
    pub fn read_car(&self, owner: u64) -> (r: Car)
        requires
            self@.contains_key(owner),
        ensures
            r == self@[owner],
    {
        *self.cars.get(&owner).unwrap()
    }

    /// Stores `car` as the record for `owner`, replacing any previous one.
    pub fn write_car(&mut self, owner: u64, car: Car)
        requires
            old(self).wf(),
            car.valid(),
        ensures
            final(self)@ == old(self)@.insert(owner, car),
            final(self).wf(),
    {
        self.cars.insert(owner, car);
        proof {
            lemma_cars_valid_insert(old(self)@, owner, car);
        }
    }

    /// Lists a new car for `owner` at the given daily price.
    ///
    /// Fails with [`Error::AmountMustBePositive`] when the price is zero or
    /// negative, and with [`Error::CarAlreadyExist`] when `owner` already
    /// has a listing; a failing call leaves the ledger unchanged. On
    /// success the new record starts `Available` with nothing to withdraw.
    pub fn list_car(&mut self, owner: u64, price_per_day: i128) -> (r: Result<(), Error>)
        requires
            old(self).wf(),
        ensures
            final(self).wf(),
            price_per_day <= 0 ==> r == Err::<(), Error>(Error::AmountMustBePositive)
                && *final(self) == *old(self),
            price_per_day > 0 && old(self)@.contains_key(owner) ==> r == Err::<(), Error>(
                Error::CarAlreadyExist,
            ) && *final(self) == *old(self),
            price_per_day > 0 && !old(self)@.contains_key(owner) ==> r == Ok::<(), Error>(())
                && final(self)@ == old(self)@.insert(
                owner,
                Car { price_per_day, car_status: CarStatus::Available, available_to_withdraw: 0 },
            ),
    {
        if price_per_day <= 0 {
            return Err(Error::AmountMustBePositive);
        }
        if self.has_car(owner) {
            return Err(Error::CarAlreadyExist);
        }
        let car = Car { price_per_day, car_status: CarStatus::Available, available_to_withdraw: 0 };
        self.write_car(owner, car);
        Ok(())
    }

    /// The status of `owner`'s car, or [`Error::CarNotFound`] when none is
    /// listed.
    pub fn get_status(&self, owner: u64) -> (r: Result<CarStatus, Error>)
        ensures
            self@.contains_key(owner) ==> r == Ok::<CarStatus, Error>(self@[owner].car_status),
            !self@.contains_key(owner) ==> r == Err::<CarStatus, Error>(Error::CarNotFound),
    {
        if !self.has_car(owner) {
            return Err(Error::CarNotFound);
        }
        Ok(self.read_car(owner).car_status)
    }

    /// Deletes `owner`'s record, or fails with [`Error::CarNotFound`] when
    /// there is none. The deletion is unconditional: neither the status nor
    /// an outstanding accrued balance blocks it.
    pub fn remove_car(&mut self, owner: u64) -> (r: Result<(), Error>)
        requires
            old(self).wf(),
        ensures
            final(self).wf(),
            !old(self)@.contains_key(owner) ==> r == Err::<(), Error>(Error::CarNotFound)
                && *final(self) == *old(self),
            old(self)@.contains_key(owner) ==> r == Ok::<(), Error>(()) && final(self)@ == old(
                self,
            )@.remove(owner),
    {
        if !self.has_car(owner) {
            return Err(Error::CarNotFound);
        }
        self.cars.remove(&owner);
        proof {
            lemma_cars_valid_remove(old(self)@, owner);
        }
        Ok(())
    }
}

} // verus!
