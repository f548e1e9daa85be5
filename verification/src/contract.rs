//! The escrow and settlement engine.
//!
//! One value of [`RentACarContract`] holds everything the contract
//! persists: the administrator and payment-token identities, the inventory
//! of listed cars, the captured rental records, the two process-wide
//! balances, and the log of emitted notifications.
//!
//! Principals (administrator, owners, renters, the token) are plain 64-bit
//! identities; the host that authenticates callers passes the
//! authenticated identity as the `caller` argument of each mutating
//! operation, and the engine checks it against the required principal.
//! Moving real assets is likewise the host's job: it invokes its transfer
//! primitive only after a call returns `Ok`, so a failed transfer aborts
//! the whole operation together with these state changes.

use crate::car::{Car, CarStatus};
use crate::commission::{commission, commission_of, lemma_commission_net_split, net_of};
use crate::errors::Error;
use crate::events::Event;
use crate::inventory::{
    cars_valid, lemma_owed_sum_empty, lemma_owed_sum_insert, lemma_owed_sum_member_bound,
    lemma_owed_sum_nonneg, lemma_owed_sum_remove, lemma_owed_sum_update, owed_sum, Inventory,
};
use crate::rental::{lemma_rentals_valid_insert, rental_key, rentals_valid, Rental};
use std::collections::HashMap;
use vstd::prelude::*;

verus! {

/// Checks that the principal on whose behalf the call is made is the one
/// the operation requires; every mutating entry point invokes this first.
pub fn authorize(caller: u64, called_as: u64) -> (r: Result<(), Error>)
    ensures
        caller == called_as ==> r == Ok::<(), Error>(()),
        caller != called_as ==> r == Err::<(), Error>(Error::Unauthorized),
{
    if caller == called_as {
        Ok(())
    } else {
        Err(Error::Unauthorized)
    }
}

/// The whole persisted state of the rental contract.
pub struct RentACarContract {
    admin: Option<u64>,
    token: Option<u64>,
    inventory: Inventory,
    rentals: HashMap<u128, Rental>,
    contract_balance: i128,
    commission: i128,
    events: Vec<Event>,
}

impl RentACarContract {
    /// The administrator principal, once initialized.
    pub closed spec fn spec_admin(self) -> Option<u64> {
        self.admin
    }

    /// The payment-token principal, once initialized.
    pub closed spec fn spec_token(self) -> Option<u64> {
        self.token
    }

    /// The listed cars, keyed by owner.
    pub closed spec fn spec_cars(self) -> Map<u64, Car> {
        self.inventory@
    }

    /// The captured rentals, keyed by [`rental_key`] of (renter, owner).
    pub closed spec fn spec_rentals(self) -> Map<u128, Rental> {
        self.rentals@
    }

    /// Funds in custody that are still owed to owners: credited by each
    /// rental's net amount, debited by owner payouts.
    pub closed spec fn spec_contract_balance(self) -> i128 {
        self.contract_balance
    }

    /// Accumulated commissions, debited by administrator payouts.
    pub closed spec fn spec_commission(self) -> i128 {
        self.commission
    }

    /// The notifications emitted so far, oldest first.
    pub closed spec fn spec_events(self) -> Seq<Event> {
        self.events@
    }

    /// Whether the contract has been initialized. Set once by the
    /// constructor and never revoked.
    pub open spec fn is_initialized(self) -> bool {
        self.spec_admin() is Some
    }

    /// State invariant: the administrator and token are set together and
    /// differ, every car record and rental record is valid on its own,
    /// neither process-wide balance is negative, and the contract is
    /// solvent — the funds it holds cover the total still owed to owners.
    /// (Solvency survives even an administrator's unconditional removal of
    /// a car with an outstanding balance: the deleted claim merely leaves
    /// its funds stranded in custody.)
    pub open spec fn wf(self) -> bool {
        &&& self.spec_admin() is Some <==> self.spec_token() is Some
        &&& self.is_initialized() ==> self.spec_admin() != self.spec_token()
        &&& self.spec_cars().dom().finite()
        &&& cars_valid(self.spec_cars())
        &&& rentals_valid(self.spec_rentals())
        &&& self.spec_contract_balance() >= 0
        &&& self.spec_commission() >= 0
        &&& owed_sum(self.spec_cars()) <= self.spec_contract_balance()
    }

    /// A fresh, uninitialized contract: no administrator, no cars, no
    /// rentals, both balances zero, nothing emitted.
    pub fn new() -> (r: RentACarContract)
        ensures
            r.wf(),
            !r.is_initialized(),
            r.spec_admin() is None,
            r.spec_token() is None,
            r.spec_cars() == Map::<u64, Car>::empty(),
            r.spec_rentals() == Map::<u128, Rental>::empty(),
            r.spec_contract_balance() == 0,
            r.spec_commission() == 0,
            r.spec_events() == Seq::<Event>::empty(),
    {
        let contract = RentACarContract {
            admin: None,
            token: None,
            inventory: Inventory::new(),
            rentals: HashMap::new(),
            contract_balance: 0,
            commission: 0,
            events: Vec::new(),
        };
        proof {
            lemma_owed_sum_empty();
        }
        contract
    }

    /// Initializes the contract with its administrator and payment token.
    ///
    /// Fails with [`Error::AdminTokenConflict`] when the two principals
    /// coincide, and with [`Error::ContractInitialized`] when the contract
    /// was initialized before; a failing call changes nothing. On success
    /// both identities are recorded, everything else is untouched, and an
    /// initialization notification is emitted.
    pub fn __constructor(&mut self, admin: u64, token: u64) -> (r: Result<(), Error>)
        requires
            old(self).wf(),
        ensures
            final(self).wf(),
            admin == token ==> r == Err::<(), Error>(Error::AdminTokenConflict) && *final(self)
                == *old(self),
            admin != token && old(self).is_initialized() ==> r == Err::<(), Error>(
                Error::ContractInitialized,
            ) && *final(self) == *old(self),
            admin != token && !old(self).is_initialized() ==> r == Ok::<(), Error>(())
                && final(self).spec_admin() == Some(admin) && final(self).spec_token() == Some(
                token,
            ) && final(self).spec_cars() == old(self).spec_cars() && final(self).spec_rentals()
                == old(self).spec_rentals() && final(self).spec_contract_balance() == old(
                self,
            ).spec_contract_balance() && final(self).spec_commission() == old(
                self,
            ).spec_commission() && final(self).spec_events() == old(self).spec_events().push(
                Event::ContractInitialized { admin, token },
            ),
    {
        if admin == token {
            return Err(Error::AdminTokenConflict);
        }
        if self.admin.is_some() {
            return Err(Error::ContractInitialized);
        }
        self.admin = Some(admin);
        self.token = Some(token);
        self.events.push(Event::ContractInitialized { admin, token });
        Ok(())
    }

    /// The administrator principal; the contract must be initialized.
    pub fn get_admin(&self) -> (r: u64)
        requires
            self.is_initialized(),
        ensures
            self.spec_admin() == Some(r),
    {
        self.admin.unwrap()
    }

    /// Successful listing transition from `pre` to `post`: a fresh
    /// `Available` record with nothing to withdraw appears for `owner`, a
    /// listing notification is appended, and nothing else moves.
    pub open spec fn car_listed(pre: Self, post: Self, owner: u64, price_per_day: i128) -> bool {
        &&& post.spec_cars() == pre.spec_cars().insert(
            owner,
            Car { price_per_day, car_status: CarStatus::Available, available_to_withdraw: 0 },
        )
        &&& post.spec_rentals() == pre.spec_rentals()
        &&& post.spec_admin() == pre.spec_admin()
        &&& post.spec_token() == pre.spec_token()
        &&& post.spec_contract_balance() == pre.spec_contract_balance()
        &&& post.spec_commission() == pre.spec_commission()
        &&& post.spec_events() == pre.spec_events().push(Event::CarAdded { owner, price_per_day })
    }

    /// Lists a car for `owner` at the given daily price. Only the
    /// administrator may list.
    ///
    /// Fails with [`Error::Unauthorized`] when the caller is not the
    /// administrator, [`Error::AmountMustBePositive`] when the price is
    /// zero or negative, and [`Error::CarAlreadyExist`] when `owner`
    /// already has a listing; a failing call changes nothing.
    pub fn add_car(&mut self, caller: u64, owner: u64, price_per_day: i128) -> (r: Result<
        (),
        Error,
    >)
        requires
            old(self).wf(),
            old(self).is_initialized(),
        ensures
            final(self).wf(),
            Some(caller) != old(self).spec_admin() ==> r == Err::<(), Error>(Error::Unauthorized)
                && *final(self) == *old(self),
            Some(caller) == old(self).spec_admin() && price_per_day <= 0 ==> r == Err::<(), Error>(
                Error::AmountMustBePositive,
            ) && *final(self) == *old(self),
            Some(caller) == old(self).spec_admin() && price_per_day > 0 && old(
                self,
            ).spec_cars().contains_key(owner) ==> r == Err::<(), Error>(Error::CarAlreadyExist)
                && *final(self) == *old(self),
            Some(caller) == old(self).spec_admin() && price_per_day > 0 && !old(
                self,
            ).spec_cars().contains_key(owner) ==> r == Ok::<(), Error>(())
                && Self::car_listed(*old(self), *final(self), owner, price_per_day),
    {
        let admin = self.get_admin();
        if let Err(e) = authorize(caller, admin) {
            return Err(e);
        }
        match self.inventory.list_car(owner, price_per_day) {
            Err(e) => Err(e),
            Ok(()) => {
                proof {
                    lemma_owed_sum_insert(
                        old(self).spec_cars(),
                        owner,
                        Car {
                            price_per_day,
                            car_status: CarStatus::Available,
                            available_to_withdraw: 0,
                        },
                    );
                }
                self.events.push(Event::CarAdded { owner, price_per_day });
                Ok(())
            },
        }
    }

    /// The status of `owner`'s car, or [`Error::CarNotFound`] when none is
    /// listed.
    pub fn get_car_status(&self, owner: u64) -> (r: Result<CarStatus, Error>)
        ensures
            self.spec_cars().contains_key(owner) ==> r == Ok::<CarStatus, Error>(
                self.spec_cars()[owner].car_status,
            ),
            !self.spec_cars().contains_key(owner) ==> r == Err::<CarStatus, Error>(
                Error::CarNotFound,
            ),
    {
        self.inventory.get_status(owner)
    }

    /// Successful removal transition from `pre` to `post`: `owner`'s
    /// record is gone, a removal notification is appended, and nothing
    /// else moves. The deletion is unconditional: neither a `Rented`
    /// status nor an outstanding accrued balance blocks it, so whatever
    /// that record could still withdraw stays stranded in custody.
    pub open spec fn car_removed(pre: Self, post: Self, owner: u64) -> bool {
        &&& post.spec_cars() == pre.spec_cars().remove(owner)
        &&& post.spec_rentals() == pre.spec_rentals()
        &&& post.spec_admin() == pre.spec_admin()
        &&& post.spec_token() == pre.spec_token()
        &&& post.spec_contract_balance() == pre.spec_contract_balance()
        &&& post.spec_commission() == pre.spec_commission()
        &&& post.spec_events() == pre.spec_events().push(Event::CarRemoved { owner })
    }

    /// Deletes `owner`'s listing. Only the administrator may remove.
    ///
    /// Fails with [`Error::Unauthorized`] when the caller is not the
    /// administrator and with [`Error::CarNotFound`] when `owner` has no
    /// listing; a failing call changes nothing.
    pub fn remove_car(&mut self, caller: u64, owner: u64) -> (r: Result<(), Error>)
        requires
            old(self).wf(),
            old(self).is_initialized(),
        ensures
            final(self).wf(),
            Some(caller) != old(self).spec_admin() ==> r == Err::<(), Error>(Error::Unauthorized)
                && *final(self) == *old(self),
            Some(caller) == old(self).spec_admin() && !old(self).spec_cars().contains_key(owner)
                ==> r == Err::<(), Error>(Error::CarNotFound) && *final(self) == *old(self),
            Some(caller) == old(self).spec_admin() && old(self).spec_cars().contains_key(owner)
                ==> r == Ok::<(), Error>(()) && Self::car_removed(*old(self), *final(self), owner),
    {
        let admin = self.get_admin();
        if let Err(e) = authorize(caller, admin) {
            return Err(e);
        }
        match self.inventory.remove_car(owner) {
            Err(e) => Err(e),
            Ok(()) => {
                proof {
                    assert(old(self).spec_cars()[owner].valid());
                    lemma_owed_sum_remove(old(self).spec_cars(), owner);
                }
                self.events.push(Event::CarRemoved { owner });
                Ok(())
            },
        }
    }

    /// Whether a rental request passes every precondition check: the call
    /// is made by the renter, the amount and duration are positive, the
    /// renter is not the owner, and `owner` has a car that is `Available`.
    pub open spec fn can_rent(
        self,
        caller: u64,
        renter: u64,
        owner: u64,
        total_days_to_rent: u32,
        amount: i128,
    ) -> bool {
        &&& caller == renter
        &&& amount > 0
        &&& total_days_to_rent != 0
        &&& renter != owner
        &&& self.spec_cars().contains_key(owner)
        &&& self.spec_cars()[owner].car_status == CarStatus::Available
    }

    /// The credits of a successful rental of `amount` stay within `i128`:
    /// the owner's accrued balance, the contract balance and the
    /// commission pool can each take their share without overflowing.
    pub open spec fn rental_fits(self, owner: u64, amount: i128) -> bool {
        &&& self.spec_cars().contains_key(owner)
            ==> self.spec_cars()[owner].available_to_withdraw + net_of(amount as int) <= i128::MAX
        &&& self.spec_contract_balance() + net_of(amount as int) <= i128::MAX
        &&& self.spec_commission() + commission_of(amount as int) <= i128::MAX
    }

    /// Successful rental transition from `pre` to `post`: the car is now
    /// `Rented` and its owner's accrued balance grows by exactly the net
    /// amount, the contract balance grows by the same net amount, the
    /// commission pool grows by exactly the commission, the rental record
    /// for the (renter, owner) pair is captured (overwriting any previous
    /// one), a rental notification is appended, and nothing else moves.
    pub open spec fn rented(
        pre: Self,
        post: Self,
        renter: u64,
        owner: u64,
        total_days_to_rent: u32,
        amount: i128,
    ) -> bool {
        let car = pre.spec_cars()[owner];
        &&& post.spec_cars() == pre.spec_cars().insert(
            owner,
            Car {
                price_per_day: car.price_per_day,
                car_status: CarStatus::Rented,
                available_to_withdraw: (car.available_to_withdraw + net_of(amount as int)) as i128,
            },
        )
        &&& post.spec_rentals() == pre.spec_rentals().insert(
            rental_key(renter, owner),
            Rental { total_days_to_rent, amount },
        )
        &&& post.spec_admin() == pre.spec_admin()
        &&& post.spec_token() == pre.spec_token()
        &&& post.spec_contract_balance() == pre.spec_contract_balance() + net_of(amount as int)
        &&& post.spec_commission() == pre.spec_commission() + commission_of(amount as int)
        &&& post.spec_events() == pre.spec_events().push(
            Event::Rented { renter, owner, total_days_to_rent, amount },
        )
    }

    /// Captures a rental: `renter` escrows `amount` up front for
    /// `owner`'s car. The host moves the gross amount from the renter into
    /// custody only after this call returns `Ok`.
    ///
    /// Fails with [`Error::Unauthorized`] when the caller is not the
    /// renter, [`Error::AmountMustBePositive`] when the amount is zero or
    /// negative, [`Error::RentalDurationCannotBeZero`] when the duration
    /// is zero, [`Error::SelfRentalNotAllowed`] when the renter owns the
    /// car, [`Error::CarNotFound`] when `owner` has no listing, and
    /// [`Error::CarAlreadyRented`] when the car is not `Available`; a
    /// failing call changes nothing.
    pub fn rental(
        &mut self,
        caller: u64,
        renter: u64,
        owner: u64,
        total_days_to_rent: u32,
        amount: i128,
    ) -> (r: Result<(), Error>)
        requires
            old(self).wf(),
            old(self).can_rent(caller, renter, owner, total_days_to_rent, amount) ==> old(
                self,
            ).rental_fits(owner, amount),
        ensures
            final(self).wf(),
            caller != renter ==> r == Err::<(), Error>(Error::Unauthorized) && *final(self)
                == *old(self),
            caller == renter && amount <= 0 ==> r == Err::<(), Error>(Error::AmountMustBePositive)
                && *final(self) == *old(self),
            caller == renter && amount > 0 && total_days_to_rent == 0 ==> r == Err::<(), Error>(
                Error::RentalDurationCannotBeZero,
            ) && *final(self) == *old(self),
            caller == renter && amount > 0 && total_days_to_rent != 0 && renter == owner ==> r
                == Err::<(), Error>(Error::SelfRentalNotAllowed) && *final(self) == *old(self),
            caller == renter && amount > 0 && total_days_to_rent != 0 && renter != owner && !old(
                self,
            ).spec_cars().contains_key(owner) ==> r == Err::<(), Error>(Error::CarNotFound)
                && *final(self) == *old(self),
            caller == renter && amount > 0 && total_days_to_rent != 0 && renter != owner && old(
                self,
            ).spec_cars().contains_key(owner) && old(self).spec_cars()[owner].car_status
                != CarStatus::Available ==> r == Err::<(), Error>(Error::CarAlreadyRented)
                && *final(self) == *old(self),
            old(self).can_rent(caller, renter, owner, total_days_to_rent, amount) ==> r == Ok::<
                (),
                Error,
            >(()) && Self::rented(
                *old(self),
                *final(self),
                renter,
                owner,
                total_days_to_rent,
                amount,
            ),
    {
        if let Err(e) = authorize(caller, renter) {
            return Err(e);
        }
        if amount <= 0 {
            return Err(Error::AmountMustBePositive);
        }
        if total_days_to_rent == 0 {
            return Err(Error::RentalDurationCannotBeZero);
        }
        if renter == owner {
            return Err(Error::SelfRentalNotAllowed);
        }
        if !self.inventory.has_car(owner) {
            return Err(Error::CarNotFound);
        }
        let mut car = self.inventory.read_car(owner);
        if car.car_status != CarStatus::Available {
            return Err(Error::CarAlreadyRented);
        }

        let commission_amount = commission(amount);
        let net_amount = amount - commission_amount;

        car.car_status = CarStatus::Rented;
        car.available_to_withdraw = car.available_to_withdraw + net_amount;
        self.inventory.write_car(owner, car);
        proof {
            lemma_owed_sum_update(old(self).spec_cars(), owner, car);
        }

        let record = Rental { total_days_to_rent, amount };
        let key: u128 = (renter as u128) * 0x1_0000_0000_0000_0000 + (owner as u128);
        self.rentals.insert(key, record);
        proof {
            lemma_rentals_valid_insert(old(self).spec_rentals(), key, record);
        }

        self.contract_balance = self.contract_balance + net_amount;
        self.commission = self.commission + commission_amount;

        self.events.push(Event::Rented { renter, owner, total_days_to_rent, amount });
        Ok(())
    }

    /// Whether an owner payout request passes every precondition check:
    /// the call is made by the owner, the amount is positive, the owner
    /// has a car, and the amount is covered both by the owner's accrued
    /// balance and by the funds the contract holds.
    pub open spec fn can_payout_owner(self, caller: u64, owner: u64, amount: i128) -> bool {
        &&& caller == owner
        &&& amount > 0
        &&& self.spec_cars().contains_key(owner)
        &&& amount <= self.spec_cars()[owner].available_to_withdraw
        &&& amount <= self.spec_contract_balance()
    }

    /// Successful owner payout transition from `pre` to `post`: the
    /// owner's accrued balance and the contract balance both shrink by
    /// exactly `amount`, a payout notification is appended, and nothing
    /// else moves — in particular the car's status, whatever it is, stays.
    pub open spec fn owner_paid(pre: Self, post: Self, owner: u64, amount: i128) -> bool {
        let car = pre.spec_cars()[owner];
        &&& post.spec_cars() == pre.spec_cars().insert(
            owner,
            Car {
                price_per_day: car.price_per_day,
                car_status: car.car_status,
                available_to_withdraw: (car.available_to_withdraw - amount) as i128,
            },
        )
        &&& post.spec_rentals() == pre.spec_rentals()
        &&& post.spec_admin() == pre.spec_admin()
        &&& post.spec_token() == pre.spec_token()
        &&& post.spec_contract_balance() == pre.spec_contract_balance() - amount
        &&& post.spec_commission() == pre.spec_commission()
        &&& post.spec_events() == pre.spec_events().push(Event::Payout { owner, amount })
    }

    /// Releases `amount` of `owner`'s accrued balance. The host moves the
    /// funds from custody to the owner only after this call returns `Ok`.
    /// Any car status permits withdrawal of the accrued balance.
    ///
    /// Fails with [`Error::Unauthorized`] when the caller is not the
    /// owner, [`Error::AmountMustBePositive`] when the amount is zero or
    /// negative, [`Error::CarNotFound`] when `owner` has no listing,
    /// [`Error::InsufficientBalance`] when the amount exceeds the owner's
    /// accrued balance, and [`Error::BalanceNotAvailableForAmountRequested`]
    /// when it exceeds the funds the contract holds; a failing call
    /// changes nothing, so neither balance can ever go negative.
    ///
    /// The defensive check behind the last error is kept as the contract
    /// performs it, although in a well-formed state it can never fire: by
    /// [`Self::lemma_owner_claim_covered`], custody always covers each
    /// owner's accrued balance.
    pub fn payout_owner(&mut self, caller: u64, owner: u64, amount: i128) -> (r: Result<
        (),
        Error,
    >)
        requires
            old(self).wf(),
        ensures
            final(self).wf(),
            caller != owner ==> r == Err::<(), Error>(Error::Unauthorized) && *final(self) == *old(
                self,
            ),
            caller == owner && amount <= 0 ==> r == Err::<(), Error>(Error::AmountMustBePositive)
                && *final(self) == *old(self),
            caller == owner && amount > 0 && !old(self).spec_cars().contains_key(owner) ==> r
                == Err::<(), Error>(Error::CarNotFound) && *final(self) == *old(self),
            caller == owner && amount > 0 && old(self).spec_cars().contains_key(owner) && amount
                > old(self).spec_cars()[owner].available_to_withdraw ==> r == Err::<(), Error>(
                Error::InsufficientBalance,
            ) && *final(self) == *old(self),
            caller == owner && amount > 0 && old(self).spec_cars().contains_key(owner) && amount
                <= old(self).spec_cars()[owner].available_to_withdraw && amount > old(
                self,
            ).spec_contract_balance() ==> r == Err::<(), Error>(
                Error::BalanceNotAvailableForAmountRequested,
            ) && *final(self) == *old(self),
            old(self).can_payout_owner(caller, owner, amount) ==> r == Ok::<(), Error>(())
                && Self::owner_paid(*old(self), *final(self), owner, amount),
    {
        if let Err(e) = authorize(caller, owner) {
            return Err(e);
        }
        if amount <= 0 {
            return Err(Error::AmountMustBePositive);
        }
        if !self.inventory.has_car(owner) {
            return Err(Error::CarNotFound);
        }
        let mut car = self.inventory.read_car(owner);
        if amount > car.available_to_withdraw {
            return Err(Error::InsufficientBalance);
        }
        if amount > self.contract_balance {
            return Err(Error::BalanceNotAvailableForAmountRequested);
        }

        car.available_to_withdraw = car.available_to_withdraw - amount;
        self.inventory.write_car(owner, car);
        proof {
            lemma_owed_sum_update(old(self).spec_cars(), owner, car);
        }
        self.contract_balance = self.contract_balance - amount;

        self.events.push(Event::Payout { owner, amount });
        Ok(())
    }

    /// Whether a commission payout request passes every precondition
    /// check: the call is made by the registered administrator on their
    /// own behalf, the amount is positive and covered by the accumulated
    /// commissions.
    pub open spec fn can_payout_admin(self, caller: u64, admin: u64, amount: i128) -> bool {
        &&& self.spec_admin() == Some(admin)
        &&& caller == admin
        &&& amount > 0
        &&& amount <= self.spec_commission()
    }

    /// Successful commission payout transition from `pre` to `post`: the
    /// commission pool shrinks by exactly `amount`, a commission payout
    /// notification is appended, and nothing else moves.
    pub open spec fn admin_paid(pre: Self, post: Self, admin: u64, amount: i128) -> bool {
        &&& post.spec_cars() == pre.spec_cars()
        &&& post.spec_rentals() == pre.spec_rentals()
        &&& post.spec_admin() == pre.spec_admin()
        &&& post.spec_token() == pre.spec_token()
        &&& post.spec_contract_balance() == pre.spec_contract_balance()
        &&& post.spec_commission() == pre.spec_commission() - amount
        &&& post.spec_events() == pre.spec_events().push(
            Event::PayoutCommissions { admin, amount },
        )
    }

    /// Releases `amount` of the accumulated commissions to the registered
    /// administrator. The host moves the funds from custody to the
    /// administrator only after this call returns `Ok`.
    ///
    /// Fails with [`Error::Unauthorized`] when `admin` is not the
    /// registered administrator calling on their own behalf,
    /// [`Error::AmountMustBePositive`] when the amount is zero or
    /// negative, and [`Error::InsufficientBalance`] when it exceeds the
    /// accumulated commissions; a failing call changes nothing, so the
    /// commission pool can never go negative.
    pub fn payout_admin(&mut self, caller: u64, admin: u64, amount: i128) -> (r: Result<
        (),
        Error,
    >)
        requires
            old(self).wf(),
        ensures
            final(self).wf(),
            !(old(self).spec_admin() == Some(admin) && caller == admin) ==> r == Err::<(), Error>(
                Error::Unauthorized,
            ) && *final(self) == *old(self),
            old(self).spec_admin() == Some(admin) && caller == admin && amount <= 0 ==> r == Err::<
                (),
                Error,
            >(Error::AmountMustBePositive) && *final(self) == *old(self),
            old(self).spec_admin() == Some(admin) && caller == admin && amount > 0 && amount > old(
                self,
            ).spec_commission() ==> r == Err::<(), Error>(Error::InsufficientBalance)
                && *final(self) == *old(self),
            old(self).can_payout_admin(caller, admin, amount) ==> r == Ok::<(), Error>(())
                && Self::admin_paid(*old(self), *final(self), admin, amount),
    {
        let registered = match self.admin {
            None => {
                return Err(Error::Unauthorized);
            },
            Some(registered) => registered,
        };
        if admin != registered {
            return Err(Error::Unauthorized);
        }
        if let Err(e) = authorize(caller, admin) {
            return Err(e);
        }
        if amount <= 0 {
            return Err(Error::AmountMustBePositive);
        }
        if amount > self.commission {
            return Err(Error::InsufficientBalance);
        }

        self.commission = self.commission - amount;

        self.events.push(Event::PayoutCommissions { admin, amount });
        Ok(())
    }

    /// The owner's accrued, not-yet-withdrawn balance, or
    /// [`Error::CarNotFound`] when `owner` has no listing.
    pub fn get_available_withdraw_payowner(&self, owner: u64) -> (r: Result<i128, Error>)
        ensures
            self.spec_cars().contains_key(owner) ==> r == Ok::<i128, Error>(
                self.spec_cars()[owner].available_to_withdraw,
            ),
            !self.spec_cars().contains_key(owner) ==> r == Err::<i128, Error>(Error::CarNotFound),
    {
        if !self.inventory.has_car(owner) {
            return Err(Error::CarNotFound);
        }
        Ok(self.inventory.read_car(owner).available_to_withdraw)
    }

    /// The commissions accumulated and not yet paid out.
    pub fn get_admin_commission(&self) -> (r: i128)
        ensures
            r == self.spec_commission(),
    {
        self.commission
    }

    /// The funds in custody still owed to owners.
    pub fn get_contract_balance(&self) -> (r: i128)
        ensures
            r == self.spec_contract_balance(),
    {
        self.contract_balance
    }

    /// Whether a car is listed for `owner`.
    pub fn has_car(&self, owner: u64) -> (r: bool)
        ensures
            r == self.spec_cars().contains_key(owner),
    {
        self.inventory.has_car(owner)
    }

    /// The whole car record listed for `owner`, or [`Error::CarNotFound`]
    /// when there is none.
    pub fn get_car(&self, owner: u64) -> (r: Result<Car, Error>)
        ensures
            self.spec_cars().contains_key(owner) ==> r == Ok::<Car, Error>(
                self.spec_cars()[owner],
            ),
            !self.spec_cars().contains_key(owner) ==> r == Err::<Car, Error>(Error::CarNotFound),
    {
        if !self.inventory.has_car(owner) {
            return Err(Error::CarNotFound);
        }
        Ok(self.inventory.read_car(owner))
    }

    /// The rental record captured for the (renter, owner) pair, if one
    /// was ever taken. At most one exists per pair: a newer rental
    /// overwrites the older record.
    pub fn get_rental(&self, renter: u64, owner: u64) -> (r: Option<Rental>)
        ensures
            self.spec_rentals().contains_key(rental_key(renter, owner)) ==> r == Some(
                self.spec_rentals()[rental_key(renter, owner)],
            ),
            !self.spec_rentals().contains_key(rental_key(renter, owner)) ==> r is None,
    {
        let key: u128 = (renter as u128) * 0x1_0000_0000_0000_0000 + (owner as u128);
        match self.rentals.get(&key) {
            Some(record) => Some(*record),
            None => None,
        }
    }

    /// The notifications emitted so far, oldest first.
    pub fn get_events(&self) -> (r: &Vec<Event>)
        ensures
            r@ == self.spec_events(),
    {
        &self.events
    }

    /// Removing an owner's listing really clears it: any state reached by
    /// a successful removal holds no car for that owner, so a subsequent
    /// status lookup on it reports [`Error::CarNotFound`].
    pub proof fn lemma_removed_owner_not_listed(pre: Self, post: Self, owner: u64)
        requires
            Self::car_removed(pre, post, owner),
        ensures
            !post.spec_cars().contains_key(owner),
    {
    }

    /// A successful rental credits each account its exact share of the
    /// gross amount: the owner's accrued balance and the contract balance
    /// grow by the net amount, the commission pool grows by the
    /// commission, and the car ends up `Rented`.
    pub proof fn lemma_rental_credits_exactly(
        pre: Self,
        post: Self,
        renter: u64,
        owner: u64,
        total_days_to_rent: u32,
        amount: i128,
    )
        requires
            pre.wf(),
            pre.can_rent(renter, renter, owner, total_days_to_rent, amount),
            pre.rental_fits(owner, amount),
            Self::rented(pre, post, renter, owner, total_days_to_rent, amount),
        ensures
            post.spec_cars().contains_key(owner),
            post.spec_cars()[owner].available_to_withdraw
                == pre.spec_cars()[owner].available_to_withdraw + net_of(amount as int),
            post.spec_cars()[owner].car_status == CarStatus::Rented,
            post.spec_contract_balance() == pre.spec_contract_balance() + net_of(amount as int),
            post.spec_commission() == pre.spec_commission() + commission_of(amount as int),
    {
        lemma_commission_net_split(amount as int);
        assert(pre.spec_cars().contains_key(owner));
    }

    /// Custody solvency: every well-formed state holds enough funds to
    /// cover the total still owed to owners, and that total is never
    /// negative.
    pub proof fn lemma_custody_covers_total_owed(self)
        requires
            self.wf(),
        ensures
            0 <= owed_sum(self.spec_cars()) <= self.spec_contract_balance(),
    {
        lemma_owed_sum_nonneg(self.spec_cars());
    }

    /// Each single owner's claim is individually covered: the accrued
    /// balance an owner may withdraw never exceeds the funds the contract
    /// holds, so a withdrawal within the owner's own balance is never
    /// stopped for lack of contract funds.
    pub proof fn lemma_owner_claim_covered(self, owner: u64)
        requires
            self.wf(),
            self.spec_cars().contains_key(owner),
        ensures
            self.spec_cars()[owner].available_to_withdraw <= self.spec_contract_balance(),
    {
        lemma_owed_sum_member_bound(self.spec_cars(), owner);
    }

    /// A rental accounts for the whole gross payment: what custody gains
    /// plus what the commission pool gains is exactly what the renter
    /// paid — the truncated split loses nothing.
    pub proof fn lemma_rental_accounts_whole_gross(
        pre: Self,
        post: Self,
        renter: u64,
        owner: u64,
        total_days_to_rent: u32,
        amount: i128,
    )
        requires
            amount > 0,
            Self::rented(pre, post, renter, owner, total_days_to_rent, amount),
        ensures
            post.spec_contract_balance() + post.spec_commission() == pre.spec_contract_balance()
                + pre.spec_commission() + amount,
    {
        lemma_commission_net_split(amount as int);
    }

    /// An owner payout never overdraws the books: starting from a valid
    /// state, a successful payout leaves the owner's accrued balance and
    /// the contract balance exactly `amount` lower and still
    /// non-negative.
    pub proof fn lemma_owner_payout_never_overdraws(
        pre: Self,
        post: Self,
        owner: u64,
        amount: i128,
    )
        requires
            pre.wf(),
            pre.can_payout_owner(owner, owner, amount),
            Self::owner_paid(pre, post, owner, amount),
        ensures
            post.spec_cars().contains_key(owner),
            post.spec_cars()[owner].available_to_withdraw
                == pre.spec_cars()[owner].available_to_withdraw - amount,
            post.spec_cars()[owner].available_to_withdraw >= 0,
            post.spec_contract_balance() == pre.spec_contract_balance() - amount,
            post.spec_contract_balance() >= 0,
    {
        assert(pre.spec_cars().contains_key(owner));
    }
}

} // verus!
