use rent_a_car::car::CarStatus;
use rent_a_car::contract::RentACarContract;
use rent_a_car::errors::Error;
use rent_a_car::events::Event;

const ADMIN: u64 = 1;
const TOKEN: u64 = 2;
const OWNER: u64 = 10;
const RENTER: u64 = 20;

fn setup_with_car(price_per_day: i128) -> RentACarContract {
    let mut contract = RentACarContract::new();
    contract.__constructor(ADMIN, TOKEN).unwrap();
    contract.add_car(ADMIN, OWNER, price_per_day).unwrap();
    contract
}

#[test]
pub fn test_rental_splits_amount_exactly() {
    let mut contract = setup_with_car(1500);

    contract.rental(RENTER, RENTER, OWNER, 3, 4500).unwrap();

    // commission = (4500 / 100) * 2 = 90, net = 4410
    let car = contract.get_car(OWNER).unwrap();
    assert_eq!(car.available_to_withdraw, 4410);
    assert_eq!(car.car_status, CarStatus::Rented);
    assert_eq!(contract.get_contract_balance(), 4410);
    assert_eq!(contract.get_admin_commission(), 90);
    assert_eq!(
        contract.get_events().last(),
        Some(&Event::Rented { renter: RENTER, owner: OWNER, total_days_to_rent: 3, amount: 4500 })
    );
}

#[test]
pub fn test_rental_with_non_positive_amount_fails() {
    let mut contract = setup_with_car(1500);

    assert_eq!(
        contract.rental(RENTER, RENTER, OWNER, 3, 0),
        Err(Error::AmountMustBePositive)
    );
    assert_eq!(
        contract.rental(RENTER, RENTER, OWNER, 3, -4500),
        Err(Error::AmountMustBePositive)
    );
    assert_eq!(contract.get_contract_balance(), 0);
}

#[test]
pub fn test_rental_with_zero_days_fails() {
    let mut contract = setup_with_car(1500);

    assert_eq!(
        contract.rental(RENTER, RENTER, OWNER, 0, 4500),
        Err(Error::RentalDurationCannotBeZero)
    );
}

#[test]
pub fn test_rental_of_own_car_fails() {
    let mut contract = setup_with_car(1500);

    assert_eq!(
        contract.rental(OWNER, OWNER, OWNER, 3, 4500),
        Err(Error::SelfRentalNotAllowed)
    );
}

#[test]
pub fn test_rental_of_unlisted_car_fails() {
    let mut contract = setup_with_car(1500);

    let unlisted: u64 = 77;
    assert_eq!(
        contract.rental(RENTER, RENTER, unlisted, 3, 4500),
        Err(Error::CarNotFound)
    );
}

#[test]
pub fn test_rental_of_rented_car_fails() {
    let mut contract = setup_with_car(1500);

    contract.rental(RENTER, RENTER, OWNER, 3, 4500).unwrap();

    let other_renter: u64 = 21;
    assert_eq!(
        contract.rental(other_renter, other_renter, OWNER, 3, 4500),
        Err(Error::CarAlreadyRented)
    );
    // The failed attempt changed nothing.
    assert_eq!(contract.get_contract_balance(), 4410);
    assert_eq!(contract.get_admin_commission(), 90);
}
