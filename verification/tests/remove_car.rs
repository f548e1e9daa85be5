use rent_a_car::contract::RentACarContract;
use rent_a_car::errors::Error;
use rent_a_car::events::Event;

const ADMIN: u64 = 1;
const TOKEN: u64 = 2;

fn setup() -> RentACarContract {
    let mut contract = RentACarContract::new();
    contract.__constructor(ADMIN, TOKEN).unwrap();
    contract
}

#[test]
pub fn test_remove_car_deletes_from_storage() {
    let mut contract = setup();

    let owner: u64 = 10;
    let price_per_day = 1500_i128;

    contract.add_car(ADMIN, owner, price_per_day).unwrap();
    assert!(contract.has_car(owner));

    contract.remove_car(ADMIN, owner).unwrap();

    assert!(!contract.has_car(owner));
    assert_eq!(contract.get_car_status(owner), Err(Error::CarNotFound));
    assert_eq!(
        contract.get_events().last(),
        Some(&Event::CarRemoved { owner })
    );
}

#[test]
pub fn test_remove_car_not_found_fails() {
    let mut contract = setup();

    let owner: u64 = 10;

    let result = contract.remove_car(ADMIN, owner);
    assert_eq!(result, Err(Error::CarNotFound));
}
