use rent_a_car::contract::RentACarContract;
use rent_a_car::errors::Error;
use rent_a_car::events::Event;

const TOKEN: u64 = 2;

#[test]
pub fn test_payout_admin_successfully() {
    let mut contract = RentACarContract::new();

    let admin: u64 = 1;
    let amount = 4500_i128;
    let price_per_day = 300_i128;
    let owner = admin;
    let renter: u64 = 20;
    let total_days = 4_u32;

    contract.__constructor(admin, TOKEN).unwrap();
    contract.add_car(admin, owner, price_per_day).unwrap();
    contract.rental(renter, renter, owner, total_days, amount).unwrap();

    let commission = contract.get_admin_commission();
    assert_eq!(commission, (amount / 100) * 2);

    contract.payout_admin(admin, admin, commission).unwrap();

    assert_eq!(contract.get_admin_commission(), 0);
    assert_eq!(
        contract.get_events().last(),
        Some(&Event::PayoutCommissions { admin, amount: commission })
    );
}

#[test]
pub fn test_payout_admin_more_than_commission_fails() {
    let mut contract = RentACarContract::new();

    let admin: u64 = 1;
    let owner: u64 = 10;
    let renter: u64 = 20;

    contract.__constructor(admin, TOKEN).unwrap();
    contract.add_car(admin, owner, 300).unwrap();
    contract.rental(renter, renter, owner, 4, 4500).unwrap();

    // The pool holds 90; asking for more fails and changes nothing.
    let result = contract.payout_admin(admin, admin, 91);
    assert_eq!(result, Err(Error::InsufficientBalance));
    assert_eq!(contract.get_admin_commission(), 90);
}

#[test]
pub fn test_payout_admin_non_positive_amount_fails() {
    let mut contract = RentACarContract::new();

    let admin: u64 = 1;
    contract.__constructor(admin, TOKEN).unwrap();

    assert_eq!(
        contract.payout_admin(admin, admin, 0),
        Err(Error::AmountMustBePositive)
    );
}
