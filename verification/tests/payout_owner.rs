use rent_a_car::contract::RentACarContract;
use rent_a_car::errors::Error;
use rent_a_car::events::Event;

const ADMIN: u64 = 1;
const TOKEN: u64 = 2;

#[test]
pub fn test_payout_owner_successfully() {
    let mut contract = RentACarContract::new();
    contract.__constructor(ADMIN, TOKEN).unwrap();

    let owner: u64 = 10;
    let renter: u64 = 20;
    let price_per_day = 1500_i128;
    let total_days = 3_u32;
    let amount = 4500_i128;

    contract.add_car(ADMIN, owner, price_per_day).unwrap();
    contract.rental(renter, renter, owner, total_days, amount).unwrap();

    let commission = (amount / 100) * 2;
    let net = amount - commission;
    assert_eq!(contract.get_contract_balance(), net);
    assert_eq!(contract.get_available_withdraw_payowner(owner), Ok(net));

    contract.payout_owner(owner, owner, net).unwrap();

    let car = contract.get_car(owner).unwrap();
    assert_eq!(car.available_to_withdraw, 0);
    assert_eq!(contract.get_contract_balance(), 0);
    assert_eq!(
        contract.get_events().last(),
        Some(&Event::Payout { owner, amount: net })
    );
}

#[test]
pub fn test_payout_owner_more_than_accrued_fails() {
    let mut contract = RentACarContract::new();
    contract.__constructor(ADMIN, TOKEN).unwrap();

    let owner: u64 = 10;
    let renter: u64 = 20;
    contract.add_car(ADMIN, owner, 1500).unwrap();
    contract.rental(renter, renter, owner, 3, 4500).unwrap();

    // Accrued net is 4410; asking for more fails and changes nothing.
    let result = contract.payout_owner(owner, owner, 5000);
    assert_eq!(result, Err(Error::InsufficientBalance));
    assert_eq!(contract.get_available_withdraw_payowner(owner), Ok(4410));
    assert_eq!(contract.get_contract_balance(), 4410);
}

#[test]
pub fn test_payout_owner_non_positive_amount_fails() {
    let mut contract = RentACarContract::new();
    contract.__constructor(ADMIN, TOKEN).unwrap();

    let owner: u64 = 10;
    contract.add_car(ADMIN, owner, 1500).unwrap();

    assert_eq!(
        contract.payout_owner(owner, owner, 0),
        Err(Error::AmountMustBePositive)
    );
    assert_eq!(
        contract.payout_owner(owner, owner, -1),
        Err(Error::AmountMustBePositive)
    );
}

#[test]
pub fn test_payout_owner_without_car_fails() {
    let mut contract = RentACarContract::new();
    contract.__constructor(ADMIN, TOKEN).unwrap();

    let owner: u64 = 10;
    assert_eq!(
        contract.payout_owner(owner, owner, 100),
        Err(Error::CarNotFound)
    );
}
