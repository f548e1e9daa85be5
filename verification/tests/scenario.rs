use rent_a_car::car::CarStatus;
use rent_a_car::contract::RentACarContract;
use rent_a_car::errors::Error;
use rent_a_car::events::Event;

const ADMIN: u64 = 1;
const TOKEN: u64 = 2;

#[test]
pub fn test_constructor_rejects_admin_token_conflict() {
    let mut contract = RentACarContract::new();
    assert_eq!(
        contract.__constructor(ADMIN, ADMIN),
        Err(Error::AdminTokenConflict)
    );
}

#[test]
pub fn test_constructor_runs_once_only() {
    let mut contract = RentACarContract::new();
    contract.__constructor(ADMIN, TOKEN).unwrap();
    assert_eq!(contract.get_admin(), ADMIN);
    assert_eq!(
        contract.__constructor(3, 4),
        Err(Error::ContractInitialized)
    );
    assert_eq!(contract.get_admin(), ADMIN);
}

#[test]
pub fn test_end_to_end_settlement() {
    let mut contract = RentACarContract::new();
    contract.__constructor(ADMIN, TOKEN).unwrap();

    let owner: u64 = 10;
    let renter: u64 = 20;

    // List at 300 per day, rent for 4 days at a gross of 4500:
    // commission = (4500 / 100) * 2 = 90, net = 4410.
    contract.add_car(ADMIN, owner, 300).unwrap();
    contract.rental(renter, renter, owner, 4, 4500).unwrap();

    assert_eq!(contract.get_available_withdraw_payowner(owner), Ok(4410));
    assert_eq!(contract.get_contract_balance(), 4410);
    assert_eq!(contract.get_admin_commission(), 90);
    assert_eq!(contract.get_car_status(owner), Ok(CarStatus::Rented));

    // The owner withdraws everything accrued; both balances drop to zero.
    contract.payout_owner(owner, owner, 4410).unwrap();
    assert_eq!(contract.get_available_withdraw_payowner(owner), Ok(0));
    assert_eq!(contract.get_contract_balance(), 0);

    // The administrator collects the whole commission pool.
    contract.payout_admin(ADMIN, ADMIN, 90).unwrap();
    assert_eq!(contract.get_admin_commission(), 0);

    let events = contract.get_events();
    assert_eq!(
        events.as_slice(),
        [
            Event::ContractInitialized { admin: ADMIN, token: TOKEN },
            Event::CarAdded { owner, price_per_day: 300 },
            Event::Rented { renter, owner, total_days_to_rent: 4, amount: 4500 },
            Event::Payout { owner, amount: 4410 },
            Event::PayoutCommissions { admin: ADMIN, amount: 90 },
        ]
    );
}

#[test]
pub fn test_rental_record_is_overwritten_per_pair() {
    // A car removed and listed again can be rented by the same renter; the
    // car's status, not the rental record, gates the new rental.
    let mut contract = RentACarContract::new();
    contract.__constructor(ADMIN, TOKEN).unwrap();

    let owner: u64 = 10;
    let renter: u64 = 20;

    contract.add_car(ADMIN, owner, 300).unwrap();
    contract.rental(renter, renter, owner, 4, 4500).unwrap();
    contract.remove_car(ADMIN, owner).unwrap();

    contract.add_car(ADMIN, owner, 300).unwrap();
    contract.rental(renter, renter, owner, 2, 200).unwrap();

    // The pair's record now shows the newer rental only.
    let record = contract.get_rental(renter, owner).unwrap();
    assert_eq!(record.total_days_to_rent, 2);
    assert_eq!(record.amount, 200);
    assert_eq!(contract.get_rental(renter, 99), None);

    // First rental left 4410 stranded in custody; the second adds 196.
    assert_eq!(contract.get_available_withdraw_payowner(owner), Ok(196));
    assert_eq!(contract.get_contract_balance(), 4606);
    assert_eq!(contract.get_admin_commission(), 94);
}

#[test]
pub fn test_status_of_unlisted_owner_is_not_found() {
    let mut contract = RentACarContract::new();
    contract.__constructor(ADMIN, TOKEN).unwrap();
    assert_eq!(contract.get_car_status(7), Err(Error::CarNotFound));
    assert_eq!(contract.get_available_withdraw_payowner(7), Err(Error::CarNotFound));
    assert_eq!(contract.get_car(7), Err(Error::CarNotFound));
}
