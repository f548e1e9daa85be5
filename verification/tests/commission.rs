use rent_a_car::commission::{commission, net};

#[test]
pub fn test_commission_is_truncated_two_percent() {
    assert_eq!(commission(4500), 90);
    assert_eq!(commission(100), 2);
    assert_eq!(commission(199), 2);
    assert_eq!(commission(10_000), 200);
}

#[test]
pub fn test_commission_below_one_hundred_is_zero() {
    assert_eq!(commission(1), 0);
    assert_eq!(commission(99), 0);
    assert_eq!(net(99), 99);
}

#[test]
pub fn test_commission_and_net_add_up_to_amount() {
    for amount in [1_i128, 50, 99, 100, 101, 4500, 12_345, 1_000_000] {
        assert_eq!(commission(amount) + net(amount), amount);
        assert_eq!(commission(amount), (amount / 100) * 2);
    }
}
