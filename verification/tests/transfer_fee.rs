use whirlpool_fees::{adjust_amount, transfer_fee_amount, TransferFee};

#[test]
fn no_fee_leaves_the_amount() {
    assert_eq!(adjust_amount(616, None, false), 616);
    assert_eq!(adjust_amount(616, None, true), 616);
    assert_eq!(adjust_amount(0, None, false), 0);
    assert_eq!(adjust_amount(u128::MAX, None, true), u128::MAX);
}

#[test]
fn nothing_is_taken_from_zero() {
    assert_eq!(adjust_amount(0, Some(TransferFee::new(2000)), false), 0);
    assert_eq!(adjust_amount(0, Some(TransferFee::new(2000)), true), 0);
    assert_eq!(adjust_amount(0, Some(TransferFee::new(u16::MAX)), false), 0);
    assert_eq!(adjust_amount(0, Some(TransferFee::new_with_max(10000, 5)), true), 0);
}

#[test]
fn fee_taken_from_the_amount_rounds_up() {
    assert_eq!(transfer_fee_amount(616, TransferFee::new(2000), false), 124);
    assert_eq!(adjust_amount(616, Some(TransferFee::new(2000)), false), 492);
    assert_eq!(transfer_fee_amount(849, TransferFee::new(5000), false), 425);
    assert_eq!(adjust_amount(849, Some(TransferFee::new(5000)), false), 424);
    assert_eq!(transfer_fee_amount(1, TransferFee::new(1), false), 1);
}

#[test]
fn inverse_fee_rounds_down() {
    assert_eq!(transfer_fee_amount(616, TransferFee::new(2000), true), 123);
    assert_eq!(adjust_amount(616, Some(TransferFee::new(2000)), true), 493);
    assert_eq!(adjust_amount(849, Some(TransferFee::new(5000)), true), 425);
    assert_eq!(transfer_fee_amount(1, TransferFee::new(1), true), 0);
}

#[test]
fn whole_multiples_are_not_rounded() {
    assert_eq!(transfer_fee_amount(10000, TransferFee::new(1), false), 1);
    assert_eq!(transfer_fee_amount(10000, TransferFee::new(1), true), 1);
    assert_eq!(transfer_fee_amount(500, TransferFee::new(2000), false), 100);
    assert_eq!(transfer_fee_amount(500, TransferFee::new(2000), true), 100);
}

#[test]
fn fee_of_zero_basis_points() {
    assert_eq!(transfer_fee_amount(616, TransferFee::new(0), false), 0);
    assert_eq!(adjust_amount(616, Some(TransferFee::new(0)), false), 616);
}

#[test]
fn cap_limits_the_fee() {
    assert_eq!(transfer_fee_amount(100, TransferFee::new_with_max(5000, 7), false), 7);
    assert_eq!(adjust_amount(100, Some(TransferFee::new_with_max(5000, 7)), false), 93);
    assert_eq!(adjust_amount(100, Some(TransferFee::new_with_max(5000, 50)), false), 50);
    assert_eq!(adjust_amount(100, Some(TransferFee::new_with_max(5000, 51)), false), 50);
    assert_eq!(adjust_amount(100, Some(TransferFee::new_with_max(5000, 0)), false), 100);
}

#[test]
fn fee_above_the_amount_leaves_zero() {
    assert_eq!(transfer_fee_amount(3, TransferFee::new(20000), false), 6);
    assert_eq!(adjust_amount(3, Some(TransferFee::new(20000)), false), 0);
    assert_eq!(adjust_amount(9999, Some(TransferFee::new(10000)), false), 0);
    assert_eq!(adjust_amount(5, Some(TransferFee::new_with_max(20000, 4)), false), 1);
}

#[test]
fn large_amounts() {
    let amount: u128 = 100000000000000000001;
    assert_eq!(transfer_fee_amount(amount, TransferFee::new(123), false), 1230000000000000001);
    assert_eq!(transfer_fee_amount(amount, TransferFee::new(123), true), 1230000000000000000);
    assert_eq!(adjust_amount(amount, Some(TransferFee::new(123)), false), 98770000000000000000);
    assert_eq!(adjust_amount(amount, Some(TransferFee::new(123)), true), 98770000000000000001);
}

#[test]
fn uncapped_fee_still_stops_at_the_largest_cap() {
    let amount: u128 = 1000000000000000000000000000000;
    assert_eq!(transfer_fee_amount(amount, TransferFee::new(123), false), u64::MAX as u128);
    assert_eq!(
        transfer_fee_amount(u128::MAX, TransferFee::new(u16::MAX), false),
        18446744073709551615
    );
    assert_eq!(
        adjust_amount(u128::MAX, Some(TransferFee::new(u16::MAX)), false),
        340282366920938463444927863358058659840
    );
    assert_eq!(
        adjust_amount(u128::MAX, Some(TransferFee::new(u16::MAX)), true),
        340282366920938463444927863358058659840
    );
}

#[test]
fn constructors_set_rate_and_cap() {
    assert_eq!(
        TransferFee::new(2000),
        TransferFee {
            fee_bps: 2000,
            max_fee: u64::MAX,
        }
    );
    assert_eq!(
        TransferFee::new_with_max(2000, 9),
        TransferFee {
            fee_bps: 2000,
            max_fee: 9,
        }
    );
}
