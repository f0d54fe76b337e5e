use zcash_numi_sdk::fees::{calculate_fee_from_payments, calculate_zip317_fee, estimate_logical_actions};
use zcash_numi_sdk::rpc::Payment;

fn payment(address: &str) -> Payment {
    Payment { address: address.to_string(), amount: 100_000_000, memo: None }
}

#[test]
fn test_calculate_zip317_fee_minimum() {
    // Minimum fee is 5000 * 2 = 10000 zatoshis
    assert_eq!(calculate_zip317_fee(0), 10000);
    assert_eq!(calculate_zip317_fee(1), 10000);
    assert_eq!(calculate_zip317_fee(2), 10000);
}

#[test]
fn test_calculate_zip317_fee_above_minimum() {
    // Fee scales with logical actions
    assert_eq!(calculate_zip317_fee(3), 15000); // 5000 * 3
    assert_eq!(calculate_zip317_fee(4), 20000); // 5000 * 4
    assert_eq!(calculate_zip317_fee(10), 50000); // 5000 * 10
}

#[test]
fn test_estimate_logical_actions_shielded() {
    let payments = vec![payment("zs1test")];

    let actions = estimate_logical_actions(&payments, true);
    // At least 1 input + 1 note spend + 1 note output = 3
    assert!(actions >= 3);
}

#[test]
fn test_estimate_logical_actions_transparent() {
    let payments = vec![payment("t1test")];

    let actions = estimate_logical_actions(&payments, false);
    // At least 1 transparent input + 1 transparent output = 2
    assert!(actions >= 2);
}

#[test]
fn logical_actions_are_counted_exactly() {
    assert_eq!(estimate_logical_actions(&[], false), 1);
    assert_eq!(estimate_logical_actions(&[], true), 2);
    assert_eq!(estimate_logical_actions(&[payment("zs1test")], true), 3);
    assert_eq!(estimate_logical_actions(&[payment("t1test")], false), 2);
    let three = vec![payment("a"), payment("b"), payment("c")];
    assert_eq!(estimate_logical_actions(&three, true), 5);
}

#[test]
fn fee_of_an_empty_batch_is_the_minimum() {
    assert_eq!(calculate_fee_from_payments(&[], false), 10000);
    assert_eq!(calculate_fee_from_payments(&[], true), 10000);
}

#[test]
fn fee_of_three_payments_with_shielded_input() {
    let three = vec![payment("a"), payment("b"), payment("c")];
    assert_eq!(calculate_fee_from_payments(&three, true), 25000);
    assert_eq!(calculate_fee_from_payments(&three, false), 20000);
}

#[test]
fn fee_is_monotone_in_the_number_of_payments() {
    let mut payments: Vec<Payment> = Vec::new();
    let mut last = calculate_fee_from_payments(&payments, false);
    for i in 0..20 {
        payments.push(payment(&format!("recipient{}", i)));
        let fee = calculate_fee_from_payments(&payments, false);
        assert!(fee >= last);
        assert!(calculate_fee_from_payments(&payments, true) >= fee);
        last = fee;
    }
    assert_eq!(last, 5000 * 21);
}

#[test]
fn fee_saturates_instead_of_wrapping() {
    assert_eq!(calculate_zip317_fee(u64::MAX), u64::MAX);
    assert_eq!(calculate_zip317_fee(u64::MAX / 5000), (u64::MAX / 5000) * 5000);
    assert_eq!(calculate_zip317_fee(u64::MAX / 5000 + 1), u64::MAX);
}
