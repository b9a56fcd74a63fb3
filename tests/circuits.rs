use poseidon::circuits::{
    encrypted_deposit, encrypted_rebalance, view_position, DepositInput, RebalanceInput, ViewInput,
};

fn rebalance_input(a: u64, b: u64, price: u64) -> RebalanceInput {
    RebalanceInput {
        current_amount_a: a,
        current_amount_b: b,
        current_tick_lower: -10,
        current_tick_upper: 10,
        new_tick_lower: -20,
        new_tick_upper: 30,
        current_price_x64: price,
    }
}

#[test]
fn deposit_sums_amounts() {
    let p = encrypted_deposit(DepositInput { amount_a: 100, amount_b: 250, tick_lower: -5, tick_upper: 7 })
        .unwrap();
    assert_eq!(p.liquidity, 350);
    assert_eq!(p.amount_a, 100);
    assert_eq!(p.amount_b, 250);
    assert_eq!(p.tick_lower, -5);
    assert_eq!(p.tick_upper, 7);
}

#[test]
fn deposit_overflow_fails_closed() {
    let r = encrypted_deposit(DepositInput { amount_a: u64::MAX, amount_b: 1, tick_lower: 0, tick_upper: 1 });
    assert!(r.is_none());
    let r = encrypted_deposit(DepositInput { amount_a: u64::MAX, amount_b: 0, tick_lower: 0, tick_upper: 1 });
    assert_eq!(r.unwrap().liquidity, u64::MAX);
}

#[test]
fn rebalance_splits_value_evenly() {
    let o = encrypted_rebalance(rebalance_input(1000, 500, 2000)).unwrap();
    // value_a = 2000, total = 2500, half = 1250
    assert_eq!(o.new_amount_b, 1250);
    assert_eq!(o.new_amount_a, 625);
    assert_eq!(o.new_liquidity, 1875);
    assert_eq!(o.new_tick_lower, -20);
    assert_eq!(o.new_tick_upper, 30);
}

#[test]
fn rebalance_zero_price_leaves_no_a() {
    let o = encrypted_rebalance(rebalance_input(1000, 500, 0)).unwrap();
    assert_eq!(o.new_amount_a, 0);
    assert_eq!(o.new_amount_b, 250);
    assert_eq!(o.new_liquidity, 250);
    let o = encrypted_rebalance(rebalance_input(u64::MAX, u64::MAX, 0)).unwrap();
    assert_eq!(o.new_amount_a, 0);
    assert_eq!(o.new_amount_b, u64::MAX / 2);
}

#[test]
fn rebalance_truncates_divisions() {
    // value_a = 7 * 1500 / 1000 = 10, total = 13, half = 6, a = 6000 / 1500 = 4
    let o = encrypted_rebalance(rebalance_input(7, 3, 1500)).unwrap();
    assert_eq!(o.new_amount_b, 6);
    assert_eq!(o.new_amount_a, 4);
    assert_eq!(o.new_liquidity, 10);
}

#[test]
fn rebalance_overflow_fails_closed() {
    assert!(encrypted_rebalance(rebalance_input(u64::MAX, 0, 2)).is_none());
    assert!(encrypted_rebalance(rebalance_input(0, u64::MAX, 1)).is_none());
}

#[test]
fn view_passes_attributes_through() {
    let o = view_position(ViewInput { amount_a: 1, amount_b: 2, tick_lower: -3, tick_upper: 4, liquidity: 5 });
    assert_eq!((o.amount_a, o.amount_b, o.tick_lower, o.tick_upper, o.liquidity), (1, 2, -3, 4, 5));
}
