use matrix_system::address::Address;
use matrix_system::meteora::{LockedProfitTracker, Vault, VaultBumps};

fn tracker(profit: u64, last_report: u64, degradation: u64) -> LockedProfitTracker {
    LockedProfitTracker { last_updated_locked_profit: profit, last_report, locked_profit_degradation: degradation }
}

fn vault(total_amount: u64, tracker: LockedProfitTracker) -> Vault {
    let zero = Address([0u8; 32]);
    Vault {
        enabled: 1,
        bumps: VaultBumps { vault_bump: 0, token_vault_bump: 0 },
        total_amount,
        token_vault: zero,
        fee_vault: zero,
        token_mint: zero,
        lp_mint: zero,
        strategies: [zero; 30],
        base: zero,
        admin: zero,
        operator: zero,
        locked_profit_tracker: tracker,
    }
}

#[test]
fn locked_profit_before_report_is_none() {
    assert_eq!(tracker(1000, 100, 1).calculate_locked_profit(99), None);
}

#[test]
fn locked_profit_degrades_linearly() {
    // half of the denominator elapsed: half of the profit stays locked
    let t = tracker(1000, 100, 500_000_000_000);
    assert_eq!(t.calculate_locked_profit(100), Some(1000));
    assert_eq!(t.calculate_locked_profit(101), Some(500));
    assert_eq!(t.calculate_locked_profit(102), Some(0));
    assert_eq!(t.calculate_locked_profit(103), Some(0));
}

#[test]
fn locked_profit_rounds_down() {
    let t = tracker(3, 0, 1);
    // ratio 1 of 10^12: 3 * (10^12 - 1) / 10^12 = 2
    assert_eq!(t.calculate_locked_profit(1), Some(2));
}

#[test]
fn unlocked_amount_subtracts_locked_profit() {
    let v = vault(10_000, tracker(1000, 100, 500_000_000_000));
    assert_eq!(v.get_unlocked_amount(100), Some(9000));
    assert_eq!(v.get_unlocked_amount(101), Some(9500));
    assert_eq!(v.get_unlocked_amount(200), Some(10_000));
    assert_eq!(v.get_unlocked_amount(50), None);
}

#[test]
fn unlocked_amount_none_when_locked_exceeds_total() {
    let v = vault(10, tracker(1000, 0, 0));
    assert_eq!(v.get_unlocked_amount(5), None);
}

#[test]
fn amount_by_share_is_pro_rata() {
    let v = vault(10_000, tracker(0, 0, 0));
    assert_eq!(v.get_amount_by_share(1, 25, 100), Some(2500));
    assert_eq!(v.get_amount_by_share(1, 1, 3), Some(3333));
    assert_eq!(v.get_amount_by_share(1, 7, 0), Some(0));
}

#[test]
fn amount_by_share_none_when_too_large() {
    let v = vault(u64::MAX, tracker(0, 0, 0));
    assert_eq!(v.get_amount_by_share(1, 2, 1), None);
}

#[test]
fn locked_profit_never_increases_over_time() {
    let t = tracker(987_654_321, 10, 123_456_789);
    let mut previous = t.calculate_locked_profit(10).unwrap();
    for now in 11..10_000u64 {
        let locked = t.calculate_locked_profit(now).unwrap();
        assert!(locked <= previous);
        previous = locked;
    }
}

#[test]
fn unlocked_amount_never_decreases_over_time() {
    let v = vault(5_000_000_000, tracker(987_654_321, 10, 123_456_789));
    let mut previous = v.get_unlocked_amount(10).unwrap();
    for now in (11..20_000u64).step_by(7) {
        let unlocked = v.get_unlocked_amount(now).unwrap();
        assert!(unlocked >= previous);
        assert!(unlocked <= 5_000_000_000);
        previous = unlocked;
    }
}

#[test]
fn share_value_is_monotone_and_bounded() {
    let v = vault(1_000_003, tracker(3, 0, 1));
    let unlocked = v.get_unlocked_amount(5).unwrap();
    let mut previous = 0;
    for share in 0..=997u64 {
        let amount = v.get_amount_by_share(5, share, 997).unwrap();
        assert!(amount >= previous);
        assert!(amount <= unlocked);
        previous = amount;
    }
    assert_eq!(previous, unlocked);
}
