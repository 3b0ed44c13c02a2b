use veerbal_cpmm::curve::liquidity::{
    issue_liquidity_for_deposit, redeem_liquidity_for_withdraw, seed_liquidity, MINIMUM_LIQUIDITY,
};
use veerbal_cpmm::error::ErrorCode;

#[test]
fn minimum_liquidity_is_one_hundred() {
    assert_eq!(MINIMUM_LIQUIDITY, 100);
}

#[test]
fn deposit_share_rounds_up() {
    // 1 * 10 / 3 = 3.33
    assert_eq!(issue_liquidity_for_deposit(1, 3, 10), Some(4));
    // 1 * 7 / 3 = 2.33
    assert_eq!(issue_liquidity_for_deposit(1, 3, 7), Some(3));
    // exact shares are not rounded
    assert_eq!(issue_liquidity_for_deposit(333, 10_000, 10_000), Some(333));
    assert_eq!(issue_liquidity_for_deposit(333, 10_000, 40_000), Some(1332));
    assert_eq!(issue_liquidity_for_deposit(5, 10, 0), Some(0));
    assert_eq!(issue_liquidity_for_deposit(0, 10, 1000), Some(0));
}

#[test]
fn withdraw_share_rounds_down() {
    assert_eq!(redeem_liquidity_for_withdraw(1, 3, 10), Some(3));
    assert_eq!(redeem_liquidity_for_withdraw(1, 3, 7), Some(2));
    assert_eq!(redeem_liquidity_for_withdraw(333, 10_000, 10_000), Some(333));
    assert_eq!(redeem_liquidity_for_withdraw(1, 1000, 999), Some(0));
    assert_eq!(redeem_liquidity_for_withdraw(10, 10, 12345), Some(12345));
}

#[test]
fn shares_need_a_supply() {
    assert_eq!(issue_liquidity_for_deposit(1, 0, 10), None);
    assert_eq!(redeem_liquidity_for_withdraw(1, 0, 10), None);
}

#[test]
fn shares_that_do_not_fit_are_refused() {
    assert_eq!(issue_liquidity_for_deposit(u64::MAX, 1, 2), None);
    assert_eq!(redeem_liquidity_for_withdraw(u64::MAX, 1, 2), None);
    assert_eq!(
        issue_liquidity_for_deposit(u64::MAX, u64::MAX, u64::MAX),
        Some(u64::MAX)
    );
    assert_eq!(
        redeem_liquidity_for_withdraw(u64::MAX, 1, 1),
        Some(u64::MAX)
    );
}

#[test]
fn deposit_then_withdraw_loses_to_rounding_only() {
    let cases: [(u64, u64, u64); 5] = [
        (1, 3, 10),
        (333, 10_000, 10_000),
        (7, 1_000, 999),
        (1_000_000, 3, 17),
        (12_345, 67_890, 1_000_000_007),
    ];
    for (liquidity, supply, reserve) in cases {
        let deposited = issue_liquidity_for_deposit(liquidity, supply, reserve).unwrap();
        let back =
            redeem_liquidity_for_withdraw(liquidity, supply + liquidity, reserve + deposited)
                .unwrap();
        assert!(back <= deposited);
        let same = redeem_liquidity_for_withdraw(liquidity, supply, reserve).unwrap();
        assert!(same <= deposited);
    }
    // 1 of 3 units against a reserve of 10 costs 4 and returns 1 * 14 / 4 = 3
    assert_eq!(redeem_liquidity_for_withdraw(1, 4, 14), Some(3));
}

#[test]
fn seed_mints_the_root_of_the_product() {
    assert_eq!(seed_liquidity(10_000, 10_000), Ok(10_000));
    assert_eq!(seed_liquidity(1, 1_000_000), Ok(1_000));
    assert_eq!(seed_liquidity(2, 8_000_000), Ok(4_000));
    // sqrt(10_403) = 101.99
    assert_eq!(seed_liquidity(101, 103), Ok(101));
    assert_eq!(seed_liquidity(u64::MAX, u64::MAX), Ok(u64::MAX));
}

#[test]
fn seed_must_exceed_the_locked_minimum() {
    assert_eq!(
        seed_liquidity(100, 100),
        Err(ErrorCode::InsufficientTokensToMint)
    );
    // sqrt(10_200) = 100.99
    assert_eq!(
        seed_liquidity(100, 102),
        Err(ErrorCode::InsufficientTokensToMint)
    );
    assert_eq!(
        seed_liquidity(0, 1_000_000),
        Err(ErrorCode::InsufficientTokensToMint)
    );
    assert_eq!(seed_liquidity(101, 101), Ok(101));
}
