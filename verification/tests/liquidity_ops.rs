use veerbal_cpmm::error::ErrorCode;
use veerbal_cpmm::instructions::deposit::deposit;
use veerbal_cpmm::instructions::withdraw::withdraw;
use veerbal_cpmm::states::identity::Identity;
use veerbal_cpmm::states::pool::PoolState;
use veerbal_cpmm::states::quote::LiquidityQuote;

fn lp_key(tag: u8) -> Identity {
    Identity::new([tag; 32])
}

fn seeded() -> PoolState {
    PoolState {
        amm_config: lp_key(1),
        pool_creator: lp_key(2),
        token_0_mint: lp_key(3),
        token_1_mint: lp_key(4),
        token_0_vault: lp_key(5),
        token_1_vault: lp_key(6),
        lp_mint: lp_key(7),
        lp_supply: 10_000,
        status: 0,
        open_time: 0,
        recent_epoch: 0,
        protocol_token_0_fee: 100,
        protocol_token_1_fee: 10,
        fund_token_0_fee: 200,
        fund_token_1_fee: 20,
        creator_fee_active: true,
        creator_token_0_fee: 300,
        creator_token_1_fee: 30,
    }
}

#[test]
fn deposit_costs_the_share_of_the_clean_reserves() {
    let mut pool = seeded();
    // clean reserves 10_000 and 40_000
    let quote = deposit(&mut pool, 10_600, 40_060, 333, 333, 1332).unwrap();
    assert_eq!(
        quote,
        LiquidityQuote {
            lp_amount: 333,
            token_0_amount: 333,
            token_1_amount: 1332,
        }
    );
    let mut expected = seeded();
    expected.lp_supply = 10_333;
    assert_eq!(pool, expected);
}

#[test]
fn deposit_rounds_up() {
    let mut pool = seeded();
    pool.lp_supply = 3;
    // clean reserves 10 and 7: a third of each is 3.33 and 2.33
    let quote = deposit(&mut pool, 610, 67, 1, u64::MAX, u64::MAX).unwrap();
    assert_eq!(quote.token_0_amount, 4);
    assert_eq!(quote.token_1_amount, 3);
    assert_eq!(pool.lp_supply, 4);
}

#[test]
fn deposit_is_refused_while_disabled() {
    let mut pool = seeded();
    pool.status = 0b001;
    let before = pool;
    assert_eq!(
        deposit(&mut pool, 10_600, 40_060, 333, 333, 1332),
        Err(ErrorCode::DepositDisabled)
    );
    assert_eq!(pool, before);
    // the other bits do not disable deposits
    pool.status = 0b110;
    assert!(deposit(&mut pool, 10_600, 40_060, 333, 333, 1332).is_ok());
}

#[test]
fn deposit_needs_liquidity_and_a_seeded_pool() {
    let mut pool = seeded();
    assert_eq!(
        deposit(&mut pool, 10_600, 40_060, 0, 333, 1332),
        Err(ErrorCode::InvalidLPAmount)
    );
    assert_eq!(pool, seeded());
    pool.lp_supply = 0;
    let before = pool;
    assert_eq!(
        deposit(&mut pool, 10_600, 40_060, 333, 333, 1332),
        Err(ErrorCode::PoolNotInitialized)
    );
    assert_eq!(
        deposit(&mut pool, 10_600, 40_060, 0, 333, 1332),
        Err(ErrorCode::InvalidLPAmount)
    );
    assert_eq!(pool, before);
}

#[test]
fn deposit_above_a_maximum_is_refused() {
    let mut pool = seeded();
    assert_eq!(
        deposit(&mut pool, 10_600, 40_060, 333, 332, 1332),
        Err(ErrorCode::MaximumAmountExceed)
    );
    assert_eq!(
        deposit(&mut pool, 10_600, 40_060, 333, 333, 1331),
        Err(ErrorCode::MaximumAmountExceed)
    );
    assert_eq!(pool, seeded());
}

#[test]
fn deposit_fails_on_overflow() {
    // fees exceed a vault
    let mut pool = seeded();
    assert_eq!(
        deposit(&mut pool, 599, 40_060, 333, 333, 1332),
        Err(ErrorCode::MathOverflow)
    );
    // an amount does not fit
    pool.lp_supply = 1;
    let before = pool;
    assert_eq!(
        deposit(&mut pool, 10_600, 40_060, u64::MAX, u64::MAX, u64::MAX),
        Err(ErrorCode::MathOverflow)
    );
    assert_eq!(pool, before);
    // the supply does not fit
    let mut pool = seeded();
    pool.lp_supply = u64::MAX;
    let before = pool;
    assert_eq!(
        deposit(&mut pool, 10_600, 40_060, 1, u64::MAX, u64::MAX),
        Err(ErrorCode::MathOverflow)
    );
    assert_eq!(pool, before);
}

#[test]
fn withdraw_returns_the_share_of_the_clean_reserves() {
    let mut pool = seeded();
    let quote = withdraw(&mut pool, 10_600, 40_060, 333, 333, 1332).unwrap();
    assert_eq!(
        quote,
        LiquidityQuote {
            lp_amount: 333,
            token_0_amount: 333,
            token_1_amount: 1332,
        }
    );
    let mut expected = seeded();
    expected.lp_supply = 9_667;
    assert_eq!(pool, expected);
}

#[test]
fn withdraw_rounds_down() {
    let mut pool = seeded();
    pool.lp_supply = 3;
    let quote = withdraw(&mut pool, 610, 67, 1, 0, 0).unwrap();
    assert_eq!(quote.token_0_amount, 3);
    assert_eq!(quote.token_1_amount, 2);
    assert_eq!(pool.lp_supply, 2);
}

#[test]
fn withdraw_is_refused_while_disabled() {
    let mut pool = seeded();
    pool.status = 0b010;
    let before = pool;
    assert_eq!(
        withdraw(&mut pool, 10_600, 40_060, 333, 0, 0),
        Err(ErrorCode::WithdrawDisabled)
    );
    assert_eq!(pool, before);
    pool.status = 0b101;
    assert!(withdraw(&mut pool, 10_600, 40_060, 333, 0, 0).is_ok());
}

#[test]
fn withdraw_needs_liquidity_and_a_seeded_pool() {
    let mut pool = seeded();
    assert_eq!(
        withdraw(&mut pool, 10_600, 40_060, 0, 0, 0),
        Err(ErrorCode::InvalidLPAmount)
    );
    assert_eq!(pool, seeded());
    pool.lp_supply = 0;
    let before = pool;
    assert_eq!(
        withdraw(&mut pool, 10_600, 40_060, 333, 0, 0),
        Err(ErrorCode::PoolNotInitialized)
    );
    assert_eq!(pool, before);
}

#[test]
fn withdraw_of_a_zero_share_is_refused() {
    let mut pool = seeded();
    // 1 * 9_999 / 10_000 rounds down to nothing
    assert_eq!(
        withdraw(&mut pool, 10_599, 40_060, 1, 0, 0),
        Err(ErrorCode::ZeroTradingTokens)
    );
    assert_eq!(
        withdraw(&mut pool, 10_600, 10_059, 1, 0, 0),
        Err(ErrorCode::ZeroTradingTokens)
    );
    assert_eq!(
        withdraw(&mut pool, 600, 60, 333, 0, 0),
        Err(ErrorCode::ZeroTradingTokens)
    );
    assert_eq!(pool, seeded());
    assert!(withdraw(&mut pool, 10_600, 10_060, 1, 0, 0).is_ok());
}

#[test]
fn withdraw_below_a_minimum_is_refused() {
    let mut pool = seeded();
    assert_eq!(
        withdraw(&mut pool, 10_600, 40_060, 333, 334, 1332),
        Err(ErrorCode::SlippageExceeded)
    );
    assert_eq!(
        withdraw(&mut pool, 10_600, 40_060, 333, 333, 1333),
        Err(ErrorCode::SlippageExceeded)
    );
    assert_eq!(pool, seeded());
}

#[test]
fn withdraw_fails_on_overflow() {
    // fees exceed a vault
    let mut pool = seeded();
    assert_eq!(
        withdraw(&mut pool, 10_600, 59, 333, 0, 0),
        Err(ErrorCode::MathOverflow)
    );
    // more liquidity than there is
    assert_eq!(
        withdraw(&mut pool, 10_600, 40_060, 10_001, 0, 0),
        Err(ErrorCode::MathOverflow)
    );
    // an amount does not fit
    pool.lp_supply = 1;
    let before = pool;
    assert_eq!(
        withdraw(&mut pool, 10_600, 40_060, u64::MAX, 0, 0),
        Err(ErrorCode::MathOverflow)
    );
    assert_eq!(pool, before);
    // the whole supply can be withdrawn
    let mut pool = seeded();
    let quote = withdraw(&mut pool, 10_600, 40_060, 10_000, 0, 0).unwrap();
    assert_eq!(quote.token_0_amount, 10_000);
    assert_eq!(quote.token_1_amount, 40_000);
    assert_eq!(pool.lp_supply, 0);
}

#[test]
fn deposit_then_withdraw_returns_no_more_than_was_paid() {
    let cases: [(u64, u64, u64, u64); 5] = [
        (3, 610, 67, 1),
        (10_000, 10_600, 40_060, 333),
        (7, 1_000_600, 1_060, 5),
        (1_000_000, 617, 77, 999_999),
        (67_890, 1_000_000_607, 12_405, 12_345),
    ];
    for (supply, vault_0, vault_1, liquidity) in cases {
        let mut pool = seeded();
        pool.lp_supply = supply;
        let paid = deposit(&mut pool, vault_0, vault_1, liquidity, u64::MAX, u64::MAX).unwrap();
        if let Ok(back) = withdraw(
            &mut pool,
            vault_0 + paid.token_0_amount,
            vault_1 + paid.token_1_amount,
            liquidity,
            0,
            0,
        ) {
            assert!(back.token_0_amount <= paid.token_0_amount);
            assert!(back.token_1_amount <= paid.token_1_amount);
            assert_eq!(pool.lp_supply, supply);
        }
    }
    let mut pool = seeded();
    pool.lp_supply = 3;
    let paid = deposit(&mut pool, 610, 67, 1, u64::MAX, u64::MAX).unwrap();
    assert_eq!((paid.token_0_amount, paid.token_1_amount), (4, 3));
    let back = withdraw(&mut pool, 614, 70, 1, 0, 0).unwrap();
    // 1 * 14 / 4 and 1 * 10 / 4
    assert_eq!((back.token_0_amount, back.token_1_amount), (3, 2));
}
