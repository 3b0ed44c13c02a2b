use veerbal_cpmm::error::ErrorCode;
use veerbal_cpmm::states::identity::Identity;
use veerbal_cpmm::states::pool::{PoolState, PoolStatusBitIndex, TradeDirection};

fn pool_key(tag: u8) -> Identity {
    Identity::new([tag; 32])
}

fn plain_pool() -> PoolState {
    PoolState {
        amm_config: pool_key(1),
        pool_creator: pool_key(2),
        token_0_mint: pool_key(3),
        token_1_mint: pool_key(4),
        token_0_vault: pool_key(5),
        token_1_vault: pool_key(6),
        lp_mint: pool_key(7),
        lp_supply: 10_000,
        status: 0,
        open_time: 0,
        recent_epoch: 0,
        protocol_token_0_fee: 100,
        protocol_token_1_fee: 10,
        fund_token_0_fee: 200,
        fund_token_1_fee: 20,
        creator_fee_active: true,
        creator_token_0_fee: 300,
        creator_token_1_fee: 30,
    }
}

#[test]
fn identity_keeps_its_bytes() {
    let mut bytes = [0u8; 32];
    bytes[0] = 9;
    bytes[31] = 200;
    let id = Identity::new(bytes);
    assert_eq!(id.to_bytes(), bytes);
    assert_eq!(id.bytes, bytes);
}

#[test]
fn identities_compare_by_every_byte() {
    let a = Identity::new([7; 32]);
    let b = Identity::new([7; 32]);
    assert!(a == b);
    for i in 0..32 {
        let mut bytes = [7u8; 32];
        bytes[i] = 8;
        assert!(Identity::new(bytes) != a);
    }
}

#[test]
fn status_zero_enables_everything() {
    let pool = plain_pool();
    assert!(pool.is_enabled(PoolStatusBitIndex::Deposit));
    assert!(pool.is_enabled(PoolStatusBitIndex::Withdraw));
    assert!(pool.is_enabled(PoolStatusBitIndex::Swap));
}

#[test]
fn a_set_bit_disables_its_operation() {
    let mut pool = plain_pool();
    pool.status = 0b001;
    assert!(!pool.is_enabled(PoolStatusBitIndex::Deposit));
    assert!(pool.is_enabled(PoolStatusBitIndex::Withdraw));
    assert!(pool.is_enabled(PoolStatusBitIndex::Swap));
    pool.status = 0b010;
    assert!(pool.is_enabled(PoolStatusBitIndex::Deposit));
    assert!(!pool.is_enabled(PoolStatusBitIndex::Withdraw));
    assert!(pool.is_enabled(PoolStatusBitIndex::Swap));
    pool.status = 0b100;
    assert!(pool.is_enabled(PoolStatusBitIndex::Deposit));
    assert!(pool.is_enabled(PoolStatusBitIndex::Withdraw));
    assert!(!pool.is_enabled(PoolStatusBitIndex::Swap));
    pool.status = 0b111;
    assert!(!pool.is_enabled(PoolStatusBitIndex::Deposit));
    assert!(!pool.is_enabled(PoolStatusBitIndex::Withdraw));
    assert!(!pool.is_enabled(PoolStatusBitIndex::Swap));
    // the other bits disable nothing
    pool.status = 0b1111_1000;
    assert!(pool.is_enabled(PoolStatusBitIndex::Deposit));
    assert!(pool.is_enabled(PoolStatusBitIndex::Withdraw));
    assert!(pool.is_enabled(PoolStatusBitIndex::Swap));
}

#[test]
fn clean_reserves_leave_out_accrued_fees() {
    let pool = plain_pool();
    assert_eq!(
        pool.vault_amount_without_fee(1_000_600, 2_000_060),
        Ok((1_000_000, 2_000_000))
    );
    assert_eq!(pool.vault_amount_without_fee(600, 60), Ok((0, 0)));
}

#[test]
fn clean_reserves_fail_where_fees_exceed_a_vault() {
    let pool = plain_pool();
    assert_eq!(
        pool.vault_amount_without_fee(599, 2_000_060),
        Err(ErrorCode::MathOverflow)
    );
    assert_eq!(
        pool.vault_amount_without_fee(1_000_600, 59),
        Err(ErrorCode::MathOverflow)
    );
    let mut huge = plain_pool();
    huge.protocol_token_0_fee = u64::MAX;
    assert_eq!(
        huge.vault_amount_without_fee(u64::MAX, 2_000_060),
        Err(ErrorCode::MathOverflow)
    );
    huge.protocol_token_0_fee = u64::MAX - 500;
    assert_eq!(
        huge.vault_amount_without_fee(u64::MAX, 2_000_060),
        Ok((0, 2_000_000))
    );
    huge.fund_token_1_fee = u64::MAX;
    assert_eq!(
        huge.vault_amount_without_fee(u64::MAX, u64::MAX),
        Err(ErrorCode::MathOverflow)
    );
}

#[test]
fn fees_accrue_to_the_input_asset() {
    let mut pool = plain_pool();
    assert_eq!(pool.accrue_fees(TradeDirection::ZeroForOne, 1, 2, 3), Ok(()));
    let mut expected = plain_pool();
    expected.protocol_token_0_fee = 101;
    expected.fund_token_0_fee = 202;
    expected.creator_token_0_fee = 303;
    assert_eq!(pool, expected);
    assert_eq!(pool.accrue_fees(TradeDirection::OneForZero, 5, 6, 7), Ok(()));
    expected.protocol_token_1_fee = 15;
    expected.fund_token_1_fee = 26;
    expected.creator_token_1_fee = 37;
    assert_eq!(pool, expected);
}

#[test]
fn fees_that_overflow_are_not_accrued() {
    let mut pool = plain_pool();
    pool.fund_token_1_fee = u64::MAX - 5;
    let before = pool;
    assert_eq!(
        pool.accrue_fees(TradeDirection::OneForZero, 1, 6, 1),
        Err(ErrorCode::MathOverflow)
    );
    assert_eq!(pool, before);
    assert_eq!(pool.accrue_fees(TradeDirection::OneForZero, 1, 5, 1), Ok(()));
    assert_eq!(pool.fund_token_1_fee, u64::MAX);
    assert_eq!(pool.protocol_token_1_fee, 11);
    pool.creator_token_0_fee = u64::MAX;
    let before = pool;
    assert_eq!(
        pool.accrue_fees(TradeDirection::ZeroForOne, 0, 0, 1),
        Err(ErrorCode::MathOverflow)
    );
    assert_eq!(pool, before);
    pool.creator_token_0_fee = 0;
    pool.protocol_token_0_fee = u64::MAX;
    let before = pool;
    assert_eq!(
        pool.accrue_fees(TradeDirection::ZeroForOne, 1, 0, 0),
        Err(ErrorCode::MathOverflow)
    );
    assert_eq!(pool, before);
}

#[test]
fn direction_follows_the_input_vault() {
    let pool = plain_pool();
    assert_eq!(
        pool.trade_direction(&pool_key(5), &pool_key(6)),
        Ok(TradeDirection::ZeroForOne)
    );
    assert_eq!(
        pool.trade_direction(&pool_key(6), &pool_key(5)),
        Ok(TradeDirection::OneForZero)
    );
}

#[test]
fn direction_needs_the_pools_two_vaults() {
    let pool = plain_pool();
    assert_eq!(
        pool.trade_direction(&pool_key(9), &pool_key(6)),
        Err(ErrorCode::InvalidVault)
    );
    assert_eq!(
        pool.trade_direction(&pool_key(5), &pool_key(9)),
        Err(ErrorCode::InvalidVault)
    );
    assert_eq!(
        pool.trade_direction(&pool_key(9), &pool_key(9)),
        Err(ErrorCode::InvalidVault)
    );
    assert_eq!(
        pool.trade_direction(&pool_key(5), &pool_key(5)),
        Err(ErrorCode::SameVault)
    );
    assert_eq!(
        pool.trade_direction(&pool_key(6), &pool_key(6)),
        Err(ErrorCode::SameVault)
    );
}
