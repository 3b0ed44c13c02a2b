use veerbal_cpmm::curve::fees::{
    creator_fee, fund_fee, gross_amount, protocol_fee, trade_fee, FEE_RATE_DENOMINATOR,
};

#[test]
fn denominator_is_one_million() {
    assert_eq!(FEE_RATE_DENOMINATOR, 1_000_000);
}

#[test]
fn trade_fee_rounds_up() {
    // 1% of 100
    assert_eq!(trade_fee(100, 10_000), Some(1));
    // 0.25% of 10_000
    assert_eq!(trade_fee(10_000, 2500), Some(25));
    // 0.25% of 1 is a fraction, and rounds up to 1
    assert_eq!(trade_fee(1, 2500), Some(1));
    assert_eq!(trade_fee(401, 2500), Some(2));
    assert_eq!(trade_fee(0, 2500), Some(0));
    assert_eq!(trade_fee(100, 0), Some(0));
    assert_eq!(trade_fee(100, 1_000_000), Some(100));
}

#[test]
fn creator_fee_rounds_up() {
    assert_eq!(creator_fee(10_000, 500), Some(5));
    assert_eq!(creator_fee(10_001, 500), Some(6));
    assert_eq!(creator_fee(1, 1), Some(1));
    assert_eq!(creator_fee(0, 500), Some(0));
}

#[test]
fn protocol_and_fund_fee_round_down() {
    assert_eq!(protocol_fee(25, 120_000), Some(3));
    assert_eq!(fund_fee(25, 40_000), Some(1));
    assert_eq!(protocol_fee(1, 999_999), Some(0));
    assert_eq!(fund_fee(1_000_000, 1), Some(1));
    assert_eq!(fund_fee(999_999, 1), Some(0));
    assert_eq!(protocol_fee(0, 120_000), Some(0));
}

#[test]
fn fees_fail_on_overflow() {
    assert_eq!(trade_fee(u128::MAX, 2), None);
    assert_eq!(creator_fee(u128::MAX, 2), None);
    assert_eq!(protocol_fee(u128::MAX, 2), None);
    assert_eq!(fund_fee(u128::MAX, 2), None);
    // the product fits, the rounding term does not
    assert_eq!(trade_fee(u128::MAX, 1), None);
    assert_eq!(
        protocol_fee(u128::MAX, 1),
        Some(u128::MAX / 1_000_000)
    );
    assert_eq!(
        trade_fee(u128::MAX - 999_999, 1),
        Some((u128::MAX - 999_999) / 1_000_000 + 1)
    );
}

#[test]
fn protocol_and_fund_share_stay_within_the_trade_fee() {
    let rates: [(u64, u64); 4] = [(120_000, 40_000), (999_998, 1), (0, 999_999), (500_000, 499_999)];
    let fees: [u128; 5] = [0, 1, 25, 999_999, u64::MAX as u128];
    for (protocol_rate, fund_rate) in rates {
        for fee in fees {
            let protocol = protocol_fee(fee, protocol_rate).unwrap();
            let fund = fund_fee(fee, fund_rate).unwrap();
            assert!(protocol + fund <= fee);
        }
    }
    assert_eq!(protocol_fee(25, 999_998), Some(24));
    assert_eq!(fund_fee(25, 1), Some(0));
}

#[test]
fn gross_amount_rounds_up_and_inverts_the_trade_fee() {
    // 9592 / (1 - 0.0025) = 9616.04
    assert_eq!(gross_amount(9592, 2500), Some(9617));
    assert_eq!(trade_fee(9617, 2500), Some(25));
    assert_eq!(gross_amount(100, 0), Some(100));
    assert_eq!(gross_amount(0, 2500), Some(0));
    assert_eq!(gross_amount(1, 999_999), Some(1_000_000));
    let nets: [u128; 5] = [1, 99, 9_592, 1_000_003, u64::MAX as u128];
    let rates: [u64; 4] = [0, 1, 2500, 999_999];
    for net in nets {
        for rate in rates {
            let gross = gross_amount(net, rate).unwrap();
            let fee = trade_fee(gross, rate).unwrap();
            assert_eq!(gross - fee, net);
        }
    }
}

#[test]
fn gross_amount_fails_where_the_rate_leaves_nothing() {
    assert_eq!(gross_amount(100, 1_000_000), None);
    assert_eq!(gross_amount(100, 1_000_001), None);
    assert_eq!(gross_amount(100, u64::MAX), None);
    assert_eq!(gross_amount(u128::MAX, 0), None);
}
