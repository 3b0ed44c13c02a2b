use veerbal_cpmm::curve::constant_product::{
    swap_base_input_without_fees, swap_base_output_without_fees,
};
use veerbal_cpmm::curve::guard::check_constant_product;
use veerbal_cpmm::error::ErrorCode;
use veerbal_cpmm::math::isqrt;

#[test]
fn test_basic_swap() {
    // Pool: 1000/1000, swap 100 in
    println!("[[[Testing Swap Functionality]]]]]");
    // Expected: (100 * 1000) / (1000 + 100) = 90
    assert_eq!(swap_base_input_without_fees(100, 1000, 1000), Some(90));
}

#[test]
fn exact_input_rounds_down() {
    // 7 * 29 / (13 + 7) = 203 / 20 = 10.15
    assert_eq!(swap_base_input_without_fees(7, 13, 29), Some(10));
    // 1 * 3 / (10^18 + 1) rounds down to nothing
    assert_eq!(
        swap_base_input_without_fees(1, 1_000_000_000_000_000_000, 3),
        Some(0)
    );
    assert_eq!(swap_base_input_without_fees(0, 1000, 1000), Some(0));
    assert_eq!(swap_base_input_without_fees(5, 0, 1000), Some(1000));
}

#[test]
fn exact_input_fails_on_zero_divisor() {
    assert_eq!(swap_base_input_without_fees(0, 0, 1000), None);
    assert_eq!(swap_base_input_without_fees(0, 0, 0), None);
}

#[test]
fn exact_input_fails_on_overflow() {
    // the product does not fit
    assert_eq!(swap_base_input_without_fees(u128::MAX, 1, 2), None);
    // the sum does not fit
    assert_eq!(swap_base_input_without_fees(1, u128::MAX, 1), None);
    // both just fit
    assert_eq!(
        swap_base_input_without_fees(u128::MAX - 1, 1, 1),
        Some(0)
    );
}

#[test]
fn exact_output_rounds_up() {
    // 1000 * 90 / (1000 - 90) = 98.9
    assert_eq!(swap_base_output_without_fees(90, 1000, 1000), Some(99));
    // 13 * 10 / (29 - 10) = 6.84
    assert_eq!(swap_base_output_without_fees(10, 13, 29), Some(7));
    // an exact quotient is not rounded: 1000 * 500 / 500
    assert_eq!(swap_base_output_without_fees(500, 1000, 1000), Some(1000));
    assert_eq!(swap_base_output_without_fees(0, 1000, 1000), Some(0));
}

#[test]
fn exact_output_never_drains_the_output_side() {
    assert_eq!(swap_base_output_without_fees(1000, 1000, 1000), None);
    assert_eq!(swap_base_output_without_fees(1001, 1000, 1000), None);
    assert_eq!(swap_base_output_without_fees(0, 1000, 0), None);
    assert_eq!(
        swap_base_output_without_fees(999, 1000, 1000),
        Some(999_000)
    );
}

#[test]
fn exact_output_fails_on_overflow() {
    assert_eq!(swap_base_output_without_fees(2, u128::MAX, 10), None);
}

#[test]
fn round_trip_never_favors_the_trader() {
    let cases: [(u128, u128, u128); 5] = [
        (100, 1000, 1000),
        (7, 13, 29),
        (1, 1_000_000_000_000_000_000, 3),
        (u64::MAX as u128, u64::MAX as u128, u64::MAX as u128),
        (123_456_789, 987_654_321, 555_555_555),
    ];
    for (input, reserve_in, reserve_out) in cases {
        let output = swap_base_input_without_fees(input, reserve_in, reserve_out).unwrap();
        assert!(output < reserve_out);
        let back = swap_base_output_without_fees(output, reserve_in, reserve_out).unwrap();
        assert!(back <= input);
    }
    assert_eq!(swap_base_output_without_fees(90, 1000, 1000), Some(99));
}

#[test]
fn round_trip_can_overflow_beyond_64_bits() {
    let input: u128 = 1 << 60;
    let reserve_out: u128 = (1 << 68) - 1;
    let reserve_in: u128 = u128::MAX - (1 << 61) + 1;
    assert_eq!(
        swap_base_input_without_fees(input, reserve_in, reserve_out),
        Some(1)
    );
    assert_eq!(
        swap_base_output_without_fees(1, reserve_in, reserve_out),
        None
    );
}

#[test]
fn guard_accepts_a_product_that_does_not_decrease() {
    assert_eq!(check_constant_product(1000, 1000, 1100, 910), Ok(()));
    assert_eq!(check_constant_product(1000, 1000, 1000, 1000), Ok(()));
    assert_eq!(check_constant_product(0, 5, 0, 0), Ok(()));
}

#[test]
fn guard_rejects_a_product_that_decreases() {
    assert_eq!(
        check_constant_product(1000, 1000, 1100, 909),
        Err(ErrorCode::ConstantProductInvariant)
    );
    assert_eq!(
        check_constant_product(10, 10, 9, 10),
        Err(ErrorCode::ConstantProductInvariant)
    );
}

#[test]
fn guard_reports_overflow() {
    assert_eq!(
        check_constant_product(u128::MAX, 2, 1, 1),
        Err(ErrorCode::MathOverflow)
    );
    assert_eq!(
        check_constant_product(1, 1, u128::MAX, 2),
        Err(ErrorCode::MathOverflow)
    );
}

#[test]
fn isqrt_rounds_down() {
    assert_eq!(isqrt(0), 0);
    assert_eq!(isqrt(1), 1);
    assert_eq!(isqrt(2), 1);
    assert_eq!(isqrt(3), 1);
    assert_eq!(isqrt(4), 2);
    assert_eq!(isqrt(99), 9);
    assert_eq!(isqrt(100), 10);
    assert_eq!(isqrt(100_000_000), 10_000);
    assert_eq!(isqrt(100_000_001), 10_000);
    assert_eq!(isqrt(99_999_999), 9_999);
    assert_eq!(isqrt(u128::MAX), u64::MAX);
    assert_eq!(isqrt((u64::MAX as u128) * (u64::MAX as u128)), u64::MAX);
    assert_eq!(
        isqrt((u64::MAX as u128) * (u64::MAX as u128) - 1),
        u64::MAX - 1
    );
}
