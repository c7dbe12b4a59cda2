use gridbot::ratio::Ratio;
use gridbot::wide::{mul64, mul_wide, U256};

#[test]
fn mul64_of_largest_values_is_exact() {
    assert_eq!(mul64(u64::MAX, u64::MAX), (u64::MAX as u128) * (u64::MAX as u128));
    assert_eq!(mul64(0, u64::MAX), 0);
}

#[test]
fn mul_wide_of_largest_values_is_exact() {
    // (2^128 - 1)^2 = 2^256 - 2^129 + 1 = (2^128 - 2) * 2^128 + 1
    let r = mul_wide(u128::MAX, u128::MAX);
    assert_eq!(r.hi, u128::MAX - 1);
    assert_eq!(r.lo, 1);
}

#[test]
fn mul_wide_carries_into_upper_half() {
    let r = mul_wide(1u128 << 64, 1u128 << 64);
    assert_eq!(r.hi, 1);
    assert_eq!(r.lo, 0);
    let s = mul_wide(3, 5);
    assert_eq!(s.hi, 0);
    assert_eq!(s.lo, 15);
}

#[test]
fn u256_orders_by_upper_then_lower_half() {
    let a = U256 { hi: 1, lo: 0 };
    let b = U256 { hi: 0, lo: u128::MAX };
    assert!(b.lt(&a));
    assert!(!a.lt(&b));
    assert!(!a.lt(&a));
    assert!(U256 { hi: 1, lo: 2 }.lt(&U256 { hi: 1, lo: 3 }));
}

#[test]
fn ratio_new_refuses_zero_denominator() {
    assert_eq!(Ratio::new(1, 0), None);
    assert_eq!(Ratio::new(3, 4), Some(Ratio { negative: false, num: 3, den: 4 }));
}

#[test]
fn ratio_comparison_is_exact() {
    let third = Ratio { negative: false, num: 1, den: 3 };
    let half = Ratio { negative: false, num: 1, den: 2 };
    assert!(third.less_than(&half));
    assert!(!half.less_than(&third));
    // 2/4 and 1/2 are the same number
    assert!(!Ratio { negative: false, num: 2, den: 4 }.less_than(&half));
    assert!(!half.less_than(&Ratio { negative: false, num: 2, den: 4 }));
    // numbers that differ far below f64 precision
    let a = Ratio { negative: false, num: u64::MAX - 1, den: u64::MAX };
    let b = Ratio { negative: false, num: u64::MAX - 2, den: u64::MAX - 1 };
    assert!(b.less_than(&a));
}

#[test]
fn above_raised_compares_with_base_times_one_plus_range() {
    let base = Ratio { negative: false, num: 1, den: 1 };
    let range = Ratio { negative: false, num: 5, den: 100 };
    assert!(Ratio { negative: false, num: 106, den: 100 }.is_above_raised(&base, &range));
    assert!(!Ratio { negative: false, num: 105, den: 100 }.is_above_raised(&base, &range));
    assert!(!Ratio { negative: false, num: 104, den: 100 }.is_above_raised(&base, &range));
}

#[test]
fn below_lowered_compares_with_base_times_one_minus_range() {
    let base = Ratio { negative: false, num: 2, den: 1 };
    let range = Ratio { negative: false, num: 5, den: 100 };
    // 2 * 0.95 = 1.9
    assert!(Ratio { negative: false, num: 189, den: 100 }.is_below_lowered(&base, &range));
    assert!(!Ratio { negative: false, num: 190, den: 100 }.is_below_lowered(&base, &range));
    // a range of 1 or more never triggers
    assert!(!Ratio { negative: false, num: 0, den: 1 }.is_below_lowered(&base, &Ratio { negative: false, num: 1, den: 1 }));
    assert!(!Ratio { negative: false, num: 0, den: 1 }.is_below_lowered(&base, &Ratio { negative: false, num: 3, den: 2 }));
}

#[test]
fn comparisons_of_extreme_values_do_not_overflow() {
    let big = Ratio { negative: false, num: u64::MAX, den: 1 };
    let tiny = Ratio { negative: false, num: 1, den: u64::MAX };
    let range = Ratio { negative: false, num: u64::MAX, den: u64::MAX };
    assert!(big.is_above_raised(&tiny, &range));
    assert!(!tiny.is_above_raised(&big, &range));
    assert!(tiny.is_below_lowered(&big, &Ratio { negative: false, num: 1, den: u64::MAX }));
    assert!(big.rose_by_at_least(&tiny, u64::MAX - 1));
}

#[test]
fn rose_by_at_least_measures_the_difference() {
    let prev = Ratio { negative: false, num: 100, den: 1 };
    assert!(Ratio { negative: false, num: 600, den: 1 }.rose_by_at_least(&prev, 500));
    assert!(!Ratio { negative: false, num: 599, den: 1 }.rose_by_at_least(&prev, 500));
    assert!(!Ratio { negative: false, num: 50, den: 1 }.rose_by_at_least(&prev, 500));
    // 1200/2 - 100 = 500
    assert!(Ratio { negative: false, num: 1200, den: 2 }.rose_by_at_least(&prev, 500));
}

fn neg(num: u64, den: u64) -> Ratio {
    Ratio { negative: true, num, den }
}

#[test]
fn negative_ratios_order_below_positive_ones() {
    let zero = Ratio { negative: false, num: 0, den: 1 };
    assert!(neg(1, 2).less_than(&zero));
    assert!(neg(1, 2).less_than(&Ratio { negative: false, num: 1, den: 3 }));
    assert!(neg(2, 3).less_than(&neg(1, 2)));
    assert!(!neg(1, 2).less_than(&neg(2, 3)));
    // -0 and 0 are the same number
    assert!(!neg(0, 5).less_than(&zero));
    assert!(!zero.less_than(&neg(0, 5)));
}

#[test]
fn negative_range_lowers_the_buy_mark_and_raises_the_sale_mark() {
    let base = Ratio { negative: false, num: 1, den: 1 };
    let range = neg(10, 100);
    // 1 * (1 - 0.1) = 0.9
    assert!(Ratio { negative: false, num: 91, den: 100 }.is_above_raised(&base, &range));
    assert!(!Ratio { negative: false, num: 90, den: 100 }.is_above_raised(&base, &range));
    // 1 * (1 + 0.1) = 1.1
    assert!(Ratio { negative: false, num: 109, den: 100 }.is_below_lowered(&base, &range));
    assert!(!Ratio { negative: false, num: 110, den: 100 }.is_below_lowered(&base, &range));
    // a range below -1 turns the buy mark negative
    assert!(Ratio { negative: false, num: 0, den: 1 }.is_above_raised(&base, &neg(3, 2)));
}

#[test]
fn negative_bases_and_prices_compare_exactly() {
    let range = Ratio { negative: false, num: 5, den: 100 };
    // -2 * 1.05 = -2.1
    assert!(neg(2, 1).is_above_raised(&neg(2, 1), &range));
    assert!(!neg(22, 10).is_above_raised(&neg(2, 1), &range));
    // -2 * 0.95 = -1.9
    assert!(neg(2, 1).is_below_lowered(&neg(2, 1), &range));
    // -1 - (-3) = 2
    assert!(neg(1, 1).rose_by_at_least(&neg(3, 1), 2));
    assert!(!neg(1, 1).rose_by_at_least(&neg(3, 1), 3));
    assert!(Ratio { negative: false, num: 600, den: 1 }.rose_by_at_least(&neg(0, 1), 500));
}
