use wrapnum::wrap_num::at_mut;
use wrapnum::{RangeError, WrapNum};

#[test]
fn valid_triple_is_accepted() {
    let n = WrapNum::try_new_min_max(7i32, -3, 7).unwrap();
    assert_eq!(n.value, 7);
    assert_eq!(n.min, -3);
    assert_eq!(n.max, 7);
    let low = WrapNum::try_new_min_max(-3i32, -3, 7).unwrap();
    assert_eq!(low.value, -3);
}

#[test]
fn value_above_max_is_refused() {
    assert_eq!(WrapNum::try_new_min_max(8u8, 2, 7), Err(RangeError::AboveMax));
    assert_eq!(WrapNum::try_new_max(8u8, 7), Err(RangeError::AboveMax));
}

#[test]
fn value_below_min_is_refused() {
    assert_eq!(WrapNum::try_new_min_max(1u8, 2, 7), Err(RangeError::BelowMin));
}

#[test]
fn above_max_is_reported_before_below_min() {
    assert_eq!(WrapNum::try_new_min_max(5i8, 6, 4), Err(RangeError::AboveMax));
}

#[test]
fn try_new_max_sets_zero_min() {
    let n = WrapNum::try_new_max(3u64, 9).unwrap();
    assert!(n.total_eq(&WrapNum::new_min_max(3, 0, 9)));
}

#[test]
fn add_scalar_follows_the_wrap_formula() {
    let a = WrapNum::new_min_max(8i32, 3, 10);
    let r = a + 20;
    assert_eq!(r.value, (8 + 20 - 3) % 7 + 3);
    assert_eq!(r.min, 3);
    assert_eq!(r.max, 10);
}

#[test]
fn add_from_max_normalizes_into_half_open_window() {
    let a = WrapNum::new_min_max(10i32, 3, 10);
    assert_eq!((a + 0).value, 3);
}

#[test]
fn add_near_type_ceiling_does_not_overflow() {
    let a = WrapNum::new_min_max(254u8, 0, 255);
    assert_eq!((a + 250u8).value, 249);
}

#[test]
fn add_wrap_num_keeps_left_window() {
    let a = WrapNum::new_min_max(4i32, 0, 5);
    let b = WrapNum::new_min_max(3i32, 0, 100);
    let r = a + b;
    assert_eq!(r.value, 2);
    assert_eq!(r.max, 5);
}

#[test]
fn round_trip_through_wrap_num() {
    for bare in [0u32, 1, 420, u32::MAX] {
        let w: WrapNum<u32> = WrapNum::from(bare);
        assert_eq!(u32::from(w), bare);
    }
    let w: WrapNum<i64> = WrapNum::from(-9);
    assert_eq!(i64::from(w), -9);
    assert_eq!(w.min, 0);
    assert_eq!(w.max, i64::MAX);
}

#[test]
fn wrapping_twice_equals_once() {
    let once = WrapNum::wrapped_result(123i32, 5, 12);
    assert_eq!(once, 11);
    assert_eq!(WrapNum::wrapped_result(once, 5, 12), once);
}

#[test]
fn wrapped_result_is_euclidean_for_signed() {
    assert_eq!(WrapNum::wrapped_result(-3i32, 0, 5), 2);
    assert_eq!(WrapNum::wrapped_result(-7i32, -5, 5), 3);
}

#[test]
fn degenerate_width_overflow_window_is_reported() {
    let n = WrapNum::new_min_max(0i8, -100, 100);
    assert!(!n.has_window());
    let empty = WrapNum::new(0u8);
    assert!(!empty.has_window());
    assert!(WrapNum::new(1u8).has_window());
}

#[test]
fn twelve_steps_close_a_month_cycle() {
    let mut m = WrapNum::new(11u8);
    for _ in 0..11 {
        m += 1;
    }
    assert_eq!(m.value, 0);
    m += 1;
    assert_eq!(m.value, 1);
}

#[test]
fn three_steps_in_a_two_wide_window() {
    let mut n = WrapNum::new_min_max(5u32, 5, 7);
    n += 3;
    assert_eq!(n.value, 6);
}

#[test]
fn index_with_zero_value() {
    let seq = vec![10, 9, 8, 7, 6, 5, 4, 3, 2, 1];
    let i = WrapNum::new(5u16);
    assert_eq!(seq[i], 10);
    let j = WrapNum::new_min_max(9u16, 0, 10);
    assert_eq!(seq[j], 1);
}

#[test]
fn value_equality_ignores_window() {
    let a = WrapNum::new_min_max(4i32, 0, 5);
    let b = WrapNum::new_min_max(4i32, 1, 50);
    assert_eq!(a, b);
    assert!(!a.total_eq(&b));
    assert!(a.total_eq(&WrapNum::new_min_max(4, 0, 5)));
    assert!(a == 4);
    assert!(a != 5);
}

#[test]
fn zero_minus_one_wraps_to_top() {
    let mut n = WrapNum::new(50i32);
    n -= 1;
    assert_eq!(n.value, 49);
    let m = WrapNum::new(50u8) - 1u8;
    assert_eq!(m.value, 49);
}

#[test]
fn subtraction_over_several_windows() {
    let a = WrapNum::new_min_max(2u32, 0, 5);
    assert_eq!((a - 13u32).value, 4);
    let b = WrapNum::new_min_max(-2i32, -3, 3);
    assert_eq!((b - 20).value, 2);
}

#[test]
fn subtract_wrap_num_keeps_left_window() {
    let a = WrapNum::new_min_max(1i32, 0, 5);
    let b = WrapNum::new_min_max(3i32, 0, 100);
    let r = a - b;
    assert_eq!(r.value, 3);
    assert_eq!(r.max, 5);
}

#[test]
fn signed_window_with_negative_scalar() {
    let mut n = WrapNum::new_min_max(0i16, -4, 4);
    n += -5;
    assert_eq!(n.value, 3);
    n -= -2;
    assert_eq!(n.value, -3);
}

#[test]
fn range_builders() {
    let r = WrapNum::new_range(5i32, 30);
    assert!(r.total_eq(&WrapNum::new_min_max(5, 5, 30)));
    let c = WrapNum::new_range_inclusive(5i32, 30);
    assert!(c.total_eq(&WrapNum::new_min_max(5, 5, 31)));
    let i = WrapNum::new_inclusive(11u8);
    assert_eq!(i.max, 12);
}

#[test]
fn default_spans_the_type() {
    let d: WrapNum<u16> = WrapNum::default();
    assert!(d.total_eq(&WrapNum::new_min_max(0, 0, u16::MAX)));
}

#[test]
fn assign_on_empty_window_keeps_value() {
    let mut n = WrapNum::new(0u8);
    n += 3;
    assert_eq!(n.value, 0);
    n -= 3;
    assert_eq!(n.value, 0);
}

#[test]
fn renders_value_only() {
    let n = WrapNum::new_min_max(-45i32, -100, 100);
    assert_eq!(n.to_string(), "-45");
    assert_eq!(WrapNum::new(9u8).to_string(), "0");
    assert_eq!(WrapNum::new_min_max(1907u16, 1000, 3000).to_string(), "1907");
}

#[test]
fn renders_type_extremes() {
    let lo: WrapNum<i128> = WrapNum::from(i128::MIN);
    assert_eq!(lo.to_string(), format!("{}", i128::MIN));
    let hi: WrapNum<u128> = WrapNum::from(u128::MAX);
    assert_eq!(hi.to_string(), format!("{}", u128::MAX));
    let small: WrapNum<i8> = WrapNum::from(i8::MIN);
    assert_eq!(small.to_string(), "-128");
}

#[test]
fn write_through_wrap_num_index() {
    let mut tape = vec![0u8; 4];
    let mut cursor = WrapNum::new(4usize);
    cursor -= 1;
    *at_mut(&mut tape, cursor) = 7;
    cursor += 1;
    *at_mut(&mut tape, cursor) += 2;
    assert_eq!(tape, vec![2, 0, 0, 7]);
    assert_eq!(tape[cursor], 2);
}

#[test]
fn try_assign_on_usable_window() {
    let mut n = WrapNum::new_min_max(5u32, 5, 7);
    assert_eq!(n.try_add_assign(3), Ok(()));
    assert_eq!(n.value, 6);
    assert_eq!(n.try_sub_assign(5), Ok(()));
    assert_eq!(n.value, 5);
}

#[test]
fn try_assign_reports_bad_window() {
    let mut empty = WrapNum::new(0u8);
    assert_eq!(empty.try_add_assign(1), Err(RangeError::BadWindow));
    assert_eq!(empty.value, 0);
    let mut wide = WrapNum::new_min_max(0i8, -100, 100);
    assert_eq!(wide.try_sub_assign(1), Err(RangeError::BadWindow));
    assert_eq!(wide.value, 0);
}
