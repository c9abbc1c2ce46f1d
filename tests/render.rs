use rtlola_ffi::number::{format_float, format_value, NumberText, DEFAULT_THRESHOLD, NEGLIGIBLE_LIMIT};
use rtlola_ffi::timing::{format_timestamp, resolve_timestamp};
use rtlola_ffi::value::TypedValue;

fn show(t: &NumberText) -> String {
    match t {
        NumberText::Scientific(b) => format!("{:.6e}", f64::from_bits(*b)),
        NumberText::Negligible => format!("{:.1}", 0.0),
        NumberText::Fixed(b) => format!("{:.6}", f64::from_bits(*b)),
        NumberText::Plain(s) => s.clone(),
    }
}

#[test]
fn threshold_constants_are_the_documented_doubles() {
    assert_eq!(DEFAULT_THRESHOLD, 1e-6f64.to_bits());
    assert_eq!(NEGLIGIBLE_LIMIT, 1e-10f64.to_bits());
}

#[test]
fn small_value_goes_to_scientific_notation() {
    let t = format_float(5e-7f64.to_bits(), DEFAULT_THRESHOLD);
    assert!(matches!(t, NumberText::Scientific(_)));
    assert_eq!(show(&t), "5.000000e-7");
    assert!(matches!(format_float((-5e-7f64).to_bits(), DEFAULT_THRESHOLD), NumberText::Scientific(_)));
}

#[test]
fn negligible_value_reads_as_zero() {
    let t = format_float(5e-11f64.to_bits(), DEFAULT_THRESHOLD);
    assert_eq!(show(&t), "0.0");
    assert!(matches!(format_float(1e-10f64.to_bits(), DEFAULT_THRESHOLD), NumberText::Negligible));
    assert!(matches!(format_float(0.0f64.to_bits(), DEFAULT_THRESHOLD), NumberText::Negligible));
    assert!(matches!(format_float((-0.0f64).to_bits(), DEFAULT_THRESHOLD), NumberText::Negligible));
}

#[test]
fn ordinary_value_goes_to_fixed_point() {
    let t = format_float(1.234567f64.to_bits(), DEFAULT_THRESHOLD);
    assert_eq!(show(&t), "1.234567");
    assert!(matches!(format_float(1e-6f64.to_bits(), DEFAULT_THRESHOLD), NumberText::Fixed(_)));
}

#[test]
fn formatted_text_stays_in_its_bucket() {
    for f in [5e-7f64, 5e-11, 1.234567] {
        let first = show(&format_float(f.to_bits(), DEFAULT_THRESHOLD));
        let again: f64 = first.parse().unwrap();
        assert_eq!(show(&format_float(again.to_bits(), DEFAULT_THRESHOLD)), first);
    }
}

#[test]
fn negative_threshold_acts_by_magnitude() {
    let t = format_float(5e-4f64.to_bits(), (-1e-3f64).to_bits());
    assert!(matches!(t, NumberText::Scientific(_)));
}

#[test]
fn nan_threshold_sends_nothing_to_scientific() {
    let t = format_float(5e-7f64.to_bits(), f64::NAN.to_bits());
    assert!(matches!(t, NumberText::Fixed(_)));
}

#[test]
fn non_float_values_use_natural_text() {
    assert_eq!(show(&format_value(&TypedValue::Unsigned(0), DEFAULT_THRESHOLD)), "0");
    assert_eq!(show(&format_value(&TypedValue::Unsigned(u64::MAX), DEFAULT_THRESHOLD)), "18446744073709551615");
    assert_eq!(show(&format_value(&TypedValue::Signed(-17), DEFAULT_THRESHOLD)), "-17");
    assert_eq!(show(&format_value(&TypedValue::Signed(i64::MIN), DEFAULT_THRESHOLD)), "-9223372036854775808");
    assert_eq!(show(&format_value(&TypedValue::Bool(true), DEFAULT_THRESHOLD)), "true");
    assert_eq!(show(&format_value(&TypedValue::Bool(false), DEFAULT_THRESHOLD)), "false");
    assert_eq!(show(&format_value(&TypedValue::Str("abc".to_string()), DEFAULT_THRESHOLD)), "abc");
}

#[test]
fn timestamp_has_six_fractional_digits() {
    assert_eq!(format_timestamp(0), "[0.000000s]");
    assert_eq!(format_timestamp(1_500_000_000), "[1.500000s]");
    assert_eq!(format_timestamp(12_000_001_000), "[12.000001s]");
}

#[test]
fn timestamp_rounds_half_up_to_microseconds() {
    assert_eq!(format_timestamp(1_234_567_890), "[1.234568s]");
    assert_eq!(format_timestamp(499), "[0.000000s]");
    assert_eq!(format_timestamp(500), "[0.000001s]");
    assert_eq!(format_timestamp(999_999_500), "[1.000000s]");
}

#[test]
fn explicit_time_wins_over_elapsed() {
    assert_eq!(resolve_timestamp(Some(7), 99), 7);
    assert_eq!(resolve_timestamp(Some(0), 99), 0);
    assert_eq!(resolve_timestamp(None, 99), 99);
}
