use container_health::percent::{render_tenths, MAX_NUMER};
use container_health::Percent;

#[test]
fn percent_needs_a_positive_denominator() {
    assert!(Percent::new(1, 0).is_none());
    assert!(Percent::new(0, 0).is_none());
    assert!(Percent::new(0, 1).is_some());
}

#[test]
fn percent_needs_a_numerator_in_range() {
    assert!(Percent::new(MAX_NUMER, 1).is_some());
    assert!(Percent::new(MAX_NUMER + 1, 1).is_none());
    assert!(Percent::new(u128::MAX, u64::MAX).is_none());
}

#[test]
fn percent_keeps_its_parts() {
    let p = Percent::new(355, 113).unwrap();
    assert_eq!(p.numerator(), 355);
    assert_eq!(p.denominator(), 113);
    assert_eq!(Percent::whole(42).numerator(), 42);
    assert_eq!(Percent::whole(42).denominator(), 1);
    assert_eq!(Percent::zero().numerator(), 0);
    assert_eq!(Percent::zero().denominator(), 1);
}

#[test]
fn percent_exceeds_is_strict_and_exact() {
    let eighty = Percent::new(8000, 100).unwrap();
    assert!(!eighty.exceeds(80));
    assert!(eighty.exceeds(79));
    let just_above = Percent::new(8_000_000_001, 100_000_000).unwrap();
    assert!(just_above.exceeds(80));
    assert!(!just_above.exceeds(81));
    let just_below = Percent::new(7_999_999_999, 100_000_000).unwrap();
    assert!(!just_below.exceeds(80));
}

#[test]
fn percent_exceeds_with_largest_parts() {
    let p = Percent::new(MAX_NUMER, u64::MAX).unwrap();
    assert!(p.exceeds(0));
    assert!(!p.exceeds(u64::MAX));
}

#[test]
fn percent_text_has_one_digit_after_the_point() {
    assert_eq!(Percent::zero().to_string(), "0.0");
    assert_eq!(Percent::whole(81).to_string(), "81.0");
    assert_eq!(Percent::new(1, 3).unwrap().to_string(), "0.3");
    assert_eq!(Percent::new(2, 3).unwrap().to_string(), "0.7");
    assert_eq!(Percent::new(999, 10).unwrap().to_string(), "99.9");
    assert_eq!(Percent::new(9996, 100).unwrap().to_string(), "100.0");
}

#[test]
fn percent_text_rounds_ties_to_even() {
    assert_eq!(Percent::new(25, 100).unwrap().to_string(), "0.2");
    assert_eq!(Percent::new(35, 100).unwrap().to_string(), "0.4");
    assert_eq!(Percent::new(5, 100).unwrap().to_string(), "0.0");
    assert_eq!(Percent::new(15, 100).unwrap().to_string(), "0.2");
    assert_eq!(Percent::new(1265, 100).unwrap().to_string(), "12.6");
}

#[test]
fn percent_tenths_of_ratios() {
    assert_eq!(Percent::new(1, 8).unwrap().tenths(), 1);
    assert_eq!(Percent::new(3, 8).unwrap().tenths(), 4);
    assert_eq!(Percent::new(1, 4).unwrap().tenths(), 2);
    assert_eq!(Percent::new(3, 4).unwrap().tenths(), 8);
    assert_eq!(Percent::new(1536, 1024).unwrap().tenths(), 15);
    assert_eq!(Percent::new(MAX_NUMER, 1).unwrap().tenths(), MAX_NUMER * 10);
}

#[test]
fn percent_text_agrees_with_floating_point_on_dyadic_ratios() {
    // A ratio over a power of two is exact in floating point, ties included.
    let mut numer: u128 = 0;
    while numer < 5000 {
        for shift in [0u32, 1, 2, 3, 4, 7, 10] {
            let denom: u64 = 1 << shift;
            let exact = Percent::new(numer, denom).unwrap().to_string();
            let float = format!("{:.1}", numer as f64 / denom as f64);
            assert_eq!(exact, float, "{} / {}", numer, denom);
        }
        numer += 1;
    }
}

#[test]
fn render_tenths_splits_at_the_last_digit() {
    assert_eq!(render_tenths(0), "0.0");
    assert_eq!(render_tenths(7), "0.7");
    assert_eq!(render_tenths(10), "1.0");
    assert_eq!(render_tenths(12345), "1234.5");
    assert_eq!(render_tenths(u128::MAX), "34028236692093846346337460743176821145.5");
}
