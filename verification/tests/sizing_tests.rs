//! The sizing resolver: clamp behaviour, fixed amounts, fit and fill
//! policies, and builder-time validation.

use uxui::sizing::{Dimension, HorizontalAlignment, Length, Sizing, VerticalAlignment};
use uxui::button::Button;
use uxui::error::ErrorKind;
use uxui::geometry::Size;

#[test]
fn fixed_dimension_is_authoritative_for_available_size() {
    // min == max == p: the clamp is a no-op and the fixed amount wins,
    // whatever is available.
    let sizing = Sizing::new(Dimension::fixed(120), Dimension::fixed(48));
    for avail in [-5_000i64, 0, 7, 120, 1_000_000] {
        let out = sizing.calc_available_size(Size::new(avail, avail));
        assert_eq!(out.width, 120);
        assert_eq!(out.height, 48);
    }
}

#[test]
fn fixed_dimension_is_authoritative_for_final_size() {
    let sizing = Sizing::new(Dimension::fixed(120), Dimension::fixed(48));
    for avail in [-5_000i64, 0, 7, 1_000_000] {
        for required in [-3i64, 0, 119, 121, 90_000] {
            let out = sizing.calc_final_size(Size::new(avail, avail), Size::new(required, required));
            assert_eq!(out.width, 120);
            assert_eq!(out.height, 48);
        }
    }
}

#[test]
fn fit_final_size_clamps_required_and_ignores_available() {
    let sizing = Sizing::new(
        Dimension::new(Length::Fit, 10, 100),
        Dimension::new(Length::Fit, 10, 100),
    );
    let a1 = Size::new(55, 55);
    let a2 = Size::new(-400, 999_999);
    // Below the clamp, inside it, above it: always clamp(required).
    for (required, expect) in [(3i64, 10i64), (42, 42), (400, 100)] {
        let r1 = sizing.calc_final_size(a1, Size::new(required, required));
        let r2 = sizing.calc_final_size(a2, Size::new(required, required));
        assert_eq!(r1.width, expect);
        assert_eq!(r1.height, expect);
        assert_eq!(r1, r2);
    }
}

#[test]
fn fill_final_size_clamps_available_and_ignores_required() {
    let sizing = Sizing::new(
        Dimension::new(Length::Fill, 10, 100),
        Dimension::new(Length::Fill, 10, 100),
    );
    let out = sizing.calc_final_size(Size::new(400, 5), Size::new(7, 7));
    assert_eq!(out.width, 100);
    assert_eq!(out.height, 10);
}

#[test]
fn available_size_clamps_for_fit_and_fill() {
    let sizing = Sizing::new(
        Dimension::new(Length::Fit, 20, 80),
        Dimension::new(Length::Fill, 20, 80),
    );
    let out = sizing.calc_available_size(Size::new(300, 5));
    assert_eq!(out.width, 80);
    assert_eq!(out.height, 20);
}

#[test]
fn build_rejects_min_above_max() {
    let sizing = Sizing::new(Dimension::new(Length::Fit, 50, 10), Dimension::fit());
    let built = Button::builder().with_sizing(sizing).build();
    assert_eq!(built.unwrap_err(), ErrorKind::InvalidSizing);
}

#[test]
fn build_rejects_negative_fixed() {
    let sizing = Sizing::new(Dimension::fixed(-4), Dimension::fit());
    let built = Button::builder().with_sizing(sizing).build();
    assert_eq!(built.unwrap_err(), ErrorKind::InvalidSizing);
}

#[test]
fn build_accepts_valid_sizing() {
    let sizing = Sizing::new(Dimension::fixed(4), Dimension::new(Length::Fill, 0, 300));
    let built = Button::builder().with_sizing(sizing).build();
    assert!(built.is_ok());
}

#[test]
fn defaults_are_fit_and_left_top() {
    let s = Sizing::default();
    assert_eq!(s.width.desired, Length::Fit);
    assert_eq!(s.height.desired, Length::Fit);
    assert_eq!(HorizontalAlignment::default(), HorizontalAlignment::Left);
    assert_eq!(VerticalAlignment::default(), VerticalAlignment::Top);
}

#[test]
fn error_kinds_describe_themselves() {
    assert_eq!(ErrorKind::InvalidSizing.describe(), "invalid sizing");
    assert_eq!(ErrorKind::NotMeasured.describe(), "not measured");
    assert_eq!(ErrorKind::NoMatch.describe(), "no match");
}
