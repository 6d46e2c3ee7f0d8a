use compositor::modes::{calculate_position, OffsetMode};
use compositor::num::Fraction;

#[test]
fn pixel_offset_centers_element() {
    // the given point is the centre of a 100x50 element
    let pos = calculate_position(OffsetMode::Pixel(200, 100), (100, 50), (800, 600));
    assert_eq!(pos, (150, 75));
}

#[test]
fn pixel_offset_may_go_negative() {
    let pos = calculate_position(OffsetMode::Pixel(0, 0), (100, 50), (800, 600));
    assert_eq!(pos, (-50, -25));
}

#[test]
fn percent_offset_midpoint() {
    let half = Fraction { num: 50, den: 1 };
    let pos = calculate_position(OffsetMode::Percent(half, half), (100, 100), (800, 600));
    assert_eq!(pos, (350, 250));
}

#[test]
fn percent_offset_is_not_clamped() {
    let broad = Fraction { num: 150, den: 1 };
    let pos = calculate_position(OffsetMode::Percent(broad, broad), (0, 0), (100, 100));
    assert_eq!(pos, (150, 150));
}

#[test]
fn percent_offset_fractional_truncates() {
    // 33.5% of 200 = 67, minus half of a 10-wide element = 62
    let p = Fraction { num: 335, den: 10 };
    let q = Fraction { num: 0, den: 1 };
    let pos = calculate_position(OffsetMode::Percent(p, q), (10, 10), (200, 200));
    assert_eq!(pos, (62, -5));
}

#[test]
fn center_offset_floors_spare_room() {
    let pos = calculate_position(OffsetMode::Center, (50, 50), (200, 100));
    assert_eq!(pos, (75, 25));
}

#[test]
fn center_offset_odd_spare_room() {
    let pos = calculate_position(OffsetMode::Center, (2, 2), (5, 5));
    assert_eq!(pos, (1, 1));
}

#[test]
fn center_offset_oversized_element_stays_at_zero() {
    // larger than the canvas on one axis: that coordinate is 0, not negative
    let pos = calculate_position(OffsetMode::Center, (300, 50), (200, 100));
    assert_eq!(pos, (0, 25));
    let pos = calculate_position(OffsetMode::Center, (300, 120), (200, 100));
    assert_eq!(pos, (0, 0));
}
