//! Rectangle arithmetic: containment, intersection and centering.

use uxui::geometry::{Point, Rect, Size};

#[test]
fn contains_includes_all_four_edges() {
    let r = Rect::new(Point::new(10, 10), Size::new(20, 20));
    assert!(r.contains(Point::new(10, 10)));
    assert!(r.contains(Point::new(30, 30)));
    assert!(r.contains(Point::new(20, 10)));
    assert!(!r.contains(Point::new(9, 20)));
    assert!(!r.contains(Point::new(20, 31)));
}

#[test]
fn intersects_excludes_shared_edges() {
    let a = Rect::new(Point::new(0, 0), Size::new(10, 10));
    let touching = Rect::new(Point::new(10, 0), Size::new(10, 10));
    let overlapping = Rect::new(Point::new(9, 9), Size::new(5, 5));
    let apart = Rect::new(Point::new(50, 50), Size::new(5, 5));
    assert!(!a.intersects(touching));
    assert!(a.intersects(overlapping));
    assert!(!a.intersects(apart));
}

#[test]
fn align_center_splits_leftover_space() {
    let outer = Rect::new(Point::new(10, 10), Size::new(100, 50));
    let inner = outer.align_center(Size::new(40, 20));
    assert_eq!(inner, Rect::new(Point::new(40, 25), Size::new(40, 20)));
}

#[test]
fn align_center_overhangs_symmetrically_when_larger() {
    let outer = Rect::new(Point::new(0, 0), Size::new(10, 10));
    let inner = outer.align_center(Size::new(20, 14));
    assert_eq!(inner.pos, Point::new(-5, -2));
}

#[test]
fn center_halves_toward_zero() {
    let r = Rect::new(Point::new(0, 0), Size::new(11, 7));
    assert_eq!(r.center(), Point::new(5, 3));
}

#[test]
fn relative_to_subtracts_origins() {
    let p = Point::new(10, 20);
    assert_eq!(p.relative_to(Point::new(4, 25)), Point::new(6, -5));
}
