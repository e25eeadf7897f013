//! Text bounding boxes, string properties, observable vectors and the
//! delegate plumbing.

use std::cell::Cell;
use std::rc::Rc;
use uxui::binding::{Delegate, Event, Property};
use uxui::geometry::{Point, Size};
use uxui::observable::ObservableVec;
use uxui::text::TextFormatter;
use uxui::{BindableString, StringProperty};

#[test]
fn bounding_box_is_widest_line_by_line_count() {
    // Two lines of advances: widths 30 and 45, line height 16.
    let lines = vec![vec![10i64, 10, 10], vec![15, 15, 15]];
    let size = TextFormatter::calculate_bounding_box(&lines, 16);
    assert_eq!(size, Size::new(45, 32));
}

#[test]
fn bounding_box_of_empty_text_is_empty() {
    let lines: Vec<Vec<i64>> = Vec::new();
    let size = TextFormatter::calculate_bounding_box(&lines, 16);
    assert_eq!(size, Size::new(0, 0));
}

#[test]
fn bounding_box_counts_blank_lines() {
    let lines = vec![vec![], vec![7i64], vec![]];
    let size = TextFormatter::calculate_bounding_box(&lines, 10);
    assert_eq!(size, Size::new(7, 30));
}

#[test]
fn string_property_binding_sees_the_value() {
    let property = StringProperty { value: String::from("hello") };
    let binding = property.create_binding();
    assert_eq!(binding.value, "hello");
    let fresh = StringProperty::new();
    assert_eq!(fresh.create_binding().value, "");
}

#[test]
fn bindable_string_defaults_to_empty_static() {
    match BindableString::default() {
        BindableString::Static(s) => assert_eq!(s, ""),
        BindableString::Binding(_) => panic!("default must be static"),
    }
}

#[test]
fn observable_vec_pushes_and_removes() {
    let mut v: ObservableVec<u32> = ObservableVec::new();
    v.push(5);
    v.push(7);
    v.push(9);
    assert_eq!(v.remove(1), 7);
    assert_eq!(v.vec, vec![5, 9]);
}

#[test]
fn delegate_invokes_its_function() {
    let delegate = Delegate::new(|x: u32| x + 1);
    assert_eq!(delegate.invoke(41), 42);
}

#[test]
fn event_fans_out_to_subscribers() {
    let hits = Rc::new(Cell::new(0u32));
    let counter = hits.clone();
    let bump = move |n: u32| counter.set(counter.get() + n);
    let mut event = Event::new();
    event.subscribe(Delegate::new(bump.clone()));
    event.subscribe(Delegate::new(bump));
    event.invoke(&10);
    assert_eq!(hits.get(), 20);
}

#[test]
fn property_set_announces_the_new_value() {
    let seen = Rc::new(Cell::new(0u32));
    let observer = seen.clone();
    let mut property = Property::new(1u32);
    let binding = property.bind(Delegate::new(move |n: u32| observer.set(n)));
    assert_eq!(binding.value, 1);
    property.set(8);
    assert_eq!(property.value, 8);
    assert_eq!(seen.get(), 8);
}

#[test]
fn wheel_delta_is_a_point() {
    let delta: uxui::geometry::Delta = Point::new(0, -1);
    assert_eq!(delta.y, -1);
}
