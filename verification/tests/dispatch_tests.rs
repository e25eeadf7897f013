//! Input dispatch: preview-then-bubble order, short-circuiting on the
//! first claim, and the cursor containment gate.

use uxui::button::Button;
use uxui::column::Column;
use uxui::component::{Component, ComponentController};
use uxui::geometry::{Point, Rect, Size};
use uxui::input_handling::{
    CursorMovedEvent, ElementState, HandlerFlags, KeyEvent, MouseButton, MouseButtonEvent,
    MouseWheelEvent,
};
use uxui::sizing::Sizing;

fn click() -> MouseButtonEvent {
    MouseButtonEvent::new(MouseButton::Left, ElementState::Pressed)
}

fn claiming(mut flags: HandlerFlags, set: impl Fn(&mut HandlerFlags)) -> HandlerFlags {
    set(&mut flags);
    flags
}

fn button_with(flags: HandlerFlags, w: i64, h: i64) -> Component {
    Button::builder()
        .with_sizing(Sizing::fixed(Size::new(w, h)))
        .with_handlers(flags)
        .build()
        .unwrap()
}

fn laid_out_column(children: Vec<Component>) -> Component {
    let mut col = Column::builder().with_children(children).build().unwrap();
    let measured = col.measure(Size::new(100, 100));
    col.arrange(Rect::new(Point::new(0, 0), measured)).unwrap();
    col
}

fn column_children(c: &Component) -> &Vec<Component> {
    match &c.controller {
        ComponentController::Column(col) => &col.children,
        _ => panic!("not a column"),
    }
}

#[test]
fn unclaimed_events_fall_through() {
    let col = laid_out_column(vec![
        button_with(HandlerFlags::none(), 10, 10),
        button_with(HandlerFlags::none(), 10, 10),
    ]);
    assert!(!col.dispatch_mouse_button(&click()));
    assert!(!col.dispatch_key(&KeyEvent::new(13, ElementState::Pressed)));
    assert!(!col.dispatch_mouse_wheel(&MouseWheelEvent::new(Point::new(0, -3))));
}

#[test]
fn first_claiming_child_short_circuits_dispatch() {
    // The first button claims the mouse button; whatever the second
    // child's handlers would answer, dispatch stops at the first.
    let first = button_with(
        claiming(HandlerFlags::none(), |f| f.mouse_button = true),
        10,
        10,
    );
    let second = button_with(
        claiming(HandlerFlags::none(), |f| f.mouse_button = true),
        10,
        10,
    );
    let col = laid_out_column(vec![first, second]);
    assert!(col.dispatch_mouse_button(&click()));

    // The same tree with an entirely indifferent second child answers
    // identically.
    let first = button_with(
        claiming(HandlerFlags::none(), |f| f.mouse_button = true),
        10,
        10,
    );
    let second = button_with(HandlerFlags::none(), 10, 10);
    let col = laid_out_column(vec![first, second]);
    assert!(col.dispatch_mouse_button(&click()));
}

#[test]
fn cursor_short_circuit_leaves_later_children_untouched() {
    // The first child claims cursor movement, so dispatch never reaches
    // the second: its cursor-in-bounds flag stays in its initial state
    // even for a position inside the column.
    let first = button_with(
        claiming(HandlerFlags::none(), |f| f.cursor_moved_preview = true),
        100,
        10,
    );
    let second = button_with(HandlerFlags::none(), 100, 10);
    let mut col = laid_out_column(vec![first, second]);
    let inside_first = CursorMovedEvent::new(Point::new(5, 5));
    assert!(col.dispatch_cursor_moved(&inside_first));
    let kids = column_children(&col);
    assert!(kids[0].cursor_in_bounds);
    assert!(!kids[1].cursor_in_bounds);
}

#[test]
fn own_preview_runs_before_children() {
    let child = button_with(
        claiming(HandlerFlags::none(), |f| f.mouse_button = true),
        10,
        10,
    );
    let mut col = Column::builder()
        .with_children(vec![child])
        .with_handlers(claiming(HandlerFlags::none(), |f| f.mouse_button_preview = true))
        .build()
        .unwrap();
    let measured = col.measure(Size::new(100, 100));
    col.arrange(Rect::new(Point::new(0, 0), measured)).unwrap();
    // The column's own preview claims it; the child never could have.
    assert!(col.dispatch_mouse_button(&click()));
}

#[test]
fn cursor_outside_rect_never_reaches_the_node() {
    // The column spans y in [0, 20]; the position lies outside it, so
    // neither the column nor any descendant hears the event, and the
    // column's own in-bounds flag is cleared.
    let child = button_with(
        claiming(HandlerFlags::none(), |f| f.cursor_moved = true),
        100,
        20,
    );
    let mut col = laid_out_column(vec![child]);
    col.cursor_in_bounds = true;
    let outside = CursorMovedEvent::new(Point::new(5, 500));
    assert!(!col.dispatch_cursor_moved(&outside));
    assert!(!col.cursor_in_bounds);
    let kids = column_children(&col);
    assert!(!kids[0].cursor_in_bounds);
}

#[test]
fn cursor_gate_blocks_descendants_even_when_their_rect_matches() {
    // Give the tree a stale geometry where the child's rectangle
    // contains the position but the parent's does not: the parent's
    // gate fails first and the child is never consulted.
    let child = button_with(
        claiming(HandlerFlags::none(), |f| f.cursor_moved = true),
        100,
        20,
    );
    let mut col = laid_out_column(vec![child]);
    col.final_rect = Some(Rect::new(Point::new(1000, 1000), Size::new(5, 5)));
    let pos = CursorMovedEvent::new(Point::new(5, 5));
    assert!(!col.dispatch_cursor_moved(&pos));
    let kids = column_children(&col);
    assert!(!kids[0].cursor_in_bounds);
}

#[test]
fn key_events_are_not_position_gated() {
    // A key event reaches a claiming child regardless of where any
    // rectangle lies — even a tree that was never arranged hears it.
    let child = button_with(claiming(HandlerFlags::none(), |f| f.key = true), 10, 10);
    let col = Column::builder().with_children(vec![child]).build().unwrap();
    assert!(col.dispatch_key(&KeyEvent::new(32, ElementState::Released)));
}

#[test]
fn cursor_enter_and_exit_transitions_are_observable() {
    let mut button = button_with(HandlerFlags::none(), 50, 50);
    button.measure(Size::new(50, 50));
    button.arrange(Rect::new(Point::new(0, 0), Size::new(50, 50))).unwrap();
    assert!(!button.cursor_in_bounds);
    button.dispatch_cursor_moved(&CursorMovedEvent::new(Point::new(10, 10)));
    assert!(button.cursor_in_bounds);
    button.dispatch_cursor_moved(&CursorMovedEvent::new(Point::new(400, 10)));
    assert!(!button.cursor_in_bounds);
}

#[test]
fn event_accessors_return_what_was_decoded() {
    let key = KeyEvent::new(42, ElementState::Pressed);
    assert_eq!(key.key(), 42);
    assert_eq!(key.state(), ElementState::Pressed);
    let wheel = MouseWheelEvent::new(Point::new(0, -120));
    assert_eq!(wheel.delta(), Point::new(0, -120));
    let moved = CursorMovedEvent::new(Point::new(3, 4));
    assert_eq!(moved.pos(), Point::new(3, 4));
    let press = MouseButtonEvent::new(MouseButton::Right, ElementState::Released);
    assert_eq!(press.button(), MouseButton::Right);
    assert_eq!(press.state(), ElementState::Released);
}
