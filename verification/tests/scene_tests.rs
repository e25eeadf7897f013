//! The scene: root swapping, layout against the canvas, drawing and
//! event forwarding.

use uxui::button::Button;
use uxui::color::Color;
use uxui::column::Column;
use uxui::component::Component;
use uxui::drawing::{DrawCommand, DrawingContext};
use uxui::geometry::{Point, Rect, Size};
use uxui::input_handling::{CursorMovedEvent, ElementState, HandlerFlags, KeyEvent};
use uxui::scene::Scene;
use uxui::sizing::Sizing;
use uxui::text::Text;

fn fixed_box(width: i64, height: i64) -> Component {
    Button::builder()
        .with_sizing(Sizing::fixed(Size::new(width, height)))
        .build()
        .unwrap()
}

#[test]
fn swap_root_round_trips() {
    // Swapping in a then b returns a; swapping the root out again
    // returns b and leaves the scene empty.
    let a = fixed_box(10, 10);
    let b = fixed_box(20, 20);
    let mut scene = Scene::new();
    assert!(scene.swap_root(Some(a)).is_none());
    let got_a = scene.swap_root(Some(b));
    assert_eq!(got_a.unwrap().sizing, Sizing::fixed(Size::new(10, 10)));
    let got_b = scene.swap_root(None);
    assert_eq!(got_b.unwrap().sizing, Sizing::fixed(Size::new(20, 20)));
    assert!(scene.root.is_none());
}

#[test]
fn update_layout_centers_the_root() {
    let mut scene = Scene::new();
    scene.swap_root(Some(fixed_box(100, 50)));
    scene.update_layout(Size::new(300, 200));
    assert!(!scene.layout_dirty);
    let root = scene.root.as_ref().unwrap();
    assert_eq!(root.final_size().unwrap(), Size::new(100, 50));
    assert_eq!(
        root.final_rect().unwrap(),
        Rect::new(Point::new(100, 75), Size::new(100, 50))
    );
}

#[test]
fn resize_marks_layout_stale() {
    let mut scene = Scene::new();
    scene.update_layout(Size::new(100, 100));
    assert!(!scene.layout_dirty);
    scene.on_canvas_size_changed(Size::new(640, 480));
    assert!(scene.layout_dirty);
}

#[test]
fn background_color_is_settable() {
    let mut scene = Scene::new();
    assert_eq!(scene.get_background_color(), Color::bytes(255, 255, 255, 255));
    scene.set_background_color(Color::bytes(10, 20, 30, 255));
    assert_eq!(scene.get_background_color(), Color::bytes(10, 20, 30, 255));
}

#[test]
fn draw_emits_background_then_content() {
    let label = Text::builder("ok").with_content_size(Size::new(14, 10)).build().unwrap();
    let button = Button::builder()
        .with_sizing(Sizing::fixed(Size::new(40, 20)))
        .with_background(Color::bytes(1, 2, 3, 255))
        .with_content(label)
        .build()
        .unwrap();
    let mut scene = Scene::new();
    scene.swap_root(Some(
        Column::builder().with_children(vec![button]).build().unwrap(),
    ));
    scene.update_layout(Size::new(40, 20));

    let mut context = DrawingContext::new(Rect::new(Point::new(0, 0), Size::new(40, 20)));
    scene.draw(&mut context);
    let commands = context.commands();
    assert_eq!(commands.len(), 2);
    assert_eq!(
        commands[0],
        DrawCommand::FillRect {
            rect: Rect::new(Point::new(0, 0), Size::new(40, 20)),
            color: Color::bytes(1, 2, 3, 255),
        }
    );
    assert_eq!(
        commands[1],
        DrawCommand::TextRun {
            rect: Rect::new(Point::new(13, 5), Size::new(14, 10)),
            text: String::from("ok"),
        }
    );
}

#[test]
fn empty_scene_draws_and_dispatches_nothing() {
    let mut scene = Scene::new();
    let mut context = DrawingContext::new(Rect::new(Point::new(0, 0), Size::new(10, 10)));
    scene.draw(&mut context);
    assert!(context.commands().is_empty());
    assert!(!scene.on_key(&KeyEvent::new(1, ElementState::Pressed)));
    assert!(!scene.on_cursor_moved(&CursorMovedEvent::new(Point::new(0, 0))));
}

#[test]
fn scene_forwards_events_to_the_root() {
    let mut flags = HandlerFlags::none();
    flags.key = true;
    let root = Button::builder()
        .with_sizing(Sizing::fixed(Size::new(10, 10)))
        .with_handlers(flags)
        .build()
        .unwrap();
    let mut scene = Scene::new();
    scene.swap_root(Some(root));
    assert!(scene.on_key(&KeyEvent::new(9, ElementState::Pressed)));
}

#[test]
fn scissor_stack_restores_previous_clip() {
    let outer = Rect::new(Point::new(0, 0), Size::new(100, 100));
    let inner = Rect::new(Point::new(10, 10), Size::new(20, 20));
    let mut context = DrawingContext::new(outer);
    assert_eq!(context.current_scissor(), outer);
    context.push_scissor(inner);
    assert_eq!(context.current_scissor(), inner);
    context.pop_scissor();
    assert_eq!(context.current_scissor(), outer);
}
