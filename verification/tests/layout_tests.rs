//! The two-pass layout protocol: column stacking, dock anchoring,
//! centering, visibility, and sequencing errors.

use uxui::button::Button;
use uxui::column::Column;
use uxui::component::{Component, ComponentController, Visibility};
use uxui::dock::Dock;
use uxui::error::ErrorKind;
use uxui::geometry::{Point, Rect, Size};
use uxui::sizing::{Dimension, HorizontalAlignment, Sizing};
use uxui::text::Text;

fn fixed_box(width: i64, height: i64) -> Component {
    Button::builder()
        .with_sizing(Sizing::fixed(Size::new(width, height)))
        .build()
        .unwrap()
}

fn column_children(c: &Component) -> &Vec<Component> {
    match &c.controller {
        ComponentController::Column(col) => &col.children,
        _ => panic!("not a column"),
    }
}

#[test]
fn column_conserves_fixed_heights() {
    // Children of fixed heights [h1, h2, h3] in a fit column: the
    // measured height is their sum and the arranged y offsets are the
    // prefix sums [0, h1, h1 + h2].
    let (h1, h2, h3) = (10i64, 20i64, 35i64);
    let children = vec![fixed_box(50, h1), fixed_box(60, h2), fixed_box(40, h3)];
    let mut col = Column::builder().with_children(children).build().unwrap();

    let measured = col.measure(Size::new(200, 200));
    assert_eq!(measured.height, h1 + h2 + h3);
    assert_eq!(measured.width, 60);

    let rect = Rect::new(Point::new(0, 0), measured);
    let used = col.arrange(rect).unwrap();
    assert_eq!(used, rect);

    let kids = column_children(&col);
    let y0 = kids[0].final_rect().unwrap().pos.y;
    let y1 = kids[1].final_rect().unwrap().pos.y;
    let y2 = kids[2].final_rect().unwrap().pos.y;
    assert_eq!([y0, y1, y2], [0, h1, h1 + h2]);
}

#[test]
fn column_measures_greedily_top_down() {
    // A fill-height child after a fixed one sees only the remaining
    // height and takes all of it: the stack allocates greedily, not by
    // a fair two-pass split.
    let fixed = fixed_box(10, 80);
    let filler = Button::builder()
        .with_sizing(Sizing::new(Dimension::fixed(10), Dimension::fill()))
        .build()
        .unwrap();
    let mut col = Column::builder().with_children(vec![fixed, filler]).build().unwrap();
    let measured = col.measure(Size::new(100, 100));
    assert_eq!(measured.height, 80 + 20);
    let kids = column_children(&col);
    assert_eq!(kids[1].final_size().unwrap().height, 20);
}

#[test]
fn column_alignments_place_children_horizontally() {
    for (align, expect_x) in [
        (HorizontalAlignment::Left, 0i64),
        (HorizontalAlignment::Center, 35),
        (HorizontalAlignment::Right, 70),
    ] {
        let mut col = Column::builder()
            .with_children(vec![fixed_box(30, 10)])
            .with_alignment(align)
            .with_sizing(Sizing::fixed(Size::new(100, 10)))
            .build()
            .unwrap();
        col.measure(Size::new(100, 10));
        col.arrange(Rect::new(Point::new(0, 0), Size::new(100, 10))).unwrap();
        let kids = column_children(&col);
        assert_eq!(kids[0].final_rect().unwrap().pos.x, expect_x);
    }
}

fn dock_slots(c: &Component) -> &uxui::dock::Dock {
    match &c.controller {
        ComponentController::Dock(d) => d,
        _ => panic!("not a dock"),
    }
}

fn sample_dock(with_right: bool) -> Component {
    let mut builder = Dock::builder()
        .with_top(fixed_box(0, 10))
        .with_bottom(fixed_box(0, 15))
        .with_left(fixed_box(20, 0))
        .with_center(
            Button::builder().with_sizing(Sizing::fill()).build().unwrap(),
        )
        .with_sizing(Sizing::fill());
    if with_right {
        builder = builder.with_right(fixed_box(25, 0));
    }
    builder.build().unwrap()
}

#[test]
fn dock_anchors_slots_to_edges() {
    let mut dock = sample_dock(true);
    dock.measure(Size::new(200, 100));
    dock.arrange(Rect::new(Point::new(0, 0), Size::new(200, 100))).unwrap();
    let d = dock_slots(&dock);
    let top = d.top.as_ref().unwrap().final_rect().unwrap();
    let bottom = d.bottom.as_ref().unwrap().final_rect().unwrap();
    let left = d.left.as_ref().unwrap().final_rect().unwrap();
    let right = d.right.as_ref().unwrap().final_rect().unwrap();
    let center = d.center.as_ref().unwrap().final_rect().unwrap();

    assert_eq!(top, Rect::new(Point::new(0, 0), Size::new(200, 10)));
    assert_eq!(bottom, Rect::new(Point::new(0, 85), Size::new(200, 15)));
    assert_eq!(left, Rect::new(Point::new(0, 10), Size::new(20, 75)));
    assert_eq!(right, Rect::new(Point::new(175, 10), Size::new(25, 75)));
    assert_eq!(center, Rect::new(Point::new(20, 10), Size::new(155, 75)));
}

#[test]
fn dock_slots_are_independent_of_removed_right() {
    // Removing the right slot must not move top, left or bottom, and
    // the center must widen by exactly the removed slot's width.
    let canvas = Size::new(200, 100);
    let frame = Rect::new(Point::new(0, 0), canvas);

    let mut with_right = sample_dock(true);
    with_right.measure(canvas);
    with_right.arrange(frame).unwrap();
    let d1 = dock_slots(&with_right);

    let mut without_right = sample_dock(false);
    without_right.measure(canvas);
    without_right.arrange(frame).unwrap();
    let d2 = dock_slots(&without_right);

    assert_eq!(
        d1.top.as_ref().unwrap().final_rect(),
        d2.top.as_ref().unwrap().final_rect()
    );
    assert_eq!(
        d1.bottom.as_ref().unwrap().final_rect(),
        d2.bottom.as_ref().unwrap().final_rect()
    );
    assert_eq!(
        d1.left.as_ref().unwrap().final_rect(),
        d2.left.as_ref().unwrap().final_rect()
    );
    let c1 = d1.center.as_ref().unwrap().final_rect().unwrap();
    let c2 = d2.center.as_ref().unwrap().final_rect().unwrap();
    let right_width = d1.right.as_ref().unwrap().final_rect().unwrap().size.width;
    assert_eq!(c2.size.width, c1.size.width + right_width);
    assert_eq!(c2.pos, c1.pos);
    assert_eq!(c2.size.height, c1.size.height);
}

#[test]
fn button_centers_its_content() {
    let content = fixed_box(10, 10);
    let mut button = Button::builder()
        .with_sizing(Sizing::fixed(Size::new(50, 30)))
        .with_content(content)
        .build()
        .unwrap();
    button.measure(Size::new(50, 30));
    button.arrange(Rect::new(Point::new(0, 0), Size::new(50, 30))).unwrap();
    let inner = match &button.controller {
        ComponentController::Button(b) => b.content.as_ref().unwrap().final_rect().unwrap(),
        _ => panic!("not a button"),
    };
    assert_eq!(inner, Rect::new(Point::new(20, 10), Size::new(10, 10)));
}

#[test]
fn arrange_before_measure_is_refused_whole() {
    let mut lone = fixed_box(10, 10);
    let result = lone.arrange(Rect::new(Point::new(0, 0), Size::new(10, 10)));
    assert_eq!(result.unwrap_err(), ErrorKind::NotMeasured);
    assert_eq!(lone.final_rect(), None);
}

#[test]
fn collapsed_node_occupies_no_space() {
    let mut hidden_row = fixed_box(30, 40);
    hidden_row.visibility = Visibility::Collapsed;
    let visible_row = fixed_box(30, 25);
    let mut col = Column::builder()
        .with_children(vec![hidden_row, visible_row])
        .build()
        .unwrap();
    let measured = col.measure(Size::new(100, 100));
    assert_eq!(measured.height, 25);
    col.arrange(Rect::new(Point::new(0, 0), measured)).unwrap();
    let kids = column_children(&col);
    // The collapsed child reports an empty rect; its sibling starts at 0.
    assert_eq!(kids[0].final_rect().unwrap().size, Size::zero());
    assert_eq!(kids[1].final_rect().unwrap().pos.y, 0);
}

#[test]
fn text_leaf_requires_its_content_size() {
    let mut text = Text::builder("hello")
        .with_content_size(Size::new(37, 12))
        .build()
        .unwrap();
    let measured = text.measure(Size::new(500, 500));
    assert_eq!(measured, Size::new(37, 12));
}

#[test]
fn measure_is_idempotent() {
    let mut col = Column::builder()
        .with_children(vec![fixed_box(10, 10), fixed_box(20, 20)])
        .build()
        .unwrap();
    let first = col.measure(Size::new(100, 100));
    let second = col.measure(Size::new(100, 100));
    assert_eq!(first, second);
}
