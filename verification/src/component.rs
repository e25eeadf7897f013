//! The component tree: a node owns one controller (a closed set of widget
//! kinds), a sizing policy, and the geometry cached by the two layout
//! passes. This module defines the tree shape and the well-formedness,
//! height and node-count measures the recursive passes are proved against.

use vstd::prelude::*;

use crate::button::Button;
use crate::column::Column;
use crate::dock::Dock;
use crate::drawing::{DrawCommand, DrawingContext};
use crate::error::ErrorKind;
use crate::geometry::{Point, Rect, Size, MAX_ORIGIN, MAX_PIXELS};
use crate::input_handling::{CursorMovedEvent, EventClass, HandlerFlags, KeyEvent, MouseButtonEvent, MouseWheelEvent};
use crate::sizing::Sizing;
use crate::text::Text;

verus! {

/// Most children a single container may hold; keeps every sum a layout
/// pass forms over one child list far away from `i64` overflow.
pub const MAX_CHILDREN: usize = 65536;

/// Whether a node takes part in layout and drawing. A collapsed node
/// measures as zero and occupies no space; a hidden node occupies its
/// space but draws nothing; a visible node does both.
#[derive(Clone, Copy, Debug, PartialEq, Eq, Structural)]
pub enum Visibility {
    Visible,
    Hidden,
    Collapsed,
}

/// A tree node: one controller, a sizing policy, handler configuration,
/// and the cached results of the most recent measure and arrange passes.
/// The caches are `None` until the corresponding pass has run.
#[derive(Debug, PartialEq)]
#[verifier::ext_equal]
pub struct Component {
    pub sizing: Sizing,
    pub visibility: Visibility,
    pub handlers: HandlerFlags,
    pub controller: ComponentController,
    pub final_size: Option<Size>,
    pub final_rect: Option<Rect>,
    pub layout_dirty: bool,
    pub visually_dirty: bool,
    pub cursor_in_bounds: bool,
}

/// The closed set of widget kinds. The variant payload holds the node's
/// children (where the kind has any) together with the kind's own data;
/// the children are owned here and nowhere else.
#[derive(Debug, PartialEq)]
#[verifier::ext_equal]
pub enum ComponentController {
    Button(Button),
    Text(Text),
    Column(Column),
    Dock(Dock),
}

/// The number of nodes in the tree rooted at `c`.
pub open spec fn count(c: Component) -> nat
    decreases c,
{
    1 + ctrl_count(c.controller)
}

pub open spec fn ctrl_count(k: ComponentController) -> nat
    decreases k,
{
    match k {
        ComponentController::Button(b) => opt_count(b.content),
        ComponentController::Text(_) => 0,
        ComponentController::Column(col) => seq_count(col.children@),
        ComponentController::Dock(d) => opt_count(d.top) + opt_count(d.bottom) + opt_count(d.left)
            + opt_count(d.right) + opt_count(d.center),
    }
}

pub open spec fn opt_count(o: Option<Box<Component>>) -> nat
    decreases o,
{
    match o {
        Option::Some(c) => count(*c),
        Option::None => 0,
    }
}

pub open spec fn seq_count(s: Seq<Component>) -> nat
    decreases s,
{
    if s.len() == 0 {
        0
    } else {
        count(s[0]) + seq_count(s.drop_first())
    }
}

/// Every element of a child list counts no more nodes than the whole
/// list, and the elements before it account for at least one node each.
pub proof fn lemma_seq_count_ge(s: Seq<Component>, i: int)
    requires
        0 <= i < s.len(),
    ensures
        i + count(s[i]) <= seq_count(s),
    decreases s.len(),
{
    if i == 0 {
        lemma_seq_count_nonneg(s.drop_first());
    } else {
        lemma_count_pos(s[0]);
        lemma_seq_count_ge(s.drop_first(), i - 1);
        assert(s.drop_first()[i - 1] == s[i]);
    }
}

pub proof fn lemma_seq_count_nonneg(s: Seq<Component>)
    ensures
        seq_count(s) >= 0,
{
}

pub proof fn lemma_count_pos(c: Component)
    ensures
        count(c) >= 1,
{
}

/// Well-formedness: every sizing in the tree is valid and no container
/// exceeds the child-count bound. Builders establish this and the layout
/// passes preserve it.
pub open spec fn wf(c: Component) -> bool
    decreases c,
{
    &&& c.sizing.wf()
    &&& ctrl_wf(c.controller)
}

pub open spec fn ctrl_wf(k: ComponentController) -> bool
    decreases k,
{
    match k {
        ComponentController::Button(b) => opt_wf(b.content),
        ComponentController::Text(_) => true,
        ComponentController::Column(col) => {
            &&& col.children@.len() <= MAX_CHILDREN
            &&& forall|i: int|
                0 <= i < col.children@.len() ==> wf(#[trigger] col.children@[i])
        },
        ComponentController::Dock(d) => {
            &&& opt_wf(d.top)
            &&& opt_wf(d.bottom)
            &&& opt_wf(d.left)
            &&& opt_wf(d.right)
            &&& opt_wf(d.center)
        },
    }
}

pub open spec fn opt_wf(o: Option<Box<Component>>) -> bool
    decreases o,
{
    match o {
        Option::Some(c) => wf(*c),
        Option::None => true,
    }
}

/// Whether the most recent measure pass covered this whole tree: the
/// node's size cache is filled and bounded, and — unless the node is
/// collapsed, whose subtree the pass skips — so are its children's.
pub open spec fn measured(c: Component) -> bool
    decreases c,
{
    &&& c.final_size matches Some(s) && -MAX_PIXELS <= s.width <= MAX_PIXELS && -MAX_PIXELS
        <= s.height <= MAX_PIXELS
    &&& (c.visibility != Visibility::Collapsed ==> ctrl_measured(c.controller))
}

pub open spec fn ctrl_measured(k: ComponentController) -> bool
    decreases k,
{
    match k {
        ComponentController::Button(b) => opt_measured(b.content),
        ComponentController::Text(_) => true,
        ComponentController::Column(col) => forall|i: int|
            0 <= i < col.children@.len() ==> measured(#[trigger] col.children@[i]),
        ComponentController::Dock(d) => {
            &&& opt_measured(d.top)
            &&& opt_measured(d.bottom)
            &&& opt_measured(d.left)
            &&& opt_measured(d.right)
            &&& opt_measured(d.center)
        },
    }
}

pub open spec fn opt_measured(o: Option<Box<Component>>) -> bool
    decreases o,
{
    match o {
        Option::Some(c) => measured(*c),
        Option::None => true,
    }
}

/// A size from the two mathematical axis values; used by the layout
/// specifications, whose values stay in `i64` range on well-formed trees.
pub open spec fn mk_size(w: int, h: int) -> Size {
    Size { width: w as i64, height: h as i64 }
}

pub open spec fn zero_size() -> Size {
    Size { width: 0, height: 0 }
}

/// The size the measure pass caches at `c` and reports to its parent,
/// given the size its parent made available. A collapsed node contributes
/// zero; otherwise the node clamps the offer, asks its controller what is
/// required, and resolves the answer through its sizing policy.
pub open spec fn spec_measure_size(c: Component, available: Size) -> Size
    decreases c, 3int,
{
    if c.visibility == Visibility::Collapsed {
        zero_size()
    } else {
        let avail = mk_size(
            crate::sizing::spec_available_axis(c.sizing.width, available.width as int),
            crate::sizing::spec_available_axis(c.sizing.height, available.height as int),
        );
        let required = spec_required(c.controller, avail);
        mk_size(
            crate::sizing::spec_final_axis(
                c.sizing.width,
                avail.width as int,
                required.width as int,
            ),
            crate::sizing::spec_final_axis(
                c.sizing.height,
                avail.height as int,
                required.height as int,
            ),
        )
    }
}

/// What a controller reports as required, given the clamped offer.
pub open spec fn spec_required(k: ComponentController, avail: Size) -> Size
    decreases k, 2int,
{
    match k {
        ComponentController::Button(b) => spec_opt_size(b.content, avail),
        ComponentController::Text(t) => t.content_size,
        ComponentController::Column(col) => mk_size(
            crate::column::spec_col_maxw(col.children@, avail, col.children@.len() as int),
            crate::column::spec_col_consumed(col.children@, avail, col.children@.len() as int),
        ),
        ComponentController::Dock(d) => crate::dock::spec_dock_required(d, avail),
    }
}

/// The measured size of an optional slot; an absent slot contributes zero.
pub open spec fn spec_opt_size(o: Option<Box<Component>>, avail: Size) -> Size
    decreases o, 4int,
{
    match o {
        Option::Some(c) => spec_measure_size(*c, avail),
        Option::None => zero_size(),
    }
}

/// `m` is exactly the tree the measure pass leaves behind when it runs on
/// `c` with `available` space: every size cache filled with
/// `spec_measure_size` of its subtree, layout-dirty flags cleared, and
/// every other field untouched. A collapsed subtree is skipped whole.
pub open spec fn measure_updates(c: Component, available: Size, m: Component) -> bool
    decreases c, 3int,
{
    if c.visibility == Visibility::Collapsed {
        m == Component { final_size: Some(zero_size()), layout_dirty: false, ..c }
    } else {
        &&& m.sizing == c.sizing
        &&& m.visibility == c.visibility
        &&& m.handlers == c.handlers
        &&& m.final_rect == c.final_rect
        &&& m.visually_dirty == c.visually_dirty
        &&& m.cursor_in_bounds == c.cursor_in_bounds
        &&& m.layout_dirty == false
        &&& m.final_size == Some(spec_measure_size(c, available))
        &&& {
            let avail = mk_size(
                crate::sizing::spec_available_axis(c.sizing.width, available.width as int),
                crate::sizing::spec_available_axis(c.sizing.height, available.height as int),
            );
            ctrl_measure_updates(c.controller, avail, m.controller)
        }
    }
}

/// The controller part of `measure_updates`: same variant, same own data,
/// children measured against the offers the algorithm hands them.
pub open spec fn ctrl_measure_updates(
    k: ComponentController,
    avail: Size,
    k2: ComponentController,
) -> bool
    decreases k, 2int,
{
    match (k, k2) {
        (ComponentController::Button(b), ComponentController::Button(b2)) => {
            &&& b2.background == b.background
            &&& opt_measure_updates(b.content, avail, b2.content)
        },
        (ComponentController::Text(t), ComponentController::Text(t2)) => t2 == t,
        (ComponentController::Column(col), ComponentController::Column(col2)) => {
            &&& col2.horiz_align == col.horiz_align
            &&& col2.children@.len() == col.children@.len()
            &&& forall|i: int|
                0 <= i < col.children@.len() ==> measure_updates(
                    #[trigger] col.children@[i],
                    crate::column::remaining_at(col.children@, avail, i),
                    col2.children@[i],
                )
        },
        (ComponentController::Dock(d), ComponentController::Dock(d2)) => {
            let rem1 = crate::dock::rem_after_top(d, avail);
            let rem2 = crate::dock::rem_after_bottom(d, avail);
            let rem3 = crate::dock::rem_after_left(d, avail);
            let rem4 = crate::dock::rem_after_right(d, avail);
            &&& opt_measure_updates(d.top, avail, d2.top)
            &&& opt_measure_updates(d.bottom, rem1, d2.bottom)
            &&& opt_measure_updates(d.left, rem2, d2.left)
            &&& opt_measure_updates(d.right, rem3, d2.right)
            &&& opt_measure_updates(d.center, rem4, d2.center)
        },
        _ => false,
    }
}

pub open spec fn opt_measure_updates(
    o: Option<Box<Component>>,
    avail: Size,
    o2: Option<Box<Component>>,
) -> bool
    decreases o, 4int,
{
    match (o, o2) {
        (Option::Some(c), Option::Some(c2)) => measure_updates(*c, avail, *c2),
        (Option::None, Option::None) => true,
        _ => false,
    }
}

/// The size a measure pass reports is always inside the pixel bound on a
/// node whose sizing is well-formed: the final resolution clamps it.
pub proof fn lemma_measure_size_bounded(c: Component, available: Size)
    requires
        c.sizing.wf(),
    ensures
        -MAX_PIXELS <= spec_measure_size(c, available).width <= MAX_PIXELS,
        -MAX_PIXELS <= spec_measure_size(c, available).height <= MAX_PIXELS,
{
    if c.visibility != Visibility::Collapsed {
        let avail = mk_size(
            crate::sizing::spec_available_axis(c.sizing.width, available.width as int),
            crate::sizing::spec_available_axis(c.sizing.height, available.height as int),
        );
        let required = spec_required(c.controller, avail);
        crate::sizing::lemma_axis_bounded(c.sizing.width, avail.width as int, required.width as int);
        crate::sizing::lemma_axis_bounded(
            c.sizing.height,
            avail.height as int,
            required.height as int,
        );
    }
}

/// The size the measure pass cached at this node; zero before any pass.
pub open spec fn cached_size(c: Component) -> Size {
    match c.final_size {
        Option::Some(s) => s,
        Option::None => zero_size(),
    }
}

/// The cached size of an optional slot; an absent slot has zero extent.
pub open spec fn opt_cached(o: Option<Box<Component>>) -> Size {
    match o {
        Option::Some(c) => cached_size(*c),
        Option::None => zero_size(),
    }
}

/// How much space a node takes up among its siblings once arranged: a
/// collapsed node none, any other its cached measured size.
pub open spec fn spec_used_size(c: Component) -> Size {
    if c.visibility == Visibility::Collapsed {
        zero_size()
    } else {
        cached_size(c)
    }
}

/// The rectangle a node reports back from `arrange`: the requested one,
/// except that a collapsed node reports an empty rectangle at the same
/// origin.
pub open spec fn spec_used_rect(c: Component, rect: Rect) -> Rect {
    if c.visibility == Visibility::Collapsed {
        Rect { pos: rect.pos, size: zero_size() }
    } else {
        rect
    }
}

/// A rectangle from the four mathematical components.
pub open spec fn mk_rect(x: int, y: int, w: int, h: int) -> Rect {
    Rect { pos: crate::geometry::Point { x: x as i64, y: y as i64 }, size: mk_size(w, h) }
}

pub open spec fn mag(v: int) -> int {
    if v >= 0 {
        v
    } else {
        -v
    }
}

/// How much of the coordinate range a rectangle occupies: the magnitudes
/// of its origin and extents together.
pub open spec fn rect_room(rect: Rect) -> int {
    mag(rect.pos.x as int) + mag(rect.pos.y as int) + mag(rect.size.width as int) + mag(
        rect.size.height as int,
    )
}

/// A rectangle a subtree of `n` nodes can be arranged into without any
/// origin arithmetic leaving `i64`: each node of the subtree may move a
/// derived origin or extent by a few pixel bounds, so a budget linear in
/// the node count keeps every coordinate within `MAX_ORIGIN`.
pub open spec fn rect_fits(rect: Rect, n: nat) -> bool {
    rect_room(rect) + 8 * (MAX_PIXELS as int) * (n + 1) <= MAX_ORIGIN as int
}

/// A rectangle derived for a smaller subtree still fits, as long as the
/// derivation spent no more room than the dropped nodes' budget.
pub proof fn lemma_fits_within(parent: Rect, n: nat, child: Rect, m: nat, slack: int)
    requires
        rect_fits(parent, n),
        m < n,
        0 <= slack <= 8 * (MAX_PIXELS as int) * (n - m),
        rect_room(child) <= rect_room(parent) + slack,
    ensures
        rect_fits(child, m),
{
    assert(slack + 8 * (MAX_PIXELS as int) * (m + 1) <= 8 * (MAX_PIXELS as int) * (n + 1))
        by (nonlinear_arith)
        requires
            m < n,
            0 <= slack <= 8 * (MAX_PIXELS as int) * (n - m),
    ;
}

/// `a` is exactly the tree the arrange pass leaves behind when it places
/// `c` into `rect`: every rect cache filled with the rectangle the
/// algorithm derives for that node, visually-dirty flags cleared, and
/// everything else — including the size caches the pass reads — kept.
/// A collapsed subtree is skipped, its root marked with an empty rect.
pub open spec fn arrange_updates(c: Component, rect: Rect, a: Component) -> bool
    decreases c, 3int,
{
    if c.visibility == Visibility::Collapsed {
        a == Component {
            final_rect: Some(Rect { pos: rect.pos, size: zero_size() }),
            visually_dirty: false,
            ..c
        }
    } else {
        &&& a.sizing == c.sizing
        &&& a.visibility == c.visibility
        &&& a.handlers == c.handlers
        &&& a.final_size == c.final_size
        &&& a.layout_dirty == c.layout_dirty
        &&& a.cursor_in_bounds == c.cursor_in_bounds
        &&& a.final_rect == Some(rect)
        &&& a.visually_dirty == false
        &&& ctrl_arrange_updates(c.controller, rect, a.controller)
    }
}

pub open spec fn ctrl_arrange_updates(k: ComponentController, rect: Rect, k2: ComponentController) -> bool
    decreases k, 2int,
{
    match (k, k2) {
        (ComponentController::Button(b), ComponentController::Button(b2)) => {
            &&& b2.background == b.background
            &&& opt_arrange_updates(
                b.content,
                crate::button::button_content_rect(b, rect),
                b2.content,
            )
        },
        (ComponentController::Text(t), ComponentController::Text(t2)) => t2 == t,
        (ComponentController::Column(col), ComponentController::Column(col2)) => {
            &&& col2.horiz_align == col.horiz_align
            &&& col2.children@.len() == col.children@.len()
            &&& forall|i: int|
                0 <= i < col.children@.len() ==> arrange_updates(
                    #[trigger] col.children@[i],
                    crate::column::col_child_rect(col, rect, i),
                    col2.children@[i],
                )
        },
        (ComponentController::Dock(d), ComponentController::Dock(d2)) => {
            let t = opt_cached(d.top);
            let b = opt_cached(d.bottom);
            let l = opt_cached(d.left);
            let r = opt_cached(d.right);
            &&& opt_arrange_updates(d.top, crate::dock::dock_top_rect(rect, t), d2.top)
            &&& opt_arrange_updates(d.bottom, crate::dock::dock_bottom_rect(rect, b), d2.bottom)
            &&& opt_arrange_updates(d.left, crate::dock::dock_left_rect(rect, t, b, l), d2.left)
            &&& opt_arrange_updates(d.right, crate::dock::dock_right_rect(rect, t, b, r), d2.right)
            &&& opt_arrange_updates(
                d.center,
                crate::dock::dock_center_rect(rect, t, b, l, r),
                d2.center,
            )
        },
        _ => false,
    }
}

pub open spec fn opt_arrange_updates(
    o: Option<Box<Component>>,
    rect: Rect,
    o2: Option<Box<Component>>,
) -> bool
    decreases o, 4int,
{
    match (o, o2) {
        (Option::Some(c), Option::Some(c2)) => arrange_updates(*c, rect, *c2),
        (Option::None, Option::None) => true,
        _ => false,
    }
}

/// Measures an optional child against an offer; an absent child measures
/// zero.
pub(crate) fn measure_opt(o: &mut Option<Box<Component>>, avail: Size) -> (s: Size)
    requires
        opt_wf(*old(o)),
    ensures
        opt_measure_updates(*old(o), avail, *final(o)),
        s == spec_opt_size(*old(o), avail),
    decreases *old(o),
{
    match o {
        Some(c) => c.measure(avail),
        None => Size { width: 0, height: 0 },
    }
}

/// An optional slot's measured size obeys the same pixel bound; an
/// absent slot contributes an exact zero.
pub proof fn lemma_opt_size_bounded(o: Option<Box<Component>>, avail: Size)
    requires
        opt_wf(o),
    ensures
        -MAX_PIXELS <= spec_opt_size(o, avail).width <= MAX_PIXELS,
        -MAX_PIXELS <= spec_opt_size(o, avail).height <= MAX_PIXELS,
{
    match o {
        Option::Some(c) => lemma_measure_size_bounded(*c, avail),
        Option::None => {},
    }
}

/// Lists with the same length and node count at every index have the
/// same total node count.
pub proof fn lemma_seq_count_congruent(s1: Seq<Component>, s2: Seq<Component>)
    requires
        s1.len() == s2.len(),
        forall|i: int| 0 <= i < s1.len() ==> count(#[trigger] s1[i]) == count(s2[i]),
    ensures
        seq_count(s1) == seq_count(s2),
    decreases s1.len(),
{
    if s1.len() > 0 {
        assert forall|i: int| 0 <= i < s1.drop_first().len() implies count(
            #[trigger] s1.drop_first()[i],
        ) == count(s2.drop_first()[i]) by {
            assert(s1.drop_first()[i] == s1[i + 1]);
            assert(s2.drop_first()[i] == s2[i + 1]);
        }
        lemma_seq_count_congruent(s1.drop_first(), s2.drop_first());
    }
}

/// The measure pass keeps a tree well-formed and the same shape, and
/// leaves behind a tree it has fully covered.
pub proof fn lemma_measure_keeps(c: Component, available: Size, m: Component)
    requires
        wf(c),
        measure_updates(c, available, m),
    ensures
        wf(m),
        measured(m),
        count(m) == count(c),
    decreases c, 3int,
{
    if c.visibility != Visibility::Collapsed {
        lemma_measure_size_bounded(c, available);
        let avail = mk_size(
            crate::sizing::spec_available_axis(c.sizing.width, available.width as int),
            crate::sizing::spec_available_axis(c.sizing.height, available.height as int),
        );
        lemma_ctrl_measure_keeps(c.controller, avail, m.controller);
    }
}

pub proof fn lemma_ctrl_measure_keeps(k: ComponentController, avail: Size, k2: ComponentController)
    requires
        ctrl_wf(k),
        ctrl_measure_updates(k, avail, k2),
    ensures
        ctrl_wf(k2),
        ctrl_measured(k2),
        ctrl_count(k2) == ctrl_count(k),
    decreases k, 2int,
{
    match (k, k2) {
        (ComponentController::Button(b), ComponentController::Button(b2)) => {
            lemma_opt_measure_keeps(b.content, avail, b2.content);
        },
        (ComponentController::Text(_), ComponentController::Text(_)) => {},
        (ComponentController::Column(col), ComponentController::Column(col2)) => {
            assert forall|i: int| 0 <= i < col2.children@.len() implies wf(
                #[trigger] col2.children@[i],
            ) && measured(col2.children@[i]) && count(col2.children@[i]) == count(
                col.children@[i],
            ) by {
                lemma_measure_keeps(
                    col.children@[i],
                    crate::column::remaining_at(col.children@, avail, i),
                    col2.children@[i],
                );
            }
            lemma_seq_count_congruent(col.children@, col2.children@);
        },
        (ComponentController::Dock(d), ComponentController::Dock(d2)) => {
            lemma_opt_measure_keeps(d.top, avail, d2.top);
            lemma_opt_measure_keeps(d.bottom, crate::dock::rem_after_top(d, avail), d2.bottom);
            lemma_opt_measure_keeps(d.left, crate::dock::rem_after_bottom(d, avail), d2.left);
            lemma_opt_measure_keeps(d.right, crate::dock::rem_after_left(d, avail), d2.right);
            lemma_opt_measure_keeps(d.center, crate::dock::rem_after_right(d, avail), d2.center);
        },
        _ => {},
    }
}

pub proof fn lemma_opt_measure_keeps(
    o: Option<Box<Component>>,
    avail: Size,
    o2: Option<Box<Component>>,
)
    requires
        opt_wf(o),
        opt_measure_updates(o, avail, o2),
    ensures
        opt_wf(o2),
        opt_measured(o2),
        opt_count(o2) == opt_count(o),
    decreases o, 4int,
{
    match (o, o2) {
        (Option::Some(c), Option::Some(c2)) => {
            lemma_measure_keeps(*c, avail, *c2);
        },
        _ => {},
    }
}

/// The measure pass is idempotent: measuring a measured tree against
/// the same offer reports the same size and changes nothing — the
/// measured tree is a fixed point of its own re-measure.
pub proof fn lemma_measure_idempotent(c: Component, available: Size, m: Component)
    requires
        measure_updates(c, available, m),
    ensures
        spec_measure_size(m, available) == spec_measure_size(c, available),
        measure_updates(m, available, m),
    decreases c, 3int,
{
    if c.visibility != Visibility::Collapsed {
        let avail = mk_size(
            crate::sizing::spec_available_axis(c.sizing.width, available.width as int),
            crate::sizing::spec_available_axis(c.sizing.height, available.height as int),
        );
        lemma_ctrl_measure_idempotent(c.controller, avail, m.controller);
    }
}

#[verifier::spinoff_prover]
#[verifier::rlimit(100)]
pub proof fn lemma_ctrl_measure_idempotent(
    k: ComponentController,
    avail: Size,
    k2: ComponentController,
)
    requires
        ctrl_measure_updates(k, avail, k2),
    ensures
        spec_required(k2, avail) == spec_required(k, avail),
        ctrl_measure_updates(k2, avail, k2),
    decreases k, 2int,
{
    match (k, k2) {
        (ComponentController::Button(b), ComponentController::Button(b2)) => {
            lemma_opt_measure_idempotent(b.content, avail, b2.content);
        },
        (ComponentController::Text(_), ComponentController::Text(_)) => {},
        (ComponentController::Column(col), ComponentController::Column(col2)) => {
            crate::column::lemma_col_measure_idempotent(
                col.children@,
                avail,
                col2.children@,
                col.children@.len() as int,
            );
            assert forall|i: int| 0 <= i < col2.children@.len() implies measure_updates(
                #[trigger] col2.children@[i],
                crate::column::remaining_at(col2.children@, avail, i),
                col2.children@[i],
            ) by {}
        },
        (ComponentController::Dock(d), ComponentController::Dock(d2)) => {
            lemma_opt_measure_idempotent(d.top, avail, d2.top);
            assert(crate::dock::rem_after_top(d2, avail) == crate::dock::rem_after_top(d, avail));
            lemma_opt_measure_idempotent(
                d.bottom,
                crate::dock::rem_after_top(d, avail),
                d2.bottom,
            );
            assert(crate::dock::rem_after_bottom(d2, avail) == crate::dock::rem_after_bottom(
                d,
                avail,
            ));
            lemma_opt_measure_idempotent(
                d.left,
                crate::dock::rem_after_bottom(d, avail),
                d2.left,
            );
            assert(crate::dock::rem_after_left(d2, avail) == crate::dock::rem_after_left(
                d,
                avail,
            ));
            lemma_opt_measure_idempotent(
                d.right,
                crate::dock::rem_after_left(d, avail),
                d2.right,
            );
            assert(crate::dock::rem_after_right(d2, avail) == crate::dock::rem_after_right(
                d,
                avail,
            ));
            lemma_opt_measure_idempotent(
                d.center,
                crate::dock::rem_after_right(d, avail),
                d2.center,
            );
        },
        _ => {},
    }
}

pub proof fn lemma_opt_measure_idempotent(
    o: Option<Box<Component>>,
    avail: Size,
    o2: Option<Box<Component>>,
)
    requires
        opt_measure_updates(o, avail, o2),
    ensures
        spec_opt_size(o2, avail) == spec_opt_size(o, avail),
        opt_measure_updates(o2, avail, o2),
    decreases o, 4int,
{
    match (o, o2) {
        (Option::Some(c), Option::Some(c2)) => {
            lemma_measure_idempotent(*c, avail, *c2);
        },
        _ => {},
    }
}

/// After a measure pass, the size cached in a slot is exactly the size
/// the sizing specification gives the slot's subtree.
pub proof fn lemma_cached_after_measure(
    o: Option<Box<Component>>,
    avail: Size,
    o2: Option<Box<Component>>,
)
    requires
        opt_measure_updates(o, avail, o2),
    ensures
        opt_cached(o2) == spec_opt_size(o, avail),
{
}

/// Cursor containment gating: a node whose arranged rectangle does not
/// contain the cursor position — or which was never arranged — claims
/// nothing, and dispatch leaves its whole subtree untouched but for the
/// node's own cursor-in-bounds flag, which is cleared. In particular no
/// descendant is consulted, even one whose own rectangle would contain
/// the position.
pub proof fn lemma_cursor_containment_gating(c: Component, pos: Point)
    requires
        !cursor_gate(c, pos),
    ensures
        !spec_cursor_handled(c, pos),
        forall|c2: Component|
            #[trigger] cursor_updates(c, pos, c2) ==> c2 == (Component {
                cursor_in_bounds: false,
                ..c
            }),
{
}

/// Dispatch short-circuits: when the first child of a list claims an
/// event, the whole list claims it, and what the later children would
/// have answered plays no part — two lists with that same first child
/// dispatch identically.
pub proof fn lemma_dispatch_short_circuit(
    s1: Seq<Component>,
    s2: Seq<Component>,
    class: EventClass,
)
    requires
        s1.len() >= 1,
        s2.len() >= 1,
        s1[0] == s2[0],
        spec_dispatch(s1[0], class),
    ensures
        seq_dispatch(s1, class),
        seq_dispatch(s1, class) == seq_dispatch(s2, class),
{
}

/// The stateful counterpart for cursor dispatch: when the first child
/// claims the event, the children after it are left exactly as they
/// were.
pub proof fn lemma_cursor_short_circuit(
    col: crate::column::Column,
    pos: Point,
    col2: crate::column::Column,
)
    requires
        col.children@.len() >= 1,
        spec_cursor_handled(col.children@[0], pos),
        ctrl_cursor_updates(
            ComponentController::Column(col),
            pos,
            ComponentController::Column(col2),
        ),
    ensures
        seq_cursor_handled(col.children@, pos),
        forall|i: int|
            1 <= i < col.children@.len() ==> col2.children@[i] == #[trigger] col.children@[i],
{
    assert forall|i: int| 1 <= i < col.children@.len() implies col2.children@[i]
        == #[trigger] col.children@[i] by {
        assert(col_prefix_claimed(col.children@, pos, i));
    }
}

/// Whether an event of `class` is claimed somewhere in `c`'s tree when
/// dispatched: by the node's own preview handler, else by some child's
/// dispatch, else by the node's own bubble handler.
pub open spec fn spec_dispatch(c: Component, class: EventClass) -> bool
    decreases c, 3int,
{
    ||| c.handlers.spec_preview(class)
    ||| ctrl_dispatch(c.controller, class)
    ||| c.handlers.spec_bubble(class)
}

pub open spec fn ctrl_dispatch(k: ComponentController, class: EventClass) -> bool
    decreases k, 2int,
{
    match k {
        ComponentController::Button(b) => opt_dispatch(b.content, class),
        ComponentController::Text(_) => false,
        ComponentController::Column(col) => seq_dispatch(col.children@, class),
        ComponentController::Dock(d) => {
            ||| opt_dispatch(d.center, class)
            ||| opt_dispatch(d.top, class)
            ||| opt_dispatch(d.left, class)
            ||| opt_dispatch(d.right, class)
            ||| opt_dispatch(d.bottom, class)
        },
    }
}

pub open spec fn opt_dispatch(o: Option<Box<Component>>, class: EventClass) -> bool
    decreases o, 4int,
{
    match o {
        Option::Some(c) => spec_dispatch(*c, class),
        Option::None => false,
    }
}

pub open spec fn seq_dispatch(s: Seq<Component>, class: EventClass) -> bool
    decreases s, 4int,
{
    if s.len() == 0 {
        false
    } else {
        spec_dispatch(s[0], class) || seq_dispatch(s.drop_first(), class)
    }
}

/// A child list claims an event exactly when one of its children does.
pub proof fn lemma_seq_dispatch_exists(s: Seq<Component>, class: EventClass)
    ensures
        seq_dispatch(s, class) == exists|j: int|
            0 <= j < s.len() && spec_dispatch(#[trigger] s[j], class),
    decreases s.len(),
{
    if s.len() > 0 {
        lemma_seq_dispatch_exists(s.drop_first(), class);
        if spec_dispatch(s[0], class) {
            assert(seq_dispatch(s, class));
        } else if seq_dispatch(s, class) {
            let j = choose|j: int|
                0 <= j < s.drop_first().len() && spec_dispatch(#[trigger] s.drop_first()[j], class);
            assert(s.drop_first()[j] == s[j + 1]);
        } else {
            assert forall|j: int| 0 <= j < s.len() implies !spec_dispatch(#[trigger] s[j], class) by {
                if j > 0 {
                    assert(s.drop_first()[j - 1] == s[j]);
                }
            }
        }
    }
}

/// Whether a node's rectangle gate admits a cursor position: the node
/// must have an arranged rectangle that contains the position. A node
/// never arranged contains nothing.
pub open spec fn cursor_gate(c: Component, pos: crate::geometry::Point) -> bool {
    match c.final_rect {
        Option::Some(r) => crate::geometry::spec_contains(r, pos),
        Option::None => false,
    }
}

/// Whether a cursor-moved event at `pos` is claimed somewhere in `c`'s
/// tree. Unlike the other events, the rectangle gate cuts whole subtrees
/// off: a node that does not contain the position claims nothing and its
/// descendants are never consulted.
pub open spec fn spec_cursor_handled(c: Component, pos: crate::geometry::Point) -> bool
    decreases c, 3int,
{
    &&& cursor_gate(c, pos)
    &&& {
        ||| c.handlers.cursor_moved_preview
        ||| ctrl_cursor_handled(c.controller, pos)
        ||| c.handlers.cursor_moved
    }
}

pub open spec fn ctrl_cursor_handled(k: ComponentController, pos: crate::geometry::Point) -> bool
    decreases k, 2int,
{
    match k {
        ComponentController::Button(b) => opt_cursor_handled(b.content, pos),
        ComponentController::Text(_) => false,
        ComponentController::Column(col) => seq_cursor_handled(col.children@, pos),
        ComponentController::Dock(d) => {
            ||| opt_cursor_handled(d.center, pos)
            ||| opt_cursor_handled(d.top, pos)
            ||| opt_cursor_handled(d.left, pos)
            ||| opt_cursor_handled(d.right, pos)
            ||| opt_cursor_handled(d.bottom, pos)
        },
    }
}

pub open spec fn opt_cursor_handled(o: Option<Box<Component>>, pos: crate::geometry::Point) -> bool
    decreases o, 4int,
{
    match o {
        Option::Some(c) => spec_cursor_handled(*c, pos),
        Option::None => false,
    }
}

pub open spec fn seq_cursor_handled(s: Seq<Component>, pos: crate::geometry::Point) -> bool
    decreases s, 4int,
{
    if s.len() == 0 {
        false
    } else {
        spec_cursor_handled(s[0], pos) || seq_cursor_handled(s.drop_first(), pos)
    }
}

/// A child list claims a cursor event exactly when one of its children
/// does.
pub proof fn lemma_seq_cursor_exists(s: Seq<Component>, pos: crate::geometry::Point)
    ensures
        seq_cursor_handled(s, pos) == exists|j: int|
            0 <= j < s.len() && spec_cursor_handled(#[trigger] s[j], pos),
    decreases s.len(),
{
    if s.len() > 0 {
        lemma_seq_cursor_exists(s.drop_first(), pos);
        if spec_cursor_handled(s[0], pos) {
            assert(seq_cursor_handled(s, pos));
        } else if seq_cursor_handled(s, pos) {
            let j = choose|j: int|
                0 <= j < s.drop_first().len() && spec_cursor_handled(
                    #[trigger] s.drop_first()[j],
                    pos,
                );
            assert(s.drop_first()[j] == s[j + 1]);
        } else {
            assert forall|j: int| 0 <= j < s.len() implies !spec_cursor_handled(
                #[trigger] s[j],
                pos,
            ) by {
                if j > 0 {
                    assert(s.drop_first()[j - 1] == s[j]);
                }
            }
        }
    }
}

/// Whether some child among the first `i` of `s` claimed the cursor
/// event — in which case dispatch stopped before the children after it.
pub open spec fn col_prefix_claimed(s: Seq<Component>, pos: crate::geometry::Point, i: int) -> bool {
    exists|j: int| 0 <= j < i && spec_cursor_handled(#[trigger] s[j], pos)
}

/// Relates a tree to its state after cursor dispatch: the node's
/// cursor-in-bounds flag records whether its rectangle admitted the
/// position, the children up to and
/// including the one that claimed the event carry their own dispatch
/// results, and the children after it are untouched. A node whose gate
/// fails has only its own flag cleared; its subtree is never consulted.
pub open spec fn cursor_updates(c: Component, pos: crate::geometry::Point, c2: Component) -> bool
    decreases c, 3int,
{
    if !cursor_gate(c, pos) {
        c2 == Component { cursor_in_bounds: false, ..c }
    } else {
        &&& c2.sizing == c.sizing
        &&& c2.visibility == c.visibility
        &&& c2.handlers == c.handlers
        &&& c2.final_size == c.final_size
        &&& c2.final_rect == c.final_rect
        &&& c2.layout_dirty == c.layout_dirty
        &&& c2.visually_dirty == c.visually_dirty
        &&& c2.cursor_in_bounds == true
        &&& if c.handlers.cursor_moved_preview {
            c2.controller == c.controller
        } else {
            ctrl_cursor_updates(c.controller, pos, c2.controller)
        }
    }
}

pub open spec fn ctrl_cursor_updates(
    k: ComponentController,
    pos: crate::geometry::Point,
    k2: ComponentController,
) -> bool
    decreases k, 2int,
{
    match (k, k2) {
        (ComponentController::Button(b), ComponentController::Button(b2)) => {
            &&& b2.background == b.background
            &&& opt_cursor_updates(b.content, pos, b2.content)
        },
        (ComponentController::Text(t), ComponentController::Text(t2)) => t2 == t,
        (ComponentController::Column(col), ComponentController::Column(col2)) => {
            &&& col2.horiz_align == col.horiz_align
            &&& col2.children@.len() == col.children@.len()
            &&& forall|i: int|
                0 <= i < col.children@.len() ==> if col_prefix_claimed(col.children@, pos, i) {
                    col2.children@[i] == #[trigger] col.children@[i]
                } else {
                    cursor_updates(col.children@[i], pos, col2.children@[i])
                }
        },
        (ComponentController::Dock(d), ComponentController::Dock(d2)) => {
            let hc = opt_cursor_handled(d.center, pos);
            let ht = opt_cursor_handled(d.top, pos);
            let hl = opt_cursor_handled(d.left, pos);
            let hr = opt_cursor_handled(d.right, pos);
            &&& opt_cursor_updates(d.center, pos, d2.center)
            &&& if hc {
                d2.top == d.top
            } else {
                opt_cursor_updates(d.top, pos, d2.top)
            }
            &&& if hc || ht {
                d2.left == d.left
            } else {
                opt_cursor_updates(d.left, pos, d2.left)
            }
            &&& if hc || ht || hl {
                d2.right == d.right
            } else {
                opt_cursor_updates(d.right, pos, d2.right)
            }
            &&& if hc || ht || hl || hr {
                d2.bottom == d.bottom
            } else {
                opt_cursor_updates(d.bottom, pos, d2.bottom)
            }
        },
        _ => false,
    }
}

pub open spec fn opt_cursor_updates(
    o: Option<Box<Component>>,
    pos: crate::geometry::Point,
    o2: Option<Box<Component>>,
) -> bool
    decreases o, 4int,
{
    match (o, o2) {
        (Option::Some(c), Option::Some(c2)) => cursor_updates(*c, pos, *c2),
        (Option::None, Option::None) => true,
        _ => false,
    }
}

/// The drawing commands a tree contributes to a frame, back to front. A
/// node that is hidden or collapsed contributes nothing, subtree
/// included; a node not yet arranged has no rectangle to draw into and
/// contributes nothing of its own.
pub open spec fn spec_draw(c: Component) -> Seq<DrawCommand>
    decreases c, 3int,
{
    if c.visibility != Visibility::Visible {
        Seq::<DrawCommand>::empty()
    } else {
        match c.controller {
            ComponentController::Button(b) => {
                let own = match c.final_rect {
                    Option::Some(r) => seq![
                        DrawCommand::FillRect { rect: r, color: b.background },
                    ],
                    Option::None => Seq::<DrawCommand>::empty(),
                };
                own + opt_draw(b.content)
            },
            ComponentController::Text(t) => match c.final_rect {
                Option::Some(r) => seq![DrawCommand::TextRun { rect: r, text: t.text }],
                Option::None => Seq::<DrawCommand>::empty(),
            },
            ComponentController::Column(col) => seq_draw_upto(
                col.children@,
                col.children@.len() as int,
            ),
            ComponentController::Dock(d) => opt_draw(d.center) + opt_draw(d.right) + opt_draw(
                d.left,
            ) + opt_draw(d.bottom) + opt_draw(d.top),
        }
    }
}

pub open spec fn opt_draw(o: Option<Box<Component>>) -> Seq<DrawCommand>
    decreases o, 4int,
{
    match o {
        Option::Some(c) => spec_draw(*c),
        Option::None => Seq::<DrawCommand>::empty(),
    }
}

/// What the first `n` children of a list contribute, in order.
pub open spec fn seq_draw_upto(s: Seq<Component>, n: int) -> Seq<DrawCommand>
    decreases s, n,
{
    if n <= 0 || n > s.len() {
        Seq::<DrawCommand>::empty()
    } else {
        seq_draw_upto(s, n - 1) + spec_draw(s[n - 1])
    }
}

impl Component {
    /// The size cached by the most recent measure pass, `None` before the
    /// first one.
    pub fn final_size(&self) -> (s: Option<Size>)
        ensures
            s == self.final_size,
    {
        self.final_size
    }

    /// The rectangle cached by the most recent arrange pass, `None`
    /// before the first one.
    pub fn final_rect(&self) -> (r: Option<Rect>)
        ensures
            r == self.final_rect,
    {
        self.final_rect
    }

    /// The measure pass: clamp the offered size through this node's
    /// sizing policy, let the controller measure its children against the
    /// clamped offer, resolve what they required into this node's final
    /// size, and cache it. A collapsed node reports zero and its subtree
    /// is skipped.
    pub fn measure(&mut self, available_size: Size) -> (s: Size)
        requires
            wf(*old(self)),
        ensures
            measure_updates(*old(self), available_size, *final(self)),
            s == spec_measure_size(*old(self), available_size),
        decreases *old(self),
    {
        if self.visibility == Visibility::Collapsed {
            let z = Size::zero();
            self.final_size = Some(z);
            self.layout_dirty = false;
            return z;
        }
        let avail = self.sizing.calc_available_size(available_size);
        proof {
            crate::sizing::lemma_axis_bounded(old(self).sizing.width, available_size.width as int, 0);
            crate::sizing::lemma_axis_bounded(
                old(self).sizing.height,
                available_size.height as int,
                0,
            );
        }
        let required = match &mut self.controller {
            ComponentController::Button(b) => b.measure(avail),
            ComponentController::Text(t) => t.measure(avail),
            ComponentController::Column(col) => col.measure(avail),
            ComponentController::Dock(d) => d.measure(avail),
        };
        let fs = self.sizing.calc_final_size(avail, required);
        self.final_size = Some(fs);
        self.layout_dirty = false;
        fs
    }

    /// Whether the most recent measure pass covered this node and every
    /// descendant it did not skip.
    pub fn is_measured(&self) -> (res: bool)
        ensures
            res == measured(*self),
        decreases *self,
    {
        let size_ok = match self.final_size {
            Some(s) => -MAX_PIXELS <= s.width && s.width <= MAX_PIXELS && -MAX_PIXELS <= s.height
                && s.height <= MAX_PIXELS,
            None => false,
        };
        if !size_ok {
            return false;
        }
        if self.visibility == Visibility::Collapsed {
            return true;
        }
        match &self.controller {
            ComponentController::Button(b) => b.content_measured(),
            ComponentController::Text(_) => true,
            ComponentController::Column(col) => col.children_measured(),
            ComponentController::Dock(d) => d.slots_measured(),
        }
    }

    /// The arrange pass proper, on a tree the measure pass has covered:
    /// cache the rectangle this node was given, and place the children
    /// at the rectangles the controller's placement rule derives from
    /// their cached sizes. Returns the rectangle the node actually used,
    /// which is empty for a collapsed node.
    pub(crate) fn arrange_in(&mut self, rect: Rect) -> (r: Rect)
        requires
            wf(*old(self)),
            measured(*old(self)),
            rect_fits(rect, count(*old(self))),
        ensures
            arrange_updates(*old(self), rect, *final(self)),
            r == spec_used_rect(*old(self), rect),
        decreases *old(self),
    {
        if self.visibility == Visibility::Collapsed {
            let used = Rect { pos: rect.pos, size: Size { width: 0, height: 0 } };
            self.final_rect = Some(used);
            self.visually_dirty = false;
            return used;
        }
        match &mut self.controller {
            ComponentController::Button(b) => b.arrange(rect),
            ComponentController::Text(_) => {},
            ComponentController::Column(col) => col.arrange(rect),
            ComponentController::Dock(d) => d.arrange(rect),
        }
        self.final_rect = Some(rect);
        self.visually_dirty = false;
        rect
    }

    /// Route a stateless event: own preview handler first, then each
    /// child's full dispatch in the controller's order (stopping at the
    /// first claim), then the own bubble handler.
    pub(crate) fn dispatch_class(&self, class: EventClass) -> (handled: bool)
        ensures
            handled == spec_dispatch(*self, class),
        decreases *self,
    {
        if self.handlers.claims_preview(class) {
            return true;
        }
        let child_handled = match &self.controller {
            ComponentController::Button(b) => b.dispatch_content(class),
            ComponentController::Text(_) => false,
            ComponentController::Column(col) => col.dispatch_children(class),
            ComponentController::Dock(d) => d.dispatch_slots(class),
        };
        if child_handled {
            return true;
        }
        self.handlers.claims_bubble(class)
    }

    /// Dispatch a key event through this subtree. Key events are not
    /// gated by position: a focused control off under the cursor must
    /// still hear them.
    pub fn dispatch_key(&self, _event: &KeyEvent) -> (handled: bool)
        ensures
            handled == spec_dispatch(*self, EventClass::Key),
    {
        self.dispatch_class(EventClass::Key)
    }

    /// Dispatch a mouse-button event through this subtree; not gated by
    /// position.
    pub fn dispatch_mouse_button(&self, _event: &MouseButtonEvent) -> (handled: bool)
        ensures
            handled == spec_dispatch(*self, EventClass::MouseButton),
    {
        self.dispatch_class(EventClass::MouseButton)
    }

    /// Dispatch a mouse-wheel event through this subtree; not gated by
    /// position.
    pub fn dispatch_mouse_wheel(&self, _event: &MouseWheelEvent) -> (handled: bool)
        ensures
            handled == spec_dispatch(*self, EventClass::MouseWheel),
    {
        self.dispatch_class(EventClass::MouseWheel)
    }

    /// Dispatch a cursor-moved event through this subtree. The event is
    /// gated by the node's arranged rectangle: a node that does not
    /// contain the position takes no part, its cursor-in-bounds flag is
    /// cleared, and its descendants are never consulted; a node that
    /// does sets the flag, so successive calls let it observe
    /// enter/exit transitions.
    pub fn dispatch_cursor_moved(&mut self, event: &CursorMovedEvent) -> (handled: bool)
        ensures
            handled == spec_cursor_handled(*old(self), event.pos),
            cursor_updates(*old(self), event.pos, *final(self)),
        decreases *old(self),
    {
        let pos = event.pos();
        let inside = match self.final_rect {
            Some(r) => r.contains(pos),
            None => false,
        };
        if !inside {
            self.cursor_in_bounds = false;
            return false;
        }
        self.cursor_in_bounds = true;
        if self.handlers.cursor_moved_preview {
            return true;
        }
        let child_handled = match &mut self.controller {
            ComponentController::Button(b) => b.cursor_content(event),
            ComponentController::Text(_) => false,
            ComponentController::Column(col) => col.cursor_children(event),
            ComponentController::Dock(d) => d.cursor_slots(event),
        };
        if child_handled {
            return true;
        }
        self.handlers.cursor_moved
    }

    /// The draw pass: walk the tree, appending each visible node's
    /// primitives to the context, parents before their children so
    /// children paint on top.
    pub fn draw(&self, context: &mut DrawingContext)
        ensures
            final(context).commands_seq() == old(context).commands_seq() + spec_draw(*self),
            final(context).scissors_seq() == old(context).scissors_seq(),
        decreases *self,
    {
        if !matches!(self.visibility, Visibility::Visible) {
            proof {
                assert(old(context).commands_seq() + spec_draw(*self) =~= old(
                    context,
                ).commands_seq());
            }
            return ;
        }
        match &self.controller {
            ComponentController::Button(b) => {
                match self.final_rect {
                    Some(r) => context.draw(DrawCommand::FillRect { rect: r, color: b.background }),
                    None => {},
                }
                b.draw_content(context);
                proof {
                    assert(context.commands_seq() =~= old(context).commands_seq() + spec_draw(
                        *self,
                    ));
                }
            },
            ComponentController::Text(t) => {
                match self.final_rect {
                    Some(r) => context.draw(
                        DrawCommand::TextRun { rect: r, text: t.text.clone() },
                    ),
                    None => {},
                }
                proof {
                    assert(context.commands_seq() =~= old(context).commands_seq() + spec_draw(
                        *self,
                    ));
                }
            },
            ComponentController::Column(col) => {
                col.draw_children(context);
            },
            ComponentController::Dock(d) => {
                d.draw_slots(context);
            },
        }
    }

    /// The arrange pass entry point. Arranging a tree the measure pass
    /// has not covered is a sequencing error and is refused whole, before
    /// any cache changes; otherwise the pass runs and returns the
    /// rectangle the node used.
    pub fn arrange(&mut self, final_rect: Rect) -> (r: Result<Rect, ErrorKind>)
        requires
            wf(*old(self)),
            rect_fits(final_rect, count(*old(self))),
        ensures
            measured(*old(self)) ==> r == Ok::<Rect, ErrorKind>(
                spec_used_rect(*old(self), final_rect),
            ) && arrange_updates(*old(self), final_rect, *final(self)),
            !measured(*old(self)) ==> r == Err::<Rect, ErrorKind>(ErrorKind::NotMeasured)
                && *final(self) == *old(self),
    {
        if !self.is_measured() {
            return Err(ErrorKind::NotMeasured);
        }
        Ok(self.arrange_in(final_rect))
    }
}

} // verus!
