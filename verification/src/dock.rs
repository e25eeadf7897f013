//! A dock: up to five named slots anchored to the edges and the middle of
//! the node's rectangle.

use vstd::prelude::*;

use crate::component::{
    count, lemma_fits_within, lemma_opt_size_bounded, measure_opt, mk_rect, mk_size,
    opt_arrange_updates, opt_cached, opt_count, opt_cursor_handled, opt_cursor_updates,
    opt_dispatch, opt_measure_updates, opt_measured, opt_wf, rect_fits, rect_room, spec_opt_size,
    Component,
};
use crate::geometry::{Point, Rect, Size, MAX_PIXELS};
use crate::component::opt_draw;
use crate::drawing::DrawingContext;
use crate::component::{wf, ComponentController, Visibility};
use crate::error::ErrorKind;
use crate::input_handling::{CursorMovedEvent, EventClass, HandlerFlags};
use crate::sizing::Sizing;

verus! {

/// The dock controller: the five optional slot children this node owns.
#[derive(Debug, PartialEq)]
#[verifier::ext_equal]
pub struct Dock {
    pub top: Option<Box<Component>>,
    pub bottom: Option<Box<Component>>,
    pub left: Option<Box<Component>>,
    pub right: Option<Box<Component>>,
    pub center: Option<Box<Component>>,
}

/// The space left after the top slot's measured height is subtracted.
pub open spec fn rem_after_top(d: Dock, avail: Size) -> Size
    decreases d, 0int,
{
    let t = spec_opt_size(d.top, avail);
    mk_size(avail.width as int, avail.height - t.height)
}

/// The space left after the top and bottom slots are subtracted.
pub open spec fn rem_after_bottom(d: Dock, avail: Size) -> Size
    decreases d, 1int,
{
    let rem = rem_after_top(d, avail);
    let b = spec_opt_size(d.bottom, rem);
    mk_size(rem.width as int, rem.height - b.height)
}

/// The space left after top, bottom and left are subtracted.
pub open spec fn rem_after_left(d: Dock, avail: Size) -> Size
    decreases d, 2int,
{
    let rem = rem_after_bottom(d, avail);
    let l = spec_opt_size(d.left, rem);
    mk_size(rem.width - l.width, rem.height as int)
}

/// The space left for the center after all four edges are subtracted.
pub open spec fn rem_after_right(d: Dock, avail: Size) -> Size
    decreases d, 3int,
{
    let rem = rem_after_left(d, avail);
    let r = spec_opt_size(d.right, rem);
    mk_size(rem.width - r.width, rem.height as int)
}

/// What a dock requires: wide enough for the top bar, the bottom bar and
/// the left-center-right band; tall enough for the side bands and the
/// top-center-bottom stack.
pub open spec fn spec_dock_required(d: Dock, avail: Size) -> Size
    decreases d, 4int,
{
    let t = spec_opt_size(d.top, avail);
    let b = spec_opt_size(d.bottom, rem_after_top(d, avail));
    let l = spec_opt_size(d.left, rem_after_bottom(d, avail));
    let r = spec_opt_size(d.right, rem_after_left(d, avail));
    let c = spec_opt_size(d.center, rem_after_right(d, avail));
    let w = int_max(t.width as int, int_max(b.width as int, l.width + c.width + r.width));
    let h = int_max(l.height as int, int_max(r.height as int, t.height + c.height + b.height));
    mk_size(w, h)
}

pub open spec fn int_max(a: int, b: int) -> int {
    if a >= b {
        a
    } else {
        b
    }
}

/// The top slot spans the dock's full width at its top edge, at the
/// slot's cached height `t`.
pub open spec fn dock_top_rect(rect: Rect, t: Size) -> Rect {
    mk_rect(rect.pos.x as int, rect.pos.y as int, rect.size.width as int, t.height as int)
}

/// The bottom slot spans the full width, anchored to the bottom edge.
pub open spec fn dock_bottom_rect(rect: Rect, b: Size) -> Rect {
    mk_rect(
        rect.pos.x as int,
        rect.pos.y + rect.size.height - b.height,
        rect.size.width as int,
        b.height as int,
    )
}

/// The left slot occupies the band between top and bottom at its cached
/// width, anchored to the left edge.
pub open spec fn dock_left_rect(rect: Rect, t: Size, b: Size, l: Size) -> Rect {
    mk_rect(
        rect.pos.x as int,
        rect.pos.y + t.height,
        l.width as int,
        rect.size.height - t.height - b.height,
    )
}

/// The right slot occupies the same band, anchored to the right edge.
pub open spec fn dock_right_rect(rect: Rect, t: Size, b: Size, r: Size) -> Rect {
    mk_rect(
        rect.pos.x + rect.size.width - r.width,
        rect.pos.y + t.height,
        r.width as int,
        rect.size.height - t.height - b.height,
    )
}

/// The center fills the middle rectangle the four edges leave over.
pub open spec fn dock_center_rect(rect: Rect, t: Size, b: Size, l: Size, r: Size) -> Rect {
    mk_rect(
        rect.pos.x + l.width,
        rect.pos.y + t.height,
        rect.size.width - l.width - r.width,
        rect.size.height - t.height - b.height,
    )
}

impl Dock {
    /// The dock measure order is fixed: top, bottom, left, right, then
    /// center, each slot measured against the space the earlier slots
    /// left (top and bottom consume height; left and right consume
    /// width; the center sees what remains on both axes).
    #[verifier::spinoff_prover]
    #[verifier::rlimit(100)]
    pub fn measure(&mut self, available: Size) -> (required: Size)
        requires
            opt_wf(old(self).top),
            opt_wf(old(self).bottom),
            opt_wf(old(self).left),
            opt_wf(old(self).right),
            opt_wf(old(self).center),
            -MAX_PIXELS <= available.width <= MAX_PIXELS,
            -MAX_PIXELS <= available.height <= MAX_PIXELS,
        ensures
            opt_measure_updates(old(self).top, available, final(self).top),
            opt_measure_updates(
                old(self).bottom,
                rem_after_top(*old(self), available),
                final(self).bottom,
            ),
            opt_measure_updates(
                old(self).left,
                rem_after_bottom(*old(self), available),
                final(self).left,
            ),
            opt_measure_updates(
                old(self).right,
                rem_after_left(*old(self), available),
                final(self).right,
            ),
            opt_measure_updates(
                old(self).center,
                rem_after_right(*old(self), available),
                final(self).center,
            ),
            required == spec_dock_required(*old(self), available),
        decreases *old(self),
    {
        proof {
            lemma_opt_size_bounded(old(self).top, available);
        }
        let t = measure_opt(&mut self.top, available);
        let rem1 = Size { width: available.width, height: available.height - t.height };
        proof {
            assert(rem1 == rem_after_top(*old(self), available));
            lemma_opt_size_bounded(old(self).bottom, rem1);
        }
        let b = measure_opt(&mut self.bottom, rem1);
        let rem2 = Size { width: rem1.width, height: rem1.height - b.height };
        proof {
            assert(rem2 == rem_after_bottom(*old(self), available));
            lemma_opt_size_bounded(old(self).left, rem2);
        }
        let l = measure_opt(&mut self.left, rem2);
        let rem3 = Size { width: rem2.width - l.width, height: rem2.height };
        proof {
            assert(rem3 == rem_after_left(*old(self), available));
            lemma_opt_size_bounded(old(self).right, rem3);
        }
        let r = measure_opt(&mut self.right, rem3);
        let rem4 = Size { width: rem3.width - r.width, height: rem3.height };
        proof {
            assert(rem4 == rem_after_right(*old(self), available));
            lemma_opt_size_bounded(old(self).center, rem4);
        }
        let c = measure_opt(&mut self.center, rem4);
        let mut width = t.width;
        if b.width > width {
            width = b.width;
        }
        let band_w = l.width + c.width + r.width;
        if band_w > width {
            width = band_w;
        }
        let mut height = l.height;
        if r.height > height {
            height = r.height;
        }
        let stack_h = t.height + c.height + b.height;
        if stack_h > height {
            height = stack_h;
        }
        Size { width, height }
    }

    /// Offer a stateless event to each present slot, center first, then
    /// top, left, right and bottom, stopping at the first to claim it.
    pub fn dispatch_slots(&self, class: EventClass) -> (handled: bool)
        ensures
            handled == (opt_dispatch(self.center, class) || opt_dispatch(self.top, class)
                || opt_dispatch(self.left, class) || opt_dispatch(self.right, class)
                || opt_dispatch(self.bottom, class)),
        decreases *self,
    {
        let in_center = match &self.center {
            Some(c) => c.dispatch_class(class),
            None => false,
        };
        if in_center {
            return true;
        }
        let in_top = match &self.top {
            Some(c) => c.dispatch_class(class),
            None => false,
        };
        if in_top {
            return true;
        }
        let in_left = match &self.left {
            Some(c) => c.dispatch_class(class),
            None => false,
        };
        if in_left {
            return true;
        }
        let in_right = match &self.right {
            Some(c) => c.dispatch_class(class),
            None => false,
        };
        if in_right {
            return true;
        }
        match &self.bottom {
            Some(c) => c.dispatch_class(class),
            None => false,
        }
    }

    /// Offer a cursor-moved event to each present slot in dispatch
    /// order, stopping at the first to claim it; later slots are left
    /// untouched.
    pub fn cursor_slots(&mut self, event: &CursorMovedEvent) -> (handled: bool)
        ensures
            handled == (opt_cursor_handled(old(self).center, event.pos) || opt_cursor_handled(
                old(self).top,
                event.pos,
            ) || opt_cursor_handled(old(self).left, event.pos) || opt_cursor_handled(
                old(self).right,
                event.pos,
            ) || opt_cursor_handled(old(self).bottom, event.pos)),
            opt_cursor_updates(old(self).center, event.pos, final(self).center),
            ({
                let hc = opt_cursor_handled(old(self).center, event.pos);
                let ht = opt_cursor_handled(old(self).top, event.pos);
                let hl = opt_cursor_handled(old(self).left, event.pos);
                let hr = opt_cursor_handled(old(self).right, event.pos);
                &&& if hc {
                    final(self).top == old(self).top
                } else {
                    opt_cursor_updates(old(self).top, event.pos, final(self).top)
                }
                &&& if hc || ht {
                    final(self).left == old(self).left
                } else {
                    opt_cursor_updates(old(self).left, event.pos, final(self).left)
                }
                &&& if hc || ht || hl {
                    final(self).right == old(self).right
                } else {
                    opt_cursor_updates(old(self).right, event.pos, final(self).right)
                }
                &&& if hc || ht || hl || hr {
                    final(self).bottom == old(self).bottom
                } else {
                    opt_cursor_updates(old(self).bottom, event.pos, final(self).bottom)
                }
            }),
        decreases *old(self),
    {
        let in_center = match &mut self.center {
            Some(c) => c.dispatch_cursor_moved(event),
            None => false,
        };
        if in_center {
            return true;
        }
        let in_top = match &mut self.top {
            Some(c) => c.dispatch_cursor_moved(event),
            None => false,
        };
        if in_top {
            return true;
        }
        let in_left = match &mut self.left {
            Some(c) => c.dispatch_cursor_moved(event),
            None => false,
        };
        if in_left {
            return true;
        }
        let in_right = match &mut self.right {
            Some(c) => c.dispatch_cursor_moved(event),
            None => false,
        };
        if in_right {
            return true;
        }
        match &mut self.bottom {
            Some(c) => c.dispatch_cursor_moved(event),
            None => false,
        }
    }

    /// Draw the slots, center first and the top bar last, so the bars
    /// paint over the center where they overlap.
    pub fn draw_slots(&self, context: &mut DrawingContext)
        ensures
            final(context).commands_seq() == old(context).commands_seq() + (opt_draw(self.center)
                + opt_draw(self.right) + opt_draw(self.left) + opt_draw(self.bottom) + opt_draw(
                self.top,
            )),
            final(context).scissors_seq() == old(context).scissors_seq(),
        decreases *self,
    {
        Self::draw_slot(&self.center, context);
        Self::draw_slot(&self.right, context);
        Self::draw_slot(&self.left, context);
        Self::draw_slot(&self.bottom, context);
        Self::draw_slot(&self.top, context);
        proof {
            assert(context.commands_seq() =~= old(context).commands_seq() + (opt_draw(self.center)
                + opt_draw(self.right) + opt_draw(self.left) + opt_draw(self.bottom) + opt_draw(
                self.top,
            )));
        }
    }

    /// Draw one slot, if present.
    fn draw_slot(slot: &Option<Box<Component>>, context: &mut DrawingContext)
        ensures
            final(context).commands_seq() == old(context).commands_seq() + opt_draw(*slot),
            final(context).scissors_seq() == old(context).scissors_seq(),
        decreases *slot,
    {
        match slot {
            Some(c) => c.draw(context),
            None => {
                proof {
                    assert(old(context).commands_seq() + opt_draw(*slot) =~= old(
                        context,
                    ).commands_seq());
                }
            },
        }
    }

    /// Whether every present slot has been measured.
    pub fn slots_measured(&self) -> (res: bool)
        ensures
            res == (opt_measured(self.top) && opt_measured(self.bottom) && opt_measured(self.left)
                && opt_measured(self.right) && opt_measured(self.center)),
        decreases *self,
    {
        let top_ok = match &self.top {
            Some(c) => c.is_measured(),
            None => true,
        };
        let bottom_ok = match &self.bottom {
            Some(c) => c.is_measured(),
            None => true,
        };
        let left_ok = match &self.left {
            Some(c) => c.is_measured(),
            None => true,
        };
        let right_ok = match &self.right {
            Some(c) => c.is_measured(),
            None => true,
        };
        let center_ok = match &self.center {
            Some(c) => c.is_measured(),
            None => true,
        };
        top_ok && bottom_ok && left_ok && right_ok && center_ok
    }

    /// The size the measure pass cached for a slot, zero for an absent
    /// slot.
    fn cached_of(o: &Option<Box<Component>>) -> (s: Size)
        requires
            opt_measured(*o),
        ensures
            s == opt_cached(*o),
            -MAX_PIXELS <= s.width <= MAX_PIXELS,
            -MAX_PIXELS <= s.height <= MAX_PIXELS,
    {
        match o {
            Some(c) => match c.final_size() {
                Some(s) => s,
                None => {
                    proof {
                        assert(false);
                    }
                    Size::zero()
                },
            },
            None => Size::zero(),
        }
    }

    /// Place one slot into its target rectangle. Factored out so each
    /// slot's placement is checked on its own.
    fn place_slot(
        slot: &mut Option<Box<Component>>,
        parent: Rect,
        target: Rect,
        Ghost(total): Ghost<nat>,
        Ghost(slack): Ghost<int>,
    )
        requires
            opt_wf(*old(slot)),
            opt_measured(*old(slot)),
            rect_fits(parent, total),
            opt_count(*old(slot)) < total,
            0 <= slack <= 8 * (MAX_PIXELS as int) * (total - opt_count(*old(slot))),
            rect_room(target) <= rect_room(parent) + slack,
        ensures
            opt_arrange_updates(*old(slot), target, *final(slot)),
        decreases *old(slot),
    {
        proof {
            match *old(slot) {
                Some(c) => {
                    assert(opt_count(*old(slot)) == count(*c));
                    lemma_fits_within(parent, total, target, count(*c), slack);
                },
                None => {},
            }
        }
        match slot {
            Some(c) => {
                c.arrange_in(target);
            },
            None => {},
        }
    }

    /// Anchor each present slot: the top and bottom bars span the full
    /// width at their cached heights, the left and right bars fill the
    /// band between them at their cached widths, and the center fills
    /// what remains. Absent slots contribute zero extent and change no
    /// neighbour's placement.
    #[verifier::rlimit(100)]
    pub fn arrange(&mut self, rect: Rect)
        requires
            opt_wf(old(self).top),
            opt_wf(old(self).bottom),
            opt_wf(old(self).left),
            opt_wf(old(self).right),
            opt_wf(old(self).center),
            opt_measured(old(self).top),
            opt_measured(old(self).bottom),
            opt_measured(old(self).left),
            opt_measured(old(self).right),
            opt_measured(old(self).center),
            rect_fits(
                rect,
                (opt_count(old(self).top) + opt_count(old(self).bottom) + opt_count(
                    old(self).left,
                ) + opt_count(old(self).right) + opt_count(old(self).center) + 1) as nat,
            ),
        ensures
            opt_arrange_updates(
                old(self).top,
                dock_top_rect(rect, opt_cached(old(self).top)),
                final(self).top,
            ),
            opt_arrange_updates(
                old(self).bottom,
                dock_bottom_rect(rect, opt_cached(old(self).bottom)),
                final(self).bottom,
            ),
            opt_arrange_updates(
                old(self).left,
                dock_left_rect(
                    rect,
                    opt_cached(old(self).top),
                    opt_cached(old(self).bottom),
                    opt_cached(old(self).left),
                ),
                final(self).left,
            ),
            opt_arrange_updates(
                old(self).right,
                dock_right_rect(
                    rect,
                    opt_cached(old(self).top),
                    opt_cached(old(self).bottom),
                    opt_cached(old(self).right),
                ),
                final(self).right,
            ),
            opt_arrange_updates(
                old(self).center,
                dock_center_rect(
                    rect,
                    opt_cached(old(self).top),
                    opt_cached(old(self).bottom),
                    opt_cached(old(self).left),
                    opt_cached(old(self).right),
                ),
                final(self).center,
            ),
        decreases *old(self),
    {
        let t = Self::cached_of(&self.top);
        let b = Self::cached_of(&self.bottom);
        let l = Self::cached_of(&self.left);
        let r = Self::cached_of(&self.right);
        let ghost total: nat = (opt_count(old(self).top) + opt_count(old(self).bottom) + opt_count(
            old(self).left,
        ) + opt_count(old(self).right) + opt_count(old(self).center) + 1) as nat;
        let band_h = rect.size.height - t.height - b.height;
        let top_rect = Rect {
            pos: rect.pos,
            size: Size { width: rect.size.width, height: t.height },
        };
        proof {
            assert(top_rect == dock_top_rect(rect, t));
        }
        Self::place_slot(
            &mut self.top,
            rect,
            top_rect,
            Ghost(total),
            Ghost(MAX_PIXELS as int),
        );
        let bottom_rect = Rect {
            pos: Point { x: rect.pos.x, y: rect.pos.y + rect.size.height - b.height },
            size: Size { width: rect.size.width, height: b.height },
        };
        proof {
            assert(bottom_rect == dock_bottom_rect(rect, b));
        }
        Self::place_slot(
            &mut self.bottom,
            rect,
            bottom_rect,
            Ghost(total),
            Ghost(2 * (MAX_PIXELS as int)),
        );
        let left_rect = Rect {
            pos: Point { x: rect.pos.x, y: rect.pos.y + t.height },
            size: Size { width: l.width, height: band_h },
        };
        proof {
            assert(left_rect == dock_left_rect(rect, t, b, l));
        }
        Self::place_slot(
            &mut self.left,
            rect,
            left_rect,
            Ghost(total),
            Ghost(4 * (MAX_PIXELS as int)),
        );
        let right_rect = Rect {
            pos: Point { x: rect.pos.x + rect.size.width - r.width, y: rect.pos.y + t.height },
            size: Size { width: r.width, height: band_h },
        };
        proof {
            assert(right_rect == dock_right_rect(rect, t, b, r));
        }
        Self::place_slot(
            &mut self.right,
            rect,
            right_rect,
            Ghost(total),
            Ghost(5 * (MAX_PIXELS as int)),
        );
        let center_rect = Rect {
            pos: Point { x: rect.pos.x + l.width, y: rect.pos.y + t.height },
            size: Size { width: rect.size.width - l.width - r.width, height: band_h },
        };
        proof {
            assert(center_rect == dock_center_rect(rect, t, b, l, r));
        }
        Self::place_slot(
            &mut self.center,
            rect,
            center_rect,
            Ghost(total),
            Ghost(6 * (MAX_PIXELS as int)),
        );
    }
}

/// Dock slot independence: removing the right slot changes neither what
/// the measure pass gives the top, bottom and left slots, nor the
/// rectangles they are arranged into; the center's rectangle keeps its
/// position and height and widens by exactly the removed slot's
/// measured width.
pub proof fn lemma_dock_slot_independence(d1: Dock, d2: Dock, avail: Size, rect: Rect)
    requires
        d2.top == d1.top,
        d2.bottom == d1.bottom,
        d2.left == d1.left,
        d2.center == d1.center,
        d2.right is None,
        opt_wf(d1.top),
        opt_wf(d1.bottom),
        opt_wf(d1.left),
        opt_wf(d1.right),
        -MAX_PIXELS <= avail.width <= MAX_PIXELS,
        -MAX_PIXELS <= avail.height <= MAX_PIXELS,
        -MAX_PIXELS <= rect.size.width <= MAX_PIXELS,
        -MAX_PIXELS <= rect.size.height <= MAX_PIXELS,
        -MAX_PIXELS <= rect.pos.x <= MAX_PIXELS,
        -MAX_PIXELS <= rect.pos.y <= MAX_PIXELS,
    ensures
        ({
            let t = spec_opt_size(d1.top, avail);
            let b = spec_opt_size(d1.bottom, rem_after_top(d1, avail));
            let l = spec_opt_size(d1.left, rem_after_bottom(d1, avail));
            let r = spec_opt_size(d1.right, rem_after_left(d1, avail));
            &&& spec_opt_size(d2.top, avail) == t
            &&& rem_after_top(d2, avail) == rem_after_top(d1, avail)
            &&& spec_opt_size(d2.bottom, rem_after_top(d2, avail)) == b
            &&& rem_after_bottom(d2, avail) == rem_after_bottom(d1, avail)
            &&& spec_opt_size(d2.left, rem_after_bottom(d2, avail)) == l
            &&& rem_after_left(d2, avail) == rem_after_left(d1, avail)
            &&& dock_top_rect(rect, t) == dock_top_rect(rect, spec_opt_size(d2.top, avail))
            &&& dock_bottom_rect(rect, b) == dock_bottom_rect(
                rect,
                spec_opt_size(d2.bottom, rem_after_top(d2, avail)),
            )
            &&& dock_left_rect(rect, t, b, l) == dock_left_rect(
                rect,
                spec_opt_size(d2.top, avail),
                spec_opt_size(d2.bottom, rem_after_top(d2, avail)),
                spec_opt_size(d2.left, rem_after_bottom(d2, avail)),
            )
            &&& dock_center_rect(rect, t, b, l, mk_size(0, 0)).pos == dock_center_rect(
                rect,
                t,
                b,
                l,
                r,
            ).pos
            &&& dock_center_rect(rect, t, b, l, mk_size(0, 0)).size.height == dock_center_rect(
                rect,
                t,
                b,
                l,
                r,
            ).size.height
            &&& dock_center_rect(rect, t, b, l, mk_size(0, 0)).size.width == dock_center_rect(
                rect,
                t,
                b,
                l,
                r,
            ).size.width + r.width
        }),
{
    let t = spec_opt_size(d1.top, avail);
    let b = spec_opt_size(d1.bottom, rem_after_top(d1, avail));
    let l = spec_opt_size(d1.left, rem_after_bottom(d1, avail));
    let r = spec_opt_size(d1.right, rem_after_left(d1, avail));
    lemma_opt_size_bounded(d1.top, avail);
    lemma_opt_size_bounded(d1.bottom, rem_after_top(d1, avail));
    lemma_opt_size_bounded(d1.left, rem_after_bottom(d1, avail));
    lemma_opt_size_bounded(d1.right, rem_after_left(d1, avail));
}

/// Accumulates a dock's configuration; `build` validates it and
/// produces the component node.
#[derive(Debug)]
pub struct DockBuilder {
    pub sizing: Sizing,
    pub center: Option<Component>,
    pub top: Option<Component>,
    pub bottom: Option<Component>,
    pub left: Option<Component>,
    pub right: Option<Component>,
    pub handlers: HandlerFlags,
    pub visibility: Visibility,
}

impl Dock {
    /// A builder with the dock defaults: fit sizing, every slot empty.
    pub fn builder() -> (b: DockBuilder)
        ensures
            b.sizing.wf(),
            b.center is None && b.top is None && b.bottom is None && b.left is None && b.right
                is None,
            b.visibility == Visibility::Visible,
            b.handlers == HandlerFlags::spec_none(),
    {
        DockBuilder {
            sizing: Sizing::fit(),
            center: None,
            top: None,
            bottom: None,
            left: None,
            right: None,
            handlers: HandlerFlags::none(),
            visibility: Visibility::Visible,
        }
    }
}

impl DockBuilder {
    pub fn with_sizing(self, sizing: Sizing) -> (b: DockBuilder)
        ensures
            b == (DockBuilder { sizing, ..self }),
    {
        DockBuilder { sizing, ..self }
    }

    pub fn with_center(self, center: Component) -> (b: DockBuilder)
        requires
            wf(center),
        ensures
            b == (DockBuilder { center: Some(center), ..self }),
    {
        DockBuilder { center: Some(center), ..self }
    }

    pub fn with_top(self, top: Component) -> (b: DockBuilder)
        requires
            wf(top),
        ensures
            b == (DockBuilder { top: Some(top), ..self }),
    {
        DockBuilder { top: Some(top), ..self }
    }

    pub fn with_bottom(self, bottom: Component) -> (b: DockBuilder)
        requires
            wf(bottom),
        ensures
            b == (DockBuilder { bottom: Some(bottom), ..self }),
    {
        DockBuilder { bottom: Some(bottom), ..self }
    }

    pub fn with_left(self, left: Component) -> (b: DockBuilder)
        requires
            wf(left),
        ensures
            b == (DockBuilder { left: Some(left), ..self }),
    {
        DockBuilder { left: Some(left), ..self }
    }

    pub fn with_right(self, right: Component) -> (b: DockBuilder)
        requires
            wf(right),
        ensures
            b == (DockBuilder { right: Some(right), ..self }),
    {
        DockBuilder { right: Some(right), ..self }
    }

    pub fn with_handlers(self, handlers: HandlerFlags) -> (b: DockBuilder)
        ensures
            b == (DockBuilder { handlers, ..self }),
    {
        DockBuilder { handlers, ..self }
    }

    pub fn with_visibility(self, visibility: Visibility) -> (b: DockBuilder)
        ensures
            b == (DockBuilder { visibility, ..self }),
    {
        DockBuilder { visibility, ..self }
    }

    /// Validate the sizing and produce the node.
    pub fn build(self) -> (r: Result<Component, ErrorKind>)
        requires
            self.center matches Some(c) ==> wf(c),
            self.top matches Some(c) ==> wf(c),
            self.bottom matches Some(c) ==> wf(c),
            self.left matches Some(c) ==> wf(c),
            self.right matches Some(c) ==> wf(c),
        ensures
            self.sizing.wf() <==> r matches Ok(_),
            !self.sizing.wf() ==> r == Err::<Component, ErrorKind>(ErrorKind::InvalidSizing),
            r matches Ok(c) ==> {
                &&& wf(c)
                &&& c.sizing == self.sizing
                &&& c.visibility == self.visibility
                &&& c.handlers == self.handlers
                &&& c.final_size is None
                &&& c.final_rect is None
                &&& c.layout_dirty
                &&& c.visually_dirty
                &&& !c.cursor_in_bounds
                &&& c.controller matches ComponentController::Dock(d)
                &&& slot_built(self.center, c.controller->Dock_0.center)
                &&& slot_built(self.top, c.controller->Dock_0.top)
                &&& slot_built(self.bottom, c.controller->Dock_0.bottom)
                &&& slot_built(self.left, c.controller->Dock_0.left)
                &&& slot_built(self.right, c.controller->Dock_0.right)
            },
    {
        if !self.sizing.is_valid() {
            return Err(ErrorKind::InvalidSizing);
        }
        let comp = Component {
            sizing: self.sizing,
            visibility: self.visibility,
            handlers: self.handlers,
            controller: ComponentController::Dock(
                Dock {
                    top: box_slot(self.top),
                    bottom: box_slot(self.bottom),
                    left: box_slot(self.left),
                    right: box_slot(self.right),
                    center: box_slot(self.center),
                },
            ),
            final_size: None,
            final_rect: None,
            layout_dirty: true,
            visually_dirty: true,
            cursor_in_bounds: false,
        };
        proof {
            assert(crate::component::ctrl_wf(comp.controller));
            assert(wf(comp));
        }
        Ok(comp)
    }
}

/// The boxed slot holds exactly the component given to the builder, or
/// nothing where none was.
pub open spec fn slot_built(given: Option<Component>, slot: Option<Box<Component>>) -> bool {
    match (given, slot) {
        (Option::Some(c), Option::Some(b)) => *b == c,
        (Option::None, Option::None) => true,
        _ => false,
    }
}

/// Boxes an optional child for storage in a slot.
fn box_slot(given: Option<Component>) -> (slot: Option<Box<Component>>)
    ensures
        slot_built(given, slot),
        opt_wf(slot) == match given {
            Option::Some(c) => wf(c),
            Option::None => true,
        },
{
    match given {
        Some(c) => Some(Box::new(c)),
        None => None,
    }
}

} // verus!
