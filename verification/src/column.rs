//! A vertical stack: children measured greedily against the remaining
//! height, then placed top to bottom.

use vstd::prelude::*;

use crate::component::{
    arrange_updates, cached_size, col_prefix_claimed, count, cursor_updates, lemma_fits_within,
    lemma_measure_size_bounded, lemma_seq_count_ge, lemma_seq_cursor_exists,
    lemma_seq_dispatch_exists, mag, measure_updates, measured, mk_rect, mk_size, rect_fits,
    rect_room, seq_count, seq_cursor_handled, seq_dispatch, spec_cursor_handled, spec_dispatch,
    spec_measure_size, spec_used_size, wf, Component, MAX_CHILDREN,
};
use crate::geometry::{half_i64, lemma_half_bounds, spec_half, Point, Rect, Size, MAX_PIXELS};
use crate::component::seq_draw_upto;
use crate::drawing::DrawingContext;
use crate::component::{ComponentController, Visibility};
use crate::error::ErrorKind;
use crate::geometry::MAX_ORIGIN;
use crate::sizing::Length;
use crate::input_handling::{CursorMovedEvent, EventClass, HandlerFlags};
use crate::sizing::{HorizontalAlignment, Sizing};

verus! {

/// The column controller: the ordered children this node owns and how
/// they are aligned horizontally.
#[derive(Debug, PartialEq)]
#[verifier::ext_equal]
pub struct Column {
    pub horiz_align: HorizontalAlignment,
    pub children: Vec<Component>,
}

/// The height the first `n` children of `s` consume when measured
/// greedily: each child sees the full width and the height not yet
/// consumed by the children before it.
pub open spec fn spec_col_consumed(s: Seq<Component>, avail: Size, n: int) -> int
    decreases s, n,
{
    if n <= 0 || n > s.len() {
        0
    } else {
        let prev = spec_col_consumed(s, avail, n - 1);
        prev + spec_measure_size(s[n - 1], remaining_after(avail, prev)).height
    }
}

/// The widest measured width among the first `n` children of `s`,
/// starting from zero.
pub open spec fn spec_col_maxw(s: Seq<Component>, avail: Size, n: int) -> int
    decreases s, n,
{
    if n <= 0 || n > s.len() {
        0
    } else {
        let w = spec_measure_size(
            s[n - 1],
            remaining_after(avail, spec_col_consumed(s, avail, n - 1)),
        ).width as int;
        let prev = spec_col_maxw(s, avail, n - 1);
        if w > prev {
            w
        } else {
            prev
        }
    }
}

/// The space still on offer after `consumed` height is already claimed.
pub open spec fn remaining_after(avail: Size, consumed: int) -> Size {
    mk_size(avail.width as int, avail.height - consumed)
}

/// The offer the column's measure pass makes to child `i`.
pub open spec fn remaining_at(s: Seq<Component>, avail: Size, i: int) -> Size {
    remaining_after(avail, spec_col_consumed(s, avail, i))
}

/// How far below the column's top edge child `i` begins: the heights the
/// earlier children reported back from their own arrangement, summed.
pub open spec fn col_y_offset(s: Seq<Component>, i: int) -> int
    decreases i,
{
    if i <= 0 || i > s.len() {
        0
    } else {
        col_y_offset(s, i - 1) + spec_used_size(s[i - 1]).height
    }
}

/// The x coordinate the alignment rule gives a child of width `cw` in a
/// column spanning `rect`.
pub open spec fn col_child_x(align: HorizontalAlignment, rect: Rect, cw: int) -> int {
    match align {
        HorizontalAlignment::Left => rect.pos.x as int,
        HorizontalAlignment::Center => rect.pos.x + spec_half(rect.size.width - cw),
        HorizontalAlignment::Right => rect.pos.x + rect.size.width - cw,
    }
}

/// The rectangle the column's arrange pass requests for child `i`: the
/// child's cached measured size, placed at the running y offset and the
/// alignment's x.
pub open spec fn col_child_rect(col: Column, rect: Rect, i: int) -> Rect {
    let cs = cached_size(col.children@[i]);
    mk_rect(
        col_child_x(col.horiz_align, rect, cs.width as int),
        rect.pos.y + col_y_offset(col.children@, i),
        cs.width as int,
        cs.height as int,
    )
}

/// The greedy totals stay linear in the number of children: each child's
/// measured height lies within the pixel bound, so the running sum and
/// the maximum width do too.
pub proof fn lemma_col_totals_bounded(s: Seq<Component>, avail: Size, n: int)
    requires
        0 <= n <= s.len(),
        forall|j: int| 0 <= j < s.len() ==> (#[trigger] s[j]).sizing.wf(),
    ensures
        -n * MAX_PIXELS <= spec_col_consumed(s, avail, n) <= n * MAX_PIXELS,
        0 <= spec_col_maxw(s, avail, n) <= MAX_PIXELS,
    decreases n,
{
    if n > 0 {
        lemma_col_totals_bounded(s, avail, n - 1);
        lemma_measure_size_bounded(
            s[n - 1],
            remaining_after(avail, spec_col_consumed(s, avail, n - 1)),
        );
    }
}

impl Column {
    /// The greedy measure: children in order, each against the full width
    /// and the height the earlier children left over; the column requires
    /// the widest child width and the total consumed height. A child with
    /// fill height therefore takes whatever its predecessors left — the
    /// stack allocates greedily, not by a two-pass fair share.
    #[verifier::rlimit(50)]
    pub fn measure(&mut self, available: Size) -> (required: Size)
        requires
            old(self).children@.len() <= MAX_CHILDREN,
            forall|j: int|
                0 <= j < old(self).children@.len() ==> wf(#[trigger] old(self).children@[j]),
            -MAX_PIXELS <= available.width <= MAX_PIXELS,
            -MAX_PIXELS <= available.height <= MAX_PIXELS,
        ensures
            final(self).horiz_align == old(self).horiz_align,
            final(self).children@.len() == old(self).children@.len(),
            forall|j: int|
                0 <= j < old(self).children@.len() ==> measure_updates(
                    #[trigger] old(self).children@[j],
                    remaining_at(old(self).children@, available, j),
                    final(self).children@[j],
                ),
            required.width as int == spec_col_maxw(
                old(self).children@,
                available,
                old(self).children@.len() as int,
            ),
            required.height as int == spec_col_consumed(
                old(self).children@,
                available,
                old(self).children@.len() as int,
            ),
        decreases *old(self),
    {
        let ghost orig = self.children@;
        proof {
            assert(orig == old(self).children@);
        }
        let n = self.children.len();
        let mut i: usize = 0;
        let mut consumed: i64 = 0;
        let mut max_width: i64 = 0;
        while i < n
            invariant
                orig == old(self).children@,
                i <= n,
                n == self.children@.len(),
                n == orig.len(),
                n <= MAX_CHILDREN,
                -MAX_PIXELS <= available.width <= MAX_PIXELS,
                -MAX_PIXELS <= available.height <= MAX_PIXELS,
                forall|j: int| 0 <= j < n ==> wf(#[trigger] orig[j]),
                forall|j: int| i <= j < n ==> self.children@[j] == orig[j],
                forall|j: int|
                    0 <= j < i ==> measure_updates(
                        #[trigger] orig[j],
                        remaining_at(orig, available, j),
                        self.children@[j],
                    ),
                consumed as int == spec_col_consumed(orig, available, i as int),
                max_width as int == spec_col_maxw(orig, available, i as int),
                -(i as int) * MAX_PIXELS <= consumed as int <= (i as int) * MAX_PIXELS,
                0 <= max_width <= MAX_PIXELS,
                self.horiz_align == old(self).horiz_align,
            decreases n - i,
        {
            proof {
                lemma_col_totals_bounded(orig, available, i as int);
                assert(self.children@[i as int] == orig[i as int]);
                assert(decreases_to!(*old(self) => old(self).children));
                assert(decreases_to!(old(self).children => old(self).children@));
                assert(decreases_to!(old(self).children@ => old(self).children@[i as int]));
            }
            let remaining = Size { width: available.width, height: available.height - consumed };
            let ghost prev = self.children@;
            let child_size = self.children[i].measure(remaining);
            proof {
                assert(remaining == remaining_at(orig, available, i as int));
                lemma_measure_size_bounded(orig[i as int], remaining);
                assert(self.children@ == prev.update(
                    i as int,
                    self.children@[i as int],
                ));
                assert forall|j: int| 0 <= j < i as int + 1 implies measure_updates(
                    #[trigger] orig[j],
                    remaining_at(orig, available, j),
                    self.children@[j],
                ) by {
                    if j < i as int {
                        assert(self.children@[j] == prev[j]);
                    }
                }
                assert(spec_col_consumed(orig, available, i as int + 1) == consumed as int
                    + child_size.height as int);
                assert(spec_col_maxw(orig, available, i as int + 1) == if child_size.width as int
                    > max_width as int {
                    child_size.width as int
                } else {
                    max_width as int
                });
            }
            consumed = consumed + child_size.height;
            if child_size.width > max_width {
                max_width = child_size.width;
            }
            i = i + 1;
        }
        Size { width: max_width, height: consumed }
    }

    /// Offer a stateless event to each child in order, stopping at the
    /// first to claim it.
    pub fn dispatch_children(&self, class: EventClass) -> (handled: bool)
        ensures
            handled == seq_dispatch(self.children@, class),
        decreases *self,
    {
        let n = self.children.len();
        let mut i: usize = 0;
        while i < n
            invariant
                i <= n,
                n == self.children@.len(),
                forall|j: int| 0 <= j < i ==> !spec_dispatch(#[trigger] self.children@[j], class),
            decreases n - i,
        {
            if self.children[i].dispatch_class(class) {
                proof {
                    lemma_seq_dispatch_exists(self.children@, class);
                }
                return true;
            }
            i = i + 1;
        }
        proof {
            lemma_seq_dispatch_exists(self.children@, class);
        }
        false
    }

    /// Offer a cursor-moved event to each child in order, stopping at
    /// the first to claim it; the children after it are left untouched.
    pub fn cursor_children(&mut self, event: &CursorMovedEvent) -> (handled: bool)
        ensures
            handled == seq_cursor_handled(old(self).children@, event.pos),
            final(self).horiz_align == old(self).horiz_align,
            final(self).children@.len() == old(self).children@.len(),
            forall|i: int|
                0 <= i < old(self).children@.len() ==> if col_prefix_claimed(
                    old(self).children@,
                    event.pos,
                    i,
                ) {
                    final(self).children@[i] == #[trigger] old(self).children@[i]
                } else {
                    cursor_updates(old(self).children@[i], event.pos, final(self).children@[i])
                },
        decreases *old(self),
    {
        let ghost orig = self.children@;
        let n = self.children.len();
        let mut i: usize = 0;
        while i < n
            invariant
                orig == old(self).children@,
                i <= n,
                n == self.children@.len(),
                n == orig.len(),
                forall|j: int| i <= j < n ==> self.children@[j] == orig[j],
                forall|j: int| 0 <= j < i ==> !spec_cursor_handled(#[trigger] orig[j], event.pos),
                forall|j: int|
                    0 <= j < i ==> cursor_updates(
                        #[trigger] orig[j],
                        event.pos,
                        self.children@[j],
                    ),
                self.horiz_align == old(self).horiz_align,
            decreases n - i,
        {
            proof {
                assert(self.children@[i as int] == orig[i as int]);
                assert(decreases_to!(*old(self) => old(self).children));
                assert(decreases_to!(old(self).children => old(self).children@));
                assert(decreases_to!(old(self).children@ => old(self).children@[i as int]));
            }
            let ghost prev = self.children@;
            let claimed = self.children[i].dispatch_cursor_moved(event);
            proof {
                assert(self.children@ == prev.update(i as int, self.children@[i as int]));
                assert forall|j: int| 0 <= j < i as int + 1 implies cursor_updates(
                    #[trigger] orig[j],
                    event.pos,
                    self.children@[j],
                ) by {
                    if j < i as int {
                        assert(self.children@[j] == prev[j]);
                    }
                }
            }
            if claimed {
                proof {
                    lemma_seq_cursor_exists(orig, event.pos);
                    assert forall|j: int| 0 <= j < n implies (if col_prefix_claimed(
                        orig,
                        event.pos,
                        j,
                    ) {
                        self.children@[j] == #[trigger] orig[j]
                    } else {
                        cursor_updates(orig[j], event.pos, self.children@[j])
                    }) by {
                        if j > i as int {
                            assert(spec_cursor_handled(orig[i as int], event.pos));
                            assert(col_prefix_claimed(orig, event.pos, j));
                        } else {
                            assert(!col_prefix_claimed(orig, event.pos, j));
                        }
                    }
                }
                return true;
            }
            i = i + 1;
        }
        proof {
            lemma_seq_cursor_exists(orig, event.pos);
            assert forall|j: int| 0 <= j < n implies !col_prefix_claimed(orig, event.pos, j) by {}
        }
        false
    }

    /// Draw the children in order, so later children paint on top.
    pub fn draw_children(&self, context: &mut DrawingContext)
        ensures
            final(context).commands_seq() == old(context).commands_seq() + seq_draw_upto(
                self.children@,
                self.children@.len() as int,
            ),
            final(context).scissors_seq() == old(context).scissors_seq(),
        decreases *self,
    {
        let n = self.children.len();
        let mut i: usize = 0;
        proof {
            assert(context.commands_seq() =~= old(context).commands_seq() + seq_draw_upto(
                self.children@,
                0,
            ));
        }
        while i < n
            invariant
                i <= n,
                n == self.children@.len(),
                context.commands_seq() == old(context).commands_seq() + seq_draw_upto(
                    self.children@,
                    i as int,
                ),
                context.scissors_seq() == old(context).scissors_seq(),
            decreases n - i,
        {
            self.children[i].draw(context);
            proof {
                assert(context.commands_seq() =~= old(context).commands_seq() + seq_draw_upto(
                    self.children@,
                    i as int + 1,
                ));
            }
            i = i + 1;
        }
    }

    /// Whether every child has been measured.
    pub fn children_measured(&self) -> (res: bool)
        ensures
            res == forall|j: int|
                0 <= j < self.children@.len() ==> measured(#[trigger] self.children@[j]),
        decreases *self,
    {
        let n = self.children.len();
        let mut i: usize = 0;
        while i < n
            invariant
                i <= n,
                n == self.children@.len(),
                forall|j: int| 0 <= j < i ==> measured(#[trigger] self.children@[j]),
            decreases n - i,
        {
            if !self.children[i].is_measured() {
                return false;
            }
            i = i + 1;
        }
        true
    }

    /// Place the children top to bottom: each child gets its cached
    /// measured size, the alignment rule's x, and a y offset that
    /// advances by the height each child actually used.
    #[verifier::rlimit(60)]
    pub fn arrange(&mut self, rect: Rect)
        requires
            old(self).children@.len() <= MAX_CHILDREN,
            forall|j: int|
                0 <= j < old(self).children@.len() ==> wf(#[trigger] old(self).children@[j]),
            forall|j: int|
                0 <= j < old(self).children@.len() ==> measured(#[trigger] old(self).children@[j]),
            rect_fits(rect, (seq_count(old(self).children@) + 1) as nat),
        ensures
            final(self).horiz_align == old(self).horiz_align,
            final(self).children@.len() == old(self).children@.len(),
            forall|j: int|
                0 <= j < old(self).children@.len() ==> arrange_updates(
                    #[trigger] old(self).children@[j],
                    col_child_rect(*old(self), rect, j),
                    final(self).children@[j],
                ),
        decreases *old(self),
    {
        let ghost orig = self.children@;
        proof {
            assert(orig == old(self).children@);
        }
        let n = self.children.len();
        let mut i: usize = 0;
        let mut y: i64 = rect.pos.y;
        while i < n
            invariant
                orig == old(self).children@,
                i <= n,
                n == self.children@.len(),
                n == orig.len(),
                n <= MAX_CHILDREN,
                rect_fits(rect, (seq_count(orig) + 1) as nat),
                forall|j: int| 0 <= j < n ==> wf(#[trigger] orig[j]),
                forall|j: int| 0 <= j < n ==> measured(#[trigger] orig[j]),
                forall|j: int| i <= j < n ==> self.children@[j] == orig[j],
                forall|j: int|
                    0 <= j < i ==> arrange_updates(
                        #[trigger] orig[j],
                        col_child_rect(*old(self), rect, j),
                        self.children@[j],
                    ),
                y as int == rect.pos.y + col_y_offset(orig, i as int),
                mag(col_y_offset(orig, i as int)) <= (i as int) * (MAX_PIXELS as int),
                self.horiz_align == old(self).horiz_align,
            decreases n - i,
        {
            proof {
                lemma_seq_count_ge(orig, i as int);
                assert(self.children@[i as int] == orig[i as int]);
                assert(decreases_to!(*old(self) => old(self).children));
                assert(decreases_to!(old(self).children => old(self).children@));
                assert(decreases_to!(old(self).children@ => old(self).children@[i as int]));
            }
            let cs = match self.children[i].final_size() {
                Some(s) => s,
                None => {
                    proof {
                        assert(false);
                    }
                    Size::zero()
                },
            };
            proof {
                lemma_half_bounds(rect.size.width - cs.width);
            }
            let cx = match self.horiz_align {
                HorizontalAlignment::Left => rect.pos.x,
                HorizontalAlignment::Center => rect.pos.x + half_i64(rect.size.width - cs.width),
                HorizontalAlignment::Right => rect.pos.x + rect.size.width - cs.width,
            };
            let child_rect = Rect { pos: Point { x: cx, y }, size: cs };
            proof {
                assert(-MAX_PIXELS <= cs.width <= MAX_PIXELS);
                assert(-MAX_PIXELS <= cs.height <= MAX_PIXELS);
                assert(child_rect == col_child_rect(*old(self), rect, i as int));
                assert(mag(cx as int) <= mag(rect.pos.x as int) + mag(rect.size.width as int)
                    + MAX_PIXELS as int);
                assert(mag(y as int) <= mag(rect.pos.y as int) + (i as int) * (MAX_PIXELS as int));
                assert(rect_room(child_rect) <= rect_room(rect) + (i as int + 3) * (
                MAX_PIXELS as int));
                assert((i as int + 3) * (MAX_PIXELS as int) <= 8 * (MAX_PIXELS as int) * (seq_count(
                    orig,
                ) + 1 - count(orig[i as int])));
                lemma_fits_within(
                    rect,
                    (seq_count(orig) + 1) as nat,
                    child_rect,
                    count(orig[i as int]),
                    (i as int + 3) * (MAX_PIXELS as int),
                );
            }
            let ghost prev = self.children@;
            let used = self.children[i].arrange_in(child_rect);
            proof {
                assert(self.children@ == prev.update(i as int, self.children@[i as int]));
                assert forall|j: int| 0 <= j < i as int + 1 implies arrange_updates(
                    #[trigger] orig[j],
                    col_child_rect(*old(self), rect, j),
                    self.children@[j],
                ) by {
                    if j < i as int {
                        assert(self.children@[j] == prev[j]);
                    }
                }
                assert(used.size.height as int == spec_used_size(orig[i as int]).height as int);
                assert(col_y_offset(orig, i as int + 1) == col_y_offset(orig, i as int)
                    + spec_used_size(orig[i as int]).height);
            }
            y = y + used.size.height;
            i = i + 1;
        }
    }
}

/// Measuring an already-measured child list consumes the same heights:
/// the greedy totals, and the offers derived from them, are unchanged,
/// and each measured child is a fixed point of its own re-measure.
pub proof fn lemma_col_measure_idempotent(s: Seq<Component>, avail: Size, s2: Seq<Component>, n: int)
    requires
        0 <= n <= s.len(),
        s2.len() == s.len(),
        forall|i: int|
            0 <= i < s.len() ==> measure_updates(
                #[trigger] s[i],
                remaining_at(s, avail, i),
                s2[i],
            ),
    ensures
        spec_col_consumed(s2, avail, n) == spec_col_consumed(s, avail, n),
        spec_col_maxw(s2, avail, n) == spec_col_maxw(s, avail, n),
        forall|i: int|
            0 <= i < n ==> measure_updates(
                #[trigger] s2[i],
                remaining_at(s2, avail, i),
                s2[i],
            ),
    decreases s, n,
{
    if n > 0 {
        lemma_col_measure_idempotent(s, avail, s2, n - 1);
        let i = n - 1;
        crate::component::lemma_measure_idempotent(s[i], remaining_at(s, avail, i), s2[i]);
        assert(remaining_at(s2, avail, i) == remaining_at(s, avail, i));
    }
}

/// The pixel amount a fixed-height child demands; zero on other axes'
/// policies, which the conservation law excludes.
pub open spec fn fixed_height(c: Component) -> int {
    match c.sizing.height.desired {
        Length::Fixed(pixels) => pixels as int,
        _ => 0,
    }
}

/// The fixed heights of the first `n` children, summed.
pub open spec fn sum_fixed_heights(s: Seq<Component>, n: int) -> int
    decreases n,
{
    if n <= 0 || n > s.len() {
        0
    } else {
        sum_fixed_heights(s, n - 1) + fixed_height(s[n - 1])
    }
}

/// A visible or hidden fixed-height child measures to exactly its fixed
/// height, whatever space it is offered.
pub proof fn lemma_fixed_child_height(c: Component, avail: Size)
    requires
        wf(c),
        c.visibility != Visibility::Collapsed,
        c.sizing.height.desired is Fixed,
    ensures
        spec_measure_size(c, avail).height == fixed_height(c),
        spec_used_size(
            Component { final_size: Some(spec_measure_size(c, avail)), ..c },
        ).height == fixed_height(c),
{
}

/// The greedy pass consumes exactly the fixed heights, child by child.
pub proof fn lemma_col_consumed_fixed(s: Seq<Component>, avail: Size, n: int)
    requires
        0 <= n <= s.len(),
        forall|i: int| 0 <= i < s.len() ==> wf(#[trigger] s[i]),
        forall|i: int|
            0 <= i < s.len() ==> (#[trigger] s[i]).visibility != Visibility::Collapsed,
        forall|i: int| 0 <= i < s.len() ==> (#[trigger] s[i]).sizing.height.desired is Fixed,
    ensures
        spec_col_consumed(s, avail, n) == sum_fixed_heights(s, n),
    decreases n,
{
    if n > 0 {
        lemma_col_consumed_fixed(s, avail, n - 1);
        lemma_fixed_child_height(s[n - 1], remaining_at(s, avail, n - 1));
    }
}

/// After the measure pass, the running arrange offset over the measured
/// children equals the running sum of the fixed heights.
pub proof fn lemma_col_offsets_fixed(
    s: Seq<Component>,
    avail: Size,
    s2: Seq<Component>,
    n: int,
)
    requires
        0 <= n <= s.len(),
        s2.len() == s.len(),
        forall|i: int| 0 <= i < s.len() ==> wf(#[trigger] s[i]),
        forall|i: int|
            0 <= i < s.len() ==> (#[trigger] s[i]).visibility != Visibility::Collapsed,
        forall|i: int| 0 <= i < s.len() ==> (#[trigger] s[i]).sizing.height.desired is Fixed,
        forall|i: int|
            0 <= i < s.len() ==> measure_updates(
                #[trigger] s[i],
                remaining_at(s, avail, i),
                s2[i],
            ),
    ensures
        col_y_offset(s2, n) == sum_fixed_heights(s, n),
    decreases n,
{
    if n > 0 {
        lemma_col_offsets_fixed(s, avail, s2, n - 1);
        let i = n - 1;
        lemma_fixed_child_height(s[i], remaining_at(s, avail, i));
        assert(s2[i].final_size == Some(spec_measure_size(s[i], remaining_at(s, avail, i))));
        assert(s2[i].visibility == s[i].visibility);
        assert(spec_used_size(s2[i]).height == fixed_height(s[i]));
    }
}

/// The vertical placement half of the conservation law, over the column
/// payloads: once the children are measured, the arrange pass puts child
/// `i` at the offset the earlier fixed heights sum to.
#[verifier::spinoff_prover]
#[verifier::rlimit(100)]
pub proof fn lemma_column_arranged_offsets(
    s: Seq<Component>,
    avail: Size,
    colm: Column,
    rect: Rect,
    cola: Column,
)
    requires
        colm.children@.len() == s.len(),
        forall|i: int| 0 <= i < s.len() ==> wf(#[trigger] s[i]),
        forall|i: int|
            0 <= i < s.len() ==> (#[trigger] s[i]).visibility != Visibility::Collapsed,
        forall|i: int| 0 <= i < s.len() ==> (#[trigger] s[i]).sizing.height.desired is Fixed,
        forall|i: int|
            0 <= i < s.len() ==> measure_updates(
                #[trigger] s[i],
                remaining_at(s, avail, i),
                colm.children@[i],
            ),
        crate::component::ctrl_arrange_updates(
            ComponentController::Column(colm),
            rect,
            ComponentController::Column(cola),
        ),
        mag(rect.pos.y as int) + (s.len() + 1) * (MAX_PIXELS as int) <= MAX_ORIGIN as int,
    ensures
        forall|i: int|
            0 <= i < s.len() ==> ((#[trigger] cola.children@[i]).final_rect matches Some(rc)
                && rc.pos.y == rect.pos.y + sum_fixed_heights(s, i)),
{
    let s2 = colm.children@;
    assert forall|i: int| 0 <= i < s.len() implies ((#[trigger] cola.children@[i]).final_rect
        matches Some(rc) && rc.pos.y == rect.pos.y + sum_fixed_heights(s, i)) by {
        lemma_col_offsets_fixed(s, avail, s2, i);
        lemma_offset_small(s, avail, s2, i);
        assert(measure_updates(s[i], remaining_at(s, avail, i), s2[i]));
        assert(arrange_updates(s2[i], col_child_rect(colm, rect, i), cola.children@[i]));
        assert(s2[i].visibility != Visibility::Collapsed);
    }
}

/// Column height conservation: a visible fit-height column of visible
/// fixed-height children measures to exactly the sum of those heights
/// (the clamps permitting), and the arrange pass places child `i` at a
/// vertical offset of exactly the heights of the children before it.
#[verifier::spinoff_prover]
#[verifier::rlimit(100)]
pub proof fn lemma_column_height_conservation(
    c: Component,
    available: Size,
    m: Component,
    rect: Rect,
    a: Component,
)
    requires
        wf(c),
        c.visibility == Visibility::Visible,
        c.controller matches ComponentController::Column(col),
        c.sizing.height.desired == Length::Fit,
        forall|i: int|
            0 <= i < c.controller->Column_0.children@.len() ==> wf(
                #[trigger] c.controller->Column_0.children@[i],
            ),
        forall|i: int|
            0 <= i < c.controller->Column_0.children@.len() ==> (
            #[trigger] c.controller->Column_0.children@[i]).visibility != Visibility::Collapsed,
        forall|i: int|
            0 <= i < c.controller->Column_0.children@.len() ==> (
            #[trigger] c.controller->Column_0.children@[i]).sizing.height.desired is Fixed,
        c.sizing.height.min <= sum_fixed_heights(
            c.controller->Column_0.children@,
            c.controller->Column_0.children@.len() as int,
        ) <= c.sizing.height.max,
        measure_updates(c, available, m),
        arrange_updates(m, rect, a),
        mag(rect.pos.y as int) + (c.controller->Column_0.children@.len() + 1) * (
        MAX_PIXELS as int) <= MAX_ORIGIN as int,
    ensures
        spec_measure_size(c, available).height == sum_fixed_heights(
            c.controller->Column_0.children@,
            c.controller->Column_0.children@.len() as int,
        ),
        m.final_size == Some(spec_measure_size(c, available)),
        forall|i: int|
            0 <= i < c.controller->Column_0.children@.len() ==> ((
            #[trigger] a.controller->Column_0.children@[i]).final_rect matches Some(rc)
                && rc.pos.y == rect.pos.y + sum_fixed_heights(
                c.controller->Column_0.children@,
                i,
            )),
{
    let s = c.controller->Column_0.children@;
    let n = s.len() as int;
    let avail = crate::component::mk_size(
        crate::sizing::spec_available_axis(c.sizing.width, available.width as int),
        crate::sizing::spec_available_axis(c.sizing.height, available.height as int),
    );
    lemma_col_consumed_fixed(s, avail, n);
    lemma_col_totals_bounded(s, avail, n);
    assert(crate::component::ctrl_measure_updates(c.controller, avail, m.controller));
    assert(m.controller matches ComponentController::Column(_));
    let colm = m.controller->Column_0;
    assert forall|i: int| 0 <= i < n implies measure_updates(
        #[trigger] s[i],
        remaining_at(s, avail, i),
        colm.children@[i],
    ) by {}
    assert(m.visibility == Visibility::Visible);
    assert(crate::component::ctrl_arrange_updates(m.controller, rect, a.controller));
    lemma_column_arranged_offsets(s, avail, colm, rect, a.controller->Column_0);
}

/// The running offset stays within one pixel bound per child.
proof fn lemma_offset_small(s: Seq<Component>, avail: Size, s2: Seq<Component>, n: int)
    requires
        0 <= n <= s.len(),
        s2.len() == s.len(),
        forall|i: int| 0 <= i < s.len() ==> wf(#[trigger] s[i]),
        forall|i: int|
            0 <= i < s.len() ==> measure_updates(
                #[trigger] s[i],
                remaining_at(s, avail, i),
                s2[i],
            ),
    ensures
        -n * (MAX_PIXELS as int) <= col_y_offset(s2, n) <= n * (MAX_PIXELS as int),
    decreases n,
{
    if n > 0 {
        lemma_offset_small(s, avail, s2, n - 1);
        let i = n - 1;
        lemma_measure_size_bounded(s[i], remaining_at(s, avail, i));
        assert(s2[i].final_size == Some(spec_measure_size(s[i], remaining_at(s, avail, i))));
    }
}

/// Accumulates a column's configuration; `build` validates it and
/// produces the component node.
#[derive(Debug)]
pub struct ColumnBuilder {
    pub sizing: Sizing,
    pub children: Vec<Component>,
    pub horiz_align: HorizontalAlignment,
    pub handlers: HandlerFlags,
    pub visibility: Visibility,
}

impl Column {
    /// A builder with the column defaults: fit sizing, no children,
    /// left alignment.
    pub fn builder() -> (b: ColumnBuilder)
        ensures
            b.sizing.wf(),
            b.children@ == Seq::<Component>::empty(),
            b.horiz_align == HorizontalAlignment::Left,
            b.visibility == Visibility::Visible,
            b.handlers == HandlerFlags::spec_none(),
    {
        ColumnBuilder {
            sizing: Sizing::fit(),
            children: Vec::new(),
            horiz_align: HorizontalAlignment::Left,
            handlers: HandlerFlags::none(),
            visibility: Visibility::Visible,
        }
    }
}

impl ColumnBuilder {
    pub fn with_sizing(self, sizing: Sizing) -> (b: ColumnBuilder)
        ensures
            b == (ColumnBuilder { sizing, ..self }),
    {
        ColumnBuilder { sizing, ..self }
    }

    /// The ordered children to stack; they replace any set before.
    pub fn with_children(self, children: Vec<Component>) -> (b: ColumnBuilder)
        requires
            children@.len() <= MAX_CHILDREN,
            forall|i: int| 0 <= i < children@.len() ==> wf(#[trigger] children@[i]),
        ensures
            b.children == children,
            b.sizing == self.sizing,
            b.horiz_align == self.horiz_align,
            b.handlers == self.handlers,
            b.visibility == self.visibility,
    {
        ColumnBuilder { children, ..self }
    }

    pub fn with_alignment(self, alignment: HorizontalAlignment) -> (b: ColumnBuilder)
        ensures
            b == (ColumnBuilder { horiz_align: alignment, ..self }),
    {
        ColumnBuilder { horiz_align: alignment, ..self }
    }

    pub fn with_handlers(self, handlers: HandlerFlags) -> (b: ColumnBuilder)
        ensures
            b == (ColumnBuilder { handlers, ..self }),
    {
        ColumnBuilder { handlers, ..self }
    }

    pub fn with_visibility(self, visibility: Visibility) -> (b: ColumnBuilder)
        ensures
            b == (ColumnBuilder { visibility, ..self }),
    {
        ColumnBuilder { visibility, ..self }
    }

    /// Validate the sizing and produce the node.
    pub fn build(self) -> (r: Result<Component, ErrorKind>)
        requires
            self.children@.len() <= MAX_CHILDREN,
            forall|i: int| 0 <= i < self.children@.len() ==> wf(#[trigger] self.children@[i]),
        ensures
            self.sizing.wf() <==> r matches Ok(_),
            !self.sizing.wf() ==> r == Err::<Component, ErrorKind>(ErrorKind::InvalidSizing),
            r matches Ok(c) ==> {
                &&& wf(c)
                &&& c.sizing == self.sizing
                &&& c.visibility == self.visibility
                &&& c.handlers == self.handlers
                &&& c.final_size is None
                &&& c.final_rect is None
                &&& c.layout_dirty
                &&& c.visually_dirty
                &&& !c.cursor_in_bounds
                &&& c.controller matches ComponentController::Column(col)
                &&& c.controller->Column_0.horiz_align == self.horiz_align
                &&& c.controller->Column_0.children == self.children
            },
    {
        if !self.sizing.is_valid() {
            return Err(ErrorKind::InvalidSizing);
        }
        let comp = Component {
            sizing: self.sizing,
            visibility: self.visibility,
            handlers: self.handlers,
            controller: ComponentController::Column(
                Column { horiz_align: self.horiz_align, children: self.children },
            ),
            final_size: None,
            final_rect: None,
            layout_dirty: true,
            visually_dirty: true,
            cursor_in_bounds: false,
        };
        proof {
            assert(crate::component::ctrl_wf(comp.controller));
            assert(wf(comp));
        }
        Ok(comp)
    }
}

} // verus!
