//! The scene: owns at most one root component, lays it out against the
//! canvas, forwards draw and input calls, and lets the host swap whole
//! trees in and out.

use vstd::prelude::*;

use crate::color::Color;
use crate::component::{
    arrange_updates, count, cursor_updates, lemma_measure_keeps, lemma_measure_size_bounded,
    measure_updates, mk_rect, rect_fits, rect_room, spec_cursor_handled, spec_dispatch,
    spec_draw, spec_measure_size, wf, Component,
};
use crate::drawing::DrawingContext;
use crate::geometry::{spec_half, Point, Rect, Size, MAX_PIXELS};
use crate::input_handling::{
    CursorMovedEvent, EventClass, KeyEvent, MouseButtonEvent, MouseWheelEvent,
};

verus! {

/// Most nodes a scene's tree may hold; keeps the arrange pass's origin
/// budget within the coordinate range for any canvas.
pub const MAX_SCENE_NODES: u64 = 100_000_000;

/// Hooks a host implements to hear about a scene's lifecycle.
pub trait SceneController {
    fn on_init(&mut self, _scene: &Scene) {
    }

    fn on_active(&mut self, _scene: &Scene) {
    }

    fn on_inactive(&mut self, _scene: &Scene) {
    }
}

/// A screenful of retained components: at most one root, a background
/// color, and a flag marking the layout stale.
#[derive(Debug, PartialEq)]
pub struct Scene {
    pub root: Option<Component>,
    pub background_color: Color,
    pub layout_dirty: bool,
}

/// The rectangle the root is arranged into: its measured size, centered
/// on the canvas.
pub open spec fn scene_target_rect(root: Component, canvas_size: Size) -> Rect {
    let ms = spec_measure_size(root, canvas_size);
    mk_rect(
        spec_half(canvas_size.width - ms.width),
        spec_half(canvas_size.height - ms.height),
        ms.width as int,
        ms.height as int,
    )
}

impl Scene {
    /// A scene whose tree is small enough to lay out: an empty scene, or
    /// one whose root is well-formed and within the node bound.
    pub open spec fn wf(self) -> bool {
        match self.root {
            Option::Some(r) => wf(r) && count(r) <= MAX_SCENE_NODES,
            Option::None => true,
        }
    }

    /// What a root swap does: the new root goes in, the old one comes
    /// back out, and nothing else changes.
    pub open spec fn spec_swap_root(self, new_root: Option<Component>) -> (Scene, Option<
        Component,
    >) {
        (Scene { root: new_root, ..self }, self.root)
    }

    /// An empty scene: no root, white background, layout stale.
    pub fn new() -> (s: Scene)
        ensures
            s.root is None,
            s.background_color == (Color { r: 255, g: 255, b: 255, a: 255 }),
            s.layout_dirty,
            s.wf(),
    {
        Scene { root: None, background_color: Color::white(), layout_dirty: true }
    }

    /// Put `new_root` in place of the current root and hand the current
    /// root back to the caller for disposal or reuse.
    pub fn swap_root(&mut self, new_root: Option<Component>) -> (old_root: Option<Component>)
        ensures
            *final(self) == old(self).spec_swap_root(new_root).0,
            old_root == old(self).spec_swap_root(new_root).1,
    {
        let mut slot = new_root;
        core::mem::swap(&mut slot, &mut self.root);
        slot
    }

    pub fn set_background_color(&mut self, color: Color)
        ensures
            *final(self) == (Scene { background_color: color, ..*old(self) }),
    {
        self.background_color = color;
    }

    pub fn get_background_color(&self) -> (color: Color)
        ensures
            color == self.background_color,
    {
        self.background_color
    }

    /// Run both layout passes against the canvas: measure the root with
    /// the whole canvas available, then arrange it into its measured
    /// size centered on the canvas. An empty scene only clears the
    /// stale-layout flag.
    pub fn update_layout(&mut self, canvas_size: Size)
        requires
            old(self).wf(),
            0 <= canvas_size.width <= MAX_PIXELS,
            0 <= canvas_size.height <= MAX_PIXELS,
        ensures
            final(self).background_color == old(self).background_color,
            !final(self).layout_dirty,
            old(self).root is None ==> final(self).root is None,
            old(self).root matches Some(r) ==> final(self).root matches Some(a) && exists|
                m: Component,
            |
                #[trigger] measure_updates(r, canvas_size, m) && arrange_updates(
                    m,
                    scene_target_rect(r, canvas_size),
                    a,
                ),
    {
        match &mut self.root {
            Some(root) => {
                let ghost r0 = *root;
                let ms = root.measure(canvas_size);
                proof {
                    lemma_measure_keeps(r0, canvas_size, *root);
                    lemma_measure_size_bounded(r0, canvas_size);
                }
                let frame = Rect { pos: Point { x: 0, y: 0 }, size: canvas_size };
                let target = frame.align_center(ms);
                proof {
                    assert(target == scene_target_rect(r0, canvas_size));
                    crate::geometry::lemma_half_bounds(canvas_size.width - ms.width);
                    crate::geometry::lemma_half_bounds(canvas_size.height - ms.height);
                    assert(count(*root) == count(r0));
                    assert(count(r0) <= MAX_SCENE_NODES);
                    assert(rect_room(target) <= 6 * (MAX_PIXELS as int));
                    let n = count(*root) as int;
                    assert(8 * (MAX_PIXELS as int) * (n + 1) <= 8 * (MAX_PIXELS as int) * (
                    MAX_SCENE_NODES as int + 1)) by (nonlinear_arith)
                        requires
                            0 <= n <= MAX_SCENE_NODES as int,
                    ;
                    assert(rect_fits(target, count(*root)));
                }
                let outcome = root.arrange(target);
                match outcome {
                    Ok(_) => {},
                    Err(_) => {
                        proof {
                            assert(false);
                        }
                    },
                }
            },
            None => {},
        }
        self.layout_dirty = false;
    }

    /// Mark the layout stale; the next draw-driven `update_layout` will
    /// recompute the whole tree.
    pub fn on_canvas_size_changed(&mut self, _canvas_size: Size)
        ensures
            *final(self) == (Scene { layout_dirty: true, ..*old(self) }),
    {
        self.layout_dirty = true;
    }

    /// Draw the root, if any, into the context.
    pub fn draw(&self, context: &mut DrawingContext)
        ensures
            final(context).commands_seq() == old(context).commands_seq() + match self.root {
                Option::Some(r) => spec_draw(r),
                Option::None => Seq::empty(),
            },
            final(context).scissors_seq() == old(context).scissors_seq(),
    {
        match &self.root {
            Some(root) => root.draw(context),
            None => {
                proof {
                    assert(old(context).commands_seq() + Seq::<
                        crate::drawing::DrawCommand,
                    >::empty() =~= old(context).commands_seq());
                }
            },
        }
    }

    /// Offer a key event to the root's dispatch chain.
    pub fn on_key(&self, event: &KeyEvent) -> (handled: bool)
        ensures
            handled == match self.root {
                Option::Some(r) => spec_dispatch(r, EventClass::Key),
                Option::None => false,
            },
    {
        match &self.root {
            Some(root) => root.dispatch_key(event),
            None => false,
        }
    }

    /// Offer a mouse-button event to the root's dispatch chain.
    pub fn on_mouse_button(&self, event: &MouseButtonEvent) -> (handled: bool)
        ensures
            handled == match self.root {
                Option::Some(r) => spec_dispatch(r, EventClass::MouseButton),
                Option::None => false,
            },
    {
        match &self.root {
            Some(root) => root.dispatch_mouse_button(event),
            None => false,
        }
    }

    /// Offer a mouse-wheel event to the root's dispatch chain.
    pub fn on_mouse_wheel(&self, event: &MouseWheelEvent) -> (handled: bool)
        ensures
            handled == match self.root {
                Option::Some(r) => spec_dispatch(r, EventClass::MouseWheel),
                Option::None => false,
            },
    {
        match &self.root {
            Some(root) => root.dispatch_mouse_wheel(event),
            None => false,
        }
    }

    /// Offer a cursor-moved event to the root's dispatch chain.
    pub fn on_cursor_moved(&mut self, event: &CursorMovedEvent) -> (handled: bool)
        ensures
            handled == match old(self).root {
                Option::Some(r) => spec_cursor_handled(r, event.pos),
                Option::None => false,
            },
            old(self).root is None ==> *final(self) == *old(self),
            old(self).root matches Some(r) ==> final(self).root matches Some(r2)
                && cursor_updates(r, event.pos, r2) && final(self).background_color == old(
                self,
            ).background_color && final(self).layout_dirty == old(self).layout_dirty,
    {
        match &mut self.root {
            Some(root) => root.dispatch_cursor_moved(event),
            None => false,
        }
    }
}

/// Swapping roots is a round trip: after `a` then `b` go in, swapping in
/// `b` hands `a` back, and swapping the root out again hands `b` back,
/// leaving the scene empty.
pub proof fn lemma_swap_root_round_trip(s: Scene, a: Component, b: Component)
    ensures
        ({
            let (s1, _r1) = s.spec_swap_root(Some(a));
            let (s2, r2) = s1.spec_swap_root(Some(b));
            let (s3, r3) = s2.spec_swap_root(None);
            r2 == Some(a) && r3 == Some(b) && s3.root is None
        }),
{
}

} // verus!
