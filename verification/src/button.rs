//! A button: a single-content wrapper that paints a background behind its
//! (optional) centered content.

use vstd::prelude::*;

use crate::color::Color;
use crate::component::{
    count, lemma_fits_within, mk_rect, opt_arrange_updates, opt_cached, opt_count,
    opt_cursor_handled, opt_cursor_updates, opt_dispatch, opt_draw, opt_measure_updates,
    opt_measured, opt_wf, rect_fits, rect_room, spec_opt_size, Component,
};
use crate::drawing::DrawingContext;
use crate::component::{wf, ComponentController, Visibility};
use crate::error::ErrorKind;
use crate::geometry::{lemma_half_bounds, spec_half, Rect, Size, MAX_PIXELS};
use crate::input_handling::{CursorMovedEvent, EventClass, HandlerFlags};
use crate::sizing::Sizing;
use vstd::prelude::*;

verus! {

/// The button controller: a background color and the optional content
/// child this node owns.
#[derive(Debug, PartialEq)]
#[verifier::ext_equal]
pub struct Button {
    pub background: Color,
    pub content: Option<Box<Component>>,
}

/// The rectangle a button's arrange pass requests for its content: the
/// content's cached measured size, centered within the button's own
/// rectangle.
pub open spec fn button_content_rect(b: Button, rect: Rect) -> Rect {
    let cs = opt_cached(b.content);
    mk_rect(
        rect.pos.x + spec_half(rect.size.width - cs.width),
        rect.pos.y + spec_half(rect.size.height - cs.height),
        cs.width as int,
        cs.height as int,
    )
}

impl Button {
    /// A button requires what its content requires, measured against the
    /// clamped offer; an empty button requires nothing.
    pub fn measure(&mut self, available: Size) -> (required: Size)
        requires
            opt_wf(old(self).content),
        ensures
            final(self).background == old(self).background,
            opt_measure_updates(old(self).content, available, final(self).content),
            required == spec_opt_size(old(self).content, available),
        decreases *old(self),
    {
        match &mut self.content {
            Some(c) => c.measure(available),
            None => Size::zero(),
        }
    }

    /// Offer a stateless event to the content, if there is one.
    pub fn dispatch_content(&self, class: EventClass) -> (handled: bool)
        ensures
            handled == opt_dispatch(self.content, class),
        decreases *self,
    {
        match &self.content {
            Some(c) => c.dispatch_class(class),
            None => false,
        }
    }

    /// Offer a cursor-moved event to the content, if there is one.
    pub fn cursor_content(&mut self, event: &CursorMovedEvent) -> (handled: bool)
        ensures
            handled == opt_cursor_handled(old(self).content, event.pos),
            final(self).background == old(self).background,
            opt_cursor_updates(old(self).content, event.pos, final(self).content),
        decreases *old(self),
    {
        match &mut self.content {
            Some(c) => c.dispatch_cursor_moved(event),
            None => false,
        }
    }

    /// Draw the content, if there is one.
    pub fn draw_content(&self, context: &mut DrawingContext)
        ensures
            final(context).commands_seq() == old(context).commands_seq() + opt_draw(self.content),
            final(context).scissors_seq() == old(context).scissors_seq(),
        decreases *self,
    {
        match &self.content {
            Some(c) => c.draw(context),
            None => {
                proof {
                    assert(old(context).commands_seq() + opt_draw(self.content) =~= old(
                        context,
                    ).commands_seq());
                }
            },
        }
    }

    /// Whether the content — if there is one — has been measured.
    pub fn content_measured(&self) -> (res: bool)
        ensures
            res == opt_measured(self.content),
        decreases *self,
    {
        match &self.content {
            Some(c) => c.is_measured(),
            None => true,
        }
    }

    /// Center the content within the button's rectangle, at the size the
    /// content was measured to.
    pub fn arrange(&mut self, rect: Rect)
        requires
            opt_wf(old(self).content),
            opt_measured(old(self).content),
            rect_fits(rect, (opt_count(old(self).content) + 1) as nat),
        ensures
            final(self).background == old(self).background,
            opt_arrange_updates(
                old(self).content,
                button_content_rect(*old(self), rect),
                final(self).content,
            ),
        decreases *old(self),
    {
        match &mut self.content {
            Some(c) => {
                let cs = match c.final_size() {
                    Some(s) => s,
                    None => {
                        proof {
                            assert(false);
                        }
                        Size::zero()
                    },
                };
                let child_rect = rect.align_center(cs);
                proof {
                    lemma_half_bounds(rect.size.width - cs.width);
                    lemma_half_bounds(rect.size.height - cs.height);
                    assert(-MAX_PIXELS <= cs.width <= MAX_PIXELS);
                    assert(-MAX_PIXELS <= cs.height <= MAX_PIXELS);
                    assert(child_rect == button_content_rect(*old(self), rect));
                    assert(opt_count(old(self).content) == count(**c));
                    assert(rect_room(child_rect) <= rect_room(rect) + 4 * (MAX_PIXELS as int));
                    lemma_fits_within(
                        rect,
                        (opt_count(old(self).content) + 1) as nat,
                        child_rect,
                        count(**c),
                        4 * (MAX_PIXELS as int),
                    );
                }
                c.arrange_in(child_rect);
            },
            None => {},
        }
    }
}

/// Accumulates a button's configuration; `build` validates it and
/// produces the component node.
#[derive(Debug)]
pub struct ButtonBuilder {
    pub sizing: Sizing,
    pub background: Color,
    pub content: Option<Component>,
    pub handlers: HandlerFlags,
    pub visibility: Visibility,
}

impl Button {
    /// A builder with the button defaults: a fixed 16-by-16 pixel box
    /// with a light grey background and no content.
    pub fn builder() -> (b: ButtonBuilder)
        ensures
            b.sizing == (Sizing {
                width: crate::sizing::Dimension { desired: crate::sizing::Length::Fixed(16), min: 16, max: 16 },
                height: crate::sizing::Dimension { desired: crate::sizing::Length::Fixed(16), min: 16, max: 16 },
            }),
            b.background == (Color { r: 230, g: 230, b: 230, a: 255 }),
            b.content is None,
            b.visibility == Visibility::Visible,
            b.handlers == HandlerFlags::spec_none(),
    {
        ButtonBuilder {
            sizing: Sizing::fixed(Size { width: 16, height: 16 }),
            background: Color::grey(230),
            content: None,
            handlers: HandlerFlags::none(),
            visibility: Visibility::Visible,
        }
    }
}

impl ButtonBuilder {
    pub fn with_sizing(self, sizing: Sizing) -> (b: ButtonBuilder)
        ensures
            b == (ButtonBuilder { sizing, ..self }),
    {
        ButtonBuilder { sizing, ..self }
    }

    pub fn with_background(self, background: Color) -> (b: ButtonBuilder)
        ensures
            b == (ButtonBuilder { background, ..self }),
    {
        ButtonBuilder { background, ..self }
    }

    pub fn with_content(self, content: Component) -> (b: ButtonBuilder)
        requires
            wf(content),
        ensures
            b == (ButtonBuilder { content: Some(content), ..self }),
    {
        ButtonBuilder { content: Some(content), ..self }
    }

    pub fn with_handlers(self, handlers: HandlerFlags) -> (b: ButtonBuilder)
        ensures
            b == (ButtonBuilder { handlers, ..self }),
    {
        ButtonBuilder { handlers, ..self }
    }

    pub fn with_visibility(self, visibility: Visibility) -> (b: ButtonBuilder)
        ensures
            b == (ButtonBuilder { visibility, ..self }),
    {
        ButtonBuilder { visibility, ..self }
    }

    /// Validate the sizing and produce the node; a sizing whose clamps
    /// are out of order or whose fixed amounts are negative or oversized
    /// is refused, never silently adjusted.
    pub fn build(self) -> (r: Result<Component, ErrorKind>)
        requires
            self.content matches Some(c) ==> wf(c),
        ensures
            self.sizing.wf() <==> r matches Ok(_),
            !self.sizing.wf() ==> r == Err::<Component, ErrorKind>(ErrorKind::InvalidSizing),
            r matches Ok(c) ==> {
                &&& wf(c)
                &&& c.sizing == self.sizing
                &&& c.visibility == self.visibility
                &&& c.handlers == self.handlers
                &&& c.final_size is None
                &&& c.final_rect is None
                &&& c.layout_dirty
                &&& c.visually_dirty
                &&& !c.cursor_in_bounds
                &&& c.controller matches ComponentController::Button(b)
                &&& c.controller->Button_0.background == self.background
                &&& (self.content matches Some(cc) ==> c.controller->Button_0.content
                    matches Some(boxed) && *boxed == cc)
                &&& (self.content is None ==> c.controller->Button_0.content is None)
            },
    {
        if !self.sizing.is_valid() {
            return Err(ErrorKind::InvalidSizing);
        }
        let content = match self.content {
            Some(c) => Some(Box::new(c)),
            None => None,
        };
        let comp = Component {
            sizing: self.sizing,
            visibility: self.visibility,
            handlers: self.handlers,
            controller: ComponentController::Button(
                Button { background: self.background, content },
            ),
            final_size: None,
            final_rect: None,
            layout_dirty: true,
            visually_dirty: true,
            cursor_in_bounds: false,
        };
        proof {
            assert(crate::component::opt_wf(comp.controller->Button_0.content));
            assert(crate::component::ctrl_wf(comp.controller));
            assert(wf(comp));
        }
        Ok(comp)
    }
}

} // verus!
