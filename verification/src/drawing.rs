//! The drawing context: draw calls walk the component tree and append
//! plain drawing commands here, in back-to-front order; the rendering
//! collaborator consumes the list. A scissor stack is kept for contexts
//! that support clipping.

use vstd::prelude::*;

use crate::color::Color;
use crate::geometry::Rect;

verus! {

/// One drawable primitive, in canvas coordinates.
#[derive(Clone, Debug, PartialEq)]
pub enum DrawCommand {
    /// A filled rectangle.
    FillRect { rect: Rect, color: Color },
    /// A run of text laid out inside a rectangle.
    TextRun { rect: Rect, text: String },
}

/// Collects the primitives one frame draws, oldest first, together with
/// the scissor rectangles currently pushed.
#[derive(Debug)]
pub struct DrawingContext {
    pub commands: Vec<DrawCommand>,
    pub scissor_stack: Vec<Rect>,
}

impl DrawingContext {
    pub open spec fn commands_seq(self) -> Seq<DrawCommand> {
        self.commands@
    }

    pub open spec fn scissors_seq(self) -> Seq<Rect> {
        self.scissor_stack@
    }

    /// An empty frame whose scissor stack holds the initial clip.
    pub fn new(initial_scissor: Rect) -> (ctx: DrawingContext)
        ensures
            ctx.commands_seq() == Seq::<DrawCommand>::empty(),
            ctx.scissors_seq() == seq![initial_scissor],
    {
        let mut scissor_stack: Vec<Rect> = Vec::new();
        scissor_stack.push(initial_scissor);
        DrawingContext { commands: Vec::new(), scissor_stack }
    }

    /// Append one primitive to the frame.
    pub fn draw(&mut self, command: DrawCommand)
        ensures
            final(self).commands_seq() == old(self).commands_seq().push(command),
            final(self).scissors_seq() == old(self).scissors_seq(),
    {
        self.commands.push(command);
    }

    /// Push a clip rectangle; drawing is clipped to it until the
    /// matching pop.
    pub fn push_scissor(&mut self, rect: Rect)
        ensures
            final(self).commands_seq() == old(self).commands_seq(),
            final(self).scissors_seq() == old(self).scissors_seq().push(rect),
    {
        self.scissor_stack.push(rect);
    }

    /// Pop the top clip rectangle, restoring the one below it; the
    /// initial clip is never popped.
    pub fn pop_scissor(&mut self)
        requires
            old(self).scissors_seq().len() >= 2,
        ensures
            final(self).commands_seq() == old(self).commands_seq(),
            final(self).scissors_seq() == old(self).scissors_seq().drop_last(),
    {
        self.scissor_stack.pop();
    }

    /// The commands collected so far, oldest first.
    pub fn commands(&self) -> (commands: &Vec<DrawCommand>)
        ensures
            commands@ == self.commands_seq(),
    {
        &self.commands
    }

    /// The clip in force: the most recently pushed scissor rectangle.
    pub fn current_scissor(&self) -> (rect: Rect)
        requires
            self.scissors_seq().len() >= 1,
        ensures
            rect == self.scissors_seq().last(),
    {
        self.scissor_stack[self.scissor_stack.len() - 1]
    }
}

} // verus!
