//! A text leaf: a string whose bounding box the host computes from font
//! metrics and hands back as a plain size.

use vstd::prelude::*;

use crate::component::{wf, Component, ComponentController, Visibility};
use crate::error::ErrorKind;
use crate::geometry::{Size, MAX_PIXELS};
use crate::input_handling::HandlerFlags;
use crate::sizing::Sizing;
use crate::Builder;

verus! {

/// The text controller. `content_size` is the bounding box of `text` in
/// the chosen font, as the shaping collaborator reported it.
#[derive(Debug, PartialEq)]
#[verifier::ext_equal]
pub struct Text {
    pub text: String,
    pub content_size: Size,
}

impl Text {
    /// A text leaf requires its precomputed bounding box, whatever space
    /// is on offer.
    pub fn measure(&self, _available: Size) -> (required: Size)
        ensures
            required == self.content_size,
    {
        self.content_size
    }
}

/// Accumulates a text leaf's configuration; `build` validates it and
/// produces the component node.
#[derive(Debug)]
pub struct TextBuilder {
    pub text: String,
    pub content_size: Size,
    pub sizing: Sizing,
    pub handlers: HandlerFlags,
    pub visibility: Visibility,
}

impl Text {
    /// A builder for a text leaf showing `text`, fit-sized, with no
    /// extent until the host supplies the shaped bounding box.
    pub fn builder(text: &str) -> (b: TextBuilder)
        ensures
            b.text@ == text@,
            b.content_size == (Size { width: 0, height: 0 }),
            b.visibility == Visibility::Visible,
            b.handlers == HandlerFlags::spec_none(),
            b.sizing.wf(),
    {
        TextBuilder {
            text: text.to_owned(),
            content_size: Size::zero(),
            sizing: Sizing::fit(),
            handlers: HandlerFlags::none(),
            visibility: Visibility::Visible,
        }
    }
}

impl TextBuilder {
    /// The bounding box the shaping collaborator measured for the text.
    pub fn with_content_size(self, content_size: Size) -> (b: TextBuilder)
        ensures
            b == (TextBuilder { content_size, ..self }),
    {
        TextBuilder { content_size, ..self }
    }

    pub fn with_sizing(self, sizing: Sizing) -> (b: TextBuilder)
        ensures
            b == (TextBuilder { sizing, ..self }),
    {
        TextBuilder { sizing, ..self }
    }

    pub fn with_handlers(self, handlers: HandlerFlags) -> (b: TextBuilder)
        ensures
            b == (TextBuilder { handlers, ..self }),
    {
        TextBuilder { handlers, ..self }
    }

    pub fn with_visibility(self, visibility: Visibility) -> (b: TextBuilder)
        ensures
            b == (TextBuilder { visibility, ..self }),
    {
        TextBuilder { visibility, ..self }
    }

    /// Validate the sizing and produce the node.
    pub fn build(self) -> (r: Result<Component, ErrorKind>)
        ensures
            self.sizing.wf() <==> r matches Ok(_),
            !self.sizing.wf() ==> r == Err::<Component, ErrorKind>(ErrorKind::InvalidSizing),
            r matches Ok(c) ==> {
                &&& wf(c)
                &&& c.sizing == self.sizing
                &&& c.visibility == self.visibility
                &&& c.handlers == self.handlers
                &&& c.final_size is None
                &&& c.final_rect is None
                &&& c.layout_dirty
                &&& c.visually_dirty
                &&& !c.cursor_in_bounds
                &&& c.controller matches ComponentController::Text(t)
                &&& c.controller->Text_0.text == self.text
                &&& c.controller->Text_0.content_size == self.content_size
            },
    {
        if !self.sizing.is_valid() {
            return Err(ErrorKind::InvalidSizing);
        }
        let comp = Component {
            sizing: self.sizing,
            visibility: self.visibility,
            handlers: self.handlers,
            controller: ComponentController::Text(
                Text { text: self.text, content_size: self.content_size },
            ),
            final_size: None,
            final_rect: None,
            layout_dirty: true,
            visually_dirty: true,
            cursor_in_bounds: false,
        };
        proof {
            assert(crate::component::ctrl_wf(comp.controller));
            assert(wf(comp));
        }
        Ok(comp)
    }
}

impl Builder<Component> for TextBuilder {
    /// The trait path to `build`, for hosts that finish builders
    /// generically.
    fn build(self) -> Result<Component, ErrorKind> {
        TextBuilder::build(self)
    }
}

/// Most lines, and most glyphs per line, a single text run may hold;
/// keeps the bounding-box sums within `i64`.
pub const MAX_RUN: usize = 1_000_000;

/// The advances of the first `n` glyphs on a line, summed.
pub open spec fn sum_advances(advances: Seq<i64>, n: int) -> int
    decreases n,
{
    if n <= 0 || n > advances.len() {
        0
    } else {
        sum_advances(advances, n - 1) + advances[n - 1]
    }
}

/// The width of the widest of the first `n` lines.
pub open spec fn widest_line(lines: Seq<Vec<i64>>, n: int) -> int
    decreases n,
{
    if n <= 0 || n > lines.len() {
        0
    } else {
        let w = sum_advances(lines[n - 1]@, lines[n - 1]@.len() as int);
        let prev = widest_line(lines, n - 1);
        if w > prev {
            w
        } else {
            prev
        }
    }
}

/// Line sums stay linear in the glyph count.
pub proof fn lemma_sum_advances_bounded(advances: Seq<i64>, n: int)
    requires
        0 <= n <= advances.len(),
        forall|i: int| 0 <= i < advances.len() ==> 0 <= #[trigger] advances[i] <= MAX_PIXELS,
    ensures
        0 <= sum_advances(advances, n) <= n * (MAX_PIXELS as int),
    decreases n,
{
    if n > 0 {
        lemma_sum_advances_bounded(advances, n - 1);
    }
}

/// Formats shaped text: turns per-line glyph advances, as the shaping
/// collaborator reports them, into the box the text occupies.
#[derive(Debug)]
pub struct TextFormatter {}

impl TextFormatter {
    /// The bounding box of a text run: as tall as one line height per
    /// line, as wide as the widest line's advances sum to.
    pub fn calculate_bounding_box(line_advances: &Vec<Vec<i64>>, line_height: i64) -> (s: Size)
        requires
            0 <= line_height <= MAX_PIXELS,
            line_advances@.len() <= MAX_RUN,
            forall|i: int| 0 <= i < line_advances@.len() ==> (#[trigger] line_advances@[i])@.len() <= MAX_RUN,
            forall|i: int, j: int|
                0 <= i < line_advances@.len() && 0 <= j < (#[trigger] line_advances@[i])@.len()
                    ==> 0 <= #[trigger] line_advances@[i]@[j] <= MAX_PIXELS,
        ensures
            s.height == line_advances@.len() * line_height,
            s.width == widest_line(line_advances@, line_advances@.len() as int),
    {
        let line_count = line_advances.len();
        let mut max_width: i64 = 0;
        let mut i: usize = 0;
        while i < line_count
            invariant
                i <= line_count,
                line_count == line_advances@.len(),
                line_count <= MAX_RUN,
                forall|k: int|
                    0 <= k < line_advances@.len() ==> (#[trigger] line_advances@[k])@.len()
                        <= MAX_RUN,
                forall|k: int, j: int|
                    0 <= k < line_advances@.len() && 0 <= j < (#[trigger] line_advances@[k])@.len()
                        ==> 0 <= #[trigger] line_advances@[k]@[j] <= MAX_PIXELS,
                max_width as int == widest_line(line_advances@, i as int),
                0 <= max_width <= (MAX_RUN as i64) * MAX_PIXELS,
            decreases line_count - i,
        {
            let line = &line_advances[i];
            let glyph_count = line.len();
            let mut width: i64 = 0;
            let mut j: usize = 0;
            while j < glyph_count
                invariant
                    j <= glyph_count,
                    glyph_count == line@.len(),
                    glyph_count <= MAX_RUN,
                    forall|k: int| 0 <= k < line@.len() ==> 0 <= #[trigger] line@[k] <= MAX_PIXELS,
                    width as int == sum_advances(line@, j as int),
                    0 <= width <= (j as i64) * MAX_PIXELS,
                decreases glyph_count - j,
            {
                width = width + line[j];
                j = j + 1;
            }
            if width > max_width {
                max_width = width;
            }
            proof {
                lemma_sum_advances_bounded(line@, glyph_count as int);
                assert(widest_line(line_advances@, i as int + 1) == if sum_advances(
                    line@,
                    line@.len() as int,
                ) > widest_line(line_advances@, i as int) {
                    sum_advances(line@, line@.len() as int)
                } else {
                    widest_line(line_advances@, i as int)
                });
            }
            i = i + 1;
        }
        proof {
            assert((line_count as int) * (line_height as int) <= (MAX_RUN as int) * (
            MAX_PIXELS as int)) by (nonlinear_arith)
                requires
                    0 <= line_count as int <= MAX_RUN as int,
                    0 <= line_height as int <= MAX_PIXELS as int,
            ;
        }
        let height = (line_count as i64) * line_height;
        Size { width: max_width, height }
    }
}

} // verus!
