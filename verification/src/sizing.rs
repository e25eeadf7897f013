//! Sizing policies and the sizing resolver: the pure rules that turn an
//! available size and a required size into the space offered to children
//! and the size a node reports to its parent.

use vstd::prelude::*;

use crate::geometry::{Size, MAX_PIXELS};

verus! {

/// How a node wants to occupy one axis: exactly what its content requires,
/// all the space offered, or a fixed pixel amount that overrides both.
#[derive(Clone, Copy, Debug, PartialEq, Eq, Structural)]
pub enum Length {
    Fit,
    Fill,
    Fixed(i64),
}

impl Default for Length {
    fn default() -> (l: Length)
        ensures
            l == Length::Fit,
    {
        Length::Fit
    }
}

/// Raises `v` to `lo`, then caps it at `hi` — the clamp used on both axes.
/// When `lo <= hi` this is the ordinary clamp into `[lo, hi]`.
pub open spec fn spec_raise_cap(v: int, lo: int, hi: int) -> int {
    let raised = if v >= lo {
        v
    } else {
        lo
    };
    if raised <= hi {
        raised
    } else {
        hi
    }
}

/// A desired `Length` plus hard clamps applied around it.
#[derive(Clone, Copy, Debug, PartialEq, Eq, Structural)]
pub struct Dimension {
    pub desired: Length,
    pub min: i64,
    pub max: i64,
}

impl Dimension {
    /// The validity every built dimension has: ordered clamps within the
    /// pixel bound, and a fixed amount that is non-negative and bounded.
    pub open spec fn wf(self) -> bool {
        &&& -MAX_PIXELS <= self.min <= self.max <= MAX_PIXELS
        &&& match self.desired {
            Length::Fixed(pixels) => 0 <= pixels <= MAX_PIXELS,
            _ => true,
        }
    }

    /// Whether the clamps and any fixed amount are acceptable; builders
    /// reject a sizing for which this is false.
    pub fn is_valid(&self) -> (b: bool)
        ensures
            b == self.wf(),
    {
        let clamps_ok = -MAX_PIXELS <= self.min && self.min <= self.max && self.max <= MAX_PIXELS;
        let desired_ok = match self.desired {
            Length::Fixed(pixels) => 0 <= pixels && pixels <= MAX_PIXELS,
            _ => true,
        };
        clamps_ok && desired_ok
    }

    pub fn new(desired: Length, min: i64, max: i64) -> (d: Dimension)
        ensures
            d.desired == desired,
            d.min == min,
            d.max == max,
    {
        Dimension { desired, min, max }
    }

    /// Take what is required, clamps wide open.
    pub fn fit() -> (d: Dimension)
        ensures
            d.desired == Length::Fit,
            d.min == -MAX_PIXELS,
            d.max == MAX_PIXELS,
            d.wf(),
    {
        Dimension { desired: Length::Fit, min: -MAX_PIXELS, max: MAX_PIXELS }
    }

    /// Take all available space, clamps wide open.
    pub fn fill() -> (d: Dimension)
        ensures
            d.desired == Length::Fill,
            d.min == -MAX_PIXELS,
            d.max == MAX_PIXELS,
            d.wf(),
    {
        Dimension { desired: Length::Fill, min: -MAX_PIXELS, max: MAX_PIXELS }
    }

    /// A fixed pixel amount; by convention the clamps collapse onto it.
    pub fn fixed(pixels: i64) -> (d: Dimension)
        ensures
            d.desired == Length::Fixed(pixels),
            d.min == pixels,
            d.max == pixels,
            0 <= pixels <= MAX_PIXELS ==> d.wf(),
    {
        Dimension { desired: Length::Fixed(pixels), min: pixels, max: pixels }
    }
}

impl Default for Dimension {
    fn default() -> (d: Dimension)
        ensures
            d.desired == Length::Fill,
            d.min == -MAX_PIXELS,
            d.max == MAX_PIXELS,
            d.wf(),
    {
        Dimension::fill()
    }
}

/// What an available or required length on one axis resolves to when the
/// node is asked how much space its children may see.
pub open spec fn spec_available_axis(d: Dimension, available: int) -> int {
    match d.desired {
        Length::Fixed(pixels) => pixels as int,
        _ => spec_raise_cap(available, d.min as int, d.max as int),
    }
}

/// What a node reports upward on one axis, given the space that was
/// available and the length its content required.
pub open spec fn spec_final_axis(d: Dimension, available: int, required: int) -> int {
    match d.desired {
        Length::Fit => spec_raise_cap(required, d.min as int, d.max as int),
        Length::Fill => spec_raise_cap(available, d.min as int, d.max as int),
        Length::Fixed(pixels) => pixels as int,
    }
}

/// One `Dimension` per axis.
#[derive(Clone, Copy, Debug, PartialEq, Eq, Structural)]
pub struct Sizing {
    pub width: Dimension,
    pub height: Dimension,
}

impl Sizing {
    pub open spec fn wf(self) -> bool {
        self.width.wf() && self.height.wf()
    }

    /// Whether both axes are acceptable; builders reject a sizing for
    /// which this is false rather than clamp it into shape.
    pub fn is_valid(&self) -> (b: bool)
        ensures
            b == self.wf(),
    {
        self.width.is_valid() && self.height.is_valid()
    }

    pub fn new(width: Dimension, height: Dimension) -> (s: Sizing)
        ensures
            s.width == width,
            s.height == height,
    {
        Sizing { width, height }
    }

    pub fn fit() -> (s: Sizing)
        ensures
            s.width.desired == Length::Fit,
            s.height.desired == Length::Fit,
            s.width.min == -MAX_PIXELS && s.width.max == MAX_PIXELS,
            s.height.min == -MAX_PIXELS && s.height.max == MAX_PIXELS,
            s.wf(),
    {
        Sizing { width: Dimension::fit(), height: Dimension::fit() }
    }

    pub fn fill() -> (s: Sizing)
        ensures
            s.width.desired == Length::Fill,
            s.height.desired == Length::Fill,
            s.width.min == -MAX_PIXELS && s.width.max == MAX_PIXELS,
            s.height.min == -MAX_PIXELS && s.height.max == MAX_PIXELS,
            s.wf(),
    {
        Sizing { width: Dimension::fill(), height: Dimension::fill() }
    }

    /// Fit on both axes, clamped between `min` and `max` per axis.
    pub fn fit_min_max(min: Size, max: Size) -> (s: Sizing)
        ensures
            s.width == (Dimension { desired: Length::Fit, min: min.width, max: max.width }),
            s.height == (Dimension { desired: Length::Fit, min: min.height, max: max.height }),
    {
        Sizing {
            width: Dimension { desired: Length::Fit, min: min.width, max: max.width },
            height: Dimension { desired: Length::Fit, min: min.height, max: max.height },
        }
    }

    /// Fixed on both axes.
    pub fn fixed(size: Size) -> (s: Sizing)
        ensures
            s.width == (Dimension {
                desired: Length::Fixed(size.width),
                min: size.width,
                max: size.width,
            }),
            s.height == (Dimension {
                desired: Length::Fixed(size.height),
                min: size.height,
                max: size.height,
            }),
    {
        Sizing { width: Dimension::fixed(size.width), height: Dimension::fixed(size.height) }
    }

    /// The size a node may offer its children: per axis, a fixed amount is
    /// authoritative, and otherwise the available space clamped.
    pub fn calc_available_size(&self, available_size: Size) -> (s: Size)
        ensures
            s.width == spec_available_axis(self.width, available_size.width as int),
            s.height == spec_available_axis(self.height, available_size.height as int),
    {
        Size {
            width: calc_available_axis(self.width, available_size.width),
            height: calc_available_axis(self.height, available_size.height),
        }
    }

    /// The size a node reports to its parent: per axis, what was required
    /// (for fit) or available (for fill), clamped, and a fixed amount
    /// verbatim.
    pub fn calc_final_size(&self, available_size: Size, required_size: Size) -> (s: Size)
        ensures
            s.width == spec_final_axis(
                self.width,
                available_size.width as int,
                required_size.width as int,
            ),
            s.height == spec_final_axis(
                self.height,
                available_size.height as int,
                required_size.height as int,
            ),
    {
        Size {
            width: calc_final_axis(self.width, available_size.width, required_size.width),
            height: calc_final_axis(self.height, available_size.height, required_size.height),
        }
    }
}

impl Default for Sizing {
    fn default() -> (s: Sizing)
        ensures
            s.width.desired == Length::Fit,
            s.height.desired == Length::Fit,
            s.wf(),
    {
        Sizing::fit()
    }
}

fn raise_cap_i64(v: i64, lo: i64, hi: i64) -> (r: i64)
    ensures
        r == spec_raise_cap(v as int, lo as int, hi as int),
{
    let raised = if v >= lo {
        v
    } else {
        lo
    };
    if raised <= hi {
        raised
    } else {
        hi
    }
}

fn calc_available_axis(d: Dimension, available: i64) -> (r: i64)
    ensures
        r == spec_available_axis(d, available as int),
{
    match d.desired {
        Length::Fixed(pixels) => pixels,
        _ => raise_cap_i64(available, d.min, d.max),
    }
}

fn calc_final_axis(d: Dimension, available: i64, required: i64) -> (r: i64)
    ensures
        r == spec_final_axis(d, available as int, required as int),
{
    match d.desired {
        Length::Fit => raise_cap_i64(required, d.min, d.max),
        Length::Fill => raise_cap_i64(available, d.min, d.max),
        Length::Fixed(pixels) => pixels,
    }
}

/// A well-formed dimension resolves every axis value into its clamps (or
/// to its fixed amount), so resolved lengths always stay within the pixel
/// bound.
pub proof fn lemma_axis_bounded(d: Dimension, available: int, required: int)
    requires
        d.wf(),
    ensures
        -MAX_PIXELS <= spec_available_axis(d, available) <= MAX_PIXELS,
        -MAX_PIXELS <= spec_final_axis(d, available, required) <= MAX_PIXELS,
{
}

/// A fixed amount is authoritative: when an axis is `Fixed(p)` — whatever
/// its clamps — both resolver functions return exactly `p`, regardless of
/// the available and required arguments.
pub proof fn lemma_fixed_authoritative(d: Dimension, pixels: i64, available: int, required: int)
    requires
        d.desired == Length::Fixed(pixels),
    ensures
        spec_available_axis(d, available) == pixels,
        spec_final_axis(d, available, required) == pixels,
{
}

/// How a child narrower than its container is placed on the horizontal
/// axis.
#[derive(Clone, Copy, Debug, PartialEq, Eq, Structural)]
pub enum HorizontalAlignment {
    Left,
    Center,
    Right,
}

impl Default for HorizontalAlignment {
    fn default() -> (a: HorizontalAlignment)
        ensures
            a == HorizontalAlignment::Left,
    {
        HorizontalAlignment::Left
    }
}

/// How a child shorter than its container is placed on the vertical axis.
#[derive(Clone, Copy, Debug, PartialEq, Eq, Structural)]
pub enum VerticalAlignment {
    Top,
    Center,
    Bottom,
}

impl Default for VerticalAlignment {
    fn default() -> (a: VerticalAlignment)
        ensures
            a == VerticalAlignment::Top,
    {
        VerticalAlignment::Top
    }
}

/// A placement on both axes.
#[derive(Clone, Copy, Debug, PartialEq, Eq, Structural)]
pub struct Alignment {
    pub horizontal: HorizontalAlignment,
    pub vertical: VerticalAlignment,
}

/// A fit axis resolves to the required length clamped into `[min, max]`,
/// independently of the space that was available: two resolutions with the
/// same requirement and different availability agree.
pub proof fn lemma_fit_ignores_available(d: Dimension, avail_a: int, avail_b: int, required: int)
    requires
        d.desired == Length::Fit,
    ensures
        spec_final_axis(d, avail_a, required) == spec_raise_cap(
            required,
            d.min as int,
            d.max as int,
        ),
        spec_final_axis(d, avail_a, required) == spec_final_axis(d, avail_b, required),
{
}

} // verus!
