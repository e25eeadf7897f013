//! A retained-mode UI layout and input engine.
//!
//! Applications build a tree of visual components, and the library derives
//! geometry for it with a two-pass measure/arrange protocol, routes input
//! events against the cached rectangles with a preview-then-bubble
//! traversal, and matches font styles by nearest neighbour over a style
//! vector. Window-system integration, GPU rendering and font rasterization
//! are collaborators outside this crate: the library exchanges plain values
//! (sizes, rectangles, advances, draw commands) with them.

pub mod binding;
pub mod button;
pub mod color;
pub mod column;
pub mod component;
pub mod dock;
pub mod drawing;
pub mod error;
pub mod font;
pub mod geometry;
pub mod input_handling;
pub mod observable;
pub mod scene;
pub mod sizing;
pub mod text;

use vstd::prelude::*;

pub use color::Color;
pub use component::{Component, ComponentController, Visibility};
pub use error::ErrorKind;
pub use geometry::{Point, Rect, Size};
pub use scene::{Scene, SceneController};
pub use sizing::{Dimension, Length, Sizing};

verus! {

/// The one supported construction path for widgets: a builder finishes
/// into its component, validating what was configured and refusing an
/// invalid sizing rather than clamping it.
pub trait Builder<T>: Sized {
    fn build(self) -> Result<T, error::ErrorKind>;
}

/// A shared immutable string value that views can bind to.
#[derive(Debug, PartialEq)]
pub struct StringProperty {
    pub value: String,
}

impl StringProperty {
    pub fn new() -> (p: StringProperty)
        ensures
            p.value@ == Seq::<char>::empty(),
    {
        StringProperty { value: String::new() }
    }

    /// A binding that observes this property's current value.
    pub fn create_binding(&self) -> (b: StringPropertyBinding)
        ensures
            b.value@ == self.value@,
    {
        StringPropertyBinding { value: self.value.clone() }
    }
}

/// One observer's view of a string property.
#[derive(Debug, PartialEq)]
pub struct StringPropertyBinding {
    pub value: String,
}

/// Text content that is either a fixed string or fed by a binding.
#[derive(Debug, PartialEq)]
pub enum BindableString {
    Static(String),
    Binding(StringPropertyBinding),
}

impl Default for BindableString {
    fn default() -> (b: BindableString)
        ensures
            b matches BindableString::Static(s) && s@ == Seq::<char>::empty(),
    {
        BindableString::Static(String::new())
    }
}

} // verus!
