//! Input events and handler configuration. The host decodes platform
//! events into these plain structs; dispatch routes them through the
//! component tree, each node's own handlers claiming or declining them.

use vstd::prelude::*;

use crate::geometry::{Delta, Point};

verus! {

/// A platform key code, already decoded by the host.
pub type Key = u32;

/// Whether a key or mouse button went down or came up.
#[derive(Clone, Copy, Debug, PartialEq, Eq, Structural)]
pub enum ElementState {
    Pressed,
    Released,
}

/// Which mouse button an event speaks of.
#[derive(Clone, Copy, Debug, PartialEq, Eq, Structural)]
pub enum MouseButton {
    Left,
    Right,
    Middle,
    Back,
    Forward,
    Other(u16),
}

/// A key went down or up.
#[derive(Clone, Copy, Debug, PartialEq, Eq, Structural)]
pub struct KeyEvent {
    pub key: Key,
    pub state: ElementState,
}

impl KeyEvent {
    pub fn new(key: Key, state: ElementState) -> (e: KeyEvent)
        ensures
            e.key == key,
            e.state == state,
    {
        KeyEvent { key, state }
    }

    pub fn key(&self) -> (k: Key)
        ensures
            k == self.key,
    {
        self.key
    }

    pub fn state(&self) -> (s: ElementState)
        ensures
            s == self.state,
    {
        self.state
    }
}

/// A mouse button went down or up.
#[derive(Clone, Copy, Debug, PartialEq, Eq, Structural)]
pub struct MouseButtonEvent {
    pub button: MouseButton,
    pub state: ElementState,
}

impl MouseButtonEvent {
    pub fn new(button: MouseButton, state: ElementState) -> (e: MouseButtonEvent)
        ensures
            e.button == button,
            e.state == state,
    {
        MouseButtonEvent { button, state }
    }

    pub fn button(&self) -> (b: MouseButton)
        ensures
            b == self.button,
    {
        self.button
    }

    pub fn state(&self) -> (s: ElementState)
        ensures
            s == self.state,
    {
        self.state
    }
}

/// The wheel turned by some displacement.
#[derive(Clone, Copy, Debug, PartialEq, Eq, Structural)]
pub struct MouseWheelEvent {
    pub delta: Delta,
}

impl MouseWheelEvent {
    pub fn new(delta: Delta) -> (e: MouseWheelEvent)
        ensures
            e.delta == delta,
    {
        MouseWheelEvent { delta }
    }

    pub fn delta(&self) -> (d: Delta)
        ensures
            d == self.delta,
    {
        self.delta
    }
}

/// The cursor moved to a position in canvas coordinates.
#[derive(Clone, Copy, Debug, PartialEq, Eq, Structural)]
pub struct CursorMovedEvent {
    pub pos: Point,
}

impl CursorMovedEvent {
    pub fn new(pos: Point) -> (e: CursorMovedEvent)
        ensures
            e.pos == pos,
    {
        CursorMovedEvent { pos }
    }

    pub fn pos(&self) -> (p: Point)
        ensures
            p == self.pos,
    {
        self.pos
    }
}

/// The event classes whose dispatch is stateless; cursor movement is
/// handled separately because it is gated by position and records
/// enter/exit state.
#[derive(Clone, Copy, Debug, PartialEq, Eq, Structural)]
pub enum EventClass {
    Key,
    MouseButton,
    MouseWheel,
}

/// Which events a node's own handlers claim. A preview handler runs before
/// the node's children see the event; the plain (bubble) handler runs only
/// if no child claimed it. A set flag means the handler claims the event,
/// stopping further propagation.
#[derive(Clone, Copy, Debug, PartialEq, Eq, Structural)]
pub struct HandlerFlags {
    pub key_preview: bool,
    pub key: bool,
    pub mouse_button_preview: bool,
    pub mouse_button: bool,
    pub mouse_wheel_preview: bool,
    pub mouse_wheel: bool,
    pub cursor_moved_preview: bool,
    pub cursor_moved: bool,
}

impl HandlerFlags {
    /// Whether the preview handler claims an event of the given class.
    pub open spec fn spec_preview(self, class: EventClass) -> bool {
        match class {
            EventClass::Key => self.key_preview,
            EventClass::MouseButton => self.mouse_button_preview,
            EventClass::MouseWheel => self.mouse_wheel_preview,
        }
    }

    /// Whether the bubble handler claims an event of the given class.
    pub open spec fn spec_bubble(self, class: EventClass) -> bool {
        match class {
            EventClass::Key => self.key,
            EventClass::MouseButton => self.mouse_button,
            EventClass::MouseWheel => self.mouse_wheel,
        }
    }

    /// The all-declining handler set, as the specifications name it.
    pub open spec fn spec_none() -> HandlerFlags {
        HandlerFlags {
            key_preview: false,
            key: false,
            mouse_button_preview: false,
            mouse_button: false,
            mouse_wheel_preview: false,
            mouse_wheel: false,
            cursor_moved_preview: false,
            cursor_moved: false,
        }
    }

    /// Whether the preview handler claims an event of `class`.
    pub fn claims_preview(&self, class: EventClass) -> (b: bool)
        ensures
            b == self.spec_preview(class),
    {
        match class {
            EventClass::Key => self.key_preview,
            EventClass::MouseButton => self.mouse_button_preview,
            EventClass::MouseWheel => self.mouse_wheel_preview,
        }
    }

    /// Whether the bubble handler claims an event of `class`.
    pub fn claims_bubble(&self, class: EventClass) -> (b: bool)
        ensures
            b == self.spec_bubble(class),
    {
        match class {
            EventClass::Key => self.key,
            EventClass::MouseButton => self.mouse_button,
            EventClass::MouseWheel => self.mouse_wheel,
        }
    }

    /// Handlers that decline every event, the default for every widget.
    pub fn none() -> (f: HandlerFlags)
        ensures
            f == (HandlerFlags {
                key_preview: false,
                key: false,
                mouse_button_preview: false,
                mouse_button: false,
                mouse_wheel_preview: false,
                mouse_wheel: false,
                cursor_moved_preview: false,
                cursor_moved: false,
            }),
    {
        HandlerFlags {
            key_preview: false,
            key: false,
            mouse_button_preview: false,
            mouse_button: false,
            mouse_wheel_preview: false,
            mouse_wheel: false,
            cursor_moved_preview: false,
            cursor_moved: false,
        }
    }
}

impl Default for HandlerFlags {
    fn default() -> (f: HandlerFlags)
        ensures
            f == (HandlerFlags {
                key_preview: false,
                key: false,
                mouse_button_preview: false,
                mouse_button: false,
                mouse_wheel_preview: false,
                mouse_wheel: false,
                cursor_moved_preview: false,
                cursor_moved: false,
            }),
    {
        HandlerFlags::none()
    }
}

} // verus!
