//! The two event vocabularies that the adapter stands between: what the
//! platform's event loop delivers, and what the engine understands.
use vstd::prelude::*;
use crate::binary::{Binary32, Binary64};

verus! {

/// Height of one scrolled line, in pixels.
pub const LINE_HEIGHT: u16 = 38;

/// Whether a key went down or came up.
#[derive(Clone, Copy, Debug, PartialEq, Eq)]
pub enum ElementState {
    Pressed,
    Released,
}

/// The keys that the adapter tells apart.
#[derive(Clone, Copy, Debug, PartialEq, Eq)]
pub enum VirtualKey {
    R,
    Other,
}

/// The phase of a touch or wheel gesture, as the platform reports it.
#[derive(Clone, Copy, Debug, PartialEq, Eq)]
pub enum TouchPhase {
    Started,
    Moved,
    Ended,
    Cancelled,
}

/// The phase of a touch or wheel gesture, as the engine names it.
#[derive(Clone, Copy, Debug, PartialEq, Eq)]
pub enum TouchEventType {
    Down,
    Move,
    Up,
    Cancel,
}

/// A wheel movement, in lines or in pixels: horizontal part, then vertical.
#[derive(Clone, Copy, Debug, PartialEq, Eq)]
pub enum MouseScrollDelta {
    LineDelta(Binary32, Binary32),
    PixelDelta(Binary32, Binary32),
}

/// What the platform's event loop delivers.
#[derive(Clone, Copy, Debug, PartialEq, Eq)]
pub enum PlatformEvent {
    /// A wake handle was used: the engine has work pending.
    Awakened,
    /// The pointer moved to a position in window-local pixels.
    CursorMoved { x: Binary64, y: Binary64 },
    /// A key changed state; `key` is `None` where the platform names no key.
    KeyboardInput { state: ElementState, key: Option<VirtualKey> },
    MouseWheel { delta: MouseScrollDelta, phase: TouchPhase },
    Resized { width: u32, height: u32 },
    /// Any other event.
    Other,
}

/// The engine's token for the one browsing context that the adapter manages.
#[derive(Clone, Copy, Debug, PartialEq, Eq)]
pub struct BrowserIdentity {
    pub namespace: u32,
    pub index: u32,
}

/// The last known pointer position, in window-local pixels.
#[derive(Clone, Copy, Debug, PartialEq, Eq)]
pub struct PointerState {
    pub x: Binary64,
    pub y: Binary64,
}

/// What the engine is told.
#[derive(Clone, Copy, Debug, PartialEq, Eq)]
pub enum SemanticEvent {
    /// An empty batch: the engine flushes its pending work.
    Poll,
    PointerMove { x: Binary32, y: Binary32 },
    Reload(BrowserIdentity),
    /// A scroll by a pixel distance, with the pointer's whole-pixel position.
    Scroll { dx: Binary32, dy: Binary32, pointer_x: i32, pointer_y: i32, phase: TouchEventType },
    Resize,
}

/// One thing for the shell to do in answer to a platform event.
#[derive(Clone, Copy, Debug, PartialEq, Eq)]
pub enum Action {
    /// Hand the event to the engine.
    Forward(SemanticEvent),
    /// Resize the native window's surface.
    ResizeWindow { width: u32, height: u32 },
}

impl TouchPhase {
    /// The engine's name for the phase. A cancelled gesture counts as a
    /// released one.
    pub open spec fn mapped(self) -> TouchEventType {
        match self {
            TouchPhase::Started => TouchEventType::Down,
            TouchPhase::Moved => TouchEventType::Move,
            TouchPhase::Ended => TouchEventType::Up,
            TouchPhase::Cancelled => TouchEventType::Up,
        }
    }

    /// Maps the platform's phase to the engine's.
    pub fn event_type(self) -> (kind: TouchEventType)
        ensures
            kind == self.mapped(),
            kind != TouchEventType::Cancel,
    {
        match self {
            TouchPhase::Started => TouchEventType::Down,
            TouchPhase::Moved => TouchEventType::Move,
            TouchPhase::Ended => TouchEventType::Up,
            TouchPhase::Cancelled => TouchEventType::Up,
        }
    }
}

impl MouseScrollDelta {
    /// The movement in pixels: lines count `LINE_HEIGHT` pixels each along the
    /// vertical axis, and pixels stay as they are.
    pub open spec fn pixel_delta(self) -> (Binary32, Binary32) {
        match self {
            MouseScrollDelta::LineDelta(dx, dy) => (dx, dy.times(LINE_HEIGHT as nat)),
            MouseScrollDelta::PixelDelta(dx, dy) => (dx, dy),
        }
    }

    /// Brings the movement to pixels.
    pub fn pixels(self) -> (delta: (Binary32, Binary32))
        ensures
            delta == self.pixel_delta(),
    {
        match self {
            MouseScrollDelta::LineDelta(dx, dy) => (dx, dy.multiply(LINE_HEIGHT)),
            MouseScrollDelta::PixelDelta(dx, dy) => (dx, dy),
        }
    }
}

impl PointerState {
    /// The position before any pointer event: the window's origin.
    pub open spec fn origin() -> PointerState {
        PointerState { x: Binary64(0), y: Binary64(0) }
    }

    /// The position in whole pixels, each coordinate cut toward zero.
    pub open spec fn whole_pixel(self) -> (int, int) {
        (self.x.truncated(), self.y.truncated())
    }

    /// Cuts the position down to whole pixels.
    pub fn pixel(self) -> (pixel: (i32, i32))
        ensures
            pixel.0 == self.whole_pixel().0,
            pixel.1 == self.whole_pixel().1,
    {
        (self.x.truncate(), self.y.truncate())
    }
}

} // verus!
