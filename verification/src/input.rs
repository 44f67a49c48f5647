//! The window events the render loop reacts to, as plain values.
//!
//! The host event loop owns the real window handle; it translates each
//! event it receives into one of these values before handing it to the
//! render state.  Cursor positions arrive in physical pixels.

use vstd::prelude::*;

verus! {

/// The keys the renderer recognizes.  Every other key arrives as
/// `Other` and is left to the host.
#[derive(Clone, Copy, PartialEq, Eq, Structural, Debug)]
pub enum Key {
    W,
    A,
    S,
    D,
    Up,
    Down,
    Left,
    Right,
    J,
    K,
    Space,
    Escape,
    Other,
}

/// A window event, reduced to what the render state reads of it.
#[derive(Clone, Copy, PartialEq, Eq, Structural, Debug)]
pub enum WindowEvent {
    /// The user asked to close the window.
    CloseRequested,
    /// A key changed state; `pressed` is true on press, false on release.
    Keyboard { key: Key, pressed: bool },
    /// The window was resized to the given inner size, in pixels.
    Resized { width: u32, height: u32 },
    /// The scale factor changed, giving the window a new inner size.
    ScaleFactorChanged { width: u32, height: u32 },
    /// The cursor moved to the given position inside the window, in pixels.
    CursorMoved { x: u32, y: u32 },
    /// Any event the renderer does not react to.
    Other,
}

/// Whether the key drives the camera controller.
pub open spec fn is_camera_key(key: Key) -> bool {
    match key {
        Key::W | Key::A | Key::S | Key::D => true,
        Key::Up | Key::Down | Key::Left | Key::Right => true,
        Key::J | Key::K => true,
        _ => false,
    }
}

} // verus!
