use vstd::prelude::*;

verus! {

/// Keys the renderer reacts to; every other key is `Other`.
#[derive(Clone, Copy, Debug, PartialEq, Eq, Structural)]
pub enum KeyCode {
    W,
    A,
    S,
    D,
    Up,
    Down,
    Left,
    Right,
    Escape,
    Other,
}

#[derive(Clone, Copy, Debug, PartialEq, Eq, Structural)]
pub enum ElementState {
    Pressed,
    Released,
}

#[derive(Clone, Copy, Debug, PartialEq, Eq, Structural)]
pub enum MouseButton {
    Left,
    Right,
    Middle,
    Other,
}

/// A wheel movement, in lines or in pixels (rounded).
#[derive(Clone, Copy, Debug, PartialEq, Eq, Structural)]
pub enum ScrollDelta {
    Lines(i32),
    Pixels(i32),
}

/// The window and device events the renderer is handed.
#[derive(Clone, Copy, Debug, PartialEq, Eq, Structural)]
pub enum InputEvent {
    CloseRequested,
    KeyboardInput { key: KeyCode, state: ElementState },
    MouseInput { button: MouseButton, state: ElementState },
    /// Raw pointer motion, rounded to whole units.
    MouseMotion { dx: i32, dy: i32 },
    MouseWheel { delta: ScrollDelta },
    Resized { width: u32, height: u32 },
    ScaleFactorChanged { width: u32, height: u32 },
}

} // verus!
