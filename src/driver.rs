use vstd::prelude::*;

use crate::input::{ElementState, InputEvent, KeyCode};
use crate::renderer::{DefaultState, Phase, SurfaceConfig};

verus! {

/// What the event loop does after a window event.
#[derive(Clone, Copy, Debug, PartialEq, Eq, Structural)]
pub enum WindowAction {
    /// Nothing more to do.
    Continue,
    /// Configure the surface again, with this configuration.
    Configure(SurfaceConfig),
    /// Leave the event loop once the current tick has completed.
    Exit,
}

/// The state and action after a window event that the renderer did not consume.
pub open spec fn unconsumed_action(s: DefaultState, e: InputEvent) -> (DefaultState, WindowAction) {
    match e {
        InputEvent::CloseRequested => (DefaultState { phase: Phase::ShuttingDown, ..s }, WindowAction::Exit),
        InputEvent::KeyboardInput { key: KeyCode::Escape, state: ElementState::Pressed } => (
            DefaultState { phase: Phase::ShuttingDown, ..s },
            WindowAction::Exit,
        ),
        InputEvent::Resized { width, height } | InputEvent::ScaleFactorChanged { width, height } => {
            let t = s.resized(width, height);
            (t, if width == 0 || height == 0 { WindowAction::Continue } else { WindowAction::Configure(t.surface) })
        },
        _ => (s, WindowAction::Continue),
    }
}

/// The state and action after a window event: the renderer sees it first,
/// and only what it does not consume reaches the event loop.
pub open spec fn window_action(s: DefaultState, e: InputEvent) -> (DefaultState, WindowAction) {
    let (t, consumed) = s.after_input(e);
    if consumed {
        (t, WindowAction::Continue)
    } else {
        unconsumed_action(t, e)
    }
}

/// The application: a window title, and the decisions of its event loop.
#[derive(Debug)]
pub struct Engine {
    title: &'static str,
}

impl Engine {
    pub closed spec fn title_spec(&self) -> &'static str {
        self.title
    }

    pub fn new(title: &'static str) -> (r: Engine)
        ensures
            r.title_spec() == title,
    {
        Engine { title }
    }

    pub fn title(&self) -> (r: &'static str)
        ensures
            r == self.title_spec(),
    {
        self.title
    }

    /// Handles one window event: the renderer's input first; then close
    /// requests and a pressed Escape end the loop, and size changes resize
    /// the renderer and ask for the surface to be configured again.
    pub fn handle_window_event(&self, state: &mut DefaultState, event: &InputEvent) -> (r: WindowAction)
        requires
            old(state).wf(),
        ensures
            final(state).wf(),
            (*final(state), r) == window_action(*old(state), *event),
    {
        if state.input(event) {
            return WindowAction::Continue;
        }
        match *event {
            InputEvent::CloseRequested => {
                state.shut_down();
                WindowAction::Exit
            },
            InputEvent::KeyboardInput { key: KeyCode::Escape, state: ElementState::Pressed } => {
                state.shut_down();
                WindowAction::Exit
            },
            InputEvent::Resized { width, height } | InputEvent::ScaleFactorChanged { width, height } => {
                match state.resize(width, height) {
                    Some(c) => WindowAction::Configure(c),
                    None => WindowAction::Continue,
                }
            },
            _ => WindowAction::Continue,
        }
    }
}

} // verus!
