use vstd::prelude::*;

use crate::gpu::{BindingSetRef, BufferRef, BufferRequest, BufferUsage, PassCommand};
use crate::input::{ElementState, InputEvent, KeyCode, ScrollDelta};

verus! {

/// Pixels of scroll that one wheel line stands for.
pub const PIXELS_PER_SCROLL_LINE: i64 = 100;

/// Input-derived intent: which movement keys are held, and the pending
/// rotation and zoom deltas.
#[derive(Clone, Copy, Debug, PartialEq, Eq, Structural)]
pub struct CameraController {
    /// Displacement per tick, in thousandths of a world unit.
    pub speed_milli: u32,
    pub is_forward_pressed: bool,
    pub is_backward_pressed: bool,
    pub is_left_pressed: bool,
    pub is_right_pressed: bool,
    pub rotate_horizontal: i32,
    pub rotate_vertical: i32,
    pub scroll: i64,
}

/// The movement the camera makes on one update tick. Each held key moves
/// the eye by one fixed step, whatever time has passed.
#[derive(Clone, Copy, Debug, PartialEq, Eq, Structural)]
pub struct MovePlan {
    pub forward: bool,
    pub backward: bool,
    pub left: bool,
    pub right: bool,
    pub yaw: i32,
    pub pitch: i32,
    pub zoom: i64,
}

impl MovePlan {
    /// A plan that leaves the camera where it is.
    pub open spec fn is_idle(self) -> bool {
        !self.forward && !self.backward && !self.left && !self.right && self.yaw == 0
            && self.pitch == 0 && self.zoom == 0
    }
}

/// What a key event does to the controller, if it is a movement key.
pub open spec fn key_effect(c: CameraController, key: KeyCode, state: ElementState) -> Option<CameraController> {
    let p = state == ElementState::Pressed;
    match key {
        KeyCode::W | KeyCode::Up => Some(CameraController { is_forward_pressed: p, ..c }),
        KeyCode::A | KeyCode::Left => Some(CameraController { is_left_pressed: p, ..c }),
        KeyCode::S | KeyCode::Down => Some(CameraController { is_backward_pressed: p, ..c }),
        KeyCode::D | KeyCode::Right => Some(CameraController { is_right_pressed: p, ..c }),
        _ => None,
    }
}

/// The zoom a wheel movement asks for, in pixels.
pub open spec fn scroll_amount(delta: ScrollDelta) -> i64 {
    match delta {
        ScrollDelta::Lines(l) => (-(l * PIXELS_PER_SCROLL_LINE)) as i64,
        ScrollDelta::Pixels(p) => (-p) as i64,
    }
}

impl CameraController {
    /// No key held and no pending delta.
    pub open spec fn is_idle(self) -> bool {
        !self.is_forward_pressed && !self.is_backward_pressed && !self.is_left_pressed
            && !self.is_right_pressed && self.rotate_horizontal == 0 && self.rotate_vertical == 0
            && self.scroll == 0
    }

    /// The plan of one update tick.
    pub open spec fn plan(self) -> MovePlan {
        MovePlan {
            forward: self.is_forward_pressed,
            backward: self.is_backward_pressed,
            left: self.is_left_pressed,
            right: self.is_right_pressed,
            yaw: self.rotate_horizontal,
            pitch: self.rotate_vertical,
            zoom: self.scroll,
        }
    }

    /// The controller after an update tick: held keys stay held, deltas are used up.
    pub open spec fn after_update(self) -> CameraController {
        CameraController { rotate_horizontal: 0, rotate_vertical: 0, scroll: 0, ..self }
    }

    pub fn new(speed_milli: u32) -> (r: CameraController)
        ensures
            r.is_idle(),
            r.speed_milli == speed_milli,
    {
        CameraController {
            speed_milli,
            is_forward_pressed: false,
            is_backward_pressed: false,
            is_left_pressed: false,
            is_right_pressed: false,
            rotate_horizontal: 0,
            rotate_vertical: 0,
            scroll: 0,
        }
    }

    /// Records a movement key; returns whether the key was one.
    /// W or Up: forward, S or Down: backward, A or Left: left, D or Right: right.
    pub fn process_keyboard(&mut self, key: KeyCode, state: ElementState) -> (r: bool)
        ensures
            r == key_effect(*old(self), key, state) is Some,
            r ==> *final(self) == key_effect(*old(self), key, state)->Some_0,
            !r ==> *final(self) == *old(self),
    {
        let pressed = state == ElementState::Pressed;
        match key {
            KeyCode::W | KeyCode::Up => {
                self.is_forward_pressed = pressed;
                true
            },
            KeyCode::A | KeyCode::Left => {
                self.is_left_pressed = pressed;
                true
            },
            KeyCode::S | KeyCode::Down => {
                self.is_backward_pressed = pressed;
                true
            },
            KeyCode::D | KeyCode::Right => {
                self.is_right_pressed = pressed;
                true
            },
            _ => false,
        }
    }

    /// Records the latest pointer motion as the pending rotation.
    pub fn process_mouse(&mut self, dx: i32, dy: i32)
        ensures
            *final(self) == (CameraController { rotate_horizontal: dx, rotate_vertical: dy, ..*old(self) }),
    {
        self.rotate_horizontal = dx;
        self.rotate_vertical = dy;
    }

    /// Records a wheel movement as the pending zoom, in pixels; scrolling
    /// up zooms in, so the sign is turned.
    pub fn process_scroll(&mut self, delta: ScrollDelta)
        ensures
            *final(self) == (CameraController { scroll: scroll_amount(delta), ..*old(self) }),
    {
        self.scroll = match delta {
            ScrollDelta::Lines(l) => -((l as i64) * PIXELS_PER_SCROLL_LINE),
            ScrollDelta::Pixels(p) => -(p as i64),
        };
    }

    /// Routes a window event to the controller; returns whether it was consumed.
    pub fn process_events(&mut self, event: &InputEvent) -> (r: bool)
        ensures
            match *event {
                InputEvent::KeyboardInput { key, state } => {
                    &&& r == key_effect(*old(self), key, state) is Some
                    &&& r ==> *final(self) == key_effect(*old(self), key, state)->Some_0
                    &&& !r ==> *final(self) == *old(self)
                },
                _ => !r && *final(self) == *old(self),
            },
    {
        match *event {
            InputEvent::KeyboardInput { key, state } => self.process_keyboard(key, state),
            _ => false,
        }
    }

    /// Takes the plan of this tick and uses up the pending deltas.
    pub fn update(&mut self) -> (r: MovePlan)
        ensures
            r == old(self).plan(),
            *final(self) == old(self).after_update(),
    {
        let r = MovePlan {
            forward: self.is_forward_pressed,
            backward: self.is_backward_pressed,
            left: self.is_left_pressed,
            right: self.is_right_pressed,
            yaw: self.rotate_horizontal,
            pitch: self.rotate_vertical,
            zoom: self.scroll,
        };
        self.rotate_horizontal = 0;
        self.rotate_vertical = 0;
        self.scroll = 0;
        r
    }
}

/// Projection parameters of the camera and its controller. The eye, target
/// and up vectors are integrated from the move plans by the frame driver.
#[derive(Clone, Copy, Debug, PartialEq, Eq, Structural)]
pub struct Camera {
    pub width: u32,
    pub height: u32,
    pub fovy_degrees: u32,
    pub znear_milli: u32,
    pub zfar_milli: u32,
    pub controller: CameraController,
}

impl Camera {
    /// The camera after one update tick, and the plan that tick applies.
    pub open spec fn updated(self) -> (Camera, MovePlan) {
        (Camera { controller: self.controller.after_update(), ..self }, self.controller.plan())
    }

    /// A camera with a 45 degree field of view, near plane 0.1 and far plane 100.
    pub fn new(width: u32, height: u32, speed_milli: u32) -> (r: Camera)
        ensures
            r.width == width,
            r.height == height,
            r.fovy_degrees == 45,
            r.znear_milli == 100,
            r.zfar_milli == 100_000,
            r.controller.is_idle(),
            r.controller.speed_milli == speed_milli,
    {
        Camera {
            width,
            height,
            fovy_degrees: 45,
            znear_milli: 100,
            zfar_milli: 100_000,
            controller: CameraController::new(speed_milli),
        }
    }

    /// Sets the aspect ratio to that of the new surface size.
    pub fn resize(&mut self, width: u32, height: u32)
        ensures
            *final(self) == (Camera { width, height, ..*old(self) }),
    {
        self.width = width;
        self.height = height;
    }

    pub fn process_events(&mut self, event: &InputEvent) -> (r: bool)
        ensures
            match *event {
                InputEvent::KeyboardInput { key, state } => {
                    &&& r == key_effect(old(self).controller, key, state) is Some
                    &&& r ==> *final(self) == (Camera {
                        controller: key_effect(old(self).controller, key, state)->Some_0,
                        ..*old(self)
                    })
                    &&& !r ==> *final(self) == *old(self)
                },
                _ => !r && *final(self) == *old(self),
            },
    {
        self.controller.process_events(event)
    }

    /// The camera's uniform buffer, rewritten every frame.
    pub fn initialize(&self) -> (r: BufferRequest)
        ensures
            r == (BufferRequest { target: BufferRef::CameraUniform, usage: BufferUsage::Uniform, writable: true }),
    {
        BufferRequest { target: BufferRef::CameraUniform, usage: BufferUsage::Uniform, writable: true }
    }

    /// Attaches the camera's binding set at its reserved group.
    pub fn bind(&self, pass: &mut Vec<PassCommand>)
        ensures
            final(pass)@ == old(pass)@.push(PassCommand::SetBindGroup { index: 1, set: BindingSetRef::Camera }),
    {
        pass.push(PassCommand::SetBindGroup { index: 1, set: BindingSetRef::Camera });
    }

    /// Integrates the controller's intent for one tick: returns the plan and
    /// uses up the pending deltas.
    pub fn update_camera(&mut self) -> (r: MovePlan)
        ensures
            (*final(self), r) == old(self).updated(),
    {
        self.controller.update()
    }
}

/// With no input, an update changes nothing: two consecutive updates of an
/// idle camera leave it as it was and move nothing, so the view-projection
/// computed from it is the same both times.
pub proof fn lemma_idle_camera_has_no_drift(c: Camera)
    requires
        c.controller.is_idle(),
    ensures
        c.updated().0 == c,
        c.updated().1.is_idle(),
        c.updated().0.updated().0 == c,
        c.updated().0.updated().1.is_idle(),
{
}

} // verus!
