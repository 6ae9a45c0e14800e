use vstd::prelude::*;

use crate::gpu::{BindingSetRef, BufferRef, BufferRequest, BufferUsage, PassCommand, QueueWrite};
use crate::instance::IVec3;

verus! {

/// Degrees the light turns about the vertical axis on every update tick.
pub const ORBIT_STEP_DEGREES: u32 = 1;

/// Ticks in one full orbit of the light.
pub const ORBIT_TICKS_PER_TURN: u32 = 360;

/// A color with 8 bits per channel; 255 is full intensity.
#[derive(Clone, Copy, Debug, PartialEq, Eq, Structural)]
pub struct Rgb8 {
    pub r: u8,
    pub g: u8,
    pub b: u8,
}

/// The light uniform: its position is `R_y(orbit_degrees°) * start`, its
/// color is fixed.
#[derive(Clone, Copy, Debug, PartialEq, Eq, Structural)]
pub struct Light {
    pub start: IVec3,
    pub color: Rgb8,
    pub orbit_degrees: u32,
}

impl Light {
    pub open spec fn wf(self) -> bool {
        self.orbit_degrees < ORBIT_TICKS_PER_TURN
    }

    /// The light after one orbit step.
    pub open spec fn ticked(self) -> Light {
        Light {
            orbit_degrees: if self.orbit_degrees + 1 == ORBIT_TICKS_PER_TURN {
                0
            } else {
                (self.orbit_degrees + 1) as u32
            },
            ..self
        }
    }

    /// The light after `k` orbit steps.
    pub open spec fn ticked_n(self, k: nat) -> Light
        decreases k,
    {
        if k == 0 {
            self
        } else {
            self.ticked().ticked_n((k - 1) as nat)
        }
    }

    /// A light at `start`, not yet turned.
    pub fn new(start: IVec3, color: Rgb8) -> (r: Light)
        ensures
            r.wf(),
            r.start == start,
            r.color == color,
            r.orbit_degrees == 0,
    {
        Light { start, color, orbit_degrees: 0 }
    }

    /// The light's uniform buffer, rewritten every frame.
    pub fn initialize(&self) -> (r: BufferRequest)
        ensures
            r == (BufferRequest { target: BufferRef::LightUniform, usage: BufferUsage::Uniform, writable: true }),
    {
        BufferRequest { target: BufferRef::LightUniform, usage: BufferUsage::Uniform, writable: true }
    }

    /// Attaches the light's binding set at its reserved group.
    pub fn bind(&self, pass: &mut Vec<PassCommand>)
        ensures
            final(pass)@ == old(pass)@.push(PassCommand::SetBindGroup { index: 2, set: BindingSetRef::Light }),
    {
        pass.push(PassCommand::SetBindGroup { index: 2, set: BindingSetRef::Light });
    }

    /// One frame: turns the light, then asks for its uniform to be rewritten.
    pub fn update_per_frame(&mut self) -> (r: QueueWrite)
        requires
            old(self).wf(),
        ensures
            final(self).wf(),
            *final(self) == old(self).ticked(),
            r == QueueWrite::LightUniform,
    {
        self.tick();
        QueueWrite::LightUniform
    }

    /// Turns the light by the fixed orbit step, whatever time has passed.
    pub fn tick(&mut self)
        requires
            old(self).wf(),
        ensures
            final(self).wf(),
            *final(self) == old(self).ticked(),
    {
        if self.orbit_degrees + 1 == ORBIT_TICKS_PER_TURN {
            self.orbit_degrees = 0;
        } else {
            self.orbit_degrees = self.orbit_degrees + 1;
        }
    }
}

proof fn lemma_ticked_n_angle(l: Light, k: nat)
    requires
        l.wf(),
        k <= ORBIT_TICKS_PER_TURN,
    ensures
        l.ticked_n(k).start == l.start,
        l.ticked_n(k).color == l.color,
        l.ticked_n(k).orbit_degrees == if l.orbit_degrees + k < ORBIT_TICKS_PER_TURN {
            l.orbit_degrees + k
        } else {
            l.orbit_degrees + k - ORBIT_TICKS_PER_TURN
        },
    decreases k,
{
    if k > 0 {
        lemma_ticked_n_angle(l.ticked(), (k - 1) as nat);
    }
}

/// Orbit closure: a full turn of ticks brings the light back to exactly
/// where it started.
pub proof fn lemma_light_orbit_closes(l: Light)
    requires
        l.wf(),
    ensures
        l.ticked_n(ORBIT_TICKS_PER_TURN as nat) == l,
{
    lemma_ticked_n_angle(l, ORBIT_TICKS_PER_TURN as nat);
}

} // verus!
