use vstd::prelude::*;

verus! {

/// Steps of the per-tick instance spin in one full turn: each tick turns an
/// instance by 1.5 degrees about the vertical axis.
pub const SPIN_STEPS_PER_TURN: u32 = 240;

/// Tilt, in degrees, of every instance away from the grid center.
pub const INSTANCE_TILT_DEGREES: u32 = 45;

/// A vector with integer coordinates: world positions are held doubled, so
/// that a grid centred on an odd row count stays exact.
#[derive(Clone, Copy, Debug, PartialEq, Eq, Structural)]
pub struct IVec3 {
    pub x: i64,
    pub y: i64,
    pub z: i64,
}

impl IVec3 {
    pub open spec fn is_zero(self) -> bool {
        self.x == 0 && self.y == 0 && self.z == 0
    }
}

/// The rotation `R_y(spin_steps * 1.5°) * R(axis, degrees)`: a fixed base
/// rotation about `axis`, followed by the accumulated spin about the
/// vertical axis.
#[derive(Clone, Copy, Debug, PartialEq, Eq, Structural)]
pub struct Rotation {
    pub axis: IVec3,
    pub degrees: u32,
    pub spin_steps: u32,
}

impl Rotation {
    /// The axis can be normalised, so the rotation is a unit quaternion and
    /// never scales what it is applied to; the spin is kept within one turn.
    pub open spec fn wf(self) -> bool {
        !self.axis.is_zero() && self.spin_steps < SPIN_STEPS_PER_TURN
    }

    /// This rotation followed by one spin step about the vertical axis.
    pub open spec fn spun(self) -> Rotation {
        Rotation {
            spin_steps: if self.spin_steps + 1 == SPIN_STEPS_PER_TURN {
                0
            } else {
                (self.spin_steps + 1) as u32
            },
            ..self
        }
    }
}

/// One repetition of a mesh: a position (doubled) and a rotation.
#[derive(Clone, Copy, Debug, PartialEq, Eq, Structural)]
pub struct Instance {
    pub position2: IVec3,
    pub rotation: Rotation,
}

impl Instance {
    pub open spec fn wf(self) -> bool {
        self.rotation.wf()
    }

    /// Composes the instance's rotation with one spin step.
    pub fn spin(&mut self)
        requires
            old(self).wf(),
        ensures
            final(self).wf(),
            final(self).position2 == old(self).position2,
            final(self).rotation == old(self).rotation.spun(),
    {
        if self.rotation.spin_steps + 1 == SPIN_STEPS_PER_TURN {
            self.rotation.spin_steps = 0;
        } else {
            self.rotation.spin_steps = self.rotation.spin_steps + 1;
        }
    }
}

/// Layout of the instance grid of a scene.
#[derive(Clone, Copy, Debug, PartialEq, Eq, Structural)]
pub struct SceneConfig {
    pub instances_per_row: u32,
    pub spacing: u32,
}

/// Largest row length: the instance count of a grid must fit an instanced
/// draw's `u32` count.
pub const MAX_INSTANCES_PER_ROW: u32 = 65535;

impl SceneConfig {
    pub open spec fn wf(self) -> bool {
        self.instances_per_row <= MAX_INSTANCES_PER_ROW
    }

    pub open spec fn count(self) -> nat {
        (self.instances_per_row * self.instances_per_row) as nat
    }
}

/// Doubled world coordinate of grid index `i`: `spacing * (i - n / 2)`, times two.
pub open spec fn grid_coord2(config: SceneConfig, i: int) -> int {
    config.spacing * (2 * i - config.instances_per_row)
}

/// The base rotation of an instance at a doubled position: a tilt about the
/// direction of the position, or no rotation (about the z axis) at the origin.
pub open spec fn base_rotation(position2: IVec3) -> Rotation {
    if position2.is_zero() {
        Rotation { axis: IVec3 { x: 0, y: 0, z: 1 }, degrees: 0, spin_steps: 0 }
    } else {
        Rotation { axis: position2, degrees: INSTANCE_TILT_DEGREES, spin_steps: 0 }
    }
}

/// The instance at column `x` and row `z` of the grid.
pub open spec fn grid_instance(config: SceneConfig, x: int, z: int) -> Instance {
    let p = IVec3 { x: grid_coord2(config, x) as i64, y: 0, z: grid_coord2(config, z) as i64 };
    Instance { position2: p, rotation: base_rotation(p) }
}

fn grid_coord2_exec(config: SceneConfig, i: u32) -> (r: i64)
    requires
        config.wf(),
        i < config.instances_per_row,
    ensures
        r == grid_coord2(config, i as int),
{
    let d: i64 = 2 * (i as i64) - (config.instances_per_row as i64);
    assert(-65535 <= d <= 65535);
    assert(-65535 * 4294967295 <= config.spacing * d <= 65535 * 4294967295) by (nonlinear_arith)
        requires
            -65535 <= d <= 65535,
            0 <= config.spacing <= 4294967295,
    ;
    (config.spacing as i64) * d
}

fn make_instance(config: SceneConfig, x: u32, z: u32) -> (r: Instance)
    requires
        config.wf(),
        x < config.instances_per_row,
        z < config.instances_per_row,
    ensures
        r == grid_instance(config, x as int, z as int),
        r.wf(),
{
    let position2 = IVec3 { x: grid_coord2_exec(config, x), y: 0, z: grid_coord2_exec(config, z) };
    let rotation = if position2.x == 0 && position2.z == 0 {
        Rotation { axis: IVec3 { x: 0, y: 0, z: 1 }, degrees: 0, spin_steps: 0 }
    } else {
        Rotation { axis: position2, degrees: INSTANCE_TILT_DEGREES, spin_steps: 0 }
    };
    Instance { position2, rotation }
}

/// The square instance grid of a scene, row by row: the instance at column
/// `x` and row `z` stands at index `z * n + x`.
pub fn instance_grid(config: SceneConfig) -> (r: Vec<Instance>)
    requires
        config.wf(),
    ensures
        r@.len() == config.count(),
        forall|x: int, z: int|
            0 <= x < config.instances_per_row && 0 <= z < config.instances_per_row
                ==> #[trigger] r@[z * config.instances_per_row + x] == grid_instance(config, x, z),
        forall|i: int| 0 <= i < r@.len() ==> (#[trigger] r@[i]).wf(),
{
    let n = config.instances_per_row;
    let mut r: Vec<Instance> = Vec::new();
    let mut z: u32 = 0;
    while z < n
        invariant
            config.wf(),
            n == config.instances_per_row,
            0 <= z <= n,
            r@.len() == z * n,
            forall|xx: int, zz: int|
                0 <= xx < n && 0 <= zz < z ==> #[trigger] r@[zz * n + xx] == grid_instance(config, xx, zz),
            forall|i: int| 0 <= i < r@.len() ==> (#[trigger] r@[i]).wf(),
        decreases n - z,
    {
        let mut x: u32 = 0;
        while x < n
            invariant
                config.wf(),
                n == config.instances_per_row,
                0 <= z < n,
                0 <= x <= n,
                r@.len() == z * n + x,
                forall|xx: int, zz: int|
                    0 <= xx < n && 0 <= zz < z ==> #[trigger] r@[zz * n + xx] == grid_instance(config, xx, zz),
                forall|xx: int| 0 <= xx < x ==> #[trigger] r@[z * n + xx] == grid_instance(config, xx, z as int),
                forall|i: int| 0 <= i < r@.len() ==> (#[trigger] r@[i]).wf(),
            decreases n - x,
        {
            let ghost before = r@;
            proof {
                assert((z + 1) * n <= n * n) by (nonlinear_arith)
                    requires
                        z < n,
                ;
                assert(z * n + x < (z + 1) * n) by (nonlinear_arith)
                    requires
                        x < n,
                ;
                assert(n * n <= 65535 * 65535) by (nonlinear_arith)
                    requires
                        n <= 65535,
                ;
            }
            r.push(make_instance(config, x, z));
            proof {
                assert forall|xx: int, zz: int|
                    0 <= xx < n && 0 <= zz < z implies #[trigger] r@[zz * n + xx] == grid_instance(config, xx, zz) by {
                    assert(zz * n + xx < z * n) by (nonlinear_arith)
                        requires
                            xx < n,
                            zz < z,
                            zz >= 0,
                    ;
                    assert(r@[zz * n + xx] == before[zz * n + xx]);
                }
            }
            x = x + 1;
        }
        assert((z + 1) * n == z * n + n) by (nonlinear_arith);
        proof {
            assert forall|xx: int, zz: int|
                0 <= xx < n && 0 <= zz < z + 1 implies #[trigger] r@[zz * n + xx] == grid_instance(config, xx, zz) by {
                if zz < z {
                } else {
                    assert(zz == z);
                }
            }
        }
        z = z + 1;
    }
    r
}

/// Composes every instance's rotation with one spin step; positions are kept.
pub fn spin_all(instances: &mut Vec<Instance>)
    requires
        forall|i: int| 0 <= i < old(instances)@.len() ==> (#[trigger] old(instances)@[i]).wf(),
    ensures
        final(instances)@.len() == old(instances)@.len(),
        forall|i: int|
            0 <= i < final(instances)@.len() ==> (#[trigger] final(instances)@[i]).wf()
                && final(instances)@[i].position2 == old(instances)@[i].position2
                && final(instances)@[i].rotation == old(instances)@[i].rotation.spun(),
{
    let n = instances.len();
    let mut i: usize = 0;
    while i < n
        invariant
            n == instances@.len(),
            n == old(instances)@.len(),
            0 <= i <= n,
            forall|k: int| i <= k < n ==> #[trigger] instances@[k] == old(instances)@[k],
            forall|k: int| 0 <= k < n ==> (#[trigger] old(instances)@[k]).wf(),
            forall|k: int|
                0 <= k < i ==> (#[trigger] instances@[k]).wf() && instances@[k].position2
                    == old(instances)@[k].position2 && instances@[k].rotation
                    == old(instances)@[k].rotation.spun(),
        decreases n - i,
    {
        let mut inst = instances[i];
        inst.spin();
        instances.set(i, inst);
        i = i + 1;
    }
}

} // verus!
