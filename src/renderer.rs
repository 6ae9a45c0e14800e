use vstd::prelude::*;

use crate::binding::{ConstructionError, GlobalBindLayout};
use crate::camera::{key_effect, scroll_amount, Camera, CameraController, MovePlan};
use crate::gpu::{BindingSetRef, BufferRef, BufferRequest, BufferUsage, PassCommand, QueueWrite};
use crate::input::{ElementState, InputEvent, MouseButton};
use crate::instance::{instance_grid, spin_all, IVec3, SceneConfig};
use crate::light::{Light, Rgb8};
use crate::mesh::{draw_count, lemma_draw_count_concat, lemma_draw_covers_every_instance, Mesh};
use crate::pipeline::{pipelines_error, ColorFormat, DepthFormat, PipelineKind, Pipelines, ShaderInterface, DEPTH_FORMAT};
use crate::texture::TextureManager;

verus! {

/// The configuration the presentable surface is (re)configured with.
#[derive(Clone, Copy, Debug, PartialEq, Eq, Structural)]
pub struct SurfaceConfig {
    pub width: u32,
    pub height: u32,
    pub format: ColorFormat,
}

/// The depth buffer's size and format.
#[derive(Clone, Copy, Debug, PartialEq, Eq, Structural)]
pub struct DepthBuffer {
    pub width: u32,
    pub height: u32,
    pub format: DepthFormat,
}

/// Errors the surface reports when a frame is acquired or presented.
#[derive(Clone, Copy, Debug, PartialEq, Eq, Structural)]
pub enum SurfaceError {
    /// The surface must be configured again.
    Lost,
    /// The surface no longer matches the window.
    Outdated,
    /// No frame became available in time.
    Timeout,
    /// No memory is left for the frame.
    OutOfMemory,
}

/// What became of one frame.
#[derive(Clone, Copy, Debug, PartialEq, Eq, Structural)]
pub enum FrameOutcome {
    /// The frame was presented.
    Presented,
    /// The surface was lost and has been configured again with this
    /// configuration; the frame was skipped.
    Reconfigured(SurfaceConfig),
    /// The frame was skipped; the next tick tries again.
    Skipped(SurfaceError),
    /// Out of memory: the process must stop.
    Fatal,
}

/// The lifecycle of the renderer.
#[derive(Clone, Copy, Debug, PartialEq, Eq, Structural)]
pub enum Phase {
    Uninitialized,
    Ready,
    ShuttingDown,
}

/// What one update tick asks of the frame driver: the camera movement to
/// integrate, and the buffers to rewrite from the new CPU-side state.
#[derive(Debug)]
pub struct FrameUpdate {
    pub moves: MovePlan,
    pub writes: Vec<QueueWrite>,
}

/// Mesh id of the scene's model.
pub const MODEL_MESH_ID: u32 = 0;

/// Camera speed: a fifth of a unit per tick.
pub const CAMERA_SPEED_MILLI: u32 = 200;

/// Where the light starts its orbit.
pub open spec fn light_start() -> IVec3 {
    IVec3 { x: 2, y: 2, z: 2 }
}

pub open spec fn white() -> Rgb8 {
    Rgb8 { r: 255, g: 255, b: 255 }
}

pub open spec fn bump(x: u64) -> u64 {
    if x < u64::MAX { (x + 1) as u64 } else { x }
}

fn bump_exec(x: u64) -> (r: u64)
    ensures
        r == bump(x),
{
    if x < u64::MAX { x + 1 } else { x }
}

/// The renderer core: pipelines, depth buffer, camera, light, the model
/// mesh and the texture arena, driven through initialize, input, update,
/// render and resize.
#[derive(Debug)]
pub struct DefaultState {
    pub phase: Phase,
    pub surface: SurfaceConfig,
    pub depth: DepthBuffer,
    pub camera: Camera,
    pub light: Light,
    pub model: Mesh,
    pub textures: TextureManager,
    pub pipelines: Pipelines,
    pub mouse_pressed: bool,
    pub frames_presented: u64,
    pub frames_skipped: u64,
}

impl DefaultState {
    pub open spec fn wf(&self) -> bool {
        &&& self.model.wf()
        &&& self.model.id == MODEL_MESH_ID
        &&& self.light.wf()
        &&& self.pipelines.wf()
        &&& self.textures.wf()
        &&& self.depth.width == self.surface.width
        &&& self.depth.height == self.surface.height
        &&& self.depth.format == DEPTH_FORMAT
        &&& self.camera.width == self.surface.width
        &&& self.camera.height == self.surface.height
        &&& (self.phase == Phase::Ready ==> self.model.initialized)
    }

    /// The state after `resize(width, height)`: a zero-sized surface cannot
    /// be configured, so such a size is ignored.
    pub open spec fn resized(self, width: u32, height: u32) -> DefaultState {
        if width == 0 || height == 0 {
            self
        } else {
            DefaultState {
                surface: SurfaceConfig { width, height, ..self.surface },
                depth: DepthBuffer { width, height, format: DEPTH_FORMAT },
                camera: Camera { width, height, ..self.camera },
                ..self
            }
        }
    }

    /// The state after `input(e)`, and whether the event was consumed.
    pub open spec fn after_input(self, e: InputEvent) -> (DefaultState, bool) {
        match e {
            InputEvent::MouseMotion { dx, dy } => {
                if self.mouse_pressed {
                    (
                        DefaultState {
                            camera: Camera {
                                controller: CameraController {
                                    rotate_horizontal: dx,
                                    rotate_vertical: dy,
                                    ..self.camera.controller
                                },
                                ..self.camera
                            },
                            ..self
                        },
                        true,
                    )
                } else {
                    (self, true)
                }
            },
            InputEvent::KeyboardInput { key, state } => match key_effect(self.camera.controller, key, state) {
                Some(c) => (DefaultState { camera: Camera { controller: c, ..self.camera }, ..self }, true),
                None => (self, false),
            },
            InputEvent::MouseWheel { delta } => (
                DefaultState {
                    camera: Camera {
                        controller: CameraController { scroll: scroll_amount(delta), ..self.camera.controller },
                        ..self.camera
                    },
                    ..self
                },
                true,
            ),
            InputEvent::MouseInput { button: MouseButton::Left, state } => (
                DefaultState { mouse_pressed: state == ElementState::Pressed, ..self },
                true,
            ),
            _ => (self, false),
        }
    }

    /// The writes of one update tick, in order.
    pub open spec fn update_writes(self) -> Seq<QueueWrite> {
        seq![QueueWrite::CameraUniform, QueueWrite::LightUniform] + match self.model.instance_write() {
            Some(w) => seq![w],
            None => seq![],
        }
    }

    /// The commands of one frame: clear, the light source with the light
    /// pipeline, then the model with the model pipeline.
    pub open spec fn frame_commands(self) -> Seq<PassCommand> {
        seq![PassCommand::Begin, PassCommand::SetPipeline(PipelineKind::Light)] + self.model.light_commands()
            + seq![
            PassCommand::SetPipeline(PipelineKind::Model),
            PassCommand::SetBindGroup { index: 1, set: BindingSetRef::Camera },
            PassCommand::SetBindGroup { index: 2, set: BindingSetRef::Light },
        ] + self.model.bind_commands() + self.model.draw_commands()
    }

    /// The state after a frame ended with `result`, and its outcome.
    pub open spec fn after_frame(self, result: Result<(), SurfaceError>) -> (DefaultState, FrameOutcome) {
        match result {
            Ok(()) => (DefaultState { frames_presented: bump(self.frames_presented), ..self }, FrameOutcome::Presented),
            Err(SurfaceError::Lost) => {
                let s = self.resized(self.surface.width, self.surface.height);
                (DefaultState { frames_skipped: bump(self.frames_skipped), ..s }, FrameOutcome::Reconfigured(s.surface))
            },
            Err(SurfaceError::OutOfMemory) => (DefaultState { phase: Phase::ShuttingDown, ..self }, FrameOutcome::Fatal),
            Err(e) => (DefaultState { frames_skipped: bump(self.frames_skipped), ..self }, FrameOutcome::Skipped(e)),
        }
    }

    /// Sets up the scene: a square instance grid of the model, the camera
    /// and the light, and a depth buffer the size of the surface. The model's
    /// geometry is `vertex_count` vertices and a 16-bit index array.
    pub fn new(
        global: &GlobalBindLayout,
        model_shader: &ShaderInterface,
        light_shader: &ShaderInterface,
        surface: SurfaceConfig,
        scene: SceneConfig,
        vertex_count: u32,
        indices: Vec<u16>,
        textures: TextureManager,
        texture: Option<u32>,
    ) -> (r: Result<DefaultState, ConstructionError>)
        requires
            scene.wf(),
            textures.wf(),
            indices@.len() <= u32::MAX,
        ensures
            r is Ok <==> pipelines_error(*global, model_shader.schemas(), light_shader.schemas()) is None
                && crate::mesh::indices_in_range(indices@, vertex_count),
            r is Err ==> r->Err_0 == match pipelines_error(*global, model_shader.schemas(), light_shader.schemas()) {
                Some(e) => e,
                None => ConstructionError::IndexOutOfRange,
            },
            r is Ok ==> {
                let s = r->Ok_0;
                &&& s.wf()
                &&& s.phase == Phase::Uninitialized
                &&& s.surface == surface
                &&& s.model.vertex_count == vertex_count
                &&& s.model.index_array@ == indices@
                &&& s.model.texture == texture
                &&& s.textures.textures@ == textures.textures@
                &&& s.pipelines.model().color_format == surface.format
                &&& s.model.instance_array@.len() == scene.count()
                &&& forall|x: int, z: int|
                    0 <= x < scene.instances_per_row && 0 <= z < scene.instances_per_row
                        ==> #[trigger] s.model.instance_array@[z * scene.instances_per_row + x]
                        == crate::instance::grid_instance(scene, x, z)
                &&& s.light == Light { start: light_start(), color: white(), orbit_degrees: 0 }
                &&& s.camera.controller.is_idle()
                &&& !s.mouse_pressed
                &&& s.frames_presented == 0
                &&& s.frames_skipped == 0
            },
    {
        let pipelines = match Pipelines::new(global, model_shader, light_shader, surface.format) {
            Ok(p) => p,
            Err(e) => {
                return Err(e);
            },
        };
        let camera = Camera::new(surface.width, surface.height, CAMERA_SPEED_MILLI);
        let instances = instance_grid(scene);
        assert(scene.count() <= u32::MAX) by (nonlinear_arith)
            requires
                scene.instances_per_row <= 65535,
                scene.count() == scene.instances_per_row * scene.instances_per_row,
        ;
        let model = match Mesh::new(MODEL_MESH_ID, vertex_count, indices, instances, texture) {
            Ok(m) => m,
            Err(e) => {
                return Err(e);
            },
        };
        let light = Light::new(IVec3 { x: 2, y: 2, z: 2 }, Rgb8 { r: 255, g: 255, b: 255 });
        let depth = DepthBuffer { width: surface.width, height: surface.height, format: DEPTH_FORMAT };
        Ok(DefaultState {
            phase: Phase::Uninitialized,
            surface,
            depth,
            camera,
            light,
            model,
            textures,
            pipelines,
            mouse_pressed: false,
            frames_presented: 0,
            frames_skipped: 0,
        })
    }

    /// Allocates the GPU buffers of every drawable from its current state,
    /// once, before the first frame.
    pub fn initialize(&mut self) -> (r: Vec<BufferRequest>)
        requires
            old(self).wf(),
            old(self).phase == Phase::Uninitialized,
        ensures
            final(self).wf(),
            final(self).phase == Phase::Ready,
            r@ == seq![
                BufferRequest { target: BufferRef::CameraUniform, usage: BufferUsage::Uniform, writable: true },
                BufferRequest { target: BufferRef::LightUniform, usage: BufferUsage::Uniform, writable: true },
            ] + old(self).model.buffer_requests(),
            final(self).model.instance_array@ == old(self).model.instance_array@,
            final(self).surface == old(self).surface,
            final(self).depth == old(self).depth,
            final(self).camera == old(self).camera,
            final(self).light == old(self).light,
            final(self).mouse_pressed == old(self).mouse_pressed,
            final(self).frames_presented == old(self).frames_presented,
            final(self).frames_skipped == old(self).frames_skipped,
    {
        let mut r = vec![self.camera.initialize(), self.light.initialize()];
        let mut mesh_requests = self.model.initialize();
        r.append(&mut mesh_requests);
        self.phase = Phase::Ready;
        r
    }

    /// Follows the window to a new size: camera aspect, surface
    /// configuration and depth buffer all take the new size. Returns the
    /// configuration to apply to the surface, or `None` for a zero size,
    /// which is ignored.
    pub fn resize(&mut self, width: u32, height: u32) -> (r: Option<SurfaceConfig>)
        requires
            old(self).wf(),
        ensures
            final(self).wf(),
            *final(self) == old(self).resized(width, height),
            r == if width == 0 || height == 0 { None } else { Some(final(self).surface) },
    {
        if width == 0 || height == 0 {
            return None;
        }
        self.camera.resize(width, height);
        self.surface.width = width;
        self.surface.height = height;
        self.depth = DepthBuffer { width, height, format: DEPTH_FORMAT };
        Some(self.surface)
    }

    /// Routes an event to the camera controller; returns whether it was
    /// consumed. Pointer motion turns the camera only while the left button
    /// is held. Touches no GPU state.
    pub fn input(&mut self, event: &InputEvent) -> (r: bool)
        requires
            old(self).wf(),
        ensures
            final(self).wf(),
            (*final(self), r) == old(self).after_input(*event),
    {
        match *event {
            InputEvent::MouseMotion { dx, dy } => {
                if self.mouse_pressed {
                    self.camera.controller.process_mouse(dx, dy);
                }
                true
            },
            InputEvent::KeyboardInput { .. } => self.camera.process_events(event),
            InputEvent::MouseWheel { delta } => {
                self.camera.controller.process_scroll(delta);
                true
            },
            InputEvent::MouseInput { button: MouseButton::Left, state } => {
                self.mouse_pressed = state == ElementState::Pressed;
                true
            },
            _ => false,
        }
    }

    /// One update tick: integrates the camera intent (one fixed step per
    /// held key, whatever time has passed), turns the light by its fixed
    /// orbit step, spins every instance by one step, and asks for the
    /// uniform and instance buffers to be rewritten from the new state.
    pub fn update(&mut self) -> (r: FrameUpdate)
        requires
            old(self).wf(),
            old(self).phase == Phase::Ready,
        ensures
            final(self).wf(),
            r.moves == old(self).camera.updated().1,
            final(self).camera == old(self).camera.updated().0,
            final(self).light == old(self).light.ticked(),
            r.writes@ == old(self).update_writes(),
            final(self).model.instance_array@.len() == old(self).model.instance_array@.len(),
            forall|i: int|
                0 <= i < final(self).model.instance_array@.len() ==> (#[trigger] final(self).model.instance_array@[i]).position2
                    == old(self).model.instance_array@[i].position2 && final(self).model.instance_array@[i].rotation
                    == old(self).model.instance_array@[i].rotation.spun(),
            final(self).model.id == old(self).model.id,
            final(self).model.num_indices == old(self).model.num_indices,
            final(self).model.index_array@ == old(self).model.index_array@,
            final(self).model.texture == old(self).model.texture,
            final(self).phase == old(self).phase,
            final(self).surface == old(self).surface,
            final(self).depth == old(self).depth,
            final(self).mouse_pressed == old(self).mouse_pressed,
            final(self).frames_presented == old(self).frames_presented,
            final(self).frames_skipped == old(self).frames_skipped,
            final(self).pipelines == old(self).pipelines,
            final(self).textures == old(self).textures,
    {
        let moves = self.camera.update_camera();
        let light_write = self.light.update_per_frame();
        spin_all(&mut self.model.instance_array);
        let mut writes = vec![QueueWrite::CameraUniform, light_write];
        match self.model.update_instances() {
            Some(w) => writes.push(w),
            None => {},
        }
        assert(writes@ =~= old(self).update_writes());
        FrameUpdate { moves, writes }
    }

    /// Records one frame into a single render pass.
    pub fn render(&self) -> (r: Vec<PassCommand>)
        requires
            self.wf(),
            self.phase == Phase::Ready,
        ensures
            r@ == self.frame_commands(),
    {
        let mut pass = vec![PassCommand::Begin, PassCommand::SetPipeline(PipelineKind::Light)];
        self.model.draw_light(&mut pass);
        pass.push(PassCommand::SetPipeline(PipelineKind::Model));
        self.camera.bind(&mut pass);
        self.light.bind(&mut pass);
        self.model.prepare(&mut pass);
        self.model.draw(&mut pass);
        assert(pass@ =~= self.frame_commands());
        pass
    }

    /// Classifies how a frame ended. A lost surface is configured again at
    /// the last known size and the frame is skipped; out of memory is
    /// fatal; a timeout or an outdated surface skips the frame, and the next
    /// tick tries again.
    pub fn finish_frame(&mut self, result: Result<(), SurfaceError>) -> (r: FrameOutcome)
        requires
            old(self).wf(),
        ensures
            final(self).wf(),
            (*final(self), r) == old(self).after_frame(result),
    {
        match result {
            Ok(()) => {
                self.frames_presented = bump_exec(self.frames_presented);
                FrameOutcome::Presented
            },
            Err(SurfaceError::Lost) => {
                let width = self.surface.width;
                let height = self.surface.height;
                self.resize(width, height);
                self.frames_skipped = bump_exec(self.frames_skipped);
                FrameOutcome::Reconfigured(self.surface)
            },
            Err(SurfaceError::OutOfMemory) => {
                self.phase = Phase::ShuttingDown;
                FrameOutcome::Fatal
            },
            Err(e) => {
                self.frames_skipped = bump_exec(self.frames_skipped);
                FrameOutcome::Skipped(e)
            },
        }
    }

    /// Marks the renderer as shutting down; the frame in flight completes.
    pub fn shut_down(&mut self)
        requires
            old(self).wf(),
        ensures
            final(self).wf(),
            *final(self) == (DefaultState { phase: Phase::ShuttingDown, ..*old(self) }),
    {
        self.phase = Phase::ShuttingDown;
    }
}

/// Resizing twice to the same size gives the same surface configuration,
/// depth buffer and camera as resizing once.
pub proof fn lemma_resize_idempotent(s: DefaultState, width: u32, height: u32)
    ensures
        s.resized(width, height).resized(width, height) == s.resized(width, height),
{
}

/// After any resize to a nonzero size, the depth buffer has the surface's
/// dimensions, and those are the requested ones.
pub proof fn lemma_depth_follows_surface(s: DefaultState, width: u32, height: u32)
    requires
        s.wf(),
    ensures
        s.resized(width, height).wf(),
        width != 0 && height != 0 ==> s.resized(width, height).surface.width == width
            && s.resized(width, height).surface.height == height,
{
}

/// Every frame draws the light source once and the model once over all of
/// its `n` instances; with no instance, only the light source is drawn and
/// the update writes no instance data.
pub proof fn lemma_frame_draws_every_instance(s: DefaultState)
    requires
        s.wf(),
    ensures
        s.model.instance_count() > 0 ==> draw_count(s.frame_commands()) == 2 && s.frame_commands().last()
            == (PassCommand::DrawIndexed {
            index_count: s.model.num_indices,
            instance_count: s.model.instance_count() as u32,
        }),
        s.model.instance_count() == 0 ==> draw_count(s.frame_commands()) == 1 && !s.update_writes().contains(
            QueueWrite::Instances(s.model.id),
        ),
{
    let head = seq![PassCommand::Begin, PassCommand::SetPipeline(PipelineKind::Light)];
    let light = s.model.light_commands();
    let mid = seq![
        PassCommand::SetPipeline(PipelineKind::Model),
        PassCommand::SetBindGroup { index: 1, set: BindingSetRef::Camera },
        PassCommand::SetBindGroup { index: 2, set: BindingSetRef::Light },
    ];
    let bind = s.model.bind_commands();
    let draw = s.model.draw_commands();
    reveal_with_fuel(draw_count, 6);
    lemma_draw_count_concat(head, light);
    lemma_draw_count_concat(head + light, mid);
    lemma_draw_count_concat(head + light + mid, bind);
    lemma_draw_count_concat(head + light + mid + bind, draw);
    assert(draw_count(head) == 0);
    assert(light.drop_last().drop_last().drop_last().drop_last().drop_last() =~= Seq::<PassCommand>::empty());
    assert(draw_count(light) == 1);
    assert(draw_count(mid) == 0);
    assert(draw_count(bind) == 0);
    lemma_draw_covers_every_instance(s.model);
    if s.model.instance_count() == 0 {
        assert(s.update_writes() =~= seq![QueueWrite::CameraUniform, QueueWrite::LightUniform]);
    }
}

} // verus!
