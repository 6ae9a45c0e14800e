use render_engine::binding::{ConstructionError, GlobalBindLayout, GroupName};
use render_engine::pipeline::ShaderInterface;
use render_engine::camera::{Camera, CameraController};
use render_engine::gpu::{BindingSetRef, BufferRef, PassCommand, QueueWrite};
use render_engine::input::{ElementState, InputEvent, KeyCode, MouseButton, ScrollDelta};
use render_engine::instance::{instance_grid, IVec3, Instance, Rotation, SceneConfig, SPIN_STEPS_PER_TURN};
use render_engine::light::{Light, Rgb8};
use render_engine::mesh::{default_scene, DefaultMesh, Mesh};
use render_engine::pipeline::{ColorFormat, PipelineKind};
use render_engine::renderer::{DefaultState, FrameOutcome, Phase, SurfaceConfig, SurfaceError};
use render_engine::texture::TextureManager;


fn shaders(global: &GlobalBindLayout) -> (ShaderInterface, ShaderInterface) {
    let model = ShaderInterface {
        groups: vec![
            global.get(GroupName::Texture).duplicate(),
            global.get(GroupName::Camera).duplicate(),
            global.get(GroupName::Light).duplicate(),
        ],
    };
    let light =
        ShaderInterface { groups: vec![global.get(GroupName::Camera).duplicate(), global.get(GroupName::Light).duplicate()] };
    (model, light)
}

const CUBE_INDICES: [u16; 6] = [0, 1, 2, 2, 3, 0];

fn surface(width: u32, height: u32) -> SurfaceConfig {
    SurfaceConfig { width, height, format: ColorFormat::Bgra8UnormSrgb }
}

fn ready_state() -> DefaultState {
    let global = GlobalBindLayout::new();
    let mut textures = TextureManager::new(&global);
    let t = textures.create_texture_from_bytes(&global, &[0u8; 16], 2, 2).unwrap();
    let mut s = DefaultState::new(
        &global,
        &shaders(&global).0,
        &shaders(&global).1,
        surface(800, 600),
        SceneConfig { instances_per_row: 10, spacing: 3 },
        4,
        CUBE_INDICES.to_vec(),
        textures,
        Some(t),
    )
    .unwrap();
    s.initialize();
    s
}

fn key(key: KeyCode, state: ElementState) -> InputEvent {
    InputEvent::KeyboardInput { key, state }
}

#[test]
fn grid_of_ten_by_ten_spaced_three_apart() {
    let grid = instance_grid(SceneConfig { instances_per_row: 10, spacing: 3 });
    assert_eq!(grid.len(), 100);
    // Positions are held doubled: -15 world units is -30.
    assert_eq!(grid[0].position2, IVec3 { x: -30, y: 0, z: -30 });
    assert_eq!(grid[0].rotation, Rotation { axis: IVec3 { x: -30, y: 0, z: -30 }, degrees: 45, spin_steps: 0 });
    assert_eq!(grid[1].position2, IVec3 { x: -24, y: 0, z: -30 });
    assert_eq!(grid[10].position2, IVec3 { x: -30, y: 0, z: -24 });
    assert_eq!(grid[99].position2, IVec3 { x: 24, y: 0, z: 24 });
    let center = grid[5 * 10 + 5];
    assert_eq!(center.position2, IVec3 { x: 0, y: 0, z: 0 });
    assert_eq!(center.rotation, Rotation { axis: IVec3 { x: 0, y: 0, z: 1 }, degrees: 0, spin_steps: 0 });
}

#[test]
fn odd_grid_stays_exact_with_doubled_positions() {
    let grid = instance_grid(SceneConfig { instances_per_row: 3, spacing: 1 });
    assert_eq!(grid.len(), 9);
    // Index 0 stands at -1.5 world units.
    assert_eq!(grid[0].position2.x, -3);
    // Index 1 stands at -0.5.
    assert_eq!(grid[4].position2, IVec3 { x: -1, y: 0, z: -1 });
    assert_eq!(grid[8].position2, IVec3 { x: 1, y: 0, z: 1 });
    assert_eq!(grid[4].rotation.degrees, 45);
}

#[test]
fn empty_grid() {
    let grid = instance_grid(SceneConfig { instances_per_row: 0, spacing: 3 });
    assert!(grid.is_empty());
}

#[test]
fn one_update_composes_every_rotation_with_one_spin_step() {
    let mut s = ready_state();
    let before: Vec<Instance> = s.model.instance_array.clone();
    s.update();
    assert_eq!(s.model.instance_array.len(), 100);
    for (a, b) in before.iter().zip(s.model.instance_array.iter()) {
        assert_eq!(b.position2, a.position2);
        assert_eq!(b.rotation.axis, a.rotation.axis);
        assert_eq!(b.rotation.degrees, a.rotation.degrees);
        assert_eq!(b.rotation.spin_steps, a.rotation.spin_steps + 1);
    }
    let center = s.model.instance_array[55];
    assert_eq!(center.position2, IVec3 { x: 0, y: 0, z: 0 });
    assert_ne!(center.rotation.axis, IVec3 { x: 0, y: 0, z: 0 });
}

#[test]
fn spin_wraps_after_a_full_turn() {
    let mut i = instance_grid(SceneConfig { instances_per_row: 2, spacing: 1 })[0];
    for _ in 0..SPIN_STEPS_PER_TURN - 1 {
        i.spin();
    }
    assert_eq!(i.rotation.spin_steps, SPIN_STEPS_PER_TURN - 1);
    i.spin();
    assert_eq!(i.rotation.spin_steps, 0);
}

#[test]
fn light_orbit_closes_after_a_full_turn() {
    let start = Light::new(IVec3 { x: 2, y: 2, z: 2 }, Rgb8 { r: 255, g: 255, b: 255 });
    let mut l = start;
    l.tick();
    assert_eq!(l.orbit_degrees, 1);
    for _ in 1..360 {
        l.tick();
    }
    assert_eq!(l, start);
}

#[test]
fn update_turns_the_light_by_one_degree() {
    let mut s = ready_state();
    assert_eq!(s.light.orbit_degrees, 0);
    assert_eq!(s.light.start, IVec3 { x: 2, y: 2, z: 2 });
    s.update();
    assert_eq!(s.light.orbit_degrees, 1);
}

#[test]
fn idle_camera_does_not_drift_across_updates() {
    let mut s = ready_state();
    let camera = s.camera;
    let u1 = s.update();
    let after_one = s.camera;
    let u2 = s.update();
    assert_eq!(after_one, camera);
    assert_eq!(s.camera, camera);
    assert_eq!(u1.moves, u2.moves);
    assert!(!u1.moves.forward && !u1.moves.backward && !u1.moves.left && !u1.moves.right);
    assert_eq!((u1.moves.yaw, u1.moves.pitch, u1.moves.zoom), (0, 0, 0));
}

#[test]
fn update_asks_for_uniform_and_instance_writes() {
    let mut s = ready_state();
    let u = s.update();
    assert_eq!(u.writes, vec![QueueWrite::CameraUniform, QueueWrite::LightUniform, QueueWrite::Instances(0)]);
}

#[test]
fn mesh_draws_every_instance_in_one_call() {
    let instances = instance_grid(SceneConfig { instances_per_row: 4, spacing: 1 });
    let mut m = Mesh::new(3, 4, CUBE_INDICES.to_vec(), instances, None).unwrap();
    m.initialize();
    let mut pass = Vec::new();
    m.draw(&mut pass);
    assert_eq!(pass, vec![PassCommand::DrawIndexed { index_count: 6, instance_count: 16 }]);
    assert_eq!(m.update_instances(), Some(QueueWrite::Instances(3)));
}

#[test]
fn mesh_without_instances_binds_but_draws_and_writes_nothing() {
    let mut m = Mesh::new(1, 4, CUBE_INDICES.to_vec(), Vec::new(), Some(2)).unwrap();
    m.initialize();
    let mut pass = Vec::new();
    m.prepare(&mut pass);
    assert_eq!(
        pass,
        vec![
            PassCommand::SetBindGroup { index: 0, set: BindingSetRef::Texture(2) },
            PassCommand::SetVertexBuffer { slot: 0, buffer: BufferRef::Vertices(1) },
            PassCommand::SetVertexBuffer { slot: 1, buffer: BufferRef::Instances(1) },
            PassCommand::SetIndexBuffer(BufferRef::Indices(1)),
        ]
    );
    let mut draws = Vec::new();
    m.draw(&mut draws);
    assert!(draws.is_empty());
    assert_eq!(m.update_instances(), None);
}

#[test]
fn mesh_index_past_vertices_is_refused() {
    let r = Mesh::new(0, 3, vec![0, 1, 3], Vec::new(), None);
    assert_eq!(r.unwrap_err(), ConstructionError::IndexOutOfRange);
}

#[test]
fn texture_bytes_must_hold_four_per_pixel() {
    let global = GlobalBindLayout::new();
    let mut textures = TextureManager::new(&global);
    assert_eq!(textures.create_texture_from_bytes(&global, &[0u8; 15], 2, 2), Err(ConstructionError::ImageSizeMismatch));
    assert_eq!(textures.textures.len(), 0);
    assert_eq!(textures.create_texture_from_bytes(&global, &[0u8; 16], 2, 2), Ok(0));
    assert_eq!(textures.create_texture_from_bytes(&global, &[0u8; 4], 1, 1), Ok(1));
    assert_eq!(textures.textures[1].width, 1);
    assert_eq!(textures.textures[1].bind_group.resources[1].handle, 3);
    assert_eq!(textures.get_texture_bind_group_layout().entries, global.get_texture_bind_layout().entries);
}

#[test]
fn default_mesh_toggles_between_its_textures() {
    let mut d = DefaultMesh::new(0, default_scene(), 4, 9);
    assert_eq!(d.mesh.texture, Some(4));
    assert_eq!(d.mesh.instance_array.len(), 100);
    assert_eq!(d.mesh.index_array, vec![0, 1, 4, 1, 2, 4, 2, 3, 4]);
    d.toggle(true);
    assert_eq!(d.mesh.texture, Some(9));
    d.toggle(false);
    assert_eq!(d.mesh.texture, Some(4));
    assert_eq!(d.update_instances(), Some(QueueWrite::Instances(0)));
    assert_eq!(d.mesh.instance_array[0].rotation.spin_steps, 1);
    // Unit spacing: the first instance is at (-5, 0, -5).
    assert_eq!(d.mesh.instance_array[0].position2, IVec3 { x: -10, y: 0, z: -10 });
}

#[test]
fn resize_twice_equals_resize_once() {
    let mut once = ready_state();
    let c1 = once.resize(1024, 768);
    let mut twice = ready_state();
    twice.resize(1024, 768);
    let c2 = twice.resize(1024, 768);
    assert_eq!(c1, Some(surface(1024, 768)));
    assert_eq!(c1, c2);
    assert_eq!(once.surface, twice.surface);
    assert_eq!(once.depth, twice.depth);
    assert_eq!((once.depth.width, once.depth.height), (1024, 768));
    assert_eq!((twice.camera.width, twice.camera.height), (1024, 768));
}

#[test]
fn zero_size_is_ignored() {
    let mut s = ready_state();
    assert_eq!(s.resize(0, 768), None);
    assert_eq!(s.surface, surface(800, 600));
    assert_eq!((s.depth.width, s.depth.height), (800, 600));
}

#[test]
fn lost_surface_is_reconfigured_at_last_size_and_frame_skipped() {
    let mut s = ready_state();
    s.resize(640, 480);
    let outcome = s.finish_frame(Err(SurfaceError::Lost));
    assert_eq!(outcome, FrameOutcome::Reconfigured(surface(640, 480)));
    assert_eq!(s.frames_skipped, 1);
    assert_eq!(s.frames_presented, 0);
    assert_eq!(s.phase, Phase::Ready);
    assert_eq!((s.depth.width, s.depth.height), (640, 480));
}

#[test]
fn out_of_memory_is_fatal() {
    let mut s = ready_state();
    assert_eq!(s.finish_frame(Err(SurfaceError::OutOfMemory)), FrameOutcome::Fatal);
    assert_eq!(s.phase, Phase::ShuttingDown);
}

#[test]
fn timeout_and_outdated_skip_the_frame() {
    let mut s = ready_state();
    assert_eq!(s.finish_frame(Err(SurfaceError::Timeout)), FrameOutcome::Skipped(SurfaceError::Timeout));
    assert_eq!(s.finish_frame(Err(SurfaceError::Outdated)), FrameOutcome::Skipped(SurfaceError::Outdated));
    assert_eq!(s.finish_frame(Ok(())), FrameOutcome::Presented);
    assert_eq!((s.frames_skipped, s.frames_presented), (2, 1));
    assert_eq!(s.surface, surface(800, 600));
}

#[test]
fn frame_is_one_pass_light_then_model() {
    let s = ready_state();
    let cmds = s.render();
    assert_eq!(
        cmds,
        vec![
            PassCommand::Begin,
            PassCommand::SetPipeline(PipelineKind::Light),
            PassCommand::SetVertexBuffer { slot: 0, buffer: BufferRef::Vertices(0) },
            PassCommand::SetIndexBuffer(BufferRef::Indices(0)),
            PassCommand::SetBindGroup { index: 0, set: BindingSetRef::Camera },
            PassCommand::SetBindGroup { index: 1, set: BindingSetRef::Light },
            PassCommand::DrawIndexed { index_count: 6, instance_count: 1 },
            PassCommand::SetPipeline(PipelineKind::Model),
            PassCommand::SetBindGroup { index: 1, set: BindingSetRef::Camera },
            PassCommand::SetBindGroup { index: 2, set: BindingSetRef::Light },
            PassCommand::SetBindGroup { index: 0, set: BindingSetRef::Texture(0) },
            PassCommand::SetVertexBuffer { slot: 0, buffer: BufferRef::Vertices(0) },
            PassCommand::SetVertexBuffer { slot: 1, buffer: BufferRef::Instances(0) },
            PassCommand::SetIndexBuffer(BufferRef::Indices(0)),
            PassCommand::DrawIndexed { index_count: 6, instance_count: 100 },
        ]
    );
}

#[test]
fn initialize_requests_every_buffer_once() {
    let global = GlobalBindLayout::new();
    let mut s = DefaultState::new(
        &global,
        &shaders(&global).0,
        &shaders(&global).1,
        surface(8, 8),
        SceneConfig { instances_per_row: 1, spacing: 3 },
        3,
        vec![0, 1, 2],
        TextureManager::new(&global),
        None,
    )
    .unwrap();
    assert_eq!(s.phase, Phase::Uninitialized);
    let r = s.initialize();
    assert_eq!(r.len(), 5);
    assert_eq!(r[0].target, BufferRef::CameraUniform);
    assert_eq!(r[4].target, BufferRef::Instances(0));
    assert!(r[4].writable);
    assert!(!r[2].writable);
    assert_eq!(s.phase, Phase::Ready);
}

#[test]
fn state_with_bad_indices_is_refused() {
    let global = GlobalBindLayout::new();
    let r = DefaultState::new(
        &global,
        &shaders(&global).0,
        &shaders(&global).1,
        surface(8, 8),
        SceneConfig { instances_per_row: 1, spacing: 3 },
        2,
        vec![0, 1, 2],
        TextureManager::new(&global),
        None,
    );
    assert_eq!(r.unwrap_err(), ConstructionError::IndexOutOfRange);
}

#[test]
fn movement_keys_set_intent() {
    let mut c = CameraController::new(200);
    assert!(c.process_keyboard(KeyCode::W, ElementState::Pressed));
    assert!(c.is_forward_pressed);
    assert!(c.process_keyboard(KeyCode::Up, ElementState::Released));
    assert!(!c.is_forward_pressed);
    assert!(c.process_keyboard(KeyCode::Left, ElementState::Pressed));
    assert!(c.is_left_pressed);
    assert!(c.process_keyboard(KeyCode::S, ElementState::Pressed));
    assert!(c.is_backward_pressed);
    assert!(c.process_keyboard(KeyCode::D, ElementState::Pressed));
    assert!(c.is_right_pressed);
    let before = c;
    assert!(!c.process_keyboard(KeyCode::Other, ElementState::Pressed));
    assert!(!c.process_keyboard(KeyCode::Escape, ElementState::Pressed));
    assert_eq!(c, before);
    let plan = c.update();
    assert!(plan.left && plan.backward && plan.right && !plan.forward);
    // Held keys stay held.
    assert!(c.update().left);
}

#[test]
fn scroll_and_motion_are_used_up_by_one_update() {
    let mut c = CameraController::new(200);
    c.process_scroll(ScrollDelta::Lines(2));
    assert_eq!(c.scroll, -200);
    c.process_scroll(ScrollDelta::Pixels(-7));
    assert_eq!(c.scroll, 7);
    c.process_mouse(3, -4);
    let plan = c.update();
    assert_eq!((plan.yaw, plan.pitch, plan.zoom), (3, -4, 7));
    assert_eq!((c.rotate_horizontal, c.rotate_vertical, c.scroll), (0, 0, 0));
}

#[test]
fn pointer_motion_turns_only_while_left_button_held() {
    let mut s = ready_state();
    assert!(s.input(&InputEvent::MouseMotion { dx: 5, dy: 6 }));
    assert_eq!(s.camera.controller.rotate_horizontal, 0);
    assert!(s.input(&InputEvent::MouseInput { button: MouseButton::Left, state: ElementState::Pressed }));
    assert!(s.mouse_pressed);
    assert!(s.input(&InputEvent::MouseMotion { dx: 5, dy: 6 }));
    assert_eq!((s.camera.controller.rotate_horizontal, s.camera.controller.rotate_vertical), (5, 6));
    assert!(!s.input(&InputEvent::MouseInput { button: MouseButton::Right, state: ElementState::Pressed }));
    assert!(s.input(&InputEvent::MouseWheel { delta: ScrollDelta::Lines(1) }));
    assert_eq!(s.camera.controller.scroll, -100);
    assert!(!s.input(&InputEvent::CloseRequested));
    assert!(!s.input(&InputEvent::Resized { width: 1, height: 1 }));
}

#[test]
fn camera_defaults() {
    let c = Camera::new(800, 600, 4000);
    assert_eq!((c.width, c.height, c.fovy_degrees, c.znear_milli, c.zfar_milli), (800, 600, 45, 100, 100_000));
    assert_eq!(c.controller.speed_milli, 4000);
}

#[test]
fn camera_and_light_bind_at_reserved_groups() {
    let c = Camera::new(4, 3, 200);
    let l = Light::new(IVec3 { x: 2, y: 2, z: 2 }, Rgb8 { r: 255, g: 255, b: 255 });
    let mut pass = Vec::new();
    c.bind(&mut pass);
    l.bind(&mut pass);
    assert_eq!(
        pass,
        vec![
            PassCommand::SetBindGroup { index: 1, set: BindingSetRef::Camera },
            PassCommand::SetBindGroup { index: 2, set: BindingSetRef::Light },
        ]
    );
    assert_eq!(c.initialize().target, BufferRef::CameraUniform);
    assert_eq!(l.initialize().target, BufferRef::LightUniform);
}

#[test]
fn light_update_turns_and_asks_for_a_write() {
    let mut l = Light::new(IVec3 { x: 2, y: 2, z: 2 }, Rgb8 { r: 10, g: 20, b: 30 });
    assert_eq!(l.update_per_frame(), QueueWrite::LightUniform);
    assert_eq!(l.orbit_degrees, 1);
    assert_eq!(l.color, Rgb8 { r: 10, g: 20, b: 30 });
}

#[test]
fn state_with_mismatched_shader_is_refused() {
    let global = GlobalBindLayout::new();
    let (model, _) = shaders(&global);
    let r = DefaultState::new(
        &global,
        &model,
        &model,
        surface(8, 8),
        SceneConfig { instances_per_row: 1, spacing: 3 },
        2,
        vec![0, 1, 2],
        TextureManager::new(&global),
        None,
    );
    assert_eq!(r.unwrap_err(), ConstructionError::GroupCountMismatch);
}

#[test]
fn default_mesh_follows_its_scene_configuration() {
    let d = DefaultMesh::new(2, SceneConfig { instances_per_row: 4, spacing: 3 }, 0, 1);
    assert_eq!(d.mesh.num_indices, 9);
    assert_eq!(d.mesh.instance_array.len(), 16);
    assert_eq!(d.mesh.instance_array[0].position2, IVec3 { x: -12, y: 0, z: -12 });
    assert_eq!(d.mesh.instance_array[2 * 4 + 2].rotation.degrees, 0);
}
