use render_engine::binding::{GlobalBindLayout, GroupName};
use render_engine::pipeline::ShaderInterface;
use render_engine::driver::WindowAction;
use render_engine::input::{ElementState, InputEvent, KeyCode};
use render_engine::instance::SceneConfig;
use render_engine::pipeline::ColorFormat;
use render_engine::renderer::{DefaultState, Phase, SurfaceConfig};
use render_engine::texture::TextureManager;
use render_engine::Engine;


fn shaders(global: &GlobalBindLayout) -> (ShaderInterface, ShaderInterface) {
    let model = ShaderInterface {
        groups: vec![
            global.get(GroupName::Texture).duplicate(),
            global.get(GroupName::Camera).duplicate(),
            global.get(GroupName::Light).duplicate(),
        ],
    };
    let light =
        ShaderInterface { groups: vec![global.get(GroupName::Camera).duplicate(), global.get(GroupName::Light).duplicate()] };
    (model, light)
}

fn state() -> DefaultState {
    let global = GlobalBindLayout::new();
    DefaultState::new(
        &global,
        &shaders(&global).0,
        &shaders(&global).1,
        SurfaceConfig { width: 320, height: 240, format: ColorFormat::Rgba8UnormSrgb },
        SceneConfig { instances_per_row: 2, spacing: 3 },
        3,
        vec![0, 1, 2],
        TextureManager::new(&global),
        None,
    )
    .unwrap()
}

#[test]
fn engine_keeps_its_title() {
    let e = Engine::new("Test 123");
    assert_eq!(e.title(), "Test 123");
}

#[test]
fn close_and_escape_end_the_loop() {
    let e = Engine::new("t");
    let mut s = state();
    assert_eq!(e.handle_window_event(&mut s, &InputEvent::CloseRequested), WindowAction::Exit);
    assert_eq!(s.phase, Phase::ShuttingDown);
    let mut s = state();
    let esc = InputEvent::KeyboardInput { key: KeyCode::Escape, state: ElementState::Pressed };
    assert_eq!(e.handle_window_event(&mut s, &esc), WindowAction::Exit);
    let mut s = state();
    let esc_up = InputEvent::KeyboardInput { key: KeyCode::Escape, state: ElementState::Released };
    assert_eq!(e.handle_window_event(&mut s, &esc_up), WindowAction::Continue);
    assert_eq!(s.phase, Phase::Uninitialized);
}

#[test]
fn movement_keys_are_consumed_by_the_renderer() {
    let e = Engine::new("t");
    let mut s = state();
    let w = InputEvent::KeyboardInput { key: KeyCode::W, state: ElementState::Pressed };
    assert_eq!(e.handle_window_event(&mut s, &w), WindowAction::Continue);
    assert!(s.camera.controller.is_forward_pressed);
}

#[test]
fn size_changes_reconfigure_the_surface() {
    let e = Engine::new("t");
    let mut s = state();
    let r = e.handle_window_event(&mut s, &InputEvent::Resized { width: 1280, height: 720 });
    assert_eq!(r, WindowAction::Configure(SurfaceConfig { width: 1280, height: 720, format: ColorFormat::Rgba8UnormSrgb }));
    let r = e.handle_window_event(&mut s, &InputEvent::ScaleFactorChanged { width: 640, height: 360 });
    assert_eq!(r, WindowAction::Configure(SurfaceConfig { width: 640, height: 360, format: ColorFormat::Rgba8UnormSrgb }));
    assert_eq!((s.depth.width, s.depth.height), (640, 360));
    let r = e.handle_window_event(&mut s, &InputEvent::Resized { width: 0, height: 0 });
    assert_eq!(r, WindowAction::Continue);
    assert_eq!(s.surface.width, 640);
}
