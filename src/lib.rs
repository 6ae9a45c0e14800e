//! The core of a real-time 3D scene renderer: binding layouts, pipeline
//! state, drawable meshes, camera and light, and the frame state machine
//! that records each frame as a list of GPU commands.

pub mod binding;
pub mod camera;
pub mod driver;
pub mod gpu;
pub mod input;
pub mod instance;
pub mod light;
pub mod mesh;
pub mod pipeline;
pub mod renderer;
pub mod texture;
pub mod vertex;

pub use driver::Engine;
pub use pipeline::Pipelines;
