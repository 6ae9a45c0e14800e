use vstd::prelude::*;

use crate::pipeline::PipelineKind;

verus! {

/// A GPU buffer owned by the renderer: the three buffers of each mesh, by
/// mesh id, and the two uniform buffers.
#[derive(Clone, Copy, Debug, PartialEq, Eq, Hash, Structural)]
pub enum BufferRef {
    Vertices(u32),
    Indices(u32),
    Instances(u32),
    CameraUniform,
    LightUniform,
}

/// How a buffer is used.
#[derive(Clone, Copy, Debug, PartialEq, Eq, Structural)]
pub enum BufferUsage {
    Vertex,
    Index,
    Uniform,
}

/// A buffer to allocate and fill from the current CPU-side state.
/// `writable` buffers can later be rewritten in place.
#[derive(Clone, Copy, Debug, PartialEq, Eq, Structural)]
pub struct BufferRequest {
    pub target: BufferRef,
    pub usage: BufferUsage,
    pub writable: bool,
}

/// A binding set attached in a pass: a texture of the arena, or one of the
/// two uniform sets.
#[derive(Clone, Copy, Debug, PartialEq, Eq, Structural)]
pub enum BindingSetRef {
    Texture(u32),
    Camera,
    Light,
}

/// A partial rewrite of an existing buffer with freshly computed contents.
#[derive(Clone, Copy, Debug, PartialEq, Eq, Structural)]
pub enum QueueWrite {
    Instances(u32),
    CameraUniform,
    LightUniform,
}

/// One command recorded into a render pass.
#[derive(Clone, Copy, Debug, PartialEq, Eq, Structural)]
pub enum PassCommand {
    /// Starts the pass: clear color target, depth cleared to the far plane.
    Begin,
    SetPipeline(PipelineKind),
    SetBindGroup { index: u32, set: BindingSetRef },
    SetVertexBuffer { slot: u32, buffer: BufferRef },
    /// Index buffer of 16-bit indices.
    SetIndexBuffer(BufferRef),
    /// Indices `0..index_count` for instances `0..instance_count`.
    DrawIndexed { index_count: u32, instance_count: u32 },
}

impl PassCommand {
    pub open spec fn is_draw(self) -> bool {
        self is DrawIndexed
    }
}

} // verus!
