use vstd::prelude::*;

use crate::binding::ConstructionError;
use crate::gpu::{BindingSetRef, BufferRef, BufferRequest, BufferUsage, PassCommand, QueueWrite};
use crate::instance::{grid_instance, instance_grid, spin_all, Instance, SceneConfig};

verus! {

/// Every index refers to one of the `vertex_count` vertices.
pub open spec fn indices_in_range(indices: Seq<u16>, vertex_count: u32) -> bool {
    forall|i: int| 0 <= i < indices.len() ==> (#[trigger] indices[i]) < vertex_count
}

/// A mesh: static geometry (its vertex count and 16-bit index array), an
/// ordered instance sequence that is the source of truth for its instance
/// buffer, and the texture of the arena it is drawn with.
#[derive(Debug)]
pub struct Mesh {
    pub id: u32,
    pub vertex_count: u32,
    pub index_array: Vec<u16>,
    pub num_indices: u32,
    pub instance_array: Vec<Instance>,
    pub texture: Option<u32>,
    pub initialized: bool,
}

impl Mesh {
    pub open spec fn wf(&self) -> bool {
        &&& indices_in_range(self.index_array@, self.vertex_count)
        &&& self.index_array@.len() <= u32::MAX
        &&& self.instance_array@.len() <= u32::MAX
        &&& forall|i: int| 0 <= i < self.instance_array@.len() ==> (#[trigger] self.instance_array@[i]).wf()
        &&& self.initialized ==> self.num_indices == self.index_array@.len()
    }

    pub open spec fn instance_count(&self) -> nat {
        self.instance_array@.len()
    }

    /// The buffers `initialize` asks for, in order.
    pub open spec fn buffer_requests(&self) -> Seq<BufferRequest> {
        seq![
            BufferRequest { target: BufferRef::Vertices(self.id), usage: BufferUsage::Vertex, writable: false },
            BufferRequest { target: BufferRef::Indices(self.id), usage: BufferUsage::Index, writable: false },
            BufferRequest { target: BufferRef::Instances(self.id), usage: BufferUsage::Vertex, writable: true },
        ]
    }

    /// The commands `prepare` records: texture at group 0 when the mesh has
    /// one, geometry at vertex slot 0, instances at slot 1, then indices.
    pub open spec fn bind_commands(&self) -> Seq<PassCommand> {
        let buffers = seq![
            PassCommand::SetVertexBuffer { slot: 0, buffer: BufferRef::Vertices(self.id) },
            PassCommand::SetVertexBuffer { slot: 1, buffer: BufferRef::Instances(self.id) },
            PassCommand::SetIndexBuffer(BufferRef::Indices(self.id)),
        ];
        match self.texture {
            Some(t) => seq![PassCommand::SetBindGroup { index: 0, set: BindingSetRef::Texture(t) }] + buffers,
            None => buffers,
        }
    }

    /// The commands `draw` records: one draw of every index for every
    /// instance, or nothing when there is no instance.
    pub open spec fn draw_commands(&self) -> Seq<PassCommand> {
        if self.instance_count() == 0 {
            seq![]
        } else {
            seq![PassCommand::DrawIndexed { index_count: self.num_indices, instance_count: self.instance_count() as u32 }]
        }
    }

    /// The write `update_instances` asks for.
    pub open spec fn instance_write(&self) -> Option<QueueWrite> {
        if self.instance_count() == 0 {
            None
        } else {
            Some(QueueWrite::Instances(self.id))
        }
    }

    /// The commands that draw this mesh as the light source: geometry only,
    /// camera at group 0, light at group 1, a single instance.
    pub open spec fn light_commands(&self) -> Seq<PassCommand> {
        seq![
            PassCommand::SetVertexBuffer { slot: 0, buffer: BufferRef::Vertices(self.id) },
            PassCommand::SetIndexBuffer(BufferRef::Indices(self.id)),
            PassCommand::SetBindGroup { index: 0, set: BindingSetRef::Camera },
            PassCommand::SetBindGroup { index: 1, set: BindingSetRef::Light },
            PassCommand::DrawIndexed { index_count: self.num_indices, instance_count: 1 },
        ]
    }

    /// Builds a mesh, refusing an index past the end of the vertex array.
    pub fn new(
        id: u32,
        vertex_count: u32,
        index_array: Vec<u16>,
        instance_array: Vec<Instance>,
        texture: Option<u32>,
    ) -> (r: Result<Mesh, ConstructionError>)
        requires
            index_array@.len() <= u32::MAX,
            instance_array@.len() <= u32::MAX,
            forall|i: int| 0 <= i < instance_array@.len() ==> (#[trigger] instance_array@[i]).wf(),
        ensures
            r is Ok <==> indices_in_range(index_array@, vertex_count),
            r is Err ==> r->Err_0 == ConstructionError::IndexOutOfRange,
            r is Ok ==> {
                let m = r->Ok_0;
                &&& m.wf()
                &&& m.id == id
                &&& m.vertex_count == vertex_count
                &&& m.index_array@ == index_array@
                &&& m.num_indices == index_array@.len()
                &&& m.instance_array@ == instance_array@
                &&& m.texture == texture
                &&& !m.initialized
            },
    {
        let n = index_array.len();
        let mut i: usize = 0;
        while i < n
            invariant
                n == index_array@.len(),
                0 <= i <= n,
                forall|k: int| 0 <= k < i ==> (#[trigger] index_array@[k]) < vertex_count,
            decreases n - i,
        {
            if index_array[i] as u32 >= vertex_count {
                return Err(ConstructionError::IndexOutOfRange);
            }
            i = i + 1;
        }
        let num_indices = n as u32;
        Ok(Mesh { id, vertex_count, index_array, num_indices, instance_array, texture, initialized: false })
    }

    /// Allocates the mesh's buffers from its current CPU-side state: returns
    /// what to allocate; the instance buffer stays writable.
    pub fn initialize(&mut self) -> (r: Vec<BufferRequest>)
        requires
            old(self).wf(),
        ensures
            final(self).wf(),
            final(self).initialized,
            final(self).num_indices == old(self).index_array@.len(),
            final(self).id == old(self).id,
            final(self).index_array@ == old(self).index_array@,
            final(self).instance_array@ == old(self).instance_array@,
            final(self).texture == old(self).texture,
            final(self).vertex_count == old(self).vertex_count,
            r@ == old(self).buffer_requests(),
    {
        self.num_indices = self.index_array.len() as u32;
        self.initialized = true;
        let r = vec![
            BufferRequest { target: BufferRef::Vertices(self.id), usage: BufferUsage::Vertex, writable: false },
            BufferRequest { target: BufferRef::Indices(self.id), usage: BufferUsage::Index, writable: false },
            BufferRequest { target: BufferRef::Instances(self.id), usage: BufferUsage::Vertex, writable: true },
        ];
        assert(r@ =~= old(self).buffer_requests());
        r
    }

    /// The rewrite of the instance buffer from the instance sequence; no
    /// write at all when there is no instance.
    pub fn update_instances(&self) -> (r: Option<QueueWrite>)
        ensures
            r == self.instance_write(),
    {
        if self.instance_array.len() == 0 {
            None
        } else {
            Some(QueueWrite::Instances(self.id))
        }
    }

    /// Binds the mesh's texture and buffers at their reserved slots.
    pub fn prepare(&self, pass: &mut Vec<PassCommand>)
        ensures
            final(pass)@ == old(pass)@ + self.bind_commands(),
    {
        let ghost start = pass@;
        match self.texture {
            Some(t) => pass.push(PassCommand::SetBindGroup { index: 0, set: BindingSetRef::Texture(t) }),
            None => {},
        }
        pass.push(PassCommand::SetVertexBuffer { slot: 0, buffer: BufferRef::Vertices(self.id) });
        pass.push(PassCommand::SetVertexBuffer { slot: 1, buffer: BufferRef::Instances(self.id) });
        pass.push(PassCommand::SetIndexBuffer(BufferRef::Indices(self.id)));
        assert(pass@ =~= start + self.bind_commands());
    }

    /// Draws every index for every instance; does nothing without instances.
    pub fn draw(&self, pass: &mut Vec<PassCommand>)
        requires
            self.wf(),
        ensures
            final(pass)@ == old(pass)@ + self.draw_commands(),
    {
        let ghost start = pass@;
        if self.instance_array.len() > 0 {
            pass.push(PassCommand::DrawIndexed { index_count: self.num_indices, instance_count: self.instance_array.len() as u32 });
        }
        assert(pass@ =~= start + self.draw_commands());
    }

    /// Binds and draws this mesh as the light source.
    pub fn draw_light(&self, pass: &mut Vec<PassCommand>)
        ensures
            final(pass)@ == old(pass)@ + self.light_commands(),
    {
        let ghost start = pass@;
        pass.push(PassCommand::SetVertexBuffer { slot: 0, buffer: BufferRef::Vertices(self.id) });
        pass.push(PassCommand::SetIndexBuffer(BufferRef::Indices(self.id)));
        pass.push(PassCommand::SetBindGroup { index: 0, set: BindingSetRef::Camera });
        pass.push(PassCommand::SetBindGroup { index: 1, set: BindingSetRef::Light });
        pass.push(PassCommand::DrawIndexed { index_count: self.num_indices, instance_count: 1 });
        assert(pass@ =~= start + self.light_commands());
    }
}

/// Number of draw commands in a command sequence.
pub open spec fn draw_count(cmds: Seq<PassCommand>) -> nat
    decreases cmds.len(),
{
    if cmds.len() == 0 {
        0
    } else {
        draw_count(cmds.drop_last()) + if cmds.last().is_draw() { 1nat } else { 0nat }
    }
}

/// Draws in two command sequences add up.
pub proof fn lemma_draw_count_concat(a: Seq<PassCommand>, b: Seq<PassCommand>)
    ensures
        draw_count(a + b) == draw_count(a) + draw_count(b),
    decreases b.len(),
{
    if b.len() > 0 {
        lemma_draw_count_concat(a, b.drop_last());
        assert((a + b).drop_last() =~= a + b.drop_last());
    } else {
        assert(a + b =~= a);
    }
}

/// A mesh with `n` instances is drawn, each frame, by exactly one command
/// that covers all `n` instances and all indices; with no instance it
/// records no draw and asks for no buffer write.
pub proof fn lemma_draw_covers_every_instance(m: Mesh)
    requires
        m.wf(),
    ensures
        m.instance_count() == 0 ==> draw_count(m.draw_commands()) == 0 && m.instance_write() is None,
        m.instance_count() > 0 ==> draw_count(m.draw_commands()) == 1 && m.draw_commands()[0]
            == (PassCommand::DrawIndexed { index_count: m.num_indices, instance_count: m.instance_count() as u32 }),
{
    if m.instance_count() == 0 {
        assert(draw_count(m.draw_commands()) == 0);
    } else {
        let c = m.draw_commands();
        assert(c.drop_last() =~= Seq::<PassCommand>::empty());
        assert(draw_count(c.drop_last()) == 0);
    }
}

/// Vertex count of the default pentagon.
pub const PENTAGON_VERTEX_COUNT: u32 = 5;

/// Instances per row of the default mesh's grid.
pub const DEFAULT_INSTANCES_PER_ROW: u32 = 10;

/// The default mesh's grid: ten by ten, one unit apart.
pub fn default_scene() -> (r: SceneConfig)
    ensures
        r == default_grid(),
        r.wf(),
{
    SceneConfig { instances_per_row: DEFAULT_INSTANCES_PER_ROW, spacing: 1 }
}

pub open spec fn pentagon_indices() -> Seq<u16> {
    seq![0, 1, 4, 1, 2, 4, 2, 3, 4]
}

pub open spec fn default_grid() -> SceneConfig {
    SceneConfig { instances_per_row: DEFAULT_INSTANCES_PER_ROW, spacing: 1 }
}

/// The index array of the default pentagon: three triangles fanned around
/// its last vertex.
pub fn pentagon_index_array() -> (r: Vec<u16>)
    ensures
        r@ == pentagon_indices(),
{
    let r: Vec<u16> = vec![0, 1, 4, 1, 2, 4, 2, 3, 4];
    assert(r@ =~= pentagon_indices());
    r
}

/// A pentagon drawn over a grid of spinning instances, with two textures to
/// toggle between.
#[derive(Debug)]
pub struct DefaultMesh {
    pub mesh: Mesh,
    pub toggle: bool,
    pub texture1: u32,
    pub texture2: u32,
}

impl DefaultMesh {
    pub open spec fn wf(&self) -> bool {
        &&& self.mesh.wf()
        &&& self.mesh.texture == Some(if self.toggle { self.texture2 } else { self.texture1 })
    }

    /// The pentagon over the instance grid of `scene`, drawn with the first
    /// texture.
    pub fn new(id: u32, scene: SceneConfig, texture1: u32, texture2: u32) -> (r: DefaultMesh)
        requires
            scene.wf(),
        ensures
            r.wf(),
            !r.toggle,
            r.texture1 == texture1,
            r.texture2 == texture2,
            r.mesh.id == id,
            r.mesh.vertex_count == PENTAGON_VERTEX_COUNT,
            r.mesh.index_array@ == pentagon_indices(),
            r.mesh.num_indices == 9,
            r.mesh.texture == Some(texture1),
            r.mesh.instance_array@.len() == scene.count(),
            forall|x: int, z: int|
                0 <= x < scene.instances_per_row && 0 <= z < scene.instances_per_row
                    ==> #[trigger] r.mesh.instance_array@[z * scene.instances_per_row + x] == grid_instance(scene, x, z),
            !r.mesh.initialized,
    {
        let indices = pentagon_index_array();
        let instances = instance_grid(scene);
        assert(scene.count() <= u32::MAX) by (nonlinear_arith)
            requires
                scene.instances_per_row <= 65535,
                scene.count() == scene.instances_per_row * scene.instances_per_row,
        ;
        let mesh = match Mesh::new(id, PENTAGON_VERTEX_COUNT, indices, instances, Some(texture1)) {
            Ok(m) => m,
            Err(_) => vstd::pervasive::unreached(),
        };
        DefaultMesh { mesh, toggle: false, texture1, texture2 }
    }

    /// Selects which of the two textures the mesh is drawn with; the
    /// binding sets themselves are never rebuilt.
    pub fn toggle(&mut self, toggle: bool)
        requires
            old(self).wf(),
        ensures
            final(self).wf(),
            final(self).toggle == toggle,
            final(self).texture1 == old(self).texture1,
            final(self).texture2 == old(self).texture2,
            final(self).mesh.instance_array@ == old(self).mesh.instance_array@,
            final(self).mesh.id == old(self).mesh.id,
    {
        self.toggle = toggle;
        if !self.toggle {
            self.mesh.texture = Some(self.texture1);
        } else {
            self.mesh.texture = Some(self.texture2);
        }
    }

    /// Spins every instance by one step, then asks for the instance buffer
    /// to be rewritten.
    pub fn update_instances(&mut self) -> (r: Option<QueueWrite>)
        requires
            old(self).wf(),
        ensures
            final(self).wf(),
            final(self).toggle == old(self).toggle,
            final(self).mesh.id == old(self).mesh.id,
            final(self).mesh.initialized == old(self).mesh.initialized,
            final(self).mesh.instance_array@.len() == old(self).mesh.instance_array@.len(),
            forall|i: int|
                0 <= i < final(self).mesh.instance_array@.len() ==> (#[trigger] final(self).mesh.instance_array@[i]).position2
                    == old(self).mesh.instance_array@[i].position2 && final(self).mesh.instance_array@[i].rotation
                    == old(self).mesh.instance_array@[i].rotation.spun(),
            r == old(self).mesh.instance_write(),
    {
        spin_all(&mut self.mesh.instance_array);
        self.mesh.update_instances()
    }
}

} // verus!
