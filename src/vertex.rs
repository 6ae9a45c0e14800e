use vstd::prelude::*;

verus! {

/// Attribute formats used by the vertex streams.
#[derive(Clone, Copy, Debug, PartialEq, Eq, Structural)]
pub enum VertexFormat {
    Float32x2,
    Float32x3,
    Float32x4,
}

impl VertexFormat {
    pub open spec fn size_spec(self) -> nat {
        match self {
            VertexFormat::Float32x2 => 8,
            VertexFormat::Float32x3 => 12,
            VertexFormat::Float32x4 => 16,
        }
    }

    /// Size in bytes of one attribute of this format.
    pub fn size(self) -> (r: u64)
        ensures
            r == self.size_spec(),
    {
        match self {
            VertexFormat::Float32x2 => 8,
            VertexFormat::Float32x3 => 12,
            VertexFormat::Float32x4 => 16,
        }
    }
}

/// Whether a stream advances per vertex or per instance.
#[derive(Clone, Copy, Debug, PartialEq, Eq, Structural)]
pub enum StepMode {
    Vertex,
    Instance,
}

#[derive(Clone, Copy, Debug, PartialEq, Eq, Structural)]
pub struct VertexAttribute {
    pub location: u32,
    pub offset: u64,
    pub format: VertexFormat,
}

/// The layout of one vertex stream.
#[derive(Debug)]
pub struct VertexLayout {
    pub stride: u64,
    pub step_mode: StepMode,
    pub attributes: Vec<VertexAttribute>,
}

/// Every attribute lies inside one element of the stream.
pub open spec fn attributes_fit(stride: u64, attrs: Seq<VertexAttribute>) -> bool {
    forall|i: int| 0 <= i < attrs.len() ==> #[trigger] attrs[i].offset + attrs[i].format.size_spec() <= stride
}

impl VertexLayout {
    pub open spec fn wf(&self) -> bool {
        attributes_fit(self.stride, self.attributes@)
    }

    /// Checks that every attribute fits within the stride.
    pub fn fits(&self) -> (r: bool)
        ensures
            r == self.wf(),
    {
        let n = self.attributes.len();
        let mut i: usize = 0;
        while i < n
            invariant
                n == self.attributes@.len(),
                0 <= i <= n,
                forall|k: int|
                    0 <= k < i ==> #[trigger] self.attributes@[k].offset
                        + self.attributes@[k].format.size_spec() <= self.stride,
            decreases n - i,
        {
            let a = self.attributes[i];
            let size = a.format.size();
            if a.offset > self.stride || size > self.stride - a.offset {
                return false;
            }
            i = i + 1;
        }
        true
    }
}

/// Byte size of one mesh vertex: a position of three floats and texture
/// coordinates of two.
pub const VERTEX_STRIDE: u64 = 20;

/// Byte size of one raw instance: a 4x4 float model matrix.
pub const INSTANCE_STRIDE: u64 = 64;

/// Attributes of the geometry stream.
pub open spec fn mesh_vertex_attributes() -> Seq<VertexAttribute> {
    seq![
        VertexAttribute { location: 0, offset: 0, format: VertexFormat::Float32x3 },
        VertexAttribute { location: 1, offset: 12, format: VertexFormat::Float32x2 },
    ]
}

/// Attributes of the instance stream: the four matrix columns.
pub open spec fn instance_attributes() -> Seq<VertexAttribute> {
    seq![
        VertexAttribute { location: 5, offset: 0, format: VertexFormat::Float32x4 },
        VertexAttribute { location: 6, offset: 16, format: VertexFormat::Float32x4 },
        VertexAttribute { location: 7, offset: 32, format: VertexFormat::Float32x4 },
        VertexAttribute { location: 8, offset: 48, format: VertexFormat::Float32x4 },
    ]
}

/// `l` is the geometry stream.
pub open spec fn is_mesh_vertex_layout(l: VertexLayout) -> bool {
    l.stride == VERTEX_STRIDE && l.step_mode == StepMode::Vertex && l.attributes@ == mesh_vertex_attributes()
}

/// `l` is the instance stream.
pub open spec fn is_instance_layout(l: VertexLayout) -> bool {
    l.stride == INSTANCE_STRIDE && l.step_mode == StepMode::Instance && l.attributes@ == instance_attributes()
}

/// Geometry stream: position at location 0, texture coordinates at location 1.
pub fn mesh_vertex_layout() -> (r: VertexLayout)
    ensures
        r.wf(),
        is_mesh_vertex_layout(r),
{
    let attributes = vec![
        VertexAttribute { location: 0, offset: 0, format: VertexFormat::Float32x3 },
        VertexAttribute { location: 1, offset: 12, format: VertexFormat::Float32x2 },
    ];
    let r = VertexLayout { stride: VERTEX_STRIDE, step_mode: StepMode::Vertex, attributes };
    assert(r.attributes@ =~= mesh_vertex_attributes());
    r
}

/// Instance stream: the four columns of the model matrix at locations 5 to 8.
pub fn instance_layout() -> (r: VertexLayout)
    ensures
        r.wf(),
        is_instance_layout(r),
{
    let attributes = vec![
        VertexAttribute { location: 5, offset: 0, format: VertexFormat::Float32x4 },
        VertexAttribute { location: 6, offset: 16, format: VertexFormat::Float32x4 },
        VertexAttribute { location: 7, offset: 32, format: VertexFormat::Float32x4 },
        VertexAttribute { location: 8, offset: 48, format: VertexFormat::Float32x4 },
    ];
    let r = VertexLayout { stride: INSTANCE_STRIDE, step_mode: StepMode::Instance, attributes };
    assert(r.attributes@ =~= instance_attributes());
    r
}

} // verus!
