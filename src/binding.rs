use vstd::prelude::*;

verus! {

/// Shader stages from which a binding is visible.
#[derive(Clone, Copy, Debug, PartialEq, Eq, Structural)]
pub struct Visibility {
    pub vertex: bool,
    pub fragment: bool,
}

/// The kind of GPU resource a binding slot holds.
#[derive(Clone, Copy, Debug, PartialEq, Eq, Structural)]
pub enum ResourceKind {
    /// A filterable 2D float texture.
    SampledTexture,
    /// A filtering sampler.
    FilteringSampler,
    /// A uniform buffer without dynamic offset.
    UniformBuffer,
}

/// One descriptor of a binding-set schema: slot, visibility and resource kind.
#[derive(Clone, Copy, Debug, PartialEq, Eq, Structural)]
pub struct BindingEntry {
    pub slot: u32,
    pub visibility: Visibility,
    pub kind: ResourceKind,
}

/// The named binding groups shared by every pipeline.
#[derive(Clone, Copy, Debug, PartialEq, Eq, Structural)]
pub enum GroupName {
    Texture,
    Camera,
    Light,
}

/// Errors raised while building layouts, binding sets, pipelines and meshes.
/// All of them are fatal at startup.
#[derive(Clone, Copy, Debug, PartialEq, Eq, Structural)]
pub enum ConstructionError {
    /// The number of binding groups differs from the pipeline layout.
    GroupCountMismatch,
    /// The binding group at this position differs from its declared layout
    /// in slot count, slot order or resource kind.
    LayoutMismatch { group: u32 },
    /// A vertex stream has an attribute that does not fit in its stride.
    InvalidVertexSchema { stream: u32 },
    /// A mesh index refers past the end of its vertex array.
    IndexOutOfRange,
    /// Decoded image bytes do not hold four bytes per pixel.
    ImageSizeMismatch,
    /// A binding set's resources differ from its group's declared layout.
    BindingSetMismatch,
}

/// Slots are strictly ascending, so the entries form an ordered set.
pub open spec fn slots_ascending(s: Seq<BindingEntry>) -> bool {
    forall|i: int, j: int| 0 <= i < j < s.len() ==> s[i].slot < s[j].slot
}

/// Two schemas agree in slot order and resource kind.
pub open spec fn entries_match(declared: Seq<BindingEntry>, actual: Seq<BindingEntry>) -> bool {
    &&& declared.len() == actual.len()
    &&& forall|i: int| 0 <= i < declared.len() ==> agrees(#[trigger] declared[i], actual[i])
}

/// Same slot and same resource kind; visibility may differ.
pub open spec fn agrees(a: BindingEntry, b: BindingEntry) -> bool {
    a.slot == b.slot && a.kind == b.kind
}

/// The schema of one binding group.
#[derive(Debug)]
pub struct BindGroupLayoutDesc {
    pub entries: Vec<BindingEntry>,
}

impl View for BindGroupLayoutDesc {
    type V = Seq<BindingEntry>;

    open spec fn view(&self) -> Seq<BindingEntry> {
        self.entries@
    }
}

impl BindGroupLayoutDesc {
    pub open spec fn wf(&self) -> bool {
        slots_ascending(self@)
    }

    /// A second schema with the same entries.
    pub fn duplicate(&self) -> (r: BindGroupLayoutDesc)
        ensures
            r@ == self@,
    {
        let entries = self.entries.clone();
        assert(entries@ =~= self.entries@);
        BindGroupLayoutDesc { entries }
    }

    /// Whether `other` has exactly this schema's slots and kinds, in order.
    pub fn matches(&self, other: &BindGroupLayoutDesc) -> (r: bool)
        ensures
            r == entries_match(self@, other@),
    {
        if self.entries.len() != other.entries.len() {
            return false;
        }
        let n = self.entries.len();
        let mut i: usize = 0;
        while i < n
            invariant
                n == self@.len(),
                n == other@.len(),
                0 <= i <= n,
                forall|k: int| 0 <= k < i ==> agrees(#[trigger] self@[k], other@[k]),
            decreases n - i,
        {
            if self.entries[i].slot != other.entries[i].slot
                || self.entries[i].kind != other.entries[i].kind {
                return false;
            }
            i = i + 1;
        }
        true
    }
}

pub open spec fn fragment_only() -> Visibility {
    Visibility { vertex: false, fragment: true }
}

pub open spec fn vertex_and_fragment() -> Visibility {
    Visibility { vertex: true, fragment: true }
}

/// Declared schema of the texture group: a texture and its sampler, both
/// read by the fragment stage.
pub open spec fn texture_schema() -> Seq<BindingEntry> {
    seq![
        BindingEntry { slot: 0, visibility: fragment_only(), kind: ResourceKind::SampledTexture },
        BindingEntry { slot: 1, visibility: fragment_only(), kind: ResourceKind::FilteringSampler },
    ]
}

/// Declared schema of the camera and light groups: one uniform buffer.
pub open spec fn uniform_schema() -> Seq<BindingEntry> {
    seq![
        BindingEntry { slot: 0, visibility: vertex_and_fragment(), kind: ResourceKind::UniformBuffer },
    ]
}

fn visibility_fragment() -> (r: Visibility)
    ensures
        r == fragment_only(),
{
    Visibility { vertex: false, fragment: true }
}

fn visibility_both() -> (r: Visibility)
    ensures
        r == vertex_and_fragment(),
{
    Visibility { vertex: true, fragment: true }
}

fn texture_layout() -> (r: BindGroupLayoutDesc)
    ensures
        r@ == texture_schema(),
{
    let entries = vec![
        BindingEntry { slot: 0, visibility: visibility_fragment(), kind: ResourceKind::SampledTexture },
        BindingEntry { slot: 1, visibility: visibility_fragment(), kind: ResourceKind::FilteringSampler },
    ];
    let r = BindGroupLayoutDesc { entries };
    assert(r@ =~= texture_schema());
    r
}

fn uniform_layout() -> (r: BindGroupLayoutDesc)
    ensures
        r@ == uniform_schema(),
{
    let entries = vec![
        BindingEntry { slot: 0, visibility: visibility_both(), kind: ResourceKind::UniformBuffer },
    ];
    let r = BindGroupLayoutDesc { entries };
    assert(r@ =~= uniform_schema());
    r
}

/// The binding-group schemas every pipeline and binding set is built against.
/// Built once at startup and never changed.
pub struct GlobalBindLayout {
    pub texture: BindGroupLayoutDesc,
    pub light: BindGroupLayoutDesc,
    pub camera: BindGroupLayoutDesc,
}

impl GlobalBindLayout {
    /// The declared schema of a named group.
    pub open spec fn schema(&self, name: GroupName) -> Seq<BindingEntry> {
        match name {
            GroupName::Texture => self.texture@,
            GroupName::Camera => self.camera@,
            GroupName::Light => self.light@,
        }
    }

    pub open spec fn wf(&self) -> bool {
        &&& self.texture@ == texture_schema()
        &&& self.camera@ == uniform_schema()
        &&& self.light@ == uniform_schema()
    }

    pub fn new() -> (r: GlobalBindLayout)
        ensures
            r.wf(),
    {
        GlobalBindLayout { texture: texture_layout(), light: uniform_layout(), camera: uniform_layout() }
    }

    pub fn get_texture_bind_layout(&self) -> (r: &BindGroupLayoutDesc)
        ensures
            r@ == self.schema(GroupName::Texture),
    {
        &self.texture
    }

    pub fn get_light_bind_layout(&self) -> (r: &BindGroupLayoutDesc)
        ensures
            r@ == self.schema(GroupName::Light),
    {
        &self.light
    }

    pub fn get_camera_bind_layout(&self) -> (r: &BindGroupLayoutDesc)
        ensures
            r@ == self.schema(GroupName::Camera),
    {
        &self.camera
    }

    /// The declared schema of a named group.
    pub fn get(&self, name: GroupName) -> (r: &BindGroupLayoutDesc)
        ensures
            r@ == self.schema(name),
    {
        match name {
            GroupName::Texture => &self.texture,
            GroupName::Camera => &self.camera,
            GroupName::Light => &self.light,
        }
    }
}

/// A resource placed in a binding set: its slot, its kind, and the handle of
/// the GPU object.
#[derive(Clone, Copy, Debug, PartialEq, Eq, Structural)]
pub struct BoundResource {
    pub slot: u32,
    pub kind: ResourceKind,
    pub handle: u64,
}

/// Same slot and same resource kind as the declared entry.
pub open spec fn fills(e: BindingEntry, r: BoundResource) -> bool {
    e.slot == r.slot && e.kind == r.kind
}

/// The resources fill the declared schema exactly, in slot order.
pub open spec fn resources_match(declared: Seq<BindingEntry>, res: Seq<BoundResource>) -> bool {
    &&& declared.len() == res.len()
    &&& forall|i: int| 0 <= i < declared.len() ==> fills(#[trigger] declared[i], res[i])
}

/// A binding set: resources bound to one named group. Built once and never
/// changed.
#[derive(Debug)]
pub struct BindingSet {
    pub group: GroupName,
    pub resources: Vec<BoundResource>,
}

impl BindingSet {
    /// Builds a binding set for `group`, refusing resources that differ from
    /// the group's declared schema.
    pub fn new(global: &GlobalBindLayout, group: GroupName, resources: Vec<BoundResource>) -> (r: Result<
        BindingSet,
        ConstructionError,
    >)
        ensures
            r is Ok <==> resources_match(global.schema(group), resources@),
            r is Err ==> r->Err_0 == ConstructionError::BindingSetMismatch,
            r is Ok ==> r->Ok_0.group == group && r->Ok_0.resources@ == resources@,
    {
        let declared = global.get(group);
        if declared.entries.len() != resources.len() {
            return Err(ConstructionError::BindingSetMismatch);
        }
        let n = resources.len();
        let mut i: usize = 0;
        while i < n
            invariant
                n == resources@.len(),
                n == declared@.len(),
                declared@ == global.schema(group),
                0 <= i <= n,
                forall|k: int| 0 <= k < i ==> fills(#[trigger] declared@[k], resources@[k]),
            decreases n - i,
        {
            if declared.entries[i].slot != resources[i].slot || declared.entries[i].kind != resources[i].kind {
                return Err(ConstructionError::BindingSetMismatch);
            }
            i = i + 1;
        }
        Ok(BindingSet { group, resources })
    }
}

} // verus!
