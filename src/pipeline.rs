use vstd::prelude::*;

use crate::binding::{entries_match, BindGroupLayoutDesc, BindingEntry, ConstructionError, GlobalBindLayout, GroupName};
use crate::vertex::{instance_layout, is_instance_layout, is_mesh_vertex_layout, mesh_vertex_layout, VertexLayout};

verus! {

/// Pixel formats a presentable surface may be configured with.
#[derive(Clone, Copy, Debug, PartialEq, Eq, Structural)]
pub enum ColorFormat {
    Bgra8UnormSrgb,
    Rgba8UnormSrgb,
    Bgra8Unorm,
    Rgba8Unorm,
}

/// Depth buffer format.
#[derive(Clone, Copy, Debug, PartialEq, Eq, Structural)]
pub enum DepthFormat {
    Depth32Float,
}

/// The format every depth buffer of the renderer uses.
pub const DEPTH_FORMAT: DepthFormat = DepthFormat::Depth32Float;

/// Which of the two pipelines a state object is.
#[derive(Clone, Copy, Debug, PartialEq, Eq, Structural)]
pub enum PipelineKind {
    /// Textured, instanced, lit meshes.
    Model,
    /// The light source itself.
    Light,
}

/// The binding groups a compiled shader pair declares, in group order.
#[derive(Debug)]
pub struct ShaderInterface {
    pub groups: Vec<BindGroupLayoutDesc>,
}

impl ShaderInterface {
    pub open spec fn schemas(&self) -> Seq<Seq<BindingEntry>> {
        self.groups@.map_values(|g: BindGroupLayoutDesc| g@)
    }
}

/// Index of the first group whose shader schema differs from the declared one,
/// searching from `i`.
pub open spec fn first_group_mismatch(
    global: GlobalBindLayout,
    names: Seq<GroupName>,
    shader: Seq<Seq<BindingEntry>>,
    i: int,
) -> Option<int>
    decreases names.len() - i,
{
    if i < 0 || i >= names.len() {
        None
    } else if !entries_match(global.schema(names[i]), shader[i]) {
        Some(i)
    } else {
        first_group_mismatch(global, names, shader, i + 1)
    }
}

/// Index of the first stream with an attribute outside its stride, from `i`.
pub open spec fn first_bad_stream(streams: Seq<VertexLayout>, i: int) -> Option<int>
    decreases streams.len() - i,
{
    if i < 0 || i >= streams.len() {
        None
    } else if !streams[i].wf() {
        Some(i)
    } else {
        first_bad_stream(streams, i + 1)
    }
}

/// The error, if any, of laying out the shader's binding groups as `names`.
pub open spec fn group_error(
    global: GlobalBindLayout,
    names: Seq<GroupName>,
    shader: Seq<Seq<BindingEntry>>,
) -> Option<ConstructionError> {
    if names.len() != shader.len() {
        Some(ConstructionError::GroupCountMismatch)
    } else if let Some(g) = first_group_mismatch(global, names, shader, 0) {
        Some(ConstructionError::LayoutMismatch { group: g as u32 })
    } else {
        None
    }
}

/// The error, if any, of building a pipeline from these parts.
pub open spec fn pipeline_error(
    global: GlobalBindLayout,
    names: Seq<GroupName>,
    shader: Seq<Seq<BindingEntry>>,
    streams: Seq<VertexLayout>,
) -> Option<ConstructionError> {
    if group_error(global, names, shader) is Some {
        group_error(global, names, shader)
    } else if let Some(s) = first_bad_stream(streams, 0) {
        Some(ConstructionError::InvalidVertexSchema { stream: s as u32 })
    } else {
        None
    }
}

/// A compiled pipeline: its binding-group order, vertex streams and target
/// formats. Immutable once built.
#[derive(Debug)]
pub struct PipelineStateObject {
    pub kind: PipelineKind,
    pub groups: Vec<GroupName>,
    pub vertex_streams: Vec<VertexLayout>,
    pub color_format: ColorFormat,
    pub depth_format: Option<DepthFormat>,
}

impl PipelineStateObject {
    /// Builds a pipeline whose layout is `groups`, in that order, checking the
    /// shader's declared binding groups against the global schemas.
    pub fn build(
        global: &GlobalBindLayout,
        kind: PipelineKind,
        groups: Vec<GroupName>,
        shader: &ShaderInterface,
        color_format: ColorFormat,
        depth_format: Option<DepthFormat>,
        vertex_streams: Vec<VertexLayout>,
    ) -> (r: Result<PipelineStateObject, ConstructionError>)
        requires
            groups@.len() < u32::MAX,
            vertex_streams@.len() < u32::MAX,
        ensures
            r is Err <==> pipeline_error(*global, groups@, shader.schemas(), vertex_streams@) is Some,
            r is Err ==> r->Err_0 == pipeline_error(
                *global,
                groups@,
                shader.schemas(),
                vertex_streams@,
            )->Some_0,
            r is Ok ==> {
                let p = r->Ok_0;
                &&& p.kind == kind
                &&& p.groups@ == groups@
                &&& p.vertex_streams@ == vertex_streams@
                &&& p.color_format == color_format
                &&& p.depth_format == depth_format
            },
    {
        let ghost schemas = shader.schemas();
        if groups.len() != shader.groups.len() {
            return Err(ConstructionError::GroupCountMismatch);
        }
        let n = groups.len();
        let mut i: usize = 0;
        while i < n
            invariant
                n == groups@.len(),
                n < u32::MAX,
                n == schemas.len(),
                schemas == shader.schemas(),
                0 <= i <= n,
                first_group_mismatch(*global, groups@, schemas, 0) == first_group_mismatch(
                    *global,
                    groups@,
                    schemas,
                    i as int,
                ),
            decreases n - i,
        {
            let declared = global.get(groups[i]);
            if !declared.matches(&shader.groups[i]) {
                return Err(ConstructionError::LayoutMismatch { group: i as u32 });
            }
            i = i + 1;
        }
        let m = vertex_streams.len();
        let mut j: usize = 0;
        while j < m
            invariant
                m == vertex_streams@.len(),
                m < u32::MAX,
                0 <= j <= m,
                schemas == shader.schemas(),
                groups@.len() == schemas.len(),
                first_group_mismatch(*global, groups@, schemas, 0) is None,
                first_bad_stream(vertex_streams@, 0) == first_bad_stream(vertex_streams@, j as int),
            decreases m - j,
        {
            if !vertex_streams[j].fits() {
                return Err(ConstructionError::InvalidVertexSchema { stream: j as u32 });
            }
            j = j + 1;
        }
        Ok(PipelineStateObject { kind, groups, vertex_streams, color_format, depth_format })
    }
}

/// A mismatch at any group makes the pipeline's construction fail with a
/// layout error at that group or an earlier one.
pub proof fn lemma_first_group_mismatch_found(
    global: GlobalBindLayout,
    names: Seq<GroupName>,
    shader: Seq<Seq<BindingEntry>>,
    from: int,
    i: int,
)
    requires
        0 <= from <= i < names.len(),
        !entries_match(global.schema(names[i]), shader[i]),
    ensures
        first_group_mismatch(global, names, shader, from) is Some,
        from <= first_group_mismatch(global, names, shader, from)->Some_0 <= i,
    decreases i - from,
{
    if entries_match(global.schema(names[from]), shader[from]) {
        lemma_first_group_mismatch_found(global, names, shader, from + 1, i);
    }
}

/// A pipeline built against a shader whose binding group differs from its
/// declared layout, in slot count, slot order or resource kind, is refused
/// when it is built, with a layout error at that group or an earlier one.
pub proof fn lemma_layout_mismatch_fails_at_construction(
    global: GlobalBindLayout,
    names: Seq<GroupName>,
    shader: Seq<Seq<BindingEntry>>,
    streams: Seq<VertexLayout>,
    i: int,
)
    requires
        names.len() == shader.len(),
        0 <= i < names.len(),
        names.len() < u32::MAX,
        !entries_match(global.schema(names[i]), shader[i]),
    ensures
        pipeline_error(global, names, shader, streams) matches Some(
            ConstructionError::LayoutMismatch { group },
        ) && group <= i,
{
    lemma_first_group_mismatch_found(global, names, shader, 0, i);
}

/// Binding-group order of the model pipeline.
pub open spec fn model_groups() -> Seq<GroupName> {
    seq![GroupName::Texture, GroupName::Camera, GroupName::Light]
}

/// Binding-group order of the light pipeline.
pub open spec fn light_groups() -> Seq<GroupName> {
    seq![GroupName::Camera, GroupName::Light]
}

/// The model pipeline's parts: geometry stream then instance stream,
/// texture, camera and light groups, depth tested.
pub open spec fn is_model_pso(p: PipelineStateObject) -> bool {
    &&& p.kind == PipelineKind::Model
    &&& p.groups@ == model_groups()
    &&& p.vertex_streams@.len() == 2
    &&& is_mesh_vertex_layout(p.vertex_streams@[0])
    &&& is_instance_layout(p.vertex_streams@[1])
    &&& p.depth_format == Some(DEPTH_FORMAT)
}

/// The light pipeline's parts: the geometry stream only, camera and light
/// groups, depth tested.
pub open spec fn is_light_pso(p: PipelineStateObject) -> bool {
    &&& p.kind == PipelineKind::Light
    &&& p.groups@ == light_groups()
    &&& p.vertex_streams@.len() == 1
    &&& is_mesh_vertex_layout(p.vertex_streams@[0])
    &&& p.depth_format == Some(DEPTH_FORMAT)
}

/// Streams that all fit their strides give no stream error.
proof fn lemma_fitting_streams(streams: Seq<VertexLayout>, i: int)
    requires
        0 <= i,
        forall|k: int| 0 <= k < streams.len() ==> (#[trigger] streams[k]).wf(),
    ensures
        first_bad_stream(streams, i) is None,
    decreases streams.len() - i,
{
    if i < streams.len() {
        lemma_fitting_streams(streams, i + 1);
    }
}

/// The pipeline that draws textured, lit, instanced meshes.
#[derive(Debug)]
pub struct ModelPipeline {
    pipeline: PipelineStateObject,
}

impl ModelPipeline {
    pub closed spec fn pso(&self) -> PipelineStateObject {
        self.pipeline
    }

    pub open spec fn wf(&self) -> bool {
        is_model_pso(self.pso())
    }

    /// Builds the model pipeline against the binding groups its shader
    /// declares: refused, when built, if they differ from the texture,
    /// camera and light layouts in count, slot order or resource kind.
    pub fn new(global: &GlobalBindLayout, shader: &ShaderInterface, color_format: ColorFormat) -> (r: Result<
        ModelPipeline,
        ConstructionError,
    >)
        ensures
            r is Err <==> group_error(*global, model_groups(), shader.schemas()) is Some,
            r is Err ==> r->Err_0 == group_error(*global, model_groups(), shader.schemas())->Some_0,
            r is Ok ==> r->Ok_0.wf() && r->Ok_0.pso().color_format == color_format,
    {
        let groups = vec![GroupName::Texture, GroupName::Camera, GroupName::Light];
        let streams = vec![mesh_vertex_layout(), instance_layout()];
        assert(groups@ =~= model_groups());
        proof {
            lemma_fitting_streams(streams@, 0);
        }
        match PipelineStateObject::build(
            global,
            PipelineKind::Model,
            groups,
            shader,
            color_format,
            Some(DEPTH_FORMAT),
            streams,
        ) {
            Ok(pipeline) => Ok(ModelPipeline { pipeline }),
            Err(e) => Err(e),
        }
    }

    pub fn get_pipeline(&self) -> (r: &PipelineStateObject)
        ensures
            *r == self.pso(),
    {
        &self.pipeline
    }
}

/// The pipeline that draws the light source itself.
#[derive(Debug)]
pub struct LightPipeline {
    pipeline: PipelineStateObject,
}

impl LightPipeline {
    pub closed spec fn pso(&self) -> PipelineStateObject {
        self.pipeline
    }

    pub open spec fn wf(&self) -> bool {
        is_light_pso(self.pso())
    }

    /// Builds the light pipeline against the binding groups its shader
    /// declares: refused, when built, if they differ from the camera and
    /// light layouts in count, slot order or resource kind.
    pub fn new(global: &GlobalBindLayout, shader: &ShaderInterface, color_format: ColorFormat) -> (r: Result<
        LightPipeline,
        ConstructionError,
    >)
        ensures
            r is Err <==> group_error(*global, light_groups(), shader.schemas()) is Some,
            r is Err ==> r->Err_0 == group_error(*global, light_groups(), shader.schemas())->Some_0,
            r is Ok ==> r->Ok_0.wf() && r->Ok_0.pso().color_format == color_format,
    {
        let groups = vec![GroupName::Camera, GroupName::Light];
        let streams = vec![mesh_vertex_layout()];
        assert(groups@ =~= light_groups());
        proof {
            lemma_fitting_streams(streams@, 0);
        }
        match PipelineStateObject::build(
            global,
            PipelineKind::Light,
            groups,
            shader,
            color_format,
            Some(DEPTH_FORMAT),
            streams,
        ) {
            Ok(pipeline) => Ok(LightPipeline { pipeline }),
            Err(e) => Err(e),
        }
    }

    pub fn get_pipeline(&self) -> (r: &PipelineStateObject)
        ensures
            *r == self.pso(),
    {
        &self.pipeline
    }
}

/// The error, if any, of building both pipelines; the model pipeline is
/// built first.
pub open spec fn pipelines_error(
    global: GlobalBindLayout,
    model_shader: Seq<Seq<BindingEntry>>,
    light_shader: Seq<Seq<BindingEntry>>,
) -> Option<ConstructionError> {
    if group_error(global, model_groups(), model_shader) is Some {
        group_error(global, model_groups(), model_shader)
    } else {
        group_error(global, light_groups(), light_shader)
    }
}

/// Both pipelines of the renderer, built once at startup.
#[derive(Debug)]
pub struct Pipelines {
    render: ModelPipeline,
    light: LightPipeline,
}

impl Pipelines {
    pub closed spec fn model(&self) -> PipelineStateObject {
        self.render.pso()
    }

    pub closed spec fn light(&self) -> PipelineStateObject {
        self.light.pso()
    }

    pub open spec fn wf(&self) -> bool {
        &&& is_model_pso(self.model())
        &&& is_light_pso(self.light())
        &&& self.model().color_format == self.light().color_format
    }

    /// Builds the model and light pipelines from their shaders' declared
    /// binding groups; the first mismatch refuses the construction.
    pub fn new(
        global: &GlobalBindLayout,
        model_shader: &ShaderInterface,
        light_shader: &ShaderInterface,
        color_format: ColorFormat,
    ) -> (r: Result<Pipelines, ConstructionError>)
        ensures
            r is Err <==> pipelines_error(*global, model_shader.schemas(), light_shader.schemas()) is Some,
            r is Err ==> r->Err_0 == pipelines_error(
                *global,
                model_shader.schemas(),
                light_shader.schemas(),
            )->Some_0,
            r is Ok ==> r->Ok_0.wf() && r->Ok_0.model().color_format == color_format,
    {
        let render = match ModelPipeline::new(global, model_shader, color_format) {
            Ok(p) => p,
            Err(e) => {
                return Err(e);
            },
        };
        let light = match LightPipeline::new(global, light_shader, color_format) {
            Ok(p) => p,
            Err(e) => {
                return Err(e);
            },
        };
        Ok(Pipelines { render, light })
    }

    pub fn get_render_pipeline(&self) -> (r: &PipelineStateObject)
        ensures
            *r == self.model(),
    {
        self.render.get_pipeline()
    }

    pub fn get_light_pipeline(&self) -> (r: &PipelineStateObject)
        ensures
            *r == self.light(),
    {
        self.light.get_pipeline()
    }
}

} // verus!
