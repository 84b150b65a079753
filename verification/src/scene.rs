//! Materialization: from the registry to the description of every device
//! object of the scene.
//!
//! The work is done in stages, each a function of the registry: the vertex
//! layouts, the textures, the meshes, the render passes. The handles that the
//! registry took unchecked are checked here; the first one that points
//! nowhere is reported, and so is the first vertex layout that cannot be built.

use crate::descriptor::{
    pipeline_state, spec_pipeline_state, spec_texture_bindings, spec_texture_descriptor,
    spec_texture_sampler, spec_texture_upload, texture_bindings, texture_descriptor,
    texture_sampler, texture_upload, BindGroupLayoutEntry, ImageDataLayout, PipelineState,
    SamplerDescriptor, TextureDescriptor,
};
use crate::engine::{Engine, EngineView, Extent3d, LoadOp, MeshView};
use crate::format::{index_count, spec_index_count, IndexFormat};
use crate::layout::{
    build_vertex_layout, layout_ok, layout_reports, lemma_layout_reports_one_error, LayoutError,
    VertexAttributeData,
};
use vstd::prelude::*;

verus! {

/// Why a registry does not describe a scene.
#[derive(Clone, Copy, Debug, PartialEq, Eq, Structural)]
pub enum ConfigError {
    /// The vertex layout with this handle cannot be built.
    Layout { layout: usize, error: LayoutError },
    /// The mesh with this handle names, at this place of its texture list, a
    /// texture that was never registered.
    UnknownTexture { mesh: usize, slot: usize },
    /// The mesh with this handle names a vertex layout that was never
    /// registered.
    UnknownVertexLayout { mesh: usize },
    /// The render pass at this position names a shader that was never
    /// registered.
    UnknownShader { render_pass: usize },
    /// The render pass at this position names a mesh that was never
    /// registered.
    UnknownMesh { render_pass: usize },
}

/// All that is needed to create the device objects of one texture.
#[derive(Clone, Copy, Debug, PartialEq, Eq, Structural)]
pub struct TexturePlan {
    pub descriptor: TextureDescriptor,
    pub upload: ImageDataLayout,
    pub sampler: SamplerDescriptor,
    pub texture_binding: BindGroupLayoutEntry,
    pub sampler_binding: BindGroupLayoutEntry,
}

/// What is derived for one mesh: how its indices are read, and how many there
/// are. Its two device buffers hold the mesh's vertex and index bytes as they
/// were registered.
#[derive(Clone, Copy, Debug, PartialEq, Eq, Structural)]
pub struct MeshPlan {
    pub index_format: IndexFormat,
    pub num_indices: usize,
}

/// One render pass with its pipeline: all that is needed to build the
/// pipeline and to record the pass.
#[derive(Clone, Debug, PartialEq, Eq)]
pub struct PassPlan {
    /// The shader of the vertex and of the fragment stage.
    pub shader: usize,
    /// The mesh that the pass draws.
    pub mesh: usize,
    /// The layout of the mesh's vertices.
    pub vertex_layout: usize,
    /// The textures of the mesh. Their binding set layouts, in this order,
    /// are the binding set layouts of the pipeline, and their binding sets
    /// are bound at the slots 0, 1, ... in this order.
    pub bind_groups: Vec<usize>,
    /// The pixel format that the fragment stage writes: the format of the
    /// surface, as a position in the list of formats that the surface offers.
    pub target_format: usize,
    pub load_op: LoadOp,
    pub index_format: IndexFormat,
    pub num_indices: usize,
    pub state: PipelineState,
}

/// The materialized scene: entry `i` of each table belongs to handle `i` of
/// the registry, and pass `i` to the `i`-th declared render pass.
#[derive(Clone, Debug, PartialEq, Eq)]
pub struct Scene {
    pub vertex_layouts: Vec<VertexAttributeData>,
    pub textures: Vec<TexturePlan>,
    pub meshes: Vec<MeshPlan>,
    pub passes: Vec<PassPlan>,
}

/// The plan for a texture of the given size.
pub open spec fn spec_texture_plan(size: Extent3d) -> TexturePlan {
    TexturePlan {
        descriptor: spec_texture_descriptor(size),
        upload: spec_texture_upload(size),
        sampler: spec_texture_sampler(),
        texture_binding: spec_texture_bindings().0,
        sampler_binding: spec_texture_bindings().1,
    }
}

/// The plan for a mesh.
pub open spec fn spec_mesh_plan(mesh: MeshView) -> MeshPlan {
    MeshPlan {
        index_format: mesh.index_format,
        num_indices: spec_index_count(mesh.index_data.len(), mesh.index_format) as usize,
    }
}

impl EngineView {
    /// The first `n` vertex layouts can be built.
    pub open spec fn layouts_ok(self, n: int) -> bool {
        forall|i: int| 0 <= i < n ==> layout_ok(#[trigger] self.vertex_attributes[i])
    }

    /// Every texture that mesh `m` names is registered.
    pub open spec fn mesh_textures_ok(self, m: int) -> bool {
        forall|slot: int|
            0 <= slot < self.meshes[m].texture_ids.len() ==> (
            #[trigger] self.meshes[m].texture_ids[slot]) < self.textures.len()
    }

    /// Mesh `m` names registered textures and a registered vertex layout.
    pub open spec fn mesh_ok(self, m: int) -> bool {
        &&& self.mesh_textures_ok(m)
        &&& self.meshes[m].vertex_attributes_id < self.vertex_attributes.len()
    }

    /// The first `n` meshes name registered textures and layouts.
    pub open spec fn meshes_ok(self, n: int) -> bool {
        forall|m: int| 0 <= m < n ==> #[trigger] self.mesh_ok(m)
    }

    /// Render pass `p` names a registered shader and a registered mesh.
    pub open spec fn pass_ok(self, p: int) -> bool {
        &&& self.render_passes[p].shader_id < self.shaders.len()
        &&& self.render_passes[p].mesh_id < self.meshes.len()
    }

    /// The first `n` render passes name registered shaders and meshes.
    pub open spec fn passes_ok(self, n: int) -> bool {
        forall|p: int| 0 <= p < n ==> #[trigger] self.pass_ok(p)
    }

    /// The registry describes a scene: every vertex layout can be built, and
    /// every handle in a mesh or a render pass names a registered entry.
    pub open spec fn is_valid(self) -> bool {
        &&& self.layouts_ok(self.vertex_attributes.len() as int)
        &&& self.meshes_ok(self.meshes.len() as int)
        &&& self.passes_ok(self.render_passes.len() as int)
    }

    /// `error` is what the stage of the vertex layouts finds: the first
    /// layout that cannot be built, with the reason.
    pub open spec fn layouts_report(self, error: ConfigError) -> bool {
        &&& error matches ConfigError::Layout { layout, error: reason }
        &&& layout < self.vertex_attributes.len()
        &&& self.layouts_ok(layout as int)
        &&& layout_reports(self.vertex_attributes[layout as int], reason)
    }

    /// `error` is what the stage of the meshes finds: in the first mesh that
    /// names something unregistered, the first such texture, or else the
    /// vertex layout.
    pub open spec fn meshes_report(self, error: ConfigError) -> bool {
        match error {
            ConfigError::UnknownTexture { mesh, slot } => {
                &&& mesh < self.meshes.len()
                &&& self.meshes_ok(mesh as int)
                &&& slot < self.meshes[mesh as int].texture_ids.len()
                &&& self.meshes[mesh as int].texture_ids[slot as int] >= self.textures.len()
                &&& forall|s: int|
                    0 <= s < slot ==> (#[trigger] self.meshes[mesh as int].texture_ids[s])
                        < self.textures.len()
            },
            ConfigError::UnknownVertexLayout { mesh } => {
                &&& mesh < self.meshes.len()
                &&& self.meshes_ok(mesh as int)
                &&& self.mesh_textures_ok(mesh as int)
                &&& self.meshes[mesh as int].vertex_attributes_id >= self.vertex_attributes.len()
            },
            _ => false,
        }
    }

    /// `error` is what the stage of the render passes finds: in the first
    /// pass that names something unregistered, the shader, or else the mesh.
    pub open spec fn passes_report(self, error: ConfigError) -> bool {
        match error {
            ConfigError::UnknownShader { render_pass } => {
                &&& render_pass < self.render_passes.len()
                &&& self.passes_ok(render_pass as int)
                &&& self.render_passes[render_pass as int].shader_id >= self.shaders.len()
            },
            ConfigError::UnknownMesh { render_pass } => {
                &&& render_pass < self.render_passes.len()
                &&& self.passes_ok(render_pass as int)
                &&& self.render_passes[render_pass as int].shader_id < self.shaders.len()
                &&& self.render_passes[render_pass as int].mesh_id >= self.meshes.len()
            },
            _ => false,
        }
    }

    /// `error` is what materialization reports: what the first stage that
    /// finds something reports, the stages being the vertex layouts, then the
    /// meshes, then the render passes.
    pub open spec fn reports(self, error: ConfigError) -> bool {
        ||| self.layouts_report(error)
        ||| {
            &&& self.layouts_ok(self.vertex_attributes.len() as int)
            &&& self.meshes_report(error)
        }
        ||| {
            &&& self.layouts_ok(self.vertex_attributes.len() as int)
            &&& self.meshes_ok(self.meshes.len() as int)
            &&& self.passes_report(error)
        }
    }
}

impl PassPlan {
    /// This is the plan of render pass `p` of the registry, for a surface of
    /// the given format: the pass's shader and load operation, and from the
    /// pass's mesh the vertex layout, the textures in the order of the mesh,
    /// and the indices.
    pub open spec fn describes(self, registry: EngineView, p: int, target_format: usize) -> bool {
        let pass = registry.render_passes[p];
        let mesh = registry.meshes[pass.mesh_id as int];
        &&& self.shader == pass.shader_id
        &&& self.mesh == pass.mesh_id
        &&& self.target_format == target_format
        &&& self.load_op == pass.load_op
        &&& self.vertex_layout == mesh.vertex_attributes_id
        &&& self.bind_groups@ == mesh.texture_ids
        &&& self.index_format == mesh.index_format
        &&& self.num_indices == spec_index_count(mesh.index_data.len(), mesh.index_format)
        &&& self.state == spec_pipeline_state()
    }
}

/// `layouts` are the layouts of the first `n` lists of formats of the registry.
pub open spec fn layouts_describe(
    layouts: Seq<VertexAttributeData>,
    registry: EngineView,
    n: int,
) -> bool {
    &&& layouts.len() == n
    &&& forall|i: int|
        0 <= i < n ==> (#[trigger] layouts[i]).describes(registry.vertex_attributes[i])
}

/// `plans` are the plans of the first `n` textures of the registry.
pub open spec fn textures_describe(plans: Seq<TexturePlan>, registry: EngineView, n: int) -> bool {
    &&& plans.len() == n
    &&& forall|i: int|
        0 <= i < n ==> #[trigger] plans[i] == spec_texture_plan(registry.textures[i].size)
}

/// `plans` are the plans of the first `n` meshes of the registry.
pub open spec fn meshes_describe(plans: Seq<MeshPlan>, registry: EngineView, n: int) -> bool {
    &&& plans.len() == n
    &&& forall|i: int| 0 <= i < n ==> #[trigger] plans[i] == spec_mesh_plan(registry.meshes[i])
}

/// `plans` are the plans of the first `n` render passes of the registry, for
/// a surface of the given format.
pub open spec fn passes_describe(
    plans: Seq<PassPlan>,
    registry: EngineView,
    n: int,
    target_format: usize,
) -> bool {
    &&& plans.len() == n
    &&& forall|p: int| 0 <= p < n ==> (#[trigger] plans[p]).describes(registry, p, target_format)
}

impl Scene {
    /// This is the scene that the registry describes, for a surface of the
    /// given format.
    pub open spec fn describes(self, registry: EngineView, target_format: usize) -> bool {
        &&& layouts_describe(
            self.vertex_layouts@,
            registry,
            registry.vertex_attributes.len() as int,
        )
        &&& textures_describe(self.textures@, registry, registry.textures.len() as int)
        &&& meshes_describe(self.meshes@, registry, registry.meshes.len() as int)
        &&& passes_describe(
            self.passes@,
            registry,
            registry.render_passes.len() as int,
            target_format,
        )
    }

    /// Every handle in a pass of the scene names an entry: its shader is one
    /// of the `shaders` registered ones, and its mesh, its vertex layout and
    /// each of its textures has its plan in the scene.
    pub open spec fn is_closed(self, shaders: nat) -> bool {
        forall|p: int|
            0 <= p < self.passes@.len() ==> {
                &&& (#[trigger] self.passes@[p]).shader < shaders
                &&& self.passes@[p].mesh < self.meshes@.len()
                &&& self.passes@[p].vertex_layout < self.vertex_layouts@.len()
                &&& forall|k: int|
                    0 <= k < self.passes@[p].bind_groups@.len() ==> (
                    #[trigger] self.passes@[p].bind_groups@[k]) < self.textures@.len()
            }
    }
}

/// In the scene of a valid registry no handle points nowhere.
pub proof fn lemma_scene_of_valid_registry_is_closed(
    registry: EngineView,
    scene: Scene,
    target_format: usize,
)
    requires
        registry.is_valid(),
        scene.describes(registry, target_format),
    ensures
        scene.is_closed(registry.shaders.len()),
{
    assert forall|p: int| 0 <= p < scene.passes@.len() implies {
        &&& (#[trigger] scene.passes@[p]).shader < registry.shaders.len()
        &&& scene.passes@[p].mesh < scene.meshes@.len()
        &&& scene.passes@[p].vertex_layout < scene.vertex_layouts@.len()
        &&& forall|k: int|
            0 <= k < scene.passes@[p].bind_groups@.len() ==> (
            #[trigger] scene.passes@[p].bind_groups@[k]) < scene.textures@.len()
    } by {
        assert(scene.passes@[p].describes(registry, p, target_format));
        assert(registry.pass_ok(p));
        let m = registry.render_passes[p].mesh_id as int;
        assert(registry.mesh_ok(m));
        assert forall|k: int| 0 <= k < scene.passes@[p].bind_groups@.len() implies (
        #[trigger] scene.passes@[p].bind_groups@[k]) < scene.textures@.len() by {
            assert(registry.meshes[m].texture_ids[k] < registry.textures.len());
        }
    }
}

/// The stage of the vertex layouts finds nothing where all layouts can be
/// built.
proof fn lemma_layouts_report_excludes_ok(registry: EngineView, error: ConfigError)
    requires
        registry.layouts_report(error),
    ensures
        !registry.layouts_ok(registry.vertex_attributes.len() as int),
{
    lemma_layout_reports_one_error(
        registry.vertex_attributes[error->layout as int],
        error->error,
        error->error,
    );
}

/// The mesh that the stage of the meshes blames names something
/// unregistered.
proof fn lemma_mesh_report_excludes_ok(registry: EngineView, error: ConfigError)
    requires
        registry.meshes_report(error),
    ensures
        !registry.mesh_ok(blamed(error) as int),
{
    if let ConfigError::UnknownTexture { slot, .. } = error {
        assert(registry.meshes[blamed(error) as int].texture_ids[slot as int]
            >= registry.textures.len());
    }
}

/// The stage of the meshes finds nothing where all meshes name registered
/// entries.
proof fn lemma_meshes_report_excludes_ok(registry: EngineView, error: ConfigError)
    requires
        registry.meshes_report(error),
    ensures
        !registry.meshes_ok(registry.meshes.len() as int),
{
    lemma_mesh_report_excludes_ok(registry, error);
}

/// The stage of the render passes finds nothing where all passes name
/// registered entries.
proof fn lemma_passes_report_excludes_ok(registry: EngineView, error: ConfigError)
    requires
        registry.passes_report(error),
    ensures
        !registry.passes_ok(registry.render_passes.len() as int),
{
    assert(!registry.pass_ok(blamed(error) as int));
}

/// The place in its table of the entry that an error blames.
pub open spec fn blamed(error: ConfigError) -> usize {
    match error {
        ConfigError::Layout { layout, .. } => layout,
        ConfigError::UnknownTexture { mesh, .. } => mesh,
        ConfigError::UnknownVertexLayout { mesh } => mesh,
        ConfigError::UnknownShader { render_pass } => render_pass,
        ConfigError::UnknownMesh { render_pass } => render_pass,
    }
}

/// A registry reports at most one error, and none where it describes a scene:
/// materialization fails on exactly the registries that are not valid, and
/// the error it returns is determined by the registry.
pub proof fn lemma_reports_one_error(registry: EngineView, first: ConfigError, second: ConfigError)
    requires
        registry.reports(first),
        registry.reports(second),
    ensures
        first == second,
        !registry.is_valid(),
{
    if registry.layouts_report(first) {
        lemma_layouts_report_excludes_ok(registry, first);
    }
    if registry.layouts_report(second) {
        lemma_layouts_report_excludes_ok(registry, second);
    }
    if registry.meshes_report(first) {
        lemma_meshes_report_excludes_ok(registry, first);
    }
    if registry.meshes_report(second) {
        lemma_meshes_report_excludes_ok(registry, second);
    }
    if registry.passes_report(first) {
        lemma_passes_report_excludes_ok(registry, first);
    }
    if registry.passes_report(second) {
        lemma_passes_report_excludes_ok(registry, second);
    }
    let a = blamed(first) as int;
    let b = blamed(second) as int;
    if registry.layouts_report(first) {
        lemma_layout_reports_one_error(registry.vertex_attributes[a], first->error, first->error);
        lemma_layout_reports_one_error(
            registry.vertex_attributes[b],
            second->error,
            second->error,
        );
        assert(a == b);
        lemma_layout_reports_one_error(
            registry.vertex_attributes[a],
            first->error,
            second->error,
        );
    } else if registry.meshes_report(first) {
        lemma_mesh_report_excludes_ok(registry, first);
        lemma_mesh_report_excludes_ok(registry, second);
        assert(a == b);
    } else {
        assert(!registry.pass_ok(a));
        assert(!registry.pass_ok(b));
        assert(a == b);
    }
}

/// Builds the plan for a texture of the given size.
pub fn texture_plan(size: Extent3d) -> (plan: TexturePlan)
    ensures
        plan == spec_texture_plan(size),
{
    let bindings = texture_bindings();
    TexturePlan {
        descriptor: texture_descriptor(size),
        upload: texture_upload(size),
        sampler: texture_sampler(),
        texture_binding: bindings.0,
        sampler_binding: bindings.1,
    }
}

/// Copies a list of handles.
fn copy_handles(handles: &Vec<usize>) -> (copy: Vec<usize>)
    ensures
        copy@ == handles@,
{
    let mut copy: Vec<usize> = Vec::new();
    let mut i: usize = 0;
    while i < handles.len()
        invariant
            i <= handles.len(),
            copy@ == handles@.take(i as int),
        decreases handles.len() - i,
    {
        copy.push(handles[i]);
        assert(handles@.take(i + 1) =~= handles@.take(i as int).push(handles@[i as int]));
        i += 1;
    }
    assert(handles@.take(handles@.len() as int) =~= handles@);
    copy
}

impl<'l> Engine<'l> {
    /// The first stage: the layout of every registered list of formats, in
    /// the order of the handles; or the first list that has no layout.
    pub fn vertex_layouts(&self) -> (result: Result<Vec<VertexAttributeData>, ConfigError>)
        ensures
            result is Ok <==> self@.layouts_ok(self@.vertex_attributes.len() as int),
            match result {
                Ok(layouts) => {
                    &&& self@.layouts_ok(self@.vertex_attributes.len() as int)
                    &&& layouts_describe(layouts@, self@, self@.vertex_attributes.len() as int)
                },
                Err(error) => self@.layouts_report(error),
            },
    {
        let count = self.vertex_attributes_count();
        let mut layouts: Vec<VertexAttributeData> = Vec::new();
        let mut i: usize = 0;
        while i < count
            invariant
                i <= count,
                count == self@.vertex_attributes.len(),
                self@.layouts_ok(i as int),
                layouts_describe(layouts@, self@, i as int),
            decreases count - i,
        {
            match self.vertex_attributes(i) {
                Some(formats) => {
                    match build_vertex_layout(formats) {
                        Ok(layout) => {
                            layouts.push(layout);
                        },
                        Err(error) => {
                            proof {
                                lemma_layouts_report_excludes_ok(
                                    self@,
                                    ConfigError::Layout { layout: i, error },
                                );
                            }
                            return Err(ConfigError::Layout { layout: i, error });
                        },
                    }
                },
                None => unreached(),
            }
            i += 1;
        }
        Ok(layouts)
    }

    /// The second stage: the plan of every registered texture, in the order
    /// of the handles.
    pub fn texture_plans(&self) -> (plans: Vec<TexturePlan>)
        ensures
            textures_describe(plans@, self@, self@.textures.len() as int),
    {
        let count = self.texture_count();
        let mut plans: Vec<TexturePlan> = Vec::new();
        let mut i: usize = 0;
        while i < count
            invariant
                i <= count,
                count == self@.textures.len(),
                textures_describe(plans@, self@, i as int),
            decreases count - i,
        {
            match self.texture(i) {
                Some(texture) => {
                    plans.push(texture_plan(texture.size));
                },
                None => unreached(),
            }
            i += 1;
        }
        plans
    }

    /// The third stage: the plan of every registered mesh, in the order of
    /// the handles; or the first handle in a mesh that names nothing.
    pub fn mesh_plans(&self) -> (result: Result<Vec<MeshPlan>, ConfigError>)
        ensures
            result is Ok <==> self@.meshes_ok(self@.meshes.len() as int),
            match result {
                Ok(plans) => {
                    &&& self@.meshes_ok(self@.meshes.len() as int)
                    &&& meshes_describe(plans@, self@, self@.meshes.len() as int)
                },
                Err(error) => self@.meshes_report(error),
            },
    {
        let count = self.mesh_count();
        let textures = self.texture_count();
        let layouts = self.vertex_attributes_count();
        let mut plans: Vec<MeshPlan> = Vec::new();
        let mut m: usize = 0;
        while m < count
            invariant
                m <= count,
                count == self@.meshes.len(),
                textures == self@.textures.len(),
                layouts == self@.vertex_attributes.len(),
                self@.meshes_ok(m as int),
                meshes_describe(plans@, self@, m as int),
            decreases count - m,
        {
            match self.mesh(m) {
                Some(mesh) => {
                    let mut slot: usize = 0;
                    while slot < mesh.texture_ids.len()
                        invariant
                            slot <= mesh.texture_ids.len(),
                            m < count,
                            count == self@.meshes.len(),
                            textures == self@.textures.len(),
                            mesh@ == self@.meshes[m as int],
                            self@.meshes_ok(m as int),
                            forall|s: int|
                                0 <= s < slot ==> (#[trigger] self@.meshes[m as int].texture_ids[s])
                                    < textures,
                        decreases mesh.texture_ids.len() - slot,
                    {
                        if mesh.texture_ids[slot] >= textures {
                            proof {
                                lemma_meshes_report_excludes_ok(
                                    self@,
                                    ConfigError::UnknownTexture { mesh: m, slot },
                                );
                            }
                            return Err(ConfigError::UnknownTexture { mesh: m, slot });
                        }
                        slot += 1;
                    }
                    if mesh.vertex_attributes_id >= layouts {
                        proof {
                            lemma_meshes_report_excludes_ok(
                                self@,
                                ConfigError::UnknownVertexLayout { mesh: m },
                            );
                        }
                        return Err(ConfigError::UnknownVertexLayout { mesh: m });
                    }
                    plans.push(
                        MeshPlan {
                            index_format: mesh.index_format,
                            num_indices: index_count(mesh.index_data.len(), mesh.index_format),
                        },
                    );
                },
                None => unreached(),
            }
            m += 1;
        }
        Ok(plans)
    }

    /// The fourth stage: the plan of every declared render pass, in the order
    /// of declaration, for a surface of the given format; or the first handle
    /// in a render pass that names nothing.
    pub fn pass_plans(&self, target_format: usize) -> (result: Result<Vec<PassPlan>, ConfigError>)
        ensures
            result is Ok <==> self@.passes_ok(self@.render_passes.len() as int),
            match result {
                Ok(plans) => {
                    &&& self@.passes_ok(self@.render_passes.len() as int)
                    &&& passes_describe(
                        plans@,
                        self@,
                        self@.render_passes.len() as int,
                        target_format,
                    )
                },
                Err(error) => self@.passes_report(error),
            },
    {
        let count = self.render_pass_count();
        let shaders = self.shader_count();
        let mut plans: Vec<PassPlan> = Vec::new();
        let mut p: usize = 0;
        while p < count
            invariant
                p <= count,
                count == self@.render_passes.len(),
                shaders == self@.shaders.len(),
                self@.passes_ok(p as int),
                passes_describe(plans@, self@, p as int, target_format),
            decreases count - p,
        {
            match self.render_pass(p) {
                Some(pass) => {
                    if pass.shader_id >= shaders {
                        proof {
                            lemma_passes_report_excludes_ok(
                                self@,
                                ConfigError::UnknownShader { render_pass: p },
                            );
                        }
                        return Err(ConfigError::UnknownShader { render_pass: p });
                    }
                    match self.mesh(pass.mesh_id) {
                        Some(mesh) => {
                            plans.push(
                                PassPlan {
                                    shader: pass.shader_id,
                                    mesh: pass.mesh_id,
                                    vertex_layout: mesh.vertex_attributes_id,
                                    bind_groups: copy_handles(&mesh.texture_ids),
                                    target_format,
                                    load_op: pass.load_op,
                                    index_format: mesh.index_format,
                                    num_indices: index_count(
                                        mesh.index_data.len(),
                                        mesh.index_format,
                                    ),
                                    state: pipeline_state(),
                                },
                            );
                        },
                        None => {
                            proof {
                                lemma_passes_report_excludes_ok(
                                    self@,
                                    ConfigError::UnknownMesh { render_pass: p },
                                );
                            }
                            return Err(ConfigError::UnknownMesh { render_pass: p });
                        },
                    }
                },
                None => unreached(),
            }
            p += 1;
        }
        Ok(plans)
    }

    /// Materializes the scene for a surface of the given format: runs the
    /// four stages in order and puts their results together.
    ///
    /// The scene is returned exactly where the registry describes one. Where
    /// it does not, the error is that of the first stage that finds one: a
    /// vertex layout that cannot be built, then a mesh that names an
    /// unregistered texture or layout, then a render pass that names an
    /// unregistered shader or mesh.
    pub fn materialize(&self, target_format: usize) -> (result: Result<Scene, ConfigError>)
        ensures
            result is Ok <==> self@.is_valid(),
            match result {
                Ok(scene) => {
                    &&& scene.describes(self@, target_format)
                    &&& scene.is_closed(self@.shaders.len())
                },
                Err(error) => self@.reports(error),
            },
    {
        let vertex_layouts = match self.vertex_layouts() {
            Ok(layouts) => layouts,
            Err(error) => {
                proof {
                    lemma_reports_one_error(self@, error, error);
                }
                return Err(error);
            },
        };
        let textures = self.texture_plans();
        let meshes = match self.mesh_plans() {
            Ok(plans) => plans,
            Err(error) => {
                proof {
                    lemma_reports_one_error(self@, error, error);
                }
                return Err(error);
            },
        };
        let passes = match self.pass_plans(target_format) {
            Ok(plans) => plans,
            Err(error) => {
                proof {
                    lemma_reports_one_error(self@, error, error);
                }
                return Err(error);
            },
        };
        let scene = Scene { vertex_layouts, textures, meshes, passes };
        proof {
            lemma_scene_of_valid_registry_is_closed(self@, scene, target_format);
        }
        Ok(scene)
    }
}

} // verus!
