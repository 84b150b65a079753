//! The resource registry: append-only tables of what the scene is made of.
//!
//! Each `add_*` appends one entry and returns its place in the table as its
//! handle. Nothing is checked on registration; handles that point nowhere are
//! found when the scene is materialized.

use crate::format::{IndexFormat, VertexFormat};
use vstd::prelude::*;

verus! {

/// The size of a texture in texels.
#[derive(Clone, Copy, Debug, PartialEq, Eq, Structural)]
pub struct Extent3d {
    pub width: u32,
    pub height: u32,
    pub depth_or_array_layers: u32,
}

/// What a render pass does to its target before it draws.
#[derive(Clone, Copy, Debug, PartialEq, Eq, Structural)]
pub enum LoadOp {
    /// Clear the target to a colour. The channels are red, green, blue and
    /// alpha, each held as the bit pattern of a 64-bit IEEE 754 number.
    Clear(u64, u64, u64, u64),
    /// Keep what the target holds.
    Load,
}

/// The source text of a shader.
#[derive(Clone, Debug, PartialEq, Eq)]
pub enum ShaderSource {
    Wgsl(String),
}

/// A shader source as a sequence of characters.
pub enum ShaderSourceView {
    Wgsl(Seq<char>),
}

impl View for ShaderSource {
    type V = ShaderSourceView;

    open spec fn view(&self) -> ShaderSourceView {
        match self {
            ShaderSource::Wgsl(text) => ShaderSourceView::Wgsl(text@),
        }
    }
}

/// A registered texture: tightly packed 8-bit RGBA texels, and their extent.
#[derive(Clone, Debug, PartialEq, Eq)]
pub struct Texture {
    pub data: Vec<u8>,
    pub size: Extent3d,
}

/// A registered texture as mathematical values.
pub struct TextureView {
    pub data: Seq<u8>,
    pub size: Extent3d,
}

impl View for Texture {
    type V = TextureView;

    open spec fn view(&self) -> TextureView {
        TextureView { data: self.data@, size: self.size }
    }
}

/// A registered mesh: raw vertex and index bytes, the handle of the layout
/// its vertices have, the width of its indices, and the handles of its
/// textures in the order in which they are bound.
#[derive(Clone, Debug, PartialEq, Eq)]
pub struct Mesh<'l> {
    pub vertex_data: &'l [u8],
    pub vertex_attributes_id: usize,
    pub index_data: &'l [u8],
    pub index_format: IndexFormat,
    pub texture_ids: Vec<usize>,
}

/// A registered mesh as mathematical values.
pub struct MeshView {
    pub vertex_data: Seq<u8>,
    pub vertex_attributes_id: usize,
    pub index_data: Seq<u8>,
    pub index_format: IndexFormat,
    pub texture_ids: Seq<usize>,
}

impl<'l> View for Mesh<'l> {
    type V = MeshView;

    open spec fn view(&self) -> MeshView {
        MeshView {
            vertex_data: self.vertex_data@,
            vertex_attributes_id: self.vertex_attributes_id,
            index_data: self.index_data@,
            index_format: self.index_format,
            texture_ids: self.texture_ids@,
        }
    }
}

/// A declared render pass: the shader it runs, what it does to the target
/// first, and the mesh it draws.
#[derive(Clone, Copy, Debug, PartialEq, Eq, Structural)]
pub struct RenderPass {
    pub shader_id: usize,
    pub load_op: LoadOp,
    pub mesh_id: usize,
}

/// The registry: the logical size asked for the window, and the tables of
/// textures, shaders, vertex layouts, meshes and render passes. The tables
/// only grow, at their end; the raw bytes of meshes and the lists of formats
/// are borrowed from the caller for as long as the registry lives.
#[derive(Debug)]
pub struct Engine<'l> {
    window_width: u64,
    window_height: u64,
    textures: Vec<Texture>,
    shaders: Vec<ShaderSource>,
    vertex_attributes: Vec<&'l [VertexFormat]>,
    meshes: Vec<Mesh<'l>>,
    render_passes: Vec<RenderPass>,
}

/// The registry as mathematical tables. A handle is a position in its table.
pub struct EngineView {
    pub window_width: u64,
    pub window_height: u64,
    pub textures: Seq<TextureView>,
    pub shaders: Seq<ShaderSourceView>,
    pub vertex_attributes: Seq<Seq<VertexFormat>>,
    pub meshes: Seq<MeshView>,
    pub render_passes: Seq<RenderPass>,
}

/// Appending `entry` to `table`: the table afterwards, and the handle of the
/// new entry.
pub open spec fn register<T>(table: Seq<T>, entry: T) -> (Seq<T>, nat) {
    (table.push(entry), table.len())
}

/// Appending `entries` to `table` one after the other: the table afterwards,
/// and the handles of the new entries in the order in which they were given.
pub open spec fn register_all<T>(table: Seq<T>, entries: Seq<T>) -> (Seq<T>, Seq<nat>)
    decreases entries.len(),
{
    if entries.len() == 0 {
        (table, Seq::empty())
    } else {
        let (before, handles) = register_all(table, entries.drop_last());
        let (after, handle) = register(before, entries.last());
        (after, handles.push(handle))
    }
}

/// Handles are dense and stable. Registering `entries` in a table hands out
/// the handles that follow the table's size, one after the other in the order
/// of registration (so `0, 1, ..` for a table that was empty), each handle
/// finds the entry it was returned for, no handle is handed out twice, and
/// every entry that was in the table before is still at its place, unchanged.
pub proof fn lemma_handles_dense_and_stable<T>(table: Seq<T>, entries: Seq<T>)
    ensures
        register_all(table, entries).0 == table + entries,
        register_all(table, entries).1.len() == entries.len(),
        forall|k: int|
            0 <= k < entries.len() ==> #[trigger] register_all(table, entries).1[k] == table.len()
                + k,
        forall|k: int|
            0 <= k < entries.len() ==> register_all(table, entries).0[#[trigger] register_all(
                table,
                entries,
            ).1[k] as int] == entries[k],
        forall|j: int, k: int|
            0 <= j < k < entries.len() ==> #[trigger] register_all(table, entries).1[j]
                != #[trigger] register_all(table, entries).1[k],
        forall|i: int|
            0 <= i < table.len() ==> #[trigger] register_all(table, entries).0[i] == table[i],
    decreases entries.len(),
{
    if entries.len() == 0 {
        assert(table + entries =~= table);
    } else {
        lemma_handles_dense_and_stable(table, entries.drop_last());
        assert((table + entries.drop_last()).push(entries.last()) =~= table + entries);
    }
}

impl<'l> View for Engine<'l> {
    type V = EngineView;

    closed spec fn view(&self) -> EngineView {
        EngineView {
            window_width: self.window_width,
            window_height: self.window_height,
            textures: self.textures@.map_values(|t: Texture| t@),
            shaders: self.shaders@.map_values(|s: ShaderSource| s@),
            vertex_attributes: self.vertex_attributes@.map_values(|f: &[VertexFormat]| f@),
            meshes: self.meshes@.map_values(|m: Mesh| m@),
            render_passes: self.render_passes@,
        }
    }
}

impl<'l> Engine<'l> {
    /// An empty registry for a window of the given logical size. Width and
    /// height are each the bit pattern of a 64-bit IEEE 754 number.
    pub fn new(window_width: u64, window_height: u64) -> (engine: Engine<'l>)
        ensures
            engine@ == (EngineView {
                window_width,
                window_height,
                textures: Seq::empty(),
                shaders: Seq::empty(),
                vertex_attributes: Seq::empty(),
                meshes: Seq::empty(),
                render_passes: Seq::empty(),
            }),
    {
        let engine = Engine {
            window_width,
            window_height,
            textures: Vec::new(),
            shaders: Vec::new(),
            meshes: Vec::new(),
            render_passes: Vec::new(),
            vertex_attributes: Vec::new(),
        };
        assert(engine@.textures =~= Seq::empty());
        assert(engine@.shaders =~= Seq::empty());
        assert(engine@.vertex_attributes =~= Seq::empty());
        assert(engine@.meshes =~= Seq::empty());
        engine
    }

    /// Registers a texture and returns its handle.
    pub fn add_texture(&mut self, data: Vec<u8>, size: Extent3d) -> (handle: usize)
        ensures
            (final(self)@.textures, handle as nat) == register(
                old(self)@.textures,
                TextureView { data: data@, size },
            ),
            final(self)@ == (EngineView { textures: final(self)@.textures, ..old(self)@ }),
    {
        self.textures.push(Texture { data, size });
        assert(self@.textures =~= old(self)@.textures.push(TextureView { data: data@, size }));
        self.textures.len() - 1
    }

    /// Registers the attribute formats of a vertex layout and returns the
    /// layout's handle.
    pub fn add_vertex_attributes(&mut self, vertex_attributes: &'l [VertexFormat]) -> (handle:
        usize)
        ensures
            (final(self)@.vertex_attributes, handle as nat) == register(
                old(self)@.vertex_attributes,
                vertex_attributes@,
            ),
            final(self)@ == (EngineView {
                vertex_attributes: final(self)@.vertex_attributes,
                ..old(self)@
            }),
    {
        self.vertex_attributes.push(vertex_attributes);
        assert(self@.vertex_attributes =~= old(self)@.vertex_attributes.push(vertex_attributes@));
        self.vertex_attributes.len() - 1
    }

    /// Registers a shader and returns its handle.
    pub fn add_shader(&mut self, shader: ShaderSource) -> (handle: usize)
        ensures
            (final(self)@.shaders, handle as nat) == register(old(self)@.shaders, shader@),
            final(self)@ == (EngineView { shaders: final(self)@.shaders, ..old(self)@ }),
    {
        self.shaders.push(shader);
        assert(self@.shaders =~= old(self)@.shaders.push(shader@));
        self.shaders.len() - 1
    }

    /// Declares a render pass. Passes run in the order in which they are
    /// declared.
    pub fn add_render_pass(&mut self, shader_id: usize, load_op: LoadOp, mesh_id: usize)
        ensures
            final(self)@.render_passes == old(self)@.render_passes.push(
                RenderPass { shader_id, load_op, mesh_id },
            ),
            final(self)@ == (EngineView {
                render_passes: final(self)@.render_passes,
                ..old(self)@
            }),
    {
        self.render_passes.push(RenderPass { shader_id, load_op, mesh_id });
    }

    /// Registers a mesh and returns its handle.
    pub fn add_mesh(
        &mut self,
        vertex_data: &'l [u8],
        vertex_buffer_layout_id: usize,
        index_data: &'l [u8],
        index_format: IndexFormat,
        texture_ids: Vec<usize>,
    ) -> (handle: usize)
        ensures
            (final(self)@.meshes, handle as nat) == register(
                old(self)@.meshes,
                MeshView {
                    vertex_data: vertex_data@,
                    vertex_attributes_id: vertex_buffer_layout_id,
                    index_data: index_data@,
                    index_format,
                    texture_ids: texture_ids@,
                },
            ),
            final(self)@ == (EngineView { meshes: final(self)@.meshes, ..old(self)@ }),
    {
        let mesh = Mesh {
            vertex_data,
            vertex_attributes_id: vertex_buffer_layout_id,
            index_data,
            index_format,
            texture_ids,
        };
        self.meshes.push(mesh);
        assert(self@.meshes =~= old(self)@.meshes.push(mesh@));
        self.meshes.len() - 1
    }

    /// The logical width asked for the window, as given to [`Engine::new`].
    pub fn window_width(&self) -> (width: u64)
        ensures
            width == self@.window_width,
    {
        self.window_width
    }

    /// The logical height asked for the window, as given to [`Engine::new`].
    pub fn window_height(&self) -> (height: u64)
        ensures
            height == self@.window_height,
    {
        self.window_height
    }

    /// The number of registered textures.
    pub fn texture_count(&self) -> (count: usize)
        ensures
            count == self@.textures.len(),
    {
        self.textures.len()
    }

    /// The number of registered shaders.
    pub fn shader_count(&self) -> (count: usize)
        ensures
            count == self@.shaders.len(),
    {
        self.shaders.len()
    }

    /// The number of registered vertex layouts.
    pub fn vertex_attributes_count(&self) -> (count: usize)
        ensures
            count == self@.vertex_attributes.len(),
    {
        self.vertex_attributes.len()
    }

    /// The number of registered meshes.
    pub fn mesh_count(&self) -> (count: usize)
        ensures
            count == self@.meshes.len(),
    {
        self.meshes.len()
    }

    /// The number of declared render passes.
    pub fn render_pass_count(&self) -> (count: usize)
        ensures
            count == self@.render_passes.len(),
    {
        self.render_passes.len()
    }

    /// The texture with the given handle, if there is one.
    pub fn texture(&self, id: usize) -> (texture: Option<&Texture>)
        ensures
            texture is Some <==> id < self@.textures.len(),
            texture matches Some(t) ==> t@ == self@.textures[id as int],
    {
        if id < self.textures.len() {
            Some(&self.textures[id])
        } else {
            None
        }
    }

    /// The shader with the given handle, if there is one.
    pub fn shader(&self, id: usize) -> (shader: Option<&ShaderSource>)
        ensures
            shader is Some <==> id < self@.shaders.len(),
            shader matches Some(s) ==> s@ == self@.shaders[id as int],
    {
        if id < self.shaders.len() {
            Some(&self.shaders[id])
        } else {
            None
        }
    }

    /// The attribute formats of the vertex layout with the given handle, if
    /// there is one.
    pub fn vertex_attributes(&self, id: usize) -> (formats: Option<&'l [VertexFormat]>)
        ensures
            formats is Some <==> id < self@.vertex_attributes.len(),
            formats matches Some(f) ==> f@ == self@.vertex_attributes[id as int],
    {
        if id < self.vertex_attributes.len() {
            Some(self.vertex_attributes[id])
        } else {
            None
        }
    }

    /// The mesh with the given handle, if there is one.
    pub fn mesh(&self, id: usize) -> (mesh: Option<&Mesh<'l>>)
        ensures
            mesh is Some <==> id < self@.meshes.len(),
            mesh matches Some(m) ==> m@ == self@.meshes[id as int],
    {
        if id < self.meshes.len() {
            Some(&self.meshes[id])
        } else {
            None
        }
    }

    /// The render pass declared at the given position, if there is one.
    pub fn render_pass(&self, id: usize) -> (pass: Option<RenderPass>)
        ensures
            pass is Some <==> id < self@.render_passes.len(),
            pass matches Some(p) ==> p == self@.render_passes[id as int],
    {
        if id < self.render_passes.len() {
            Some(self.render_passes[id])
        } else {
            None
        }
    }
}

} // verus!
