//! The fixed settings with which device objects are created. They are plain
//! values; whoever talks to the device turns them into the device's own.

use crate::engine::Extent3d;
use vstd::prelude::*;

verus! {

/// How a sampler treats coordinates outside the texture.
#[derive(Clone, Copy, Debug, PartialEq, Eq, Structural)]
pub enum AddressMode {
    ClampToEdge,
    Repeat,
    MirrorRepeat,
    ClampToBorder,
}

/// How a sampler picks texels.
#[derive(Clone, Copy, Debug, PartialEq, Eq, Structural)]
pub enum FilterMode {
    Nearest,
    Linear,
}

/// The number of dimensions of a texture.
#[derive(Clone, Copy, Debug, PartialEq, Eq, Structural)]
pub enum TextureDimension {
    D1,
    D2,
    D3,
}

/// The texel formats in which textures are uploaded. There is one: four 8-bit
/// channels, red, green, blue and alpha, the colour gamma-encoded.
#[derive(Clone, Copy, Debug, PartialEq, Eq, Structural)]
pub enum TexelFormat {
    Rgba8UnormSrgb,
}

/// What a texture may be used for.
#[derive(Clone, Copy, Debug, PartialEq, Eq, Structural)]
pub struct TextureUsages {
    pub copy_src: bool,
    pub copy_dst: bool,
    pub texture_binding: bool,
    pub storage_binding: bool,
    pub render_attachment: bool,
}

/// The shader stages that see a binding.
#[derive(Clone, Copy, Debug, PartialEq, Eq, Structural)]
pub struct ShaderStages {
    pub vertex: bool,
    pub fragment: bool,
    pub compute: bool,
}

/// The colour channels that a pipeline writes.
#[derive(Clone, Copy, Debug, PartialEq, Eq, Structural)]
pub struct ColorWrites {
    pub red: bool,
    pub green: bool,
    pub blue: bool,
    pub alpha: bool,
}

/// What a binding of a binding set holds.
#[derive(Clone, Copy, Debug, PartialEq, Eq, Structural)]
pub enum BindingKind {
    /// The view of a two-dimensional texture, sampled as filterable floats,
    /// not multisampled.
    Texture,
    /// A filtering sampler.
    Sampler,
}

/// One binding in the layout of a binding set.
#[derive(Clone, Copy, Debug, PartialEq, Eq, Structural)]
pub struct BindGroupLayoutEntry {
    pub binding: u32,
    pub visibility: ShaderStages,
    pub kind: BindingKind,
}

/// How a device texture is created.
#[derive(Clone, Copy, Debug, PartialEq, Eq, Structural)]
pub struct TextureDescriptor {
    pub size: Extent3d,
    pub mip_level_count: u32,
    pub sample_count: u32,
    pub dimension: TextureDimension,
    pub format: TexelFormat,
    pub usage: TextureUsages,
}

/// How the bytes of an upload are laid out.
#[derive(Clone, Copy, Debug, PartialEq, Eq, Structural)]
pub struct ImageDataLayout {
    pub offset: u64,
    pub bytes_per_row: u64,
    pub rows_per_image: u32,
}

/// How a sampler is created.
#[derive(Clone, Copy, Debug, PartialEq, Eq, Structural)]
pub struct SamplerDescriptor {
    pub address_mode_u: AddressMode,
    pub address_mode_v: AddressMode,
    pub address_mode_w: AddressMode,
    pub mag_filter: FilterMode,
    pub min_filter: FilterMode,
    pub mipmap_filter: FilterMode,
}

/// How vertices are assembled into primitives.
#[derive(Clone, Copy, Debug, PartialEq, Eq, Structural)]
pub enum PrimitiveTopology {
    PointList,
    LineList,
    LineStrip,
    TriangleList,
    TriangleStrip,
}

/// The winding of the vertices of a front-facing triangle.
#[derive(Clone, Copy, Debug, PartialEq, Eq, Structural)]
pub enum FrontFace {
    Ccw,
    Cw,
}

/// A side of a triangle.
#[derive(Clone, Copy, Debug, PartialEq, Eq, Structural)]
pub enum Face {
    Front,
    Back,
}

/// How polygons are rasterized.
#[derive(Clone, Copy, Debug, PartialEq, Eq, Structural)]
pub enum PolygonMode {
    Fill,
    Line,
    Point,
}

/// How often a vertex buffer advances.
#[derive(Clone, Copy, Debug, PartialEq, Eq, Structural)]
pub enum VertexStepMode {
    Vertex,
    Instance,
}

/// How the output of a fragment is combined with what the target holds.
#[derive(Clone, Copy, Debug, PartialEq, Eq, Structural)]
pub enum BlendMode {
    Replace,
    AlphaBlending,
    PremultipliedAlphaBlending,
}

/// What happens to the output of a render pass when the pass ends.
#[derive(Clone, Copy, Debug, PartialEq, Eq, Structural)]
pub enum StoreOp {
    Store,
    Discard,
}

/// The fixed-function state of a pipeline.
#[derive(Clone, Copy, Debug, PartialEq, Eq, Structural)]
pub struct PipelineState {
    pub step_mode: VertexStepMode,
    pub topology: PrimitiveTopology,
    pub front_face: FrontFace,
    pub cull_mode: Option<Face>,
    pub polygon_mode: PolygonMode,
    pub blend: BlendMode,
    pub write_mask: ColorWrites,
    pub depth_stencil: bool,
    pub sample_count: u32,
}

/// The name of the vertex stage's entry point in every shader.
pub const VERTEX_ENTRY_POINT: &'static str = "vs_main";

/// The name of the fragment stage's entry point in every shader.
pub const FRAGMENT_ENTRY_POINT: &'static str = "fs_main";

/// The bytes of one texel of an uploaded texture.
pub open spec fn texel_size() -> nat {
    4
}

/// The descriptor of the device texture for a registered texture of the given
/// size: two-dimensional, in the one texel format there is, without mipmaps
/// or multisampling, to be copied into and bound.
pub open spec fn spec_texture_descriptor(size: Extent3d) -> TextureDescriptor {
    TextureDescriptor {
        size,
        mip_level_count: 1,
        sample_count: 1,
        dimension: TextureDimension::D2,
        format: TexelFormat::Rgba8UnormSrgb,
        usage: TextureUsages {
            copy_src: false,
            copy_dst: true,
            texture_binding: true,
            storage_binding: false,
            render_attachment: false,
        },
    }
}

/// The layout of the bytes of a registered texture of the given size: rows
/// packed tightly, four bytes a texel, all rows in one image.
pub open spec fn spec_texture_upload(size: Extent3d) -> ImageDataLayout {
    ImageDataLayout {
        offset: 0,
        bytes_per_row: (texel_size() * size.width) as u64,
        rows_per_image: size.height,
    }
}

/// The sampler of every texture: coordinates clamped to the edge on all
/// axes, linear when magnified, nearest when minified or between mip levels.
pub open spec fn spec_texture_sampler() -> SamplerDescriptor {
    SamplerDescriptor {
        address_mode_u: AddressMode::ClampToEdge,
        address_mode_v: AddressMode::ClampToEdge,
        address_mode_w: AddressMode::ClampToEdge,
        mag_filter: FilterMode::Linear,
        min_filter: FilterMode::Nearest,
        mipmap_filter: FilterMode::Nearest,
    }
}

/// The layout of the binding set of every texture: the texture's view at
/// binding 0 and its sampler at binding 1, both seen by the fragment stage
/// only.
pub open spec fn spec_texture_bindings() -> (BindGroupLayoutEntry, BindGroupLayoutEntry) {
    let fragment_only = ShaderStages { vertex: false, fragment: true, compute: false };
    (
        BindGroupLayoutEntry { binding: 0, visibility: fragment_only, kind: BindingKind::Texture },
        BindGroupLayoutEntry { binding: 1, visibility: fragment_only, kind: BindingKind::Sampler },
    )
}

/// The state of every pipeline: one vertex buffer stepped by vertex, filled
/// triangle lists with counter-clockwise front faces and the back faces
/// culled, the fragment's output replacing what the target holds in all four
/// channels, no depth or stencil test, one sample a pixel.
pub open spec fn spec_pipeline_state() -> PipelineState {
    PipelineState {
        step_mode: VertexStepMode::Vertex,
        topology: PrimitiveTopology::TriangleList,
        front_face: FrontFace::Ccw,
        cull_mode: Some(Face::Back),
        polygon_mode: PolygonMode::Fill,
        blend: BlendMode::Replace,
        write_mask: ColorWrites { red: true, green: true, blue: true, alpha: true },
        depth_stencil: false,
        sample_count: 1,
    }
}

/// See [`spec_texture_descriptor`].
pub fn texture_descriptor(size: Extent3d) -> (descriptor: TextureDescriptor)
    ensures
        descriptor == spec_texture_descriptor(size),
{
    TextureDescriptor {
        size,
        mip_level_count: 1,
        sample_count: 1,
        dimension: TextureDimension::D2,
        format: TexelFormat::Rgba8UnormSrgb,
        usage: TextureUsages {
            copy_src: false,
            copy_dst: true,
            texture_binding: true,
            storage_binding: false,
            render_attachment: false,
        },
    }
}

/// See [`spec_texture_upload`].
pub fn texture_upload(size: Extent3d) -> (layout: ImageDataLayout)
    ensures
        layout == spec_texture_upload(size),
        layout.bytes_per_row == 4 * size.width,
{
    ImageDataLayout { offset: 0, bytes_per_row: 4 * (size.width as u64), rows_per_image: size.height }
}

/// See [`spec_texture_sampler`].
pub fn texture_sampler() -> (sampler: SamplerDescriptor)
    ensures
        sampler == spec_texture_sampler(),
{
    SamplerDescriptor {
        address_mode_u: AddressMode::ClampToEdge,
        address_mode_v: AddressMode::ClampToEdge,
        address_mode_w: AddressMode::ClampToEdge,
        mag_filter: FilterMode::Linear,
        min_filter: FilterMode::Nearest,
        mipmap_filter: FilterMode::Nearest,
    }
}

/// See [`spec_texture_bindings`].
pub fn texture_bindings() -> (bindings: (BindGroupLayoutEntry, BindGroupLayoutEntry))
    ensures
        bindings == spec_texture_bindings(),
{
    let fragment_only = ShaderStages { vertex: false, fragment: true, compute: false };
    (
        BindGroupLayoutEntry { binding: 0, visibility: fragment_only, kind: BindingKind::Texture },
        BindGroupLayoutEntry { binding: 1, visibility: fragment_only, kind: BindingKind::Sampler },
    )
}

/// See [`spec_pipeline_state`].
pub fn pipeline_state() -> (state: PipelineState)
    ensures
        state == spec_pipeline_state(),
{
    PipelineState {
        step_mode: VertexStepMode::Vertex,
        topology: PrimitiveTopology::TriangleList,
        front_face: FrontFace::Ccw,
        cull_mode: Some(Face::Back),
        polygon_mode: PolygonMode::Fill,
        blend: BlendMode::Replace,
        write_mask: ColorWrites { red: true, green: true, blue: true, alpha: true },
        depth_stencil: false,
        sample_count: 1,
    }
}

} // verus!
