//! The vertex layout builder: from an ordered list of attribute formats to the
//! stride of a vertex and the place of each attribute in it.

use crate::format::{get_vertex_format_size, VertexFormat};
use vstd::prelude::*;

verus! {

/// One attribute of a vertex: where it starts in the vertex, the shader input
/// it feeds, and its format.
#[derive(Clone, Copy, Debug, PartialEq, Eq, Structural)]
pub struct VertexAttribute {
    pub offset: u64,
    pub shader_location: u32,
    pub format: VertexFormat,
}

/// The layout of one vertex: its size in bytes and its attributes in order.
#[derive(Clone, Debug, PartialEq, Eq)]
pub struct VertexAttributeData {
    pub stride: u64,
    pub attributes: Vec<VertexAttribute>,
}

/// Why a list of formats has no layout.
#[derive(Clone, Copy, Debug, PartialEq, Eq, Structural)]
pub enum LayoutError {
    /// There are more attributes than shader locations.
    TooManyAttributes,
    /// The format at this position is not in the size table.
    UnsupportedFormat { attribute: usize },
}

/// The number of shader locations: they are numbered by a `u32`.
pub const MAX_ATTRIBUTES: u64 = 0x1_0000_0000;

/// The byte offset of attribute `i`: the sizes of the attributes before it,
/// added up. With `i` the number of attributes, this is the stride.
pub open spec fn offset_of(formats: Seq<VertexFormat>, i: int) -> nat
    decreases i,
{
    if i <= 0 {
        0
    } else {
        offset_of(formats, i - 1) + formats[i - 1].byte_size_or_zero()
    }
}

/// The size of one vertex: the sizes of all its attributes, added up.
pub open spec fn stride_of(formats: Seq<VertexFormat>) -> nat {
    offset_of(formats, formats.len() as int)
}

/// Every format of the list is in the size table.
pub open spec fn all_sized(formats: Seq<VertexFormat>) -> bool {
    forall|i: int| 0 <= i < formats.len() ==> (#[trigger] formats[i]).byte_size() is Some
}

/// `i` is the first position whose format is not in the size table.
pub open spec fn is_first_unsized(formats: Seq<VertexFormat>, i: int) -> bool {
    &&& 0 <= i < formats.len()
    &&& formats[i].byte_size() is None
    &&& forall|j: int| 0 <= j < i ==> (#[trigger] formats[j]).byte_size() is Some
}

/// The list of formats has a layout: every format has a size, and there are
/// no more attributes than shader locations.
pub open spec fn layout_ok(formats: Seq<VertexFormat>) -> bool {
    formats.len() <= MAX_ATTRIBUTES && all_sized(formats)
}

/// `error` is what is wrong with the list of formats: that there are too
/// many; or, where there are not, the first format without a size.
pub open spec fn layout_reports(formats: Seq<VertexFormat>, error: LayoutError) -> bool {
    match error {
        LayoutError::TooManyAttributes => formats.len() > MAX_ATTRIBUTES,
        LayoutError::UnsupportedFormat { attribute } => {
            &&& formats.len() <= MAX_ATTRIBUTES
            &&& is_first_unsized(formats, attribute as int)
        },
    }
}

/// The first `n` of `attributes` are those of `formats`: packed without gaps in
/// the order given, the shader locations counting up from 0.
pub open spec fn places(
    attributes: Seq<VertexAttribute>,
    formats: Seq<VertexFormat>,
    n: int,
) -> bool {
    forall|i: int|
        0 <= i < n ==> {
            &&& (#[trigger] attributes[i]).offset == offset_of(formats, i)
            &&& attributes[i].shader_location == i
            &&& attributes[i].format == formats[i]
        }
}

impl VertexAttributeData {
    /// This is the layout of `formats`.
    pub open spec fn describes(self, formats: Seq<VertexFormat>) -> bool {
        &&& self.stride == stride_of(formats)
        &&& self.attributes@.len() == formats.len()
        &&& places(self.attributes@, formats, formats.len() as int)
    }
}

/// No offset is larger than sixteen bytes for each attribute before it.
proof fn lemma_offset_bounded(formats: Seq<VertexFormat>, i: int)
    requires
        0 <= i <= formats.len(),
    ensures
        offset_of(formats, i) <= 16 * i,
    decreases i,
{
    if i > 0 {
        lemma_offset_bounded(formats, i - 1);
    }
}

/// A list of formats has a layout or one thing wrong with it, never both and
/// never two.
pub proof fn lemma_layout_reports_one_error(
    formats: Seq<VertexFormat>,
    first: LayoutError,
    second: LayoutError,
)
    requires
        layout_reports(formats, first),
        layout_reports(formats, second),
    ensures
        first == second,
        !layout_ok(formats),
{
    if let LayoutError::UnsupportedFormat { attribute } = first {
        assert(formats[attribute as int].byte_size() is None);
    }
    if let LayoutError::UnsupportedFormat { attribute } = second {
        assert(formats[attribute as int].byte_size() is None);
    }
}

/// Builds the layout of a vertex from the formats of its attributes.
///
/// Attribute `i` starts where the attributes before it end and feeds shader
/// location `i`; the stride is the sum of all sizes. A list with more
/// attributes than there are shader locations is refused; so is a format
/// outside the size table, the first one being named.
pub fn build_vertex_layout(formats: &[VertexFormat]) -> (result: Result<
    VertexAttributeData,
    LayoutError,
>)
    ensures
        result is Ok <==> layout_ok(formats@),
        match result {
            Ok(layout) => layout.describes(formats@),
            Err(error) => layout_reports(formats@, error),
        },
{
    if formats.len() as u64 > MAX_ATTRIBUTES {
        return Err(LayoutError::TooManyAttributes);
    }
    let mut attributes: Vec<VertexAttribute> = Vec::new();
    let mut stride: u64 = 0;
    let mut i: usize = 0;
    while i < formats.len()
        invariant
            i <= formats.len() <= MAX_ATTRIBUTES,
            forall|j: int| 0 <= j < i ==> (#[trigger] formats@[j]).byte_size() is Some,
            attributes@.len() == i,
            stride == offset_of(formats@, i as int),
            places(attributes@, formats@, i as int),
        decreases formats.len() - i,
    {
        let format = formats[i];
        match get_vertex_format_size(&format) {
            None => {
                return Err(LayoutError::UnsupportedFormat { attribute: i });
            },
            Some(size) => {
                proof {
                    lemma_offset_bounded(formats@, i as int);
                }
                attributes.push(
                    VertexAttribute { offset: stride, shader_location: i as u32, format },
                );
                stride = stride + size;
            },
        }
        i += 1;
    }
    Ok(VertexAttributeData { stride, attributes })
}

} // verus!
