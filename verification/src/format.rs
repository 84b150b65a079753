//! The format metadata table: how many bytes a vertex attribute or an index takes.

use vstd::prelude::*;

verus! {

/// The format of one vertex attribute, as graphics devices name them.
#[derive(Clone, Copy, Debug, PartialEq, Eq, Structural)]
pub enum VertexFormat {
    Uint8x2,
    Uint8x4,
    Sint8x2,
    Sint8x4,
    Unorm8x2,
    Unorm8x4,
    Snorm8x2,
    Snorm8x4,
    Uint16x2,
    Uint16x4,
    Sint16x2,
    Sint16x4,
    Unorm16x2,
    Unorm16x4,
    Snorm16x2,
    Snorm16x4,
    Float16x2,
    Float16x4,
    Float32,
    Float32x2,
    Float32x3,
    Float32x4,
    Uint32,
    Uint32x2,
    Uint32x3,
    Uint32x4,
    Sint32,
    Sint32x2,
    Sint32x3,
    Sint32x4,
    Float64,
    Float64x2,
    Float64x3,
    Float64x4,
}

/// The width of the indices in an index buffer.
#[derive(Clone, Copy, Debug, PartialEq, Eq, Structural)]
pub enum IndexFormat {
    Uint16,
    Uint32,
}

impl VertexFormat {
    /// The bytes one attribute of this format takes in a vertex. The table is
    /// closed and lists the 32-bit float formats only; every other format has
    /// no size here, and nothing is guessed for it.
    pub open spec fn byte_size(self) -> Option<u64> {
        match self {
            VertexFormat::Float32 => Some(4u64),
            VertexFormat::Float32x2 => Some(8u64),
            VertexFormat::Float32x3 => Some(12u64),
            VertexFormat::Float32x4 => Some(16u64),
            _ => None,
        }
    }

    /// The size where the table lists the format, and zero elsewhere.
    pub open spec fn byte_size_or_zero(self) -> nat {
        match self.byte_size() {
            Some(size) => size as nat,
            None => 0,
        }
    }
}

impl IndexFormat {
    /// The bytes one index of this format takes.
    pub open spec fn byte_size(self) -> u32 {
        match self {
            IndexFormat::Uint16 => 2u32,
            IndexFormat::Uint32 => 4u32,
        }
    }
}

/// Looks a vertex format up in the size table; `None` for a format that the
/// table does not list.
pub fn get_vertex_format_size(format: &VertexFormat) -> (size: Option<u64>)
    ensures
        size == format.byte_size(),
{
    match format {
        VertexFormat::Float32 => Some(4),
        VertexFormat::Float32x2 => Some(4 * 2),
        VertexFormat::Float32x3 => Some(4 * 3),
        VertexFormat::Float32x4 => Some(4 * 4),
        _ => None,
    }
}

/// The bytes one index of the given format takes: 2 or 4.
pub fn get_index_format_size(format: &IndexFormat) -> (size: u32)
    ensures
        size == format.byte_size(),
{
    match format {
        IndexFormat::Uint16 => 2,
        IndexFormat::Uint32 => 4,
    }
}

/// The number of indices in an index buffer of `byte_len` bytes.
pub open spec fn spec_index_count(byte_len: nat, format: IndexFormat) -> nat {
    byte_len / (format.byte_size() as nat)
}

/// Derives the number of indices from the length of an index buffer and the
/// width of its elements; a trailing partial index is not counted.
pub fn index_count(byte_len: usize, format: IndexFormat) -> (count: usize)
    ensures
        count == spec_index_count(byte_len as nat, format),
{
    match format {
        IndexFormat::Uint16 => byte_len / 2,
        IndexFormat::Uint32 => byte_len / 4,
    }
}

} // verus!
