use render_engine::format::{
    get_index_format_size, get_vertex_format_size, index_count, IndexFormat, VertexFormat,
};

#[test]
fn float_formats_have_four_bytes_a_component() {
    assert_eq!(get_vertex_format_size(&VertexFormat::Float32), Some(4));
    assert_eq!(get_vertex_format_size(&VertexFormat::Float32x2), Some(8));
    assert_eq!(get_vertex_format_size(&VertexFormat::Float32x3), Some(12));
    assert_eq!(get_vertex_format_size(&VertexFormat::Float32x4), Some(16));
}

#[test]
fn formats_outside_the_table_have_no_size() {
    let unlisted = [
        VertexFormat::Uint8x2,
        VertexFormat::Uint8x4,
        VertexFormat::Sint8x2,
        VertexFormat::Sint8x4,
        VertexFormat::Unorm8x2,
        VertexFormat::Unorm8x4,
        VertexFormat::Snorm8x2,
        VertexFormat::Snorm8x4,
        VertexFormat::Uint16x2,
        VertexFormat::Uint16x4,
        VertexFormat::Sint16x2,
        VertexFormat::Sint16x4,
        VertexFormat::Unorm16x2,
        VertexFormat::Unorm16x4,
        VertexFormat::Snorm16x2,
        VertexFormat::Snorm16x4,
        VertexFormat::Float16x2,
        VertexFormat::Float16x4,
        VertexFormat::Uint32,
        VertexFormat::Uint32x2,
        VertexFormat::Uint32x3,
        VertexFormat::Uint32x4,
        VertexFormat::Sint32,
        VertexFormat::Sint32x2,
        VertexFormat::Sint32x3,
        VertexFormat::Sint32x4,
        VertexFormat::Float64,
        VertexFormat::Float64x2,
        VertexFormat::Float64x3,
        VertexFormat::Float64x4,
    ];
    for format in unlisted.iter() {
        assert_eq!(get_vertex_format_size(format), None, "{:?}", format);
    }
}

#[test]
fn index_formats_have_two_or_four_bytes() {
    assert_eq!(get_index_format_size(&IndexFormat::Uint16), 2);
    assert_eq!(get_index_format_size(&IndexFormat::Uint32), 4);
}

#[test]
fn index_count_divides_length_by_width() {
    assert_eq!(index_count(6, IndexFormat::Uint16), 3);
    assert_eq!(index_count(16, IndexFormat::Uint32), 4);
}

#[test]
fn index_count_of_an_empty_buffer_is_zero() {
    assert_eq!(index_count(0, IndexFormat::Uint16), 0);
    assert_eq!(index_count(0, IndexFormat::Uint32), 0);
}

#[test]
fn index_count_drops_a_trailing_partial_index() {
    assert_eq!(index_count(7, IndexFormat::Uint16), 3);
    assert_eq!(index_count(1, IndexFormat::Uint16), 0);
    assert_eq!(index_count(19, IndexFormat::Uint32), 4);
    assert_eq!(index_count(3, IndexFormat::Uint32), 0);
}

#[test]
fn index_count_of_the_longest_buffer() {
    assert_eq!(index_count(usize::MAX, IndexFormat::Uint16), usize::MAX / 2);
    assert_eq!(index_count(usize::MAX, IndexFormat::Uint32), usize::MAX / 4);
}

#[test]
fn index_count_agrees_with_the_size_table() {
    for length in 0..64usize {
        for format in [IndexFormat::Uint16, IndexFormat::Uint32].iter() {
            let width = get_index_format_size(format) as usize;
            assert_eq!(index_count(length, *format), length / width);
        }
    }
}
