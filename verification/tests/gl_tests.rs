use render_assembly::client_array::get_client_array_index;
use render_assembly::client_array::get_client_array_name;
use render_assembly::client_array::get_client_array_type;
use render_assembly::client_array::ClientArray;
use render_assembly::gl::DrawMode;
use render_assembly::gl::MatrixMode;
use render_assembly::gl::PointerArrayType;
use render_assembly::gl::PointerDataType;
use render_assembly::gl::GL_COLOR_BUFFER_BIT;
use render_assembly::gl::GL_DEPTH_BUFFER_BIT;
use render_assembly::gl::GL_TEXTURE_2D;
use render_assembly::layout::VertexInputType;

#[test]
fn matrix_modes_have_the_codes_of_the_interface() {
    let codes = [
        (MatrixMode::ModelView, gl_constants::GL_MODELVIEW),
        (MatrixMode::Projection, gl_constants::GL_PROJECTION),
        (MatrixMode::Texture, gl_constants::GL_TEXTURE),
        (MatrixMode::Color, gl_constants::GL_COLOR),
    ];
    for (mode, code) in codes {
        assert_eq!(mode.to_i32(), Some(code as i32));
        assert_eq!(MatrixMode::from_i32(code as i32), Some(mode));
    }
    assert_eq!(MatrixMode::from_i32(0), None);
    assert_eq!(MatrixMode::from_i32(-1), None);
    assert_eq!(MatrixMode::from_i32(0x1703), None);
}

#[test]
fn array_types_have_the_codes_of_the_interface() {
    let codes = [
        (PointerArrayType::Color, gl_constants::GL_COLOR_ARRAY),
        (PointerArrayType::EdgeFlag, gl_constants::GL_EDGE_FLAG_ARRAY),
        (PointerArrayType::FogCoord, gl_constants::GL_FOG_COORDINATE_ARRAY),
        (PointerArrayType::ColorIndex, gl_constants::GL_INDEX_ARRAY),
        (PointerArrayType::Normal, gl_constants::GL_NORMAL_ARRAY),
        (PointerArrayType::SecondaryColor, gl_constants::GL_SECONDARY_COLOR_ARRAY),
        (PointerArrayType::TexCoord, gl_constants::GL_TEXTURE_COORD_ARRAY),
        (PointerArrayType::Vertex, gl_constants::GL_VERTEX_ARRAY),
    ];
    for (kind, code) in codes {
        assert_eq!(kind.to_i32(), Some(code as i32));
        assert_eq!(PointerArrayType::from_i32(code as i32), Some(kind));
    }
    assert_eq!(PointerArrayType::from_i32(0x8073), None);
}

#[test]
fn data_types_have_the_codes_of_the_interface() {
    let codes = [
        (PointerDataType::U8, gl_constants::GL_UNSIGNED_BYTE),
        (PointerDataType::I8, gl_constants::GL_BYTE),
        (PointerDataType::U16, gl_constants::GL_UNSIGNED_SHORT),
        (PointerDataType::I16, gl_constants::GL_SHORT),
        (PointerDataType::U32, gl_constants::GL_UNSIGNED_INT),
        (PointerDataType::I32, gl_constants::GL_INT),
        (PointerDataType::F32, gl_constants::GL_FLOAT),
        (PointerDataType::F64, gl_constants::GL_DOUBLE),
    ];
    for (ty, code) in codes {
        assert_eq!(ty.to_i32(), Some(code as i32));
        assert_eq!(PointerDataType::from_i32(code as i32), Some(ty));
    }
    assert_eq!(PointerDataType::from_i32(0x1407), None);
}

#[test]
fn draw_modes_have_the_codes_of_the_interface() {
    let codes = [
        (DrawMode::Points, gl_constants::GL_POINTS),
        (DrawMode::LineStrip, gl_constants::GL_LINE_STRIP),
        (DrawMode::LineLoop, gl_constants::GL_LINE_LOOP),
        (DrawMode::Lines, gl_constants::GL_LINES),
        (DrawMode::LineStripAdj, gl_constants::GL_LINE_STRIP_ADJACENCY),
        (DrawMode::LinesAdj, gl_constants::GL_LINES_ADJACENCY),
        (DrawMode::TriStrip, gl_constants::GL_TRIANGLE_STRIP),
        (DrawMode::TriFan, gl_constants::GL_TRIANGLE_FAN),
        (DrawMode::Tri, gl_constants::GL_TRIANGLES),
        (DrawMode::TriStripAdj, gl_constants::GL_TRIANGLE_STRIP_ADJACENCY),
        (DrawMode::TriAdj, gl_constants::GL_TRIANGLES_ADJACENCY),
    ];
    for (mode, code) in codes {
        assert_eq!(mode.to_i32(), Some(code as i32));
        assert_eq!(DrawMode::from_i32(code as i32), Some(mode));
    }
    assert_eq!(DrawMode::from_i32(7), None);
    assert_eq!(DrawMode::from_i32(14), None);
}

#[test]
fn capability_and_mask_codes_are_those_of_the_interface() {
    assert_eq!(GL_TEXTURE_2D, gl_constants::GL_TEXTURE_2D as i32);
    assert_eq!(GL_DEPTH_BUFFER_BIT, gl_constants::GL_DEPTH_BUFFER_BIT);
    assert_eq!(GL_COLOR_BUFFER_BIT, gl_constants::GL_COLOR_BUFFER_BIT);
}

#[test]
fn data_types_have_their_sizes() {
    assert_eq!(PointerDataType::U8.size(), 1);
    assert_eq!(PointerDataType::I8.size(), 1);
    assert_eq!(PointerDataType::U16.size(), 2);
    assert_eq!(PointerDataType::I16.size(), 2);
    assert_eq!(PointerDataType::U32.size(), 4);
    assert_eq!(PointerDataType::I32.size(), 4);
    assert_eq!(PointerDataType::F32.size(), 4);
    assert_eq!(PointerDataType::F64.size(), 8);
    assert!(PointerDataType::F32.is_float());
    assert!(PointerDataType::F64.is_float());
    assert!(!PointerDataType::I32.is_float());
}

#[test]
fn four_attributes_take_part_in_vertex_assembly() {
    assert!(PointerArrayType::Color.is_supported());
    assert!(PointerArrayType::Normal.is_supported());
    assert!(PointerArrayType::TexCoord.is_supported());
    assert!(PointerArrayType::Vertex.is_supported());
    assert!(!PointerArrayType::EdgeFlag.is_supported());
    assert!(!PointerArrayType::FogCoord.is_supported());
    assert!(!PointerArrayType::ColorIndex.is_supported());
    assert!(!PointerArrayType::SecondaryColor.is_supported());
    assert_eq!(VertexInputType::from_array(PointerArrayType::Vertex), Some(VertexInputType::Position));
    assert_eq!(VertexInputType::from_array(PointerArrayType::Normal), Some(VertexInputType::Normal));
    assert_eq!(VertexInputType::from_array(PointerArrayType::Color), Some(VertexInputType::Color));
    assert_eq!(VertexInputType::from_array(PointerArrayType::TexCoord), Some(VertexInputType::TexCoord));
    assert_eq!(VertexInputType::from_array(PointerArrayType::FogCoord), None);
    assert_eq!(VertexInputType::TexIndex.to_usize(), Some(4));
    assert_eq!(VertexInputType::Position.to_usize(), Some(0));
}

#[test]
fn client_arrays_have_places_and_names() {
    let names = [
        (PointerArrayType::Color, 0, "color"),
        (PointerArrayType::EdgeFlag, 1, "edgeflag"),
        (PointerArrayType::FogCoord, 2, "fogcoord"),
        (PointerArrayType::ColorIndex, 3, "color_index"),
        (PointerArrayType::Normal, 4, "normal"),
        (PointerArrayType::SecondaryColor, 5, "secondary_color"),
        (PointerArrayType::TexCoord, 6, "texcoord"),
        (PointerArrayType::Vertex, 7, "pos"),
    ];
    for (kind, index, name) in names {
        assert_eq!(get_client_array_index(&kind), index);
        assert_eq!(get_client_array_type(index), kind);
        assert_eq!(get_client_array_name(index), name);
    }
    let unbound = ClientArray::new();
    assert!(!unbound.enabled);
    assert_eq!(unbound.vertex_count, 0);
    assert_eq!(unbound.element_count, 0);
    assert_eq!(unbound.data_type, PointerDataType::U8);
    assert!(unbound.data.is_none());
}
