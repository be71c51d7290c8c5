use std::sync::Arc;

use render_assembly::gl::PointerArrayType;
use render_assembly::gl::PointerDataType;
use render_assembly::layout::VertexBufferLayout;
use render_assembly::layout::VertexInputSpec;
use render_assembly::arrays::get_packed_kind;
use render_assembly::arrays::normalizes;
use render_assembly::arrays::ClientArrays;
use render_assembly::arrays::Texturing;
use render_assembly::warning::Warning;

const NO_TEXTURE: Texturing = Texturing { enabled: false, bound: false };
const TEXTURED: Texturing = Texturing { enabled: true, bound: true };

fn bind(
    arrays: &mut ClientArrays,
    kind: PointerArrayType,
    size: u8,
    count: u32,
    item_type: PointerDataType,
    data: Vec<u8>,
) {
    arrays.set_client_state(kind, true);
    assert!(arrays.set_pointer(kind, size, count, item_type, Arc::new(data)));
}

fn floats(values: &[f32]) -> Vec<u8> {
    values.iter().flat_map(|v| v.to_le_bytes()).collect()
}

#[test]
fn fields_follow_each_other_in_the_canonical_order() {
    let mut arrays = ClientArrays::new();
    bind(&mut arrays, PointerArrayType::TexCoord, 2, 2, PointerDataType::F32, vec![0; 16]);
    bind(&mut arrays, PointerArrayType::Color, 4, 2, PointerDataType::U8, vec![0; 8]);
    bind(&mut arrays, PointerArrayType::Normal, 3, 2, PointerDataType::I8, vec![0; 6]);
    bind(&mut arrays, PointerArrayType::Vertex, 3, 2, PointerDataType::I16, vec![0; 12]);
    let plan = arrays.layout(TEXTURED);
    assert_eq!(plan.vertex_count, Some(2));
    assert!(plan.warnings.is_empty());
    let layout = plan.layout;
    assert_eq!(
        layout.position(),
        Some(&VertexInputSpec { data_type: PointerDataType::F32, num_elements: 3, offset: 0 })
    );
    assert_eq!(
        layout.normal(),
        Some(&VertexInputSpec { data_type: PointerDataType::F32, num_elements: 3, offset: 12 })
    );
    assert_eq!(
        layout.color(),
        Some(&VertexInputSpec { data_type: PointerDataType::F32, num_elements: 4, offset: 24 })
    );
    assert_eq!(
        layout.texcoord(),
        Some(&VertexInputSpec { data_type: PointerDataType::F32, num_elements: 2, offset: 40 })
    );
    assert_eq!(
        layout.texindex(),
        Some(&VertexInputSpec { data_type: PointerDataType::U16, num_elements: 1, offset: 48 })
    );
    assert_eq!(layout.stride, 52);
    assert_eq!(layout.stride % 4, 0);
}

#[test]
fn a_colour_of_double_precision_keeps_its_width() {
    let mut arrays = ClientArrays::new();
    bind(&mut arrays, PointerArrayType::Vertex, 2, 1, PointerDataType::F64, vec![0; 16]);
    bind(&mut arrays, PointerArrayType::Color, 3, 1, PointerDataType::F64, vec![0; 24]);
    let layout = arrays.layout(NO_TEXTURE).layout;
    assert_eq!(
        layout.position(),
        Some(&VertexInputSpec { data_type: PointerDataType::F32, num_elements: 2, offset: 0 })
    );
    assert_eq!(
        layout.color(),
        Some(&VertexInputSpec { data_type: PointerDataType::F64, num_elements: 3, offset: 8 })
    );
    assert_eq!(layout.stride, 32);
}

#[test]
fn the_stride_is_rounded_up_to_a_multiple_of_four() {
    let mut layout = VertexBufferLayout::empty();
    layout.stride = 5;
    layout.align_to(4);
    assert_eq!(layout.stride, 8);
    layout.align_to(4);
    assert_eq!(layout.stride, 8);
    layout.stride = 0;
    layout.align_to(4);
    assert_eq!(layout.stride, 0);
    layout.stride = 9;
    layout.align_to(3);
    assert_eq!(layout.stride, 9);
    layout.stride = 10;
    layout.align_to(3);
    assert_eq!(layout.stride, 12);
}

#[test]
fn the_shortest_array_sets_the_number_of_vertices() {
    let mut arrays = ClientArrays::new();
    let positions: Vec<f32> = (0..30).map(|i| i as f32).collect();
    let colors: Vec<f32> = (0..21).map(|i| 100.0 + i as f32).collect();
    bind(&mut arrays, PointerArrayType::Vertex, 3, 10, PointerDataType::F32, floats(&positions));
    bind(&mut arrays, PointerArrayType::Color, 3, 7, PointerDataType::F32, floats(&colors));
    let packed = arrays.assemble_buffer(NO_TEXTURE).unwrap();
    assert_eq!(packed.vertex_count, 7);
    assert_eq!(packed.layout.stride, 24);
    assert_eq!(packed.data.len(), 7 * 24);
    assert_eq!(
        packed.warnings,
        vec![Warning::LengthMismatch {
            array: PointerArrayType::Vertex,
            array_length: 10,
            packed_length: 7,
        }]
    );
    let mut want = Vec::new();
    for v in 0..7 {
        want.extend_from_slice(&positions[v * 3..v * 3 + 3]);
        want.extend_from_slice(&colors[v * 3..v * 3 + 3]);
    }
    assert_eq!(packed.data, floats(&want));
}

#[test]
fn every_array_that_is_cut_is_named() {
    let mut arrays = ClientArrays::new();
    bind(&mut arrays, PointerArrayType::Vertex, 1, 2, PointerDataType::U8, vec![1, 2]);
    bind(&mut arrays, PointerArrayType::Normal, 1, 5, PointerDataType::U8, vec![0; 5]);
    bind(&mut arrays, PointerArrayType::Color, 1, 1, PointerDataType::U8, vec![255]);
    let plan = arrays.layout(NO_TEXTURE);
    assert_eq!(plan.vertex_count, Some(1));
    assert_eq!(
        plan.warnings,
        vec![
            Warning::LengthMismatch {
                array: PointerArrayType::Vertex,
                array_length: 2,
                packed_length: 1
            },
            Warning::LengthMismatch {
                array: PointerArrayType::Normal,
                array_length: 5,
                packed_length: 1
            },
        ]
    );
}

#[test]
fn integers_are_widened_and_colours_normalized() {
    let mut arrays = ClientArrays::new();
    bind(&mut arrays, PointerArrayType::Vertex, 2, 2, PointerDataType::I16, {
        let mut d = Vec::new();
        for v in [-3i16, 7, 32767, -32768] {
            d.extend_from_slice(&v.to_le_bytes());
        }
        d
    });
    bind(&mut arrays, PointerArrayType::Color, 3, 2, PointerDataType::U8, vec![0, 51, 255, 1, 2, 3]);
    let packed = arrays.assemble_buffer(NO_TEXTURE).unwrap();
    assert_eq!(packed.layout.stride, 20);
    let want = floats(&[
        -3.0,
        7.0,
        0.0,
        51.0 / 255.0,
        1.0,
        32767.0,
        -32768.0,
        1.0 / 255.0,
        2.0 / 255.0,
        3.0 / 255.0,
    ]);
    assert_eq!(packed.data, want);
}

#[test]
fn bytes_between_fields_and_the_texture_index_are_zero() {
    let mut arrays = ClientArrays::new();
    bind(&mut arrays, PointerArrayType::Vertex, 3, 2, PointerDataType::F32, floats(&[1.0, 2.0, 3.0, 4.0, 5.0, 6.0]));
    bind(&mut arrays, PointerArrayType::TexCoord, 2, 2, PointerDataType::F64, {
        let mut d = Vec::new();
        for v in [0.25f64, 0.5, 0.75, 1.0] {
            d.extend_from_slice(&v.to_le_bytes());
        }
        d
    });
    let packed = arrays.assemble_buffer(TEXTURED).unwrap();
    assert_eq!(packed.layout.stride, 24);
    assert_eq!(packed.layout.texcoord().unwrap().offset, 12);
    assert_eq!(packed.layout.texcoord().unwrap().data_type, PointerDataType::F32);
    assert_eq!(packed.layout.texindex().unwrap().offset, 20);
    let mut want = floats(&[1.0, 2.0, 3.0, 0.25, 0.5]);
    want.extend_from_slice(&[0, 0, 0, 0]);
    want.extend_from_slice(&floats(&[4.0, 5.0, 6.0, 0.75, 1.0]));
    want.extend_from_slice(&[0, 0, 0, 0]);
    assert_eq!(packed.data, want);
}

#[test]
fn texture_coordinates_need_texturing_a_texture_and_pairs_of_floats() {
    let mut arrays = ClientArrays::new();
    bind(&mut arrays, PointerArrayType::Vertex, 3, 1, PointerDataType::F32, vec![0; 12]);
    bind(&mut arrays, PointerArrayType::TexCoord, 2, 1, PointerDataType::F32, vec![0; 8]);
    let off = arrays.layout(NO_TEXTURE);
    assert!(off.layout.texcoord().is_none());
    assert!(off.layout.texindex().is_none());
    assert_eq!(off.layout.stride, 12);
    assert_eq!(off.warnings, vec![Warning::TexturingDisabled]);
    let unbound = arrays.layout(Texturing { enabled: true, bound: false });
    assert!(unbound.layout.texcoord().is_none());
    assert_eq!(unbound.warnings, vec![Warning::NoActiveTexture]);
    bind(&mut arrays, PointerArrayType::TexCoord, 3, 1, PointerDataType::F32, vec![0; 12]);
    let triple = arrays.layout(TEXTURED);
    assert!(triple.layout.texcoord().is_none());
    assert_eq!(triple.warnings, vec![Warning::BadTexCoordFormat]);
    bind(&mut arrays, PointerArrayType::TexCoord, 2, 1, PointerDataType::I16, vec![0; 4]);
    let shorts = arrays.layout(TEXTURED);
    assert!(shorts.layout.texcoord().is_none());
    assert_eq!(shorts.warnings, vec![Warning::BadTexCoordFormat]);
}

#[test]
fn a_texture_coordinate_array_that_is_left_out_does_not_cut_the_others() {
    let mut arrays = ClientArrays::new();
    bind(&mut arrays, PointerArrayType::Vertex, 3, 4, PointerDataType::F32, vec![0; 48]);
    bind(&mut arrays, PointerArrayType::TexCoord, 2, 1, PointerDataType::F32, vec![0; 8]);
    let plan = arrays.layout(NO_TEXTURE);
    assert_eq!(plan.vertex_count, Some(4));
}

#[test]
fn arrays_without_data_or_of_other_attributes_are_named() {
    let mut arrays = ClientArrays::new();
    arrays.set_client_state(PointerArrayType::Normal, true);
    arrays.set_client_state(PointerArrayType::FogCoord, true);
    arrays.set_client_state(PointerArrayType::SecondaryColor, true);
    bind(&mut arrays, PointerArrayType::Vertex, 3, 1, PointerDataType::F32, vec![0; 12]);
    let plan = arrays.layout(NO_TEXTURE);
    assert_eq!(
        plan.warnings,
        vec![
            Warning::MissingArrayData { array: PointerArrayType::Normal },
            Warning::UnsupportedArray { array: PointerArrayType::FogCoord },
            Warning::UnsupportedArray { array: PointerArrayType::SecondaryColor },
        ]
    );
    assert!(plan.layout.normal().is_none());
    assert_eq!(plan.layout.stride, 12);
}

#[test]
fn nothing_enabled_gives_an_empty_buffer() {
    let arrays = ClientArrays::new();
    let plan = arrays.layout(NO_TEXTURE);
    assert_eq!(plan.vertex_count, None);
    assert_eq!(plan.layout, VertexBufferLayout::empty());
    let packed = arrays.assemble_buffer(NO_TEXTURE).unwrap();
    assert_eq!(packed.vertex_count, 0);
    assert!(packed.data.is_empty());
}

#[test]
fn a_disabled_array_keeps_its_data_and_stays_out() {
    let mut arrays = ClientArrays::new();
    bind(&mut arrays, PointerArrayType::Vertex, 3, 1, PointerDataType::F32, vec![0; 12]);
    bind(&mut arrays, PointerArrayType::Color, 3, 1, PointerDataType::F32, vec![0; 12]);
    arrays.set_client_state(PointerArrayType::Color, false);
    assert!(arrays.get(PointerArrayType::Color).data.is_some());
    assert!(!arrays.get(PointerArrayType::Color).enabled);
    let plan = arrays.layout(NO_TEXTURE);
    assert!(plan.layout.color().is_none());
    assert_eq!(plan.layout.stride, 12);
}

#[test]
fn a_pointer_must_hold_exactly_its_vectors() {
    let mut arrays = ClientArrays::new();
    let kind = PointerArrayType::Vertex;
    assert!(!arrays.set_pointer(kind, 0, 1, PointerDataType::U8, Arc::new(vec![])));
    assert!(!arrays.set_pointer(kind, 5, 1, PointerDataType::U8, Arc::new(vec![0; 5])));
    assert!(!arrays.set_pointer(kind, 3, 2, PointerDataType::F32, Arc::new(vec![0; 23])));
    assert!(!arrays.set_pointer(kind, 3, 2, PointerDataType::F32, Arc::new(vec![0; 25])));
    assert!(arrays.get(kind).data.is_none());
    assert!(arrays.set_pointer(kind, 3, 2, PointerDataType::F32, Arc::new(vec![0; 24])));
    let bound = arrays.get(kind);
    assert_eq!(bound.vertex_count, 2);
    assert_eq!(bound.element_count, 3);
    assert_eq!(bound.data_type, PointerDataType::F32);
    assert!(!bound.enabled);
    assert!(!arrays.set_pointer(kind, 4, 9, PointerDataType::F32, Arc::new(vec![0; 24])));
    assert_eq!(arrays.get(kind).vertex_count, 2);
}

#[test]
fn the_packed_attributes_and_their_policies() {
    assert_eq!(get_packed_kind(0), PointerArrayType::Vertex);
    assert_eq!(get_packed_kind(1), PointerArrayType::Normal);
    assert_eq!(get_packed_kind(2), PointerArrayType::Color);
    assert_eq!(get_packed_kind(3), PointerArrayType::TexCoord);
    assert!(normalizes(PointerArrayType::Color));
    assert!(normalizes(PointerArrayType::SecondaryColor));
    assert!(!normalizes(PointerArrayType::Vertex));
    assert!(!normalizes(PointerArrayType::Normal));
    assert!(!normalizes(PointerArrayType::TexCoord));
}

#[test]
fn an_array_that_stays_out_of_the_vertex_is_not_named_as_cut() {
    let mut arrays = ClientArrays::new();
    bind(&mut arrays, PointerArrayType::Vertex, 1, 3, PointerDataType::U8, vec![1, 2, 3]);
    bind(&mut arrays, PointerArrayType::Color, 1, 3, PointerDataType::U8, vec![0; 3]);
    bind(&mut arrays, PointerArrayType::TexCoord, 2, 9, PointerDataType::F32, vec![0; 72]);
    let plan = arrays.layout(NO_TEXTURE);
    assert_eq!(plan.vertex_count, Some(3));
    assert_eq!(plan.warnings, vec![Warning::TexturingDisabled]);
}

#[test]
fn arrays_left_out_are_named_before_arrays_that_are_cut() {
    let mut arrays = ClientArrays::new();
    bind(&mut arrays, PointerArrayType::Vertex, 1, 4, PointerDataType::U8, vec![1, 2, 3, 4]);
    bind(&mut arrays, PointerArrayType::Color, 1, 2, PointerDataType::U8, vec![0; 2]);
    arrays.set_client_state(PointerArrayType::Normal, true);
    arrays.set_client_state(PointerArrayType::FogCoord, true);
    let plan = arrays.layout(NO_TEXTURE);
    assert_eq!(plan.vertex_count, Some(2));
    assert_eq!(
        plan.warnings,
        vec![
            Warning::MissingArrayData { array: PointerArrayType::Normal },
            Warning::LengthMismatch {
                array: PointerArrayType::Vertex,
                array_length: 4,
                packed_length: 2
            },
            Warning::UnsupportedArray { array: PointerArrayType::FogCoord },
        ]
    );
}
