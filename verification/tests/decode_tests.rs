use render_assembly::decode::begin;
use render_assembly::decode::bind_texture;
use render_assembly::decode::clear;
use render_assembly::decode::client_state;
use render_assembly::decode::complete;
use render_assembly::decode::draw_arrays;
use render_assembly::decode::matrix_mode;
use render_assembly::decode::narrow_vec3;
use render_assembly::decode::ortho;
use render_assembly::decode::pointer_array;
use render_assembly::decode::PointerCallError;
use render_assembly::decode::rotate_double;
use render_assembly::decode::scale_double;
use render_assembly::decode::to_unsigned;
use render_assembly::decode::translate_double;
use render_assembly::decode::ClearAction;
use render_assembly::gl::DrawMode;
use render_assembly::gl::MatrixMode;
use render_assembly::gl::PointerArrayType;
use render_assembly::gl::PointerDataType;
use render_assembly::pointer::PointerError;
use render_assembly::instruction::RenderInstruction;
use render_assembly::matrix::OrthoData;
use render_assembly::matrix::Vec3;
use render_assembly::matrix::Vec4;
use std::sync::Arc;

fn vec3(x: f32, y: f32, z: f32) -> Vec3 {
    Vec3 { x: x.to_bits(), y: y.to_bits(), z: z.to_bits() }
}

#[test]
fn codes_become_instructions() {
    assert_eq!(
        matrix_mode(gl_constants::GL_PROJECTION as i32),
        Some(RenderInstruction::MatrixMode(MatrixMode::Projection))
    );
    assert_eq!(matrix_mode(3), None);
    assert_eq!(
        client_state(gl_constants::GL_VERTEX_ARRAY as i32, true),
        Some(RenderInstruction::SetClientState { enabled: true, array_type: PointerArrayType::Vertex })
    );
    assert_eq!(
        client_state(gl_constants::GL_COLOR_ARRAY as i32, false),
        Some(RenderInstruction::SetClientState { enabled: false, array_type: PointerArrayType::Color })
    );
    assert_eq!(client_state(gl_constants::GL_EDGE_FLAG_ARRAY as i32, true), None);
    assert_eq!(client_state(1, true), None);
    assert_eq!(
        draw_arrays(gl_constants::GL_TRIANGLES as i32, 3, 9),
        Some(RenderInstruction::DrawArrays { mode: DrawMode::Tri, first: 3, count: 9 })
    );
    assert_eq!(
        draw_arrays(gl_constants::GL_LINES as i32, -1, -2),
        Some(RenderInstruction::DrawArrays { mode: DrawMode::Lines, first: u32::MAX, count: u32::MAX - 1 })
    );
    assert_eq!(draw_arrays(99, 0, 0), None);
    assert_eq!(begin(gl_constants::GL_POINTS as i32), Some(RenderInstruction::Begin(DrawMode::Points)));
    assert_eq!(begin(-4), None);
    assert_eq!(
        bind_texture(gl_constants::GL_TEXTURE_2D as i32, 9),
        Some(RenderInstruction::BindTexture(9))
    );
    assert_eq!(bind_texture(gl_constants::GL_TEXTURE_3D as i32, 9), None);
    assert_eq!(to_unsigned(i32::MIN), 0x8000_0000);
    assert_eq!(to_unsigned(i32::MAX), 0x7FFF_FFFF);
    assert_eq!(to_unsigned(-7), (-7i32) as u32);
}

#[test]
fn doubles_are_narrowed_at_the_boundary() {
    assert_eq!(narrow_vec3(0.1f64.to_bits(), (-2.5f64).to_bits(), 1e300f64.to_bits()), vec3(0.1, -2.5, f32::INFINITY));
    assert_eq!(
        translate_double(1.0f64.to_bits(), 2.0f64.to_bits(), 3.0f64.to_bits()),
        RenderInstruction::Translate { delta: vec3(1.0, 2.0, 3.0) }
    );
    assert_eq!(
        scale_double(0.5f64.to_bits(), 0.25f64.to_bits(), (1.0f64 / 3.0).to_bits()),
        RenderInstruction::Scale { scale: vec3(0.5, 0.25, (1.0f64 / 3.0) as f32) }
    );
    assert_eq!(
        rotate_double(90.0f64.to_bits(), 0f64.to_bits(), 1.0f64.to_bits(), 0f64.to_bits()),
        RenderInstruction::Rotate { angle: 90.0f32.to_bits(), axis: vec3(0.0, 1.0, 0.0) }
    );
    assert_eq!(
        ortho(
            0f64.to_bits(),
            854.0f64.to_bits(),
            480.0f64.to_bits(),
            0f64.to_bits(),
            1000.0f64.to_bits(),
            3000.0f64.to_bits()
        ),
        RenderInstruction::Ortho {
            data: Box::new(OrthoData {
                left: 0,
                right: 854.0f32.to_bits(),
                bottom: 480.0f32.to_bits(),
                top: 0,
                z_near: 1000.0f32.to_bits(),
                z_far: 3000.0f32.to_bits(),
            })
        }
    );
}

#[test]
fn the_colour_buffer_goes_before_the_depth_buffer() {
    let depth = gl_constants::GL_DEPTH_BUFFER_BIT;
    let colour = gl_constants::GL_COLOR_BUFFER_BIT;
    assert_eq!(clear(depth), ClearAction::Depth);
    assert_eq!(clear(colour), ClearAction::Colour);
    assert_eq!(clear(depth | colour), ClearAction::Colour);
    assert_eq!(clear(0), ClearAction::Nothing);
    assert_eq!(clear(gl_constants::GL_STENCIL_BUFFER_BIT), ClearAction::Nothing);
    assert_eq!(clear(u32::MAX), ClearAction::Colour);
    assert_eq!(clear(!colour), ClearAction::Depth);
}

#[test]
fn missing_numbers_are_zero_and_a_missing_fourth_is_one() {
    let one = 1.0f32.to_bits();
    assert_eq!(complete(2, 5, 6, 7, 8), Vec4 { x: 5, y: 6, z: 0, w: one });
    assert_eq!(complete(3, 5, 6, 7, 8), Vec4 { x: 5, y: 6, z: 7, w: one });
    assert_eq!(complete(4, 5, 6, 7, 8), Vec4 { x: 5, y: 6, z: 7, w: 8 });
    assert_eq!(complete(0, 5, 6, 7, 8), Vec4 { x: 0, y: 0, z: 0, w: one });
}

const VERTEX: i32 = 0x8074;
const COLOR: i32 = 0x8076;
const UNSIGNED_BYTE: i32 = 0x1401;
const FLOAT: i32 = 0x1406;

#[test]
fn a_pointer_of_an_attribute_that_takes_no_part_is_dropped() {
    let source = [1u8, 2, 3, 4, 5, 6, 7, 8];
    for code in [0x8079, 0x8457, 0x8077, 0x845e] {
        assert_eq!(pointer_array(3, 0, code, UNSIGNED_BYTE, &source), Ok(None));
        assert_eq!(pointer_array(9, 0, code, UNSIGNED_BYTE, &source), Ok(None));
        assert_eq!(pointer_array(3, 0, code, 77, &source), Ok(None));
        assert_eq!(pointer_array(0, 0, code, UNSIGNED_BYTE, &[]), Ok(None));
    }
}

#[test]
fn a_pointer_of_a_supported_attribute_is_one_instruction() {
    let source: Vec<u8> = (0..20).collect();
    for (code, kind) in [
        (VERTEX, PointerArrayType::Vertex),
        (COLOR, PointerArrayType::Color),
        (0x8075, PointerArrayType::Normal),
        (0x8078, PointerArrayType::TexCoord),
    ] {
        assert_eq!(
            pointer_array(3, 4, code, UNSIGNED_BYTE, &source),
            Ok(Some(RenderInstruction::SetPointer {
                vec_count: 5,
                array_type: kind,
                item_type: PointerDataType::U8,
                data: Arc::new(vec![0, 1, 2, 4, 5, 6, 8, 9, 10, 12, 13, 14, 16, 17, 18]),
                size: 3,
            }))
        );
    }
    assert_eq!(
        pointer_array(2, 0, VERTEX, FLOAT, &source),
        Ok(Some(RenderInstruction::SetPointer {
            vec_count: 2,
            array_type: PointerArrayType::Vertex,
            item_type: PointerDataType::F32,
            data: Arc::new((0..16).collect()),
            size: 2,
        }))
    );
}

#[test]
fn a_pointer_call_is_refused_for_what_it_cannot_mean() {
    let source: Vec<u8> = (0..20).collect();
    assert_eq!(pointer_array(3, 0, 5, UNSIGNED_BYTE, &source), Err(PointerCallError::UnknownArray));
    assert_eq!(pointer_array(9, 0, 5, 77, &source), Err(PointerCallError::UnknownArray));
    assert_eq!(pointer_array(3, 0, VERTEX, 77, &source), Err(PointerCallError::UnknownItemType));
    let bad_count = Err(PointerCallError::Refused(PointerError::BadElementCount));
    assert_eq!(pointer_array(5, 0, VERTEX, UNSIGNED_BYTE, &source), bad_count);
    assert_eq!(pointer_array(5, 0, VERTEX, 77, &source), bad_count);
    assert_eq!(pointer_array(-1, 0, VERTEX, UNSIGNED_BYTE, &source), bad_count);
    assert_eq!(pointer_array(0, 0, VERTEX, UNSIGNED_BYTE, &source), bad_count);
    assert_eq!(
        pointer_array(4, 3, VERTEX, UNSIGNED_BYTE, &source[..18]),
        Err(PointerCallError::Refused(PointerError::VectorOutOfBounds))
    );
}

#[test]
fn vectors_of_no_items_and_strides_beyond_the_source_give_empty_pointers() {
    let source: Vec<u8> = (0..20).collect();
    assert_eq!(
        pointer_array(0, 6, COLOR, UNSIGNED_BYTE, &source),
        Ok(Some(RenderInstruction::SetPointer {
            vec_count: 3,
            array_type: PointerArrayType::Color,
            item_type: PointerDataType::U8,
            data: Arc::new(Vec::new()),
            size: 0,
        }))
    );
    for size in [0, 1, 4] {
        assert_eq!(
            pointer_array(size, -4, COLOR, FLOAT, &source),
            Ok(Some(RenderInstruction::SetPointer {
                vec_count: 0,
                array_type: PointerArrayType::Color,
                item_type: PointerDataType::F32,
                data: Arc::new(Vec::new()),
                size: size as u8,
            }))
        );
    }
    assert_eq!(
        pointer_array(2, 21, COLOR, FLOAT, &source),
        Ok(Some(RenderInstruction::SetPointer {
            vec_count: 0,
            array_type: PointerArrayType::Color,
            item_type: PointerDataType::F32,
            data: Arc::new(Vec::new()),
            size: 2,
        }))
    );
}
