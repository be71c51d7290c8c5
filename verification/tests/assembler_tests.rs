use std::sync::Arc;

use render_assembly::assembler::get_matrix_index;
use render_assembly::assembler::RenderInsnAssembler;
use render_assembly::assembler::TextureUnit;
use render_assembly::commands::CommandQueue;
use render_assembly::commands::RenderCommand;
use render_assembly::gl::DrawMode;
use render_assembly::gl::MatrixMode;
use render_assembly::gl::PointerArrayType;
use render_assembly::gl::PointerDataType;
use render_assembly::gl::GL_TEXTURE_2D;
use render_assembly::matrix::MatrixTask;
use render_assembly::instruction::RenderInstruction;
use render_assembly::matrix::Mat4;
use render_assembly::matrix::OrthoData;
use render_assembly::matrix::Vec3;
use render_assembly::matrix::Vec4;
use render_assembly::pipeline::ColorMode;
use render_assembly::pipeline::DataSource;
use render_assembly::pipeline::DynamicPipelineRasterization;
use render_assembly::pipeline::ShaderMatrixMode;
use render_assembly::warning::Warning;

fn float_bytes(values: &[f32]) -> Vec<u8> {
    values.iter().flat_map(|v| v.to_le_bytes()).collect()
}

fn numbered_matrix(seed: u32) -> Mat4 {
    let mut cells = [0u32; 16];
    for (i, cell) in cells.iter_mut().enumerate() {
        *cell = (seed as f32 + i as f32).to_bits();
    }
    Mat4 { cells }
}

fn fresh() -> RenderInsnAssembler {
    RenderInsnAssembler::new(CommandQueue::Buffered(Vec::new()))
}

fn position_triangle() -> Vec<RenderInstruction> {
    vec![
        RenderInstruction::SetClientState { enabled: true, array_type: PointerArrayType::Vertex },
        RenderInstruction::SetPointer {
            vec_count: 3,
            array_type: PointerArrayType::Vertex,
            item_type: PointerDataType::F32,
            data: Arc::new(float_bytes(&[0.0, 0.0, 0.0, 1.0, 0.0, 0.0, 0.0, 1.0, 0.5])),
            size: 3,
        },
    ]
}

#[test]
fn a_triangle_of_positions_becomes_a_bind_and_a_draw() {
    let mut assembler = fresh();
    let input = float_bytes(&[0.0, 0.0, 0.0, 1.0, 0.0, 0.0, 0.0, 1.0, 0.5]);
    let insns = vec![
        RenderInstruction::SetClientState { enabled: true, array_type: PointerArrayType::Vertex },
        RenderInstruction::SetPointer {
            vec_count: 3,
            array_type: PointerArrayType::Vertex,
            item_type: PointerDataType::F32,
            data: Arc::new(input.clone()),
            size: 3,
        },
        RenderInstruction::DrawArrays { mode: DrawMode::Tri, first: 0, count: 3 },
    ];
    let report = assembler.feed(&insns);
    assert_eq!(report.consumed, 3);
    assert!(report.task.is_none());
    assert!(report.warnings.is_empty());
    let commands = assembler.commands.take();
    assert_eq!(commands.len(), 2);
    match &commands[0] {
        RenderCommand::BindDynamicGraphicsPipeline { pipeline, push_constants } => {
            assert_eq!(pipeline.color, ColorMode::Flat(DataSource::PushConstant));
            assert_eq!(pipeline.matrix, ShaderMatrixMode::MVP(DataSource::PushConstant));
            assert_eq!(pipeline.draw_mode, DrawMode::Tri);
            assert_eq!(pipeline.rasterization, DynamicPipelineRasterization::default());
            assert_eq!(pipeline.vertex_buffer.stride, 12);
            assert_eq!(pipeline.position().offset, 0);
            assert!(pipeline.normal().is_none());
            assert!(pipeline.color().is_none());
            assert!(pipeline.texcoord().is_none());
            assert_eq!(push_constants.mvp, Some(Mat4::identity()));
            assert_eq!(push_constants.color, Some(Vec4::ones()));
        }
        other => panic!("{:?}", other),
    }
    match &commands[1] {
        RenderCommand::Draw { start_vertex, vertex_count, data } => {
            assert_eq!(*start_vertex, 0);
            assert_eq!(*vertex_count, 3);
            assert_eq!(data.len(), 3 * 12);
            assert_eq!(**data, input);
        }
        other => panic!("{:?}", other),
    }
    assert_eq!(assembler.commands.len(), 0);
}

#[test]
fn a_draw_waits_for_a_product_that_is_not_known() {
    let mut assembler = fresh();
    let mut insns = position_triangle();
    insns.push(RenderInstruction::LoadIdentity);
    insns.push(RenderInstruction::DrawArrays { mode: DrawMode::Tri, first: 0, count: 3 });
    let report = assembler.feed(&insns);
    assert_eq!(report.consumed, 3);
    let (projection, model_view) = match report.task {
        Some(MatrixTask::Product { projection, model_view }) => (projection, model_view),
        other => panic!("{:?}", other),
    };
    assert_eq!(projection, Mat4::identity());
    assert_eq!(model_view, Mat4::identity());
    assert_eq!(assembler.commands.len(), 0);
    assembler.store_mvp(numbered_matrix(40));
    let report = assembler.feed(&insns[report.consumed..]);
    assert_eq!(report.consumed, 1);
    assert!(report.task.is_none());
    match &assembler.commands.take()[0] {
        RenderCommand::BindDynamicGraphicsPipeline { push_constants, .. } => {
            assert_eq!(push_constants.mvp, Some(numbered_matrix(40)));
        }
        other => panic!("{:?}", other),
    }
}

#[test]
fn a_new_assembler_knows_the_product_of_its_identities() {
    let assembler = fresh();
    assert_eq!(assembler.get_mvp_matrix(), Some(Mat4::identity()));
    assert_eq!(assembler.active_matrix(), Mat4::identity());
}

#[test]
fn a_draw_without_a_usable_position_array_is_dropped() {
    let mut assembler = fresh();
    let report = assembler.draw_arrays(DrawMode::Tri, 0, 3);
    assert_eq!(report.warnings, vec![Warning::DrawWithoutPosition]);
    assert!(report.task.is_none());
    assert_eq!(assembler.commands.len(), 0);
    assembler.feed(&[RenderInstruction::SetClientState {
        enabled: true,
        array_type: PointerArrayType::Vertex,
    }]);
    let report = assembler.feed(&[RenderInstruction::DrawArrays {
        mode: DrawMode::Lines,
        first: 0,
        count: 2,
    }]);
    assert_eq!(report.consumed, 1);
    assert_eq!(report.warnings, vec![Warning::DrawWithoutPosition]);
    assert_eq!(assembler.commands.len(), 0);
}

#[test]
fn ten_positions_and_seven_colours_pack_seven_vertices() {
    let mut assembler = fresh();
    assembler.store_mvp(Mat4::identity());
    let report = assembler.feed(&[
        RenderInstruction::SetClientState { enabled: true, array_type: PointerArrayType::Vertex },
        RenderInstruction::SetClientState { enabled: true, array_type: PointerArrayType::Color },
        RenderInstruction::SetPointer {
            vec_count: 10,
            array_type: PointerArrayType::Vertex,
            item_type: PointerDataType::F32,
            data: Arc::new(vec![0; 120]),
            size: 3,
        },
        RenderInstruction::SetPointer {
            vec_count: 7,
            array_type: PointerArrayType::Color,
            item_type: PointerDataType::U8,
            data: Arc::new(vec![255; 28]),
            size: 4,
        },
        RenderInstruction::DrawArrays { mode: DrawMode::Tri, first: 0, count: 9 },
    ]);
    assert_eq!(report.consumed, 5);
    assert_eq!(
        report.warnings,
        vec![Warning::LengthMismatch {
            array: PointerArrayType::Vertex,
            array_length: 10,
            packed_length: 7,
        }]
    );
    let commands = assembler.commands.take();
    match &commands[1] {
        RenderCommand::Draw { vertex_count, data, .. } => {
            assert_eq!(*vertex_count, 9);
            assert_eq!(data.len(), 7 * 28);
        }
        other => panic!("{:?}", other),
    }
}

#[test]
fn a_change_of_the_texture_stack_keeps_the_product() {
    let mut assembler = fresh();
    assembler.store_mvp(numbered_matrix(1));
    assembler.feed(&[
        RenderInstruction::MatrixMode(MatrixMode::Texture),
        RenderInstruction::PushMatrix,
        RenderInstruction::LoadIdentity,
        RenderInstruction::PopMatrix,
    ]);
    assembler.apply_transform(numbered_matrix(2));
    assert_eq!(assembler.get_mvp_matrix(), Some(numbered_matrix(1)));
    assembler.feed(&[RenderInstruction::MatrixMode(MatrixMode::Color), RenderInstruction::PushMatrix]);
    assembler.apply_transform(numbered_matrix(3));
    assert_eq!(assembler.get_mvp_matrix(), Some(numbered_matrix(1)));
}

#[test]
fn a_change_of_the_projection_or_the_model_view_stack_forgets_the_product() {
    for mode in [MatrixMode::ModelView, MatrixMode::Projection] {
        for insn in [
            RenderInstruction::PushMatrix,
            RenderInstruction::PopMatrix,
            RenderInstruction::LoadIdentity,
        ] {
            let mut assembler = fresh();
            assembler.feed(&[RenderInstruction::MatrixMode(mode)]);
            assembler.store_mvp(numbered_matrix(1));
            assert_eq!(assembler.get_mvp_matrix(), Some(numbered_matrix(1)));
            assembler.feed(&[insn]);
            assert_eq!(assembler.get_mvp_matrix(), None);
        }
        let mut assembler = fresh();
        assembler.feed(&[RenderInstruction::MatrixMode(mode)]);
        assembler.store_mvp(numbered_matrix(1));
        assembler.apply_transform(numbered_matrix(2));
        assert_eq!(assembler.get_mvp_matrix(), None);
        assert_eq!(assembler.active_matrix(), numbered_matrix(2));
    }
}

#[test]
fn selecting_a_stack_changes_nothing_else() {
    let mut assembler = fresh();
    assembler.store_mvp(numbered_matrix(1));
    assembler.feed(&[
        RenderInstruction::MatrixMode(MatrixMode::Projection),
        RenderInstruction::MatrixMode(MatrixMode::ModelView),
    ]);
    assert_eq!(assembler.get_mvp_matrix(), Some(numbered_matrix(1)));
    assert_eq!(assembler.commands.len(), 0);
}

#[test]
fn a_transformation_waits_for_its_arithmetic() {
    let mut assembler = fresh();
    let delta = Vec3 { x: 1.0f32.to_bits(), y: 2.0f32.to_bits(), z: 3.0f32.to_bits() };
    let ortho = OrthoData {
        left: 0,
        right: 1.0f32.to_bits(),
        bottom: 0,
        top: 1.0f32.to_bits(),
        z_near: (-1.0f32).to_bits(),
        z_far: 1.0f32.to_bits(),
    };
    let insns = vec![
        RenderInstruction::MatrixMode(MatrixMode::Projection),
        RenderInstruction::Ortho { data: Box::new(ortho) },
        RenderInstruction::MatrixMode(MatrixMode::ModelView),
        RenderInstruction::Translate { delta },
        RenderInstruction::Rotate { angle: 90.0f32.to_bits(), axis: delta },
        RenderInstruction::Scale { scale: delta },
    ];
    let report = assembler.feed(&insns);
    assert_eq!(report.consumed, 1);
    assert_eq!(report.task, Some(MatrixTask::Ortho { data: ortho, current: Mat4::identity() }));
    assembler.apply_transform(numbered_matrix(10));
    let rest = &insns[2..];
    let report = assembler.feed(rest);
    assert_eq!(report.consumed, 1);
    assert_eq!(report.task, Some(MatrixTask::Translate { delta, current: Mat4::identity() }));
    assembler.apply_transform(numbered_matrix(20));
    let report = assembler.feed(&rest[2..]);
    assert_eq!(report.consumed, 0);
    assert_eq!(
        report.task,
        Some(MatrixTask::Rotate { angle: 90.0f32.to_bits(), axis: delta, current: numbered_matrix(20) })
    );
    assembler.apply_transform(numbered_matrix(30));
    let report = assembler.feed(&rest[3..]);
    assert_eq!(report.task, Some(MatrixTask::Scale { scale: delta, current: numbered_matrix(30) }));
    assembler.apply_transform(numbered_matrix(40));
    let mut insns = position_triangle();
    insns.push(RenderInstruction::DrawArrays { mode: DrawMode::Tri, first: 0, count: 3 });
    let report = assembler.feed(&insns);
    assert_eq!(
        report.task,
        Some(MatrixTask::Product { projection: numbered_matrix(10), model_view: numbered_matrix(40) })
    );
}

#[test]
fn capabilities_are_switched_on_and_off() {
    let mut assembler = fresh();
    assert!(!assembler.is_enabled(GL_TEXTURE_2D as u32));
    assembler.feed(&[RenderInstruction::Enable(GL_TEXTURE_2D), RenderInstruction::Enable(7)]);
    assert!(assembler.is_enabled(GL_TEXTURE_2D as u32));
    assert!(assembler.is_enabled(7));
    assert!(!assembler.is_enabled(8));
    assembler.feed(&[RenderInstruction::Disable(GL_TEXTURE_2D), RenderInstruction::Disable(99)]);
    assert!(!assembler.is_enabled(GL_TEXTURE_2D as u32));
    assert!(assembler.is_enabled(7));
    assembler.feed(&[
        RenderInstruction::Enable(-1),
        RenderInstruction::Enable(i32::MIN),
        RenderInstruction::Enable(1_000_000_000),
        RenderInstruction::Enable(i32::MAX),
        RenderInstruction::Disable(-5),
    ]);
    assert!(!assembler.is_enabled(u32::MAX));
    assert!(!assembler.is_enabled(1_000_000_000));
    assert!(assembler.is_enabled(7));
    assembler.feed(&[RenderInstruction::Enable(100_000)]);
    assert!(assembler.is_enabled(100_000));
}

#[test]
fn textures_are_bound_to_the_active_unit() {
    let mut assembler = fresh();
    assert_eq!(assembler.get_active_texture(), None);
    assembler.feed(&[RenderInstruction::BindTexture(5)]);
    assert_eq!(assembler.get_active_texture(), Some(5));
    assembler.feed(&[RenderInstruction::SetActiveTextureUnit(15), RenderInstruction::BindTexture(-3)]);
    assert_eq!(assembler.get_active_texture(), Some(-3));
    assembler.feed(&[RenderInstruction::SetActiveTextureUnit(0)]);
    assert_eq!(assembler.get_active_texture(), Some(5));
    assembler.feed(&[RenderInstruction::BindTexture(0)]);
    assert_eq!(assembler.get_active_texture(), None);
    let report = assembler.feed(&[RenderInstruction::SetActiveTextureUnit(16)]);
    assert_eq!(report.warnings, vec![Warning::BadTextureUnit { texture_unit: 16 }]);
    assembler.feed(&[RenderInstruction::BindTexture(9)]);
    assembler.feed(&[RenderInstruction::SetActiveTextureUnit(15)]);
    assert_eq!(assembler.get_active_texture(), Some(-3));
    assert_eq!(TextureUnit::new().bound_texture, None);
}

fn textured_draw(texcoords: bool, bind: bool, enable: bool) -> (Vec<Warning>, ColorMode, Option<Vec4>) {
    let mut assembler = fresh();
    assembler.store_mvp(Mat4::identity());
    let mut insns = position_triangle();
    if texcoords {
        insns.push(RenderInstruction::SetClientState {
            enabled: true,
            array_type: PointerArrayType::TexCoord,
        });
        insns.push(RenderInstruction::SetPointer {
            vec_count: 3,
            array_type: PointerArrayType::TexCoord,
            item_type: PointerDataType::F32,
            data: Arc::new(vec![0; 24]),
            size: 2,
        });
    }
    if bind {
        insns.push(RenderInstruction::SetActiveTextureUnit(2));
        insns.push(RenderInstruction::BindTexture(77));
    }
    if enable {
        insns.push(RenderInstruction::Enable(GL_TEXTURE_2D));
    }
    insns.push(RenderInstruction::SetColor(Vec4 { x: 1, y: 2, z: 3, w: 4 }));
    insns.push(RenderInstruction::DrawArrays { mode: DrawMode::TriFan, first: 1, count: 2 });
    let report = assembler.feed(&insns);
    assert_eq!(report.consumed, insns.len());
    let commands = assembler.commands.take();
    match &commands[0] {
        RenderCommand::BindDynamicGraphicsPipeline { pipeline, push_constants } => {
            assert_eq!(pipeline.texcoord().is_some(), pipeline.color == ColorMode::Texture { set: 1, binding: 0 });
            (report.warnings, pipeline.color, push_constants.color)
        }
        other => panic!("{:?}", other),
    }
}

#[test]
fn the_colour_comes_from_the_texture_only_when_everything_is_there() {
    let flat = ColorMode::Flat(DataSource::PushConstant);
    let colour = Some(Vec4 { x: 1, y: 2, z: 3, w: 4 });
    assert_eq!(
        textured_draw(true, true, true),
        (vec![], ColorMode::Texture { set: 1, binding: 0 }, None)
    );
    assert_eq!(
        textured_draw(false, true, true),
        (vec![Warning::TextureWithoutTexCoord], flat, colour)
    );
    assert_eq!(
        textured_draw(true, false, true),
        (
            vec![Warning::NoActiveTexture, Warning::TextureUnitWithoutTexture { texture_unit: 0 }],
            flat,
            colour
        )
    );
    assert_eq!(textured_draw(true, true, false), (vec![Warning::TexturingDisabled], flat, colour));
    assert_eq!(textured_draw(false, false, false), (vec![], flat, colour));
}

#[test]
fn a_pointer_that_does_not_hold_its_vectors_is_refused() {
    let mut assembler = fresh();
    assembler.store_mvp(Mat4::identity());
    let mut insns = position_triangle();
    insns.push(RenderInstruction::SetPointer {
        vec_count: 4,
        array_type: PointerArrayType::Vertex,
        item_type: PointerDataType::F32,
        data: Arc::new(vec![0; 47]),
        size: 3,
    });
    insns.push(RenderInstruction::DrawArrays { mode: DrawMode::Tri, first: 0, count: 3 });
    let report = assembler.feed(&insns);
    assert_eq!(report.warnings, vec![Warning::InvalidPointer { array: PointerArrayType::Vertex }]);
    match &assembler.commands.take()[1] {
        RenderCommand::Draw { data, .. } => assert_eq!(data.len(), 36),
        other => panic!("{:?}", other),
    }
}

#[test]
fn instructions_of_the_immediate_mode_are_named_and_skipped() {
    let mut assembler = fresh();
    let report = assembler.feed(&[
        RenderInstruction::Begin(DrawMode::Tri),
        RenderInstruction::Vertex(Vec4::zeros()),
        RenderInstruction::End,
        RenderInstruction::AlphaFunc,
        RenderInstruction::TexCoord(Vec4::ones()),
        RenderInstruction::ClearDepth,
    ]);
    assert_eq!(report.consumed, 6);
    assert_eq!(report.warnings, vec![Warning::UnsupportedInstruction; 4]);
    assert_eq!(assembler.commands.len(), 1);
    let commands = assembler.take_commands();
    assert_eq!(commands, vec![RenderCommand::ClearDepth]);
    assert_eq!(assembler.commands.len(), 0);
    assert!(assembler.take_commands().is_empty());
}

#[test]
fn matrix_instructions_are_told_apart() {
    let delta = Vec3 { x: 0, y: 0, z: 0 };
    let ortho = OrthoData { left: 0, right: 0, bottom: 0, top: 0, z_near: 0, z_far: 0 };
    assert!(RenderInstruction::PushMatrix.is_matrix_mutation());
    assert!(RenderInstruction::PopMatrix.is_matrix_mutation());
    assert!(RenderInstruction::LoadIdentity.is_matrix_mutation());
    assert!(RenderInstruction::Ortho { data: Box::new(ortho) }.is_matrix_mutation());
    assert!(RenderInstruction::Translate { delta }.is_matrix_mutation());
    assert!(RenderInstruction::Rotate { angle: 0, axis: delta }.is_matrix_mutation());
    assert!(RenderInstruction::Scale { scale: delta }.is_matrix_mutation());
    assert!(!RenderInstruction::MatrixMode(MatrixMode::Color).is_matrix_mutation());
    assert!(!RenderInstruction::Enable(1).is_matrix_mutation());
    assert!(!RenderInstruction::ClearDepth.is_matrix_mutation());
    assert!(!RenderInstruction::DrawArrays { mode: DrawMode::Tri, first: 0, count: 0 }.is_matrix_mutation());
    assert_eq!(get_matrix_index(&MatrixMode::ModelView), 0);
    assert_eq!(get_matrix_index(&MatrixMode::Projection), 1);
    assert_eq!(get_matrix_index(&MatrixMode::Texture), 2);
    assert_eq!(get_matrix_index(&MatrixMode::Color), 3);
}

#[test]
fn each_stack_is_pushed_and_popped_by_itself() {
    let mut assembler = fresh();
    assembler.apply_transform(numbered_matrix(1));
    assembler.feed(&[RenderInstruction::PushMatrix]);
    assembler.apply_transform(numbered_matrix(2));
    assembler.feed(&[RenderInstruction::MatrixMode(MatrixMode::Projection)]);
    assert_eq!(assembler.active_matrix(), Mat4::identity());
    assembler.feed(&[RenderInstruction::PopMatrix, RenderInstruction::PopMatrix]);
    assert_eq!(assembler.active_matrix(), Mat4::identity());
    assembler.feed(&[RenderInstruction::MatrixMode(MatrixMode::ModelView)]);
    assert_eq!(assembler.active_matrix(), numbered_matrix(2));
    assembler.feed(&[RenderInstruction::PopMatrix]);
    assert_eq!(assembler.active_matrix(), numbered_matrix(1));
    assembler.feed(&[RenderInstruction::PopMatrix, RenderInstruction::PopMatrix]);
    assert_eq!(assembler.active_matrix(), numbered_matrix(1));
}
