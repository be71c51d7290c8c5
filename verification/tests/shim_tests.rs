use std::sync::Arc;

use render_assembly::assembler::RenderInsnAssembler;
use render_assembly::commands::CommandQueue;
use render_assembly::commands::RenderCommand;
use render_assembly::gl::DrawMode;
use render_assembly::gl::PointerArrayType;
use render_assembly::gl::PointerDataType;
use render_assembly::instruction::RenderInstruction;
use render_assembly::matrix::Mat4;
use render_assembly::pipeline::ColorMode;
use render_assembly::pipeline::DataSource;
use render_assembly::sandbox::push_instruction;
use render_assembly::sandbox::put_sandbox;
use render_assembly::sandbox::take_sandbox;
use render_assembly::sandbox::RenderSandbox;

fn prepare_sandbox(slot: &mut RenderSandbox) {
    take_sandbox(slot);
    put_sandbox(slot, RenderSandbox::List(Vec::new()));
}

fn assert_insns(slot: &RenderSandbox, v: &Vec<RenderInstruction>) {
    match slot {
        RenderSandbox::List(insns) => {
            assert!(insns == v);
        }
        _ => panic!(),
    }
}

fn add_pointer_array(
    slot: &mut RenderSandbox,
    size: i32,
    stride: i32,
    array_type: i32,
    item_type: i32,
    data: &[u8],
) {
    let array_type = PointerArrayType::from_i32(array_type).unwrap();
    if !array_type.is_supported() {
        return;
    }
    let item_type = PointerDataType::from_i32(item_type).unwrap();
    let insn = RenderInstruction::set_pointer(
        size as usize,
        stride as usize,
        array_type,
        item_type,
        data,
    )
    .unwrap();
    push_instruction(slot, insn);
}

#[test]
fn add_pointer_u8_packed() {
    let mut data = Vec::<u8>::new();
    data.resize(15, 0);

    for i in 0..15 {
        data[i] = i as u8;
    }

    let mut slot = RenderSandbox::Empty;
    prepare_sandbox(&mut slot);

    add_pointer_array(
        &mut slot,
        3,
        0,
        PointerArrayType::Color.to_i32().unwrap(),
        PointerDataType::U8.to_i32().unwrap(),
        &data,
    );

    assert_insns(
        &slot,
        &vec![RenderInstruction::SetPointer {
            vec_count: 5,
            array_type: PointerArrayType::Color,
            item_type: PointerDataType::U8,
            data: Arc::new(data.clone()),
            size: 3,
        }],
    );
}

#[test]
fn add_pointer_u8() {
    let mut data = Vec::<u8>::new();
    data.resize(20, 0);

    let mut data_compact = Vec::<u8>::new();
    data_compact.resize(15, 0);

    for i in 0..15 {
        data[i + i / 3] = i as u8;
        data_compact[i] = i as u8;
    }

    let mut slot = RenderSandbox::Empty;
    prepare_sandbox(&mut slot);

    add_pointer_array(
        &mut slot,
        3,
        4,
        PointerArrayType::Color.to_i32().unwrap(),
        PointerDataType::U8.to_i32().unwrap(),
        &data,
    );

    assert_insns(
        &slot,
        &vec![RenderInstruction::SetPointer {
            vec_count: 5,
            array_type: PointerArrayType::Color,
            item_type: PointerDataType::U8,
            data: Arc::new(data_compact.clone()),
            size: 3,
        }],
    );
}

#[test]
fn add_pointer_f32() {
    let mut data = Vec::<u8>::new();
    data.resize(4 * 20, 0);

    let mut data_compact = Vec::<u8>::new();
    data_compact.resize(4 * 15, 0);

    for i in 0..15 {
        let bytes = (i as f32).to_ne_bytes();
        let at = i + i / 3;
        data[4 * at..4 * at + 4].copy_from_slice(&bytes);
        data_compact[4 * i..4 * i + 4].copy_from_slice(&bytes);
    }

    let mut slot = RenderSandbox::Empty;
    prepare_sandbox(&mut slot);

    add_pointer_array(
        &mut slot,
        3,
        16,
        PointerArrayType::Color.to_i32().unwrap(),
        PointerDataType::F32.to_i32().unwrap(),
        &data,
    );

    assert_insns(
        &slot,
        &vec![RenderInstruction::SetPointer {
            vec_count: 5,
            array_type: PointerArrayType::Color,
            item_type: PointerDataType::F32,
            data: Arc::new(data_compact.clone()),
            size: 3,
        }],
    );
}

fn floats_to_bytes(values: &[f32]) -> Vec<u8> {
    let mut out = Vec::new();
    for v in values {
        out.extend_from_slice(&v.to_le_bytes());
    }
    out
}

#[test]
fn vertex_assembly() {
    let mut assembler = RenderInsnAssembler::new(CommandQueue::Buffered(Vec::new()));

    let pos = (0..3 * 10).map(|i| i as f32).collect::<Vec<_>>();
    let color = (0..3 * 10).map(|i| i as f32).rev().collect::<Vec<_>>();

    let report = assembler.feed(&[
        RenderInstruction::SetClientState {
            enabled: true,
            array_type: PointerArrayType::Vertex,
        },
        RenderInstruction::SetClientState {
            enabled: true,
            array_type: PointerArrayType::Color,
        },
        RenderInstruction::SetPointer {
            vec_count: 10,
            array_type: PointerArrayType::Vertex,
            item_type: PointerDataType::F32,
            data: Arc::new(floats_to_bytes(&pos)),
            size: 3,
        },
        RenderInstruction::SetPointer {
            vec_count: 10,
            array_type: PointerArrayType::Color,
            item_type: PointerDataType::F32,
            data: Arc::new(floats_to_bytes(&color)),
            size: 3,
        },
    ]);
    assert_eq!(report.consumed, 4);
    assert!(report.task.is_none());
    assert!(report.warnings.is_empty());

    let drawn = assembler.draw_arrays(DrawMode::Tri, 0, 3);
    assert!(drawn.task.is_none());
    assert!(drawn.warnings.is_empty());

    let mut target = Vec::new();

    for i in 0..10 {
        target.extend_from_slice(&pos[i * 3..(i + 1) * 3]);
        target.extend_from_slice(&color[i * 3..(i + 1) * 3]);
    }

    let target = floats_to_bytes(&target);

    let commands = assembler.commands.take();
    assert_eq!(commands.len(), 2);
    match &commands[0] {
        RenderCommand::BindDynamicGraphicsPipeline { pipeline, push_constants } => {
            assert_eq!(pipeline.draw_mode, DrawMode::Tri);
            assert_eq!(pipeline.color, ColorMode::Flat(DataSource::PushConstant));
            assert_eq!(pipeline.vertex_buffer.stride, 24);
            let position = pipeline.vertex_buffer.position().unwrap();
            assert_eq!(position.data_type, PointerDataType::F32);
            assert_eq!(position.num_elements, 3);
            assert_eq!(position.offset, 0);
            let color = pipeline.vertex_buffer.color().unwrap();
            assert_eq!(color.data_type, PointerDataType::F32);
            assert_eq!(color.num_elements, 3);
            assert_eq!(color.offset, 12);
            assert_eq!(push_constants.mvp, Some(Mat4::identity()));
            assert!(push_constants.color.is_some());
        }
        other => panic!("{:?}", other),
    }
    match &commands[1] {
        RenderCommand::Draw { start_vertex, vertex_count, data } => {
            assert_eq!(*start_vertex, 0);
            assert_eq!(*vertex_count, 3);
            assert_eq!(**data, target);
        }
        other => panic!("{:?}", other),
    }
}
