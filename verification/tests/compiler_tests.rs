use std::sync::Arc;

use render_assembly::compiler::BuiltPipeline;
use render_assembly::compiler::CompileStep;
use render_assembly::compiler::PipelineCompiler;
use render_assembly::compiler::ShaderStep;
use render_assembly::gl::DrawMode;
use render_assembly::gl::PointerDataType;
use render_assembly::layout::VertexBufferLayout;
use render_assembly::layout::VertexInputSpec;
use render_assembly::pipeline::AttachmentBlend;
use render_assembly::pipeline::BlendFactor;
use render_assembly::pipeline::BlendOp;
use render_assembly::pipeline::ColorMode;
use render_assembly::pipeline::CullMode;
use render_assembly::pipeline::DataSource;
use render_assembly::pipeline::DynamicPipelineRasterization;
use render_assembly::pipeline::DynamicPipelineSpec;
use render_assembly::pipeline::FrontFace;
use render_assembly::pipeline::ShaderMatrixMode;
use render_assembly::pipeline::ShaderSpec;
use render_assembly::pipeline_table::DynamicPipeline;
use render_assembly::plan::dynamic_states;
use render_assembly::plan::depth_test;
use render_assembly::plan::plan_pipeline;
use render_assembly::plan::topology;
use render_assembly::plan::CompareOp;
use render_assembly::plan::PrimitiveTopology;
use render_assembly::plan::CompileError;
use render_assembly::plan::DescriptorKind;
use render_assembly::plan::DescriptorPlan;
use render_assembly::plan::DynamicState;
use render_assembly::plan::ShaderStage;
use render_assembly::plan::VertexAttributePlan;
use render_assembly::shader::VertexFormat;

fn field(data_type: PointerDataType, num_elements: u8, offset: u8) -> Option<VertexInputSpec> {
    Some(VertexInputSpec { data_type, num_elements, offset })
}

fn spec_with(position_items: u8) -> DynamicPipelineSpec {
    DynamicPipelineSpec {
        draw_mode: DrawMode::Tri,
        vertex_buffer: VertexBufferLayout {
            fields: [field(PointerDataType::F32, position_items, 0), None, None, None, None],
            stride: 4 * position_items,
        },
        color: ColorMode::Flat(DataSource::PushConstant),
        matrix: ShaderMatrixMode::MVP(DataSource::PushConstant),
        rasterization: DynamicPipelineRasterization::default(),
    }
}

fn built(n: u64) -> BuiltPipeline {
    BuiltPipeline { vertex_module: 10 * n + 1, fragment_module: 10 * n + 2, pipeline: 10 * n + 3, layout: 10 * n + 4 }
}

fn expect_build(step: CompileStep) -> (ShaderStep, ShaderStep) {
    match step {
        CompileStep::Build(request) => (request.vertex_shader, request.fragment_shader),
        other => panic!("{:?}", other),
    }
}

#[test]
fn an_equal_specification_is_served_from_the_cache() {
    let mut compiler = PipelineCompiler::new(4);
    let first = spec_with(3);
    let (vertex, fragment) = expect_build(compiler.compile(&first));
    assert_eq!(vertex, ShaderStep::Compile(ShaderSpec::from(&first).get_vertex_shader_code()));
    assert_eq!(fragment, ShaderStep::Compile(ShaderSpec::from(&first).get_fragment_shader_code()));
    assert_eq!(compiler.shader_compiles(), 2);
    let held = compiler.complete(&first, built(1)).pipeline;
    assert_eq!(*held, DynamicPipeline { spec: first, pipeline: 13, layout: 14 });
    assert_eq!(compiler.pipeline_builds(), 1);
    let second = spec_with(3);
    match compiler.compile(&second) {
        CompileStep::Cached(found) => {
            assert!(Arc::ptr_eq(&found, &held));
            assert_eq!(found.spec, second);
        }
        other => panic!("{:?}", other),
    }
    assert_eq!(compiler.shader_compiles(), 2);
    assert_eq!(compiler.pipeline_builds(), 1);
}

#[test]
fn a_pipeline_that_nobody_holds_is_built_again_from_the_cached_shaders() {
    let mut compiler = PipelineCompiler::new(4);
    let spec = spec_with(3);
    expect_build(compiler.compile(&spec));
    let held = compiler.complete(&spec, built(1)).pipeline;
    drop(held);
    let (vertex, fragment) = expect_build(compiler.compile(&spec));
    assert_eq!(vertex, ShaderStep::Cached(11));
    assert_eq!(fragment, ShaderStep::Cached(12));
    assert_eq!(compiler.shader_compiles(), 2);
}

#[test]
fn another_cull_mode_gets_a_pipeline_of_its_own_and_shares_the_shaders() {
    let mut compiler = PipelineCompiler::new(4);
    let first = spec_with(3);
    expect_build(compiler.compile(&first));
    let held_first = compiler.complete(&first, built(1)).pipeline;
    let mut second = first;
    second.rasterization.cull_mode = CullMode::Front;
    assert_ne!(first, second);
    assert!(!first.equals(&second));
    assert_ne!(first.cache_key(), second.cache_key());
    assert_eq!(ShaderSpec::from(&first).cache_key(), ShaderSpec::from(&second).cache_key());
    let (vertex, fragment) = expect_build(compiler.compile(&second));
    assert_eq!(vertex, ShaderStep::Cached(11));
    assert_eq!(fragment, ShaderStep::Cached(12));
    assert_eq!(compiler.shader_compiles(), 2);
    let second_built = BuiltPipeline { vertex_module: 11, fragment_module: 12, pipeline: 23, layout: 24 };
    let completed = compiler.complete(&second, second_built);
    assert_eq!(completed.released_vertex_module, None);
    assert_eq!(completed.released_fragment_module, None);
    let held_second = completed.pipeline;
    assert_eq!(compiler.pipeline_builds(), 2);
    match compiler.compile(&first) {
        CompileStep::Cached(found) => assert!(Arc::ptr_eq(&found, &held_first)),
        other => panic!("{:?}", other),
    }
    match compiler.compile(&second) {
        CompileStep::Cached(found) => {
            assert!(Arc::ptr_eq(&found, &held_second));
            assert_eq!(found.pipeline, 23);
        }
        other => panic!("{:?}", other),
    }
}

#[test]
fn the_shader_that_was_used_longest_ago_makes_room() {
    let mut compiler = PipelineCompiler::new(2);
    let specs = [spec_with(1), spec_with(2), spec_with(3)];
    let mut held = Vec::new();
    for (i, spec) in specs.iter().enumerate() {
        expect_build(compiler.compile(spec));
        let completed = compiler.complete(spec, built(i as u64 + 1));
        let expected = if i == 2 { (Some(11), Some(12)) } else { (None, None) };
        assert_eq!((completed.released_vertex_module, completed.released_fragment_module), expected);
        held.push(completed.pipeline);
    }
    assert_eq!(compiler.shader_compiles(), 6);
    let two = ShaderSpec::from(&specs[1]);
    let three = ShaderSpec::from(&specs[2]);
    let one = ShaderSpec::from(&specs[0]);
    assert_eq!(compiler.compile_vertex_shader(&two), ShaderStep::Cached(21));
    assert_eq!(compiler.compile_fragment_shader(&three), ShaderStep::Cached(32));
    assert_eq!(compiler.shader_compiles(), 6);
    assert_eq!(
        compiler.compile_vertex_shader(&one),
        ShaderStep::Compile(one.get_vertex_shader_code())
    );
    assert_eq!(
        compiler.compile_fragment_shader(&one),
        ShaderStep::Compile(one.get_fragment_shader_code())
    );
    assert_eq!(compiler.shader_compiles(), 8);
    drop(held);
    let first = compiler.complete(&specs[0], built(7));
    assert_eq!(first.pipeline.pipeline, 73);
    assert_eq!(first.released_vertex_module, Some(31));
    assert_eq!(first.released_fragment_module, Some(22));
    assert_eq!(compiler.compile_vertex_shader(&one), ShaderStep::Cached(71));
    assert_eq!(compiler.compile_vertex_shader(&two), ShaderStep::Cached(21));
    assert_ne!(compiler.compile_vertex_shader(&three), ShaderStep::Cached(31));
    assert_eq!(compiler.compile_fragment_shader(&three), ShaderStep::Cached(32));
    assert_eq!(compiler.compile_fragment_shader(&one), ShaderStep::Cached(72));
    assert_ne!(compiler.compile_fragment_shader(&two), ShaderStep::Cached(22));
}

#[test]
fn a_cache_holds_one_module_at_least() {
    let mut compiler = PipelineCompiler::new(0);
    let spec = spec_with(2);
    expect_build(compiler.compile(&spec));
    let _held = compiler.complete(&spec, built(1));
    assert_eq!(
        compiler.compile_vertex_shader(&ShaderSpec::from(&spec)),
        ShaderStep::Cached(11)
    );
}

#[test]
fn a_newer_module_replaces_the_older_one_of_the_same_specification() {
    let mut compiler = PipelineCompiler::new(3);
    let spec = spec_with(2);
    let _a = compiler.complete(&spec, built(1));
    let b = compiler.complete(&spec, built(2));
    assert_eq!(b.released_vertex_module, Some(11));
    assert_eq!(b.released_fragment_module, Some(12));
    match compiler.compile(&spec) {
        CompileStep::Cached(found) => assert_eq!(found.pipeline, 23),
        other => panic!("{:?}", other),
    }
    assert_eq!(compiler.compile_vertex_shader(&ShaderSpec::from(&spec)), ShaderStep::Cached(21));
}

#[test]
fn what_cannot_be_planned_is_refused() {
    let mut compiler = PipelineCompiler::new(4);
    let mut no_position = spec_with(3);
    no_position.vertex_buffer.fields[0] = None;
    assert!(matches!(compiler.compile(&no_position), CompileStep::Refused(CompileError::MissingPosition)));
    let mut no_texcoord = spec_with(3);
    no_texcoord.color = ColorMode::Texture { set: 1, binding: 0 };
    assert!(matches!(compiler.compile(&no_texcoord), CompileStep::Refused(CompileError::MissingColorSource)));
    let mut no_color = spec_with(3);
    no_color.color = ColorMode::Array;
    assert_eq!(plan_pipeline(&no_color), Err(CompileError::MissingColorSource));
    let mut integers = spec_with(3);
    integers.vertex_buffer.fields[0] = field(PointerDataType::I16, 3, 0);
    assert_eq!(plan_pipeline(&integers), Err(CompileError::UnsupportedFormat));
    let mut too_many = spec_with(3);
    too_many.vertex_buffer.fields[1] = field(PointerDataType::F32, 5, 12);
    assert_eq!(plan_pipeline(&too_many), Err(CompileError::UnsupportedFormat));
    let mut none = spec_with(3);
    none.vertex_buffer.fields[0] = field(PointerDataType::F32, 0, 0);
    assert_eq!(plan_pipeline(&none), Err(CompileError::UnsupportedFormat));
    assert_eq!(compiler.shader_compiles(), 0);
    assert_eq!(compiler.pipeline_builds(), 0);
}

#[test]
fn the_plan_of_a_flat_pipeline() {
    let plan = plan_pipeline(&spec_with(3)).unwrap();
    assert!(plan.descriptors.is_empty());
    assert_eq!(plan.set_count, 0);
    assert_eq!(plan.push_constant_size, 64 + 16);
    assert_eq!(plan.stride, 12);
    assert_eq!(
        plan.attributes,
        vec![VertexAttributePlan { location: 0, format: VertexFormat::R32G32B32_SFLOAT, offset: 0 }]
    );
}

#[test]
fn the_plan_of_a_textured_pipeline() {
    let spec = DynamicPipelineSpec {
        draw_mode: DrawMode::TriStrip,
        vertex_buffer: VertexBufferLayout {
            fields: [
                field(PointerDataType::F32, 3, 0),
                field(PointerDataType::F32, 3, 12),
                field(PointerDataType::F64, 4, 24),
                field(PointerDataType::F32, 2, 56),
                field(PointerDataType::U16, 1, 64),
            ],
            stride: 68,
        },
        color: ColorMode::Texture { set: 1, binding: 0 },
        matrix: ShaderMatrixMode::MVP(DataSource::Uniform { set: 0, binding: 2 }),
        rasterization: DynamicPipelineRasterization::default(),
    };
    let plan = plan_pipeline(&spec).unwrap();
    assert_eq!(
        plan.descriptors,
        vec![
            DescriptorPlan { set: 1, binding: 0, kind: DescriptorKind::SampledImage, stage: ShaderStage::Fragment },
            DescriptorPlan { set: 0, binding: 2, kind: DescriptorKind::UniformBuffer, stage: ShaderStage::Vertex },
        ]
    );
    assert_eq!(plan.set_count, 2);
    assert_eq!(plan.push_constant_size, 0);
    assert_eq!(plan.stride, 68);
    assert_eq!(
        plan.attributes,
        vec![
            VertexAttributePlan { location: 0, format: VertexFormat::R32G32B32_SFLOAT, offset: 0 },
            VertexAttributePlan { location: 1, format: VertexFormat::R32G32B32_SFLOAT, offset: 12 },
            VertexAttributePlan { location: 2, format: VertexFormat::R32G32_SFLOAT, offset: 56 },
        ]
    );
    let mut by_array = spec;
    by_array.color = ColorMode::Array;
    by_array.matrix = ShaderMatrixMode::VP_M(
        DataSource::Uniform { set: 4, binding: 0 },
        DataSource::Uniform { set: 2, binding: 1 },
    );
    let plan = plan_pipeline(&by_array).unwrap();
    assert_eq!(plan.set_count, 5);
    assert_eq!(plan.descriptors.len(), 2);
    assert_eq!(plan.attributes[2], VertexAttributePlan { location: 2, format: VertexFormat::R64G64B64A64_SFLOAT, offset: 24 });
    let mut two_matrices = spec_with(4);
    two_matrices.matrix = ShaderMatrixMode::VP_M(DataSource::PushConstant, DataSource::PushConstant);
    two_matrices.color = ColorMode::Flat(DataSource::Uniform { set: 255, binding: 9 });
    let plan = plan_pipeline(&two_matrices).unwrap();
    assert_eq!(plan.push_constant_size, 128);
    assert_eq!(plan.set_count, 256);
    let mut mixed = spec_with(4);
    mixed.matrix = ShaderMatrixMode::VP_M(DataSource::PushConstant, DataSource::Uniform { set: 1, binding: 1 });
    let plan = plan_pipeline(&mixed).unwrap();
    assert!(plan.descriptors.is_empty());
    assert_eq!(plan.push_constant_size, 16);
}

#[test]
fn draw_modes_have_topologies() {
    let topologies = [
        (DrawMode::Points, PrimitiveTopology::PointList),
        (DrawMode::Lines, PrimitiveTopology::LineList),
        (DrawMode::LineStrip, PrimitiveTopology::LineStrip),
        (DrawMode::LineLoop, PrimitiveTopology::LineStrip),
        (DrawMode::LinesAdj, PrimitiveTopology::LineListWithAdjacency),
        (DrawMode::LineStripAdj, PrimitiveTopology::LineStripWithAdjacency),
        (DrawMode::Tri, PrimitiveTopology::TriangleList),
        (DrawMode::TriStrip, PrimitiveTopology::TriangleStrip),
        (DrawMode::TriFan, PrimitiveTopology::TriangleFan),
        (DrawMode::TriAdj, PrimitiveTopology::TriangleListWithAdjacency),
        (DrawMode::TriStripAdj, PrimitiveTopology::TriangleStripWithAdjacency),
    ];
    for (mode, want) in topologies {
        assert_eq!(topology(mode), want);
        let mut spec = spec_with(3);
        spec.draw_mode = mode;
        assert_eq!(plan_pipeline(&spec).unwrap().topology, want);
    }
    assert!(depth_test().write_enable);
    assert_eq!(depth_test().compare_op, CompareOp::Less);
}

#[test]
fn seven_parts_of_the_state_are_set_while_recording() {
    assert_eq!(
        dynamic_states(),
        vec![
            DynamicState::Viewport,
            DynamicState::Scissor,
            DynamicState::LineWidth,
            DynamicState::DepthBias,
            DynamicState::DepthBounds,
            DynamicState::CullMode,
            DynamicState::FrontFace,
        ]
    );
}

#[test]
fn the_rasterizer_starts_with_back_face_culling_and_an_ignored_source() {
    let state = DynamicPipelineRasterization::default();
    assert_eq!(state.cull_mode, CullMode::Back);
    assert_eq!(state.front_face, FrontFace::CounterClockwise);
    assert_eq!(state.line_width, 10);
    assert_eq!(
        state.color_blending,
        Some(AttachmentBlend {
            src_color_blend_factor: BlendFactor::Zero,
            dst_color_blend_factor: BlendFactor::DstColor,
            color_blend_op: BlendOp::Add,
            src_alpha_blend_factor: BlendFactor::Zero,
            dst_alpha_blend_factor: BlendFactor::DstColor,
            alpha_blend_op: BlendOp::Add,
        })
    );
}

#[test]
fn every_part_of_a_specification_shows_in_its_key() {
    let base = spec_with(3);
    assert_eq!(base.cache_key().len(), 46);
    assert_eq!(ShaderSpec::from(&base).cache_key().len(), 32);
    let mut variants = Vec::new();
    let mut v = base;
    v.draw_mode = DrawMode::Lines;
    variants.push(v);
    let mut v = base;
    v.vertex_buffer.stride = 16;
    variants.push(v);
    let mut v = base;
    v.vertex_buffer.fields[0] = field(PointerDataType::F64, 3, 0);
    variants.push(v);
    let mut v = base;
    v.vertex_buffer.fields[4] = field(PointerDataType::U16, 1, 12);
    variants.push(v);
    let mut v = base;
    v.color = ColorMode::Flat(DataSource::Uniform { set: 0, binding: 0 });
    variants.push(v);
    let mut v = base;
    v.color = ColorMode::Array;
    variants.push(v);
    let mut v = base;
    v.color = ColorMode::Texture { set: 0, binding: 0 };
    variants.push(v);
    let mut v = base;
    v.matrix = ShaderMatrixMode::VP_M(DataSource::PushConstant, DataSource::PushConstant);
    variants.push(v);
    let mut v = base;
    v.matrix = ShaderMatrixMode::MVP(DataSource::Uniform { set: 0, binding: 0 });
    variants.push(v);
    let mut v = base;
    v.rasterization.front_face = FrontFace::Clockwise;
    variants.push(v);
    let mut v = base;
    v.rasterization.line_width = 10 + 256;
    variants.push(v);
    let mut v = base;
    v.rasterization.line_width = 10 + (1 << 24);
    variants.push(v);
    let mut v = base;
    v.rasterization.color_blending = None;
    variants.push(v);
    let mut v = base;
    v.rasterization.color_blending = Some(AttachmentBlend {
        alpha_blend_op: BlendOp::Max,
        ..AttachmentBlend::ignore_source()
    });
    variants.push(v);
    variants.push(base);
    for (i, a) in variants.iter().enumerate() {
        for (j, b) in variants.iter().enumerate() {
            assert_eq!(a.cache_key() == b.cache_key(), i == j, "{} {}", i, j);
            assert_eq!(a.equals(b), i == j);
            assert_eq!(a == b, i == j);
        }
    }
}

#[test]
fn a_pipeline_that_nobody_holds_may_leave_the_table_when_another_comes() {
    let mut compiler = PipelineCompiler::new(4);
    let mut first = spec_with(3);
    first.rasterization.cull_mode = CullMode::Nothing;
    drop(compiler.complete(&first, built(1)));
    let mut held = Vec::new();
    for (i, cull_mode) in [CullMode::Front, CullMode::Back, CullMode::FrontAndBack].into_iter().enumerate() {
        let mut other = first;
        other.rasterization.cull_mode = cull_mode;
        held.push((other, compiler.complete(&other, built(i as u64 + 2)).pipeline));
    }
    assert!(matches!(compiler.compile(&first), CompileStep::Build(_)));
    for (spec, pipeline) in &held {
        match compiler.compile(spec) {
            CompileStep::Cached(found) => assert!(Arc::ptr_eq(&found, pipeline)),
            other => panic!("{:?}", other),
        }
    }
    assert_eq!(compiler.pipeline_builds(), 4);
}
