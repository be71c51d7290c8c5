//! What has to be built for a pipeline specification, in plain values: the
//! descriptor bindings, the range of push constants, the vertex input and
//! the fixed state.

use vstd::prelude::*;
use crate::gl::DrawMode;
use crate::layout::VertexInputSpec;
use crate::layout::VertexInputType;
use crate::pipeline::ColorMode;
use crate::pipeline::DataSource;
use crate::pipeline::DynamicPipelineSpec;
use crate::pipeline::ShaderMatrixMode;
use crate::shader::VertexFormat;

verus! {

/// The number of bytes of a matrix among the push constants.
pub const MATRIX_BYTES: u32 = 64;

/// The number of bytes of a colour among the push constants.
pub const COLOR_BYTES: u32 = 16;

/// What a descriptor binding holds.
#[derive(Clone, Copy, Debug, PartialEq, Eq, Structural, Hash)]
pub enum DescriptorKind {
    UniformBuffer,
    SampledImage,
}

/// A stage of the pipeline that a shader runs in.
#[derive(Clone, Copy, Debug, PartialEq, Eq, Structural, Hash)]
pub enum ShaderStage {
    Vertex,
    Fragment,
}

/// A descriptor binding of a pipeline layout.
#[derive(Clone, Copy, Debug, PartialEq, Eq, Structural, Hash)]
pub struct DescriptorPlan {
    pub set: u8,
    pub binding: u8,
    pub kind: DescriptorKind,
    pub stage: ShaderStage,
}

/// An attribute of the vertex input.
#[derive(Clone, Copy, Debug, PartialEq, Eq, Structural, Hash)]
pub struct VertexAttributePlan {
    pub location: u32,
    pub format: VertexFormat,
    pub offset: u32,
}

/// A part of the pipeline state that is set while commands are recorded.
#[derive(Clone, Copy, Debug, PartialEq, Eq, Structural, Hash)]
pub enum DynamicState {
    Viewport,
    Scissor,
    LineWidth,
    DepthBias,
    DepthBounds,
    CullMode,
    FrontFace,
}

/// How the vertices of a draw call are assembled into primitives on the
/// graphics device.
#[derive(Clone, Copy, Debug, PartialEq, Eq, Structural, Hash)]
pub enum PrimitiveTopology {
    PointList,
    LineList,
    LineStrip,
    TriangleList,
    TriangleStrip,
    TriangleFan,
    LineListWithAdjacency,
    LineStripWithAdjacency,
    TriangleListWithAdjacency,
    TriangleStripWithAdjacency,
}

/// How the depth of a fragment is compared with the depth in the
/// attachment.
#[derive(Clone, Copy, Debug, PartialEq, Eq, Structural, Hash)]
pub enum CompareOp {
    Never,
    Less,
    Equal,
    LessOrEqual,
    Greater,
    NotEqual,
    GreaterOrEqual,
    Always,
}

/// The depth test of a pipeline.
#[derive(Clone, Copy, Debug, PartialEq, Eq, Structural, Hash)]
pub struct DepthTest {
    pub write_enable: bool,
    pub compare_op: CompareOp,
}

/// The topology of a draw mode. The graphics device has no closed line
/// strip: a line loop is drawn as a line strip.
pub open spec fn topology_of(mode: DrawMode) -> PrimitiveTopology {
    match mode {
        DrawMode::Points => PrimitiveTopology::PointList,
        DrawMode::Lines => PrimitiveTopology::LineList,
        DrawMode::LineStrip => PrimitiveTopology::LineStrip,
        DrawMode::LineLoop => PrimitiveTopology::LineStrip,
        DrawMode::LinesAdj => PrimitiveTopology::LineListWithAdjacency,
        DrawMode::LineStripAdj => PrimitiveTopology::LineStripWithAdjacency,
        DrawMode::Tri => PrimitiveTopology::TriangleList,
        DrawMode::TriStrip => PrimitiveTopology::TriangleStrip,
        DrawMode::TriFan => PrimitiveTopology::TriangleFan,
        DrawMode::TriAdj => PrimitiveTopology::TriangleListWithAdjacency,
        DrawMode::TriStripAdj => PrimitiveTopology::TriangleStripWithAdjacency,
    }
}

/// The topology of a draw mode.
pub fn topology(mode: DrawMode) -> (r: PrimitiveTopology)
    ensures
        r == topology_of(mode),
{
    match mode {
        DrawMode::Points => PrimitiveTopology::PointList,
        DrawMode::Lines => PrimitiveTopology::LineList,
        DrawMode::LineStrip => PrimitiveTopology::LineStrip,
        DrawMode::LineLoop => PrimitiveTopology::LineStrip,
        DrawMode::LinesAdj => PrimitiveTopology::LineListWithAdjacency,
        DrawMode::LineStripAdj => PrimitiveTopology::LineStripWithAdjacency,
        DrawMode::Tri => PrimitiveTopology::TriangleList,
        DrawMode::TriStrip => PrimitiveTopology::TriangleStrip,
        DrawMode::TriFan => PrimitiveTopology::TriangleFan,
        DrawMode::TriAdj => PrimitiveTopology::TriangleListWithAdjacency,
        DrawMode::TriStripAdj => PrimitiveTopology::TriangleStripWithAdjacency,
    }
}

/// The depth test of every pipeline: a fragment passes where it is nearer
/// than what the attachment holds, and its depth is written.
pub fn depth_test() -> (r: DepthTest)
    ensures
        r == (DepthTest { write_enable: true, compare_op: CompareOp::Less }),
{
    DepthTest { write_enable: true, compare_op: CompareOp::Less }
}

/// Why no pipeline can be built for a specification.
#[derive(Clone, Copy, Debug, PartialEq, Eq, Structural)]
pub enum CompileError {
    /// The vertices have no position.
    MissingPosition,
    /// The colour mode reads a field that the vertices do not have.
    MissingColorSource,
    /// A field that the shaders read is not made of one to four
    /// floating-point numbers.
    UnsupportedFormat,
}

/// What has to be built for a pipeline.
#[derive(Clone, Debug, PartialEq, Eq)]
pub struct PipelinePlan {
    /// The descriptor bindings, in the order colour, then matrices. Where
    /// two of them name the same set and binding, the later one counts.
    pub descriptors: Vec<DescriptorPlan>,
    /// The number of descriptor sets: one more than the greatest set that a
    /// binding names, none where there is no binding.
    pub set_count: u32,
    /// The number of bytes of the push constants, which start at offset zero
    /// and reach every graphics stage.
    pub push_constant_size: u32,
    /// The number of bytes from one vertex to the next.
    pub stride: u32,
    pub attributes: Vec<VertexAttributePlan>,
    pub topology: PrimitiveTopology,
}

/// The binding that a data source needs, if it needs one.
pub open spec fn source_descriptor(source: DataSource) -> Seq<DescriptorPlan> {
    match source {
        DataSource::PushConstant => seq![],
        DataSource::Uniform { set, binding } => seq![
            DescriptorPlan {
                set,
                binding,
                kind: DescriptorKind::UniformBuffer,
                stage: ShaderStage::Vertex,
            },
        ],
    }
}

/// Whether a field can be an attribute of the vertex input: it is made of
/// one to four floating-point numbers.
pub open spec fn field_has_format(field: VertexInputSpec) -> bool {
    field.data_type.spec_is_float() && 1 <= field.num_elements <= 4
}

/// The attribute that a field is at a location.
pub open spec fn attribute_of(location: u32, field: VertexInputSpec) -> VertexAttributePlan {
    VertexAttributePlan { location, format: field.vector().format(), offset: field.offset as u32 }
}

impl DynamicPipelineSpec {
    /// The bindings that the colour mode needs: a uniform buffer in the
    /// vertex stage for a flat colour from a uniform, a sampled image in
    /// the fragment stage for a texture.
    pub open spec fn color_descriptors(&self) -> Seq<DescriptorPlan> {
        match self.color {
            ColorMode::Flat(source) => source_descriptor(source),
            ColorMode::Texture { set, binding } => seq![
                DescriptorPlan {
                    set,
                    binding,
                    kind: DescriptorKind::SampledImage,
                    stage: ShaderStage::Fragment,
                },
            ],
            ColorMode::Array => seq![],
        }
    }

    /// The bindings that the matrices need: a uniform buffer in the vertex
    /// stage for each matrix from a uniform. Two matrices get theirs only
    /// where both come from uniforms.
    pub open spec fn matrix_descriptors(&self) -> Seq<DescriptorPlan> {
        match self.matrix {
            ShaderMatrixMode::MVP(source) => source_descriptor(source),
            ShaderMatrixMode::VP_M(
                DataSource::Uniform { set: vp_set, binding: vp_binding },
                DataSource::Uniform { set: model_set, binding: model_binding },
            ) => seq![
                DescriptorPlan {
                    set: vp_set,
                    binding: vp_binding,
                    kind: DescriptorKind::UniformBuffer,
                    stage: ShaderStage::Vertex,
                },
                DescriptorPlan {
                    set: model_set,
                    binding: model_binding,
                    kind: DescriptorKind::UniformBuffer,
                    stage: ShaderStage::Vertex,
                },
            ],
            _ => seq![],
        }
    }

    /// The descriptor bindings of the pipeline layout.
    pub open spec fn planned_descriptors(&self) -> Seq<DescriptorPlan> {
        self.color_descriptors() + self.matrix_descriptors()
    }

    /// The number of bytes of the push constants: a matrix, or two, as far
    /// as they are push constants, and the flat colour where it is one.
    pub open spec fn planned_push_constant_size(&self) -> int {
        (match self.matrix {
            ShaderMatrixMode::MVP(DataSource::PushConstant) => MATRIX_BYTES as int,
            ShaderMatrixMode::VP_M(DataSource::PushConstant, DataSource::PushConstant) => 2
                * MATRIX_BYTES,
            _ => 0,
        }) + (if self.color == ColorMode::Flat(DataSource::PushConstant) {
            COLOR_BYTES as int
        } else {
            0
        })
    }

    /// The field that the colour mode makes the third attribute, if it
    /// makes one: the texture coordinates for a texture, the colour for
    /// the colour array.
    pub open spec fn color_field(&self) -> Option<VertexInputSpec> {
        match self.color {
            ColorMode::Texture { .. } => self.vertex_buffer.field(VertexInputType::TexCoord),
            ColorMode::Array => self.vertex_buffer.field(VertexInputType::Color),
            ColorMode::Flat(_) => None,
        }
    }

    /// Why no pipeline can be planned for the specification, if none can.
    pub open spec fn plan_error(&self) -> Option<CompileError> {
        let position = self.vertex_buffer.field(VertexInputType::Position);
        let normal = self.vertex_buffer.field(VertexInputType::Normal);
        if position is None {
            Some(CompileError::MissingPosition)
        } else if !(self.color is Flat) && self.color_field() is None {
            Some(CompileError::MissingColorSource)
        } else if !field_has_format(position.unwrap()) || (normal is Some && !field_has_format(
            normal.unwrap(),
        )) || (self.color_field() is Some && !field_has_format(self.color_field().unwrap())) {
            Some(CompileError::UnsupportedFormat)
        } else {
            None
        }
    }

    /// The attributes of the vertex input: the position at location zero,
    /// the normal at location one where there is one, and what the colour
    /// mode reads at location two.
    pub open spec fn planned_attributes(&self) -> Seq<VertexAttributePlan> {
        seq![attribute_of(0, self.vertex_buffer.field(VertexInputType::Position).unwrap())] + (
        match self.vertex_buffer.field(VertexInputType::Normal) {
            Some(normal) => seq![attribute_of(1, normal)],
            None => seq![],
        }) + (match self.color_field() {
            Some(field) => seq![attribute_of(2, field)],
            None => seq![],
        })
    }
}

/// One more than the greatest set that a binding names; zero without
/// bindings.
pub open spec fn set_count_of(descriptors: Seq<DescriptorPlan>) -> int
    decreases descriptors.len(),
{
    if descriptors.len() == 0 {
        0
    } else {
        let before = set_count_of(descriptors.drop_last());
        let own = descriptors.last().set + 1;
        if own > before {
            own
        } else {
            before
        }
    }
}

/// The parts of the pipeline state that are set while commands are
/// recorded.
pub open spec fn dynamic_state_list() -> Seq<DynamicState> {
    seq![
        DynamicState::Viewport,
        DynamicState::Scissor,
        DynamicState::LineWidth,
        DynamicState::DepthBias,
        DynamicState::DepthBounds,
        DynamicState::CullMode,
        DynamicState::FrontFace,
    ]
}

/// The parts of the pipeline state that are set while commands are
/// recorded.
pub fn dynamic_states() -> (r: Vec<DynamicState>)
    ensures
        r@ == dynamic_state_list(),
{
    let mut states: Vec<DynamicState> = Vec::new();
    states.push(DynamicState::Viewport);
    states.push(DynamicState::Scissor);
    states.push(DynamicState::LineWidth);
    states.push(DynamicState::DepthBias);
    states.push(DynamicState::DepthBounds);
    states.push(DynamicState::CullMode);
    states.push(DynamicState::FrontFace);
    assert(states@ =~= dynamic_state_list());
    states
}

fn push_source_descriptor(descriptors: &mut Vec<DescriptorPlan>, source: &DataSource)
    ensures
        final(descriptors)@ == old(descriptors)@ + source_descriptor(*source),
{
    match source {
        DataSource::PushConstant => {
            assert(descriptors@ =~= old(descriptors)@ + source_descriptor(*source));
        },
        DataSource::Uniform { set, binding } => {
            descriptors.push(
                DescriptorPlan {
                    set: *set,
                    binding: *binding,
                    kind: DescriptorKind::UniformBuffer,
                    stage: ShaderStage::Vertex,
                },
            );
            assert(descriptors@ =~= old(descriptors)@ + source_descriptor(*source));
        },
    }
}

fn attribute(location: u32, field: &VertexInputSpec) -> (r: Option<VertexAttributePlan>)
    ensures
        r is Some <==> field_has_format(*field),
        r matches Some(a) ==> a == attribute_of(location, *field),
{
    if field.num_elements < 1 || field.num_elements > 4 || !field.data_type.is_float() {
        None
    } else {
        Some(
            VertexAttributePlan {
                location,
                format: field.as_vector().as_format(),
                offset: field.offset as u32,
            },
        )
    }
}

/// Plans the pipeline of a specification.
pub fn plan_pipeline(spec: &DynamicPipelineSpec) -> (r: Result<PipelinePlan, CompileError>)
    ensures
        match r {
            Ok(plan) => {
                &&& spec.plan_error() is None
                &&& plan.descriptors@ == spec.planned_descriptors()
                &&& plan.set_count == set_count_of(spec.planned_descriptors())
                &&& plan.push_constant_size == spec.planned_push_constant_size()
                &&& plan.stride == spec.vertex_buffer.stride
                &&& plan.attributes@ == spec.planned_attributes()
                &&& plan.topology == topology_of(spec.draw_mode)
            },
            Err(e) => spec.plan_error() == Some(e),
        },
{
    let position = match spec.vertex_buffer.position() {
        Some(field) => field,
        None => {
            return Err(CompileError::MissingPosition);
        },
    };
    let color_field = match &spec.color {
        ColorMode::Texture { .. } => match spec.vertex_buffer.texcoord() {
            Some(field) => Some(field),
            None => {
                return Err(CompileError::MissingColorSource);
            },
        },
        ColorMode::Array => match spec.vertex_buffer.color() {
            Some(field) => Some(field),
            None => {
                return Err(CompileError::MissingColorSource);
            },
        },
        ColorMode::Flat(_) => None,
    };
    let mut attributes: Vec<VertexAttributePlan> = Vec::new();
    match attribute(0, position) {
        Some(a) => {
            attributes.push(a);
        },
        None => {
            return Err(CompileError::UnsupportedFormat);
        },
    }
    let ghost with_position = attributes@;
    match spec.vertex_buffer.normal() {
        Some(normal) => match attribute(1, normal) {
            Some(a) => {
                attributes.push(a);
            },
            None => {
                return Err(CompileError::UnsupportedFormat);
            },
        },
        None => {},
    }
    match color_field {
        Some(field) => match attribute(2, field) {
            Some(a) => {
                attributes.push(a);
            },
            None => {
                return Err(CompileError::UnsupportedFormat);
            },
        },
        None => {},
    }
    assert(attributes@ =~= spec.planned_attributes());
    let mut descriptors: Vec<DescriptorPlan> = Vec::new();
    match &spec.color {
        ColorMode::Flat(source) => {
            push_source_descriptor(&mut descriptors, source);
        },
        ColorMode::Texture { set, binding } => {
            descriptors.push(
                DescriptorPlan {
                    set: *set,
                    binding: *binding,
                    kind: DescriptorKind::SampledImage,
                    stage: ShaderStage::Fragment,
                },
            );
        },
        ColorMode::Array => {},
    }
    assert(descriptors@ =~= spec.color_descriptors());
    match &spec.matrix {
        ShaderMatrixMode::MVP(source) => {
            push_source_descriptor(&mut descriptors, source);
        },
        ShaderMatrixMode::VP_M(
            DataSource::Uniform { set: vp_set, binding: vp_binding },
            DataSource::Uniform { set: model_set, binding: model_binding },
        ) => {
            descriptors.push(
                DescriptorPlan {
                    set: *vp_set,
                    binding: *vp_binding,
                    kind: DescriptorKind::UniformBuffer,
                    stage: ShaderStage::Vertex,
                },
            );
            descriptors.push(
                DescriptorPlan {
                    set: *model_set,
                    binding: *model_binding,
                    kind: DescriptorKind::UniformBuffer,
                    stage: ShaderStage::Vertex,
                },
            );
        },
        _ => {},
    }
    assert(descriptors@ =~= spec.planned_descriptors());
    let mut set_count: u32 = 0;
    let mut i: usize = 0;
    while i < descriptors.len()
        invariant
            0 <= i <= descriptors@.len(),
            set_count == set_count_of(descriptors@.subrange(0, i as int)),
            set_count <= 256,
        decreases descriptors@.len() - i,
    {
        let own: u32 = descriptors[i].set as u32 + 1;
        proof {
            let upto = descriptors@.subrange(0, i + 1);
            assert(upto.drop_last() =~= descriptors@.subrange(0, i as int));
            assert(upto.last() == descriptors@[i as int]);
        }
        if own > set_count {
            set_count = own;
        }
        i += 1;
    }
    assert(descriptors@.subrange(0, i as int) =~= descriptors@);
    let mut push_constant_size: u32 = match &spec.matrix {
        ShaderMatrixMode::MVP(DataSource::PushConstant) => MATRIX_BYTES,
        ShaderMatrixMode::VP_M(DataSource::PushConstant, DataSource::PushConstant) => 2
            * MATRIX_BYTES,
        _ => 0,
    };
    match &spec.color {
        ColorMode::Flat(DataSource::PushConstant) => {
            push_constant_size += COLOR_BYTES;
        },
        _ => {},
    }
    Ok(
        PipelinePlan {
            descriptors,
            set_count,
            push_constant_size,
            stride: spec.vertex_buffer.stride as u32,
            attributes,
            topology: topology(spec.draw_mode),
        },
    )
}

} // verus!
