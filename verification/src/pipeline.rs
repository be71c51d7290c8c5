//! What a pipeline and its shaders are compiled from: the layout of the
//! vertices, the source of colour and of the transformation, and the state
//! of the rasterizer.

use vstd::prelude::*;
use crate::gl::DrawMode;
use crate::layout::VertexBufferLayout;
use crate::layout::VertexInputSpec;
use crate::layout::VertexInputType;
use crate::matrix::Mat4;
use crate::matrix::Vec4;

verus! {

/// Where a shader reads a value from.
#[derive(Clone, Copy, Debug, PartialEq, Eq, Structural, Hash)]
pub enum DataSource {
    PushConstant,
    Uniform { set: u8, binding: u8 },
}

/// How the transformation reaches the vertex shader.
#[allow(non_camel_case_types)]
#[derive(Clone, Copy, Debug, PartialEq, Eq, Structural, Hash)]
pub enum ShaderMatrixMode {
    /// Projection, view and model in one matrix.
    MVP(DataSource),
    /// Projection and view in one matrix, the model in another. Both come
    /// from sources of the same sort.
    VP_M(DataSource, DataSource),
}

/// Where the colour of a fragment comes from.
#[derive(Clone, Copy, Debug, PartialEq, Eq, Structural, Hash)]
pub enum ColorMode {
    /// One colour for the whole draw call.
    Flat(DataSource),
    /// The texture at a descriptor binding.
    Texture { set: u8, binding: u8 },
    /// The colour array of the vertices.
    Array,
}

/// The values that a draw call hands to its pipeline directly.
#[derive(Clone, Copy, Debug, PartialEq, Eq)]
pub struct DynamicPipelinePushConstants {
    pub mvp: Option<Mat4>,
    pub color: Option<Vec4>,
}

impl Default for DynamicPipelinePushConstants {
    fn default() -> (r: Self)
        ensures
            r.mvp is None,
            r.color is None,
    {
        DynamicPipelinePushConstants { mvp: None, color: None }
    }
}

/// Which faces of a primitive are dropped.
#[derive(Clone, Copy, Debug, PartialEq, Eq, Structural, Hash)]
pub enum CullMode {
    Nothing,
    Front,
    Back,
    FrontAndBack,
}

/// The winding of the faces that count as front faces.
#[derive(Clone, Copy, Debug, PartialEq, Eq, Structural, Hash)]
pub enum FrontFace {
    CounterClockwise,
    Clockwise,
}

/// A factor of a blend equation.
#[derive(Clone, Copy, Debug, PartialEq, Eq, Structural, Hash)]
pub enum BlendFactor {
    Zero,
    One,
    SrcColor,
    OneMinusSrcColor,
    DstColor,
    OneMinusDstColor,
    SrcAlpha,
    OneMinusSrcAlpha,
    DstAlpha,
    OneMinusDstAlpha,
    ConstantColor,
    OneMinusConstantColor,
    ConstantAlpha,
    OneMinusConstantAlpha,
    SrcAlphaSaturate,
    Src1Color,
    OneMinusSrc1Color,
    Src1Alpha,
    OneMinusSrc1Alpha,
}

/// The operation of a blend equation.
#[derive(Clone, Copy, Debug, PartialEq, Eq, Structural, Hash)]
pub enum BlendOp {
    Add,
    Subtract,
    ReverseSubtract,
    Min,
    Max,
}

/// How the colour of a fragment is blended with the one in the attachment.
#[derive(Clone, Copy, Debug, PartialEq, Eq, Structural, Hash)]
pub struct AttachmentBlend {
    pub src_color_blend_factor: BlendFactor,
    pub dst_color_blend_factor: BlendFactor,
    pub color_blend_op: BlendOp,
    pub src_alpha_blend_factor: BlendFactor,
    pub dst_alpha_blend_factor: BlendFactor,
    pub alpha_blend_op: BlendOp,
}

impl AttachmentBlend {
    /// The blend that leaves the attachment as it is, whatever the fragment:
    /// nothing of the source is added to the whole of the destination.
    pub open spec fn ignoring_source() -> AttachmentBlend {
        AttachmentBlend {
            src_color_blend_factor: BlendFactor::Zero,
            dst_color_blend_factor: BlendFactor::DstColor,
            color_blend_op: BlendOp::Add,
            src_alpha_blend_factor: BlendFactor::Zero,
            dst_alpha_blend_factor: BlendFactor::DstColor,
            alpha_blend_op: BlendOp::Add,
        }
    }

    /// The blend that leaves the attachment as it is, whatever the fragment.
    pub fn ignore_source() -> (r: Self)
        ensures
            r == Self::ignoring_source(),
    {
        AttachmentBlend {
            src_color_blend_factor: BlendFactor::Zero,
            dst_color_blend_factor: BlendFactor::DstColor,
            color_blend_op: BlendOp::Add,
            src_alpha_blend_factor: BlendFactor::Zero,
            dst_alpha_blend_factor: BlendFactor::DstColor,
            alpha_blend_op: BlendOp::Add,
        }
    }
}

/// The state of the rasterizer that a pipeline is built for.
#[derive(Clone, Copy, Debug, PartialEq, Eq, Structural, Hash)]
pub struct DynamicPipelineRasterization {
    pub cull_mode: CullMode,
    pub front_face: FrontFace,
    /// Ten times the width of a line.
    pub line_width: u32,
    pub color_blending: Option<AttachmentBlend>,
}

impl DynamicPipelineRasterization {
    /// The state of the rasterizer of a draw call that asks for nothing
    /// else: back faces are dropped, front faces wind counterclockwise,
    /// lines are one unit wide, and the source is ignored in blending.
    pub open spec fn initial() -> DynamicPipelineRasterization {
        DynamicPipelineRasterization {
            cull_mode: CullMode::Back,
            front_face: FrontFace::CounterClockwise,
            line_width: 10,
            color_blending: Some(AttachmentBlend::ignoring_source()),
        }
    }
}

impl Default for DynamicPipelineRasterization {
    fn default() -> (r: Self)
        ensures
            r == Self::initial(),
    {
        DynamicPipelineRasterization {
            cull_mode: CullMode::Back,
            front_face: FrontFace::CounterClockwise,
            line_width: 10,
            color_blending: Some(AttachmentBlend::ignore_source()),
        }
    }
}

/// Everything that a pipeline is compiled from. Two draw calls that ask the
/// same of the graphics device have equal specifications.
#[derive(Clone, Copy, Debug, PartialEq, Eq, Hash)]
pub struct DynamicPipelineSpec {
    pub draw_mode: DrawMode,
    pub vertex_buffer: VertexBufferLayout,
    pub color: ColorMode,
    pub matrix: ShaderMatrixMode,
    pub rasterization: DynamicPipelineRasterization,
}

impl DynamicPipelineSpec {
    /// The position field of the vertices.
    pub fn position(&self) -> (r: &VertexInputSpec)
        requires
            self.vertex_buffer.field(VertexInputType::Position) is Some,
        ensures
            Some(*r) == self.vertex_buffer.field(VertexInputType::Position),
    {
        match self.vertex_buffer.position() {
            Some(field) => field,
            None => vstd::pervasive::unreached(),
        }
    }

    /// The normal field of the vertices, if they have one.
    pub fn normal(&self) -> (r: Option<&VertexInputSpec>)
        ensures
            match r {
                Some(f) => self.vertex_buffer.field(VertexInputType::Normal) == Some(*f),
                None => self.vertex_buffer.field(VertexInputType::Normal) is None,
            },
    {
        self.vertex_buffer.normal()
    }

    /// The texture coordinate field of the vertices, if they have one.
    pub fn texcoord(&self) -> (r: Option<&VertexInputSpec>)
        ensures
            match r {
                Some(f) => self.vertex_buffer.field(VertexInputType::TexCoord) == Some(*f),
                None => self.vertex_buffer.field(VertexInputType::TexCoord) is None,
            },
    {
        self.vertex_buffer.texcoord()
    }

    /// The colour field of the vertices, if they have one.
    pub fn color(&self) -> (r: Option<&VertexInputSpec>)
        ensures
            match r {
                Some(f) => self.vertex_buffer.field(VertexInputType::Color) == Some(*f),
                None => self.vertex_buffer.field(VertexInputType::Color) is None,
            },
    {
        self.vertex_buffer.color()
    }
}

/// The part of a pipeline specification that its shaders are compiled from:
/// all of it but the draw mode and the state of the rasterizer.
#[derive(Clone, Copy, Debug, PartialEq, Eq, Hash)]
pub struct ShaderSpec {
    pub vertex_buffer: VertexBufferLayout,
    pub color: ColorMode,
    pub matrix: ShaderMatrixMode,
}

impl From<&DynamicPipelineSpec> for ShaderSpec {
    fn from(value: &DynamicPipelineSpec) -> (r: Self) {
        ShaderSpec {
            vertex_buffer: value.vertex_buffer,
            color: value.color,
            matrix: value.matrix,
        }
    }
}

impl vstd::std_specs::convert::FromSpecImpl<&DynamicPipelineSpec> for ShaderSpec {
    open spec fn obeys_from_spec() -> bool {
        true
    }

    open spec fn from_spec(value: &DynamicPipelineSpec) -> ShaderSpec {
        ShaderSpec {
            vertex_buffer: value.vertex_buffer,
            color: value.color,
            matrix: value.matrix,
        }
    }
}

} // verus!
