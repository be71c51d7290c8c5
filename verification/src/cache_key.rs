//! The keys under which compiled shaders and pipelines are kept: a
//! specification written out as bytes, so that two specifications have the
//! same key exactly when they are equal.

use vstd::prelude::*;
use crate::convert::le_bytes4;
use crate::gl::DrawMode;
use crate::gl::PointerDataType;
use crate::layout::VertexBufferLayout;
use crate::layout::VertexInputSpec;
use crate::layout::VertexInputType;
use crate::pipeline::AttachmentBlend;
use crate::pipeline::BlendFactor;
use crate::pipeline::BlendOp;
use crate::pipeline::ColorMode;
use crate::pipeline::CullMode;
use crate::pipeline::DataSource;
use crate::pipeline::DynamicPipelineRasterization;
use crate::pipeline::DynamicPipelineSpec;
use crate::pipeline::FrontFace;
use crate::pipeline::ShaderMatrixMode;
use crate::pipeline::ShaderSpec;

verus! {

/// The number of bytes of the key of a shader specification.
pub const SHADER_KEY_LEN: usize = 32;

/// The number of bytes of the key of a pipeline specification.
pub const PIPELINE_KEY_LEN: usize = 46;

/// The byte that stands for a numeric type.
pub open spec fn data_type_tag(t: PointerDataType) -> u8 {
    match t {
        PointerDataType::U8 => 0,
        PointerDataType::I8 => 1,
        PointerDataType::U16 => 2,
        PointerDataType::I16 => 3,
        PointerDataType::U32 => 4,
        PointerDataType::I32 => 5,
        PointerDataType::F32 => 6,
        PointerDataType::F64 => 7,
    }
}

/// The byte that stands for a draw mode.
pub open spec fn draw_mode_tag(m: DrawMode) -> u8 {
    match m {
        DrawMode::Points => 0,
        DrawMode::LineStrip => 1,
        DrawMode::LineLoop => 2,
        DrawMode::Lines => 3,
        DrawMode::LineStripAdj => 4,
        DrawMode::LinesAdj => 5,
        DrawMode::TriStrip => 6,
        DrawMode::TriFan => 7,
        DrawMode::Tri => 8,
        DrawMode::TriStripAdj => 9,
        DrawMode::TriAdj => 10,
    }
}

/// The byte that stands for a cull mode.
pub open spec fn cull_mode_tag(m: CullMode) -> u8 {
    match m {
        CullMode::Nothing => 0,
        CullMode::Front => 1,
        CullMode::Back => 2,
        CullMode::FrontAndBack => 3,
    }
}

/// The byte that stands for a winding.
pub open spec fn front_face_tag(f: FrontFace) -> u8 {
    match f {
        FrontFace::CounterClockwise => 0,
        FrontFace::Clockwise => 1,
    }
}

/// The byte that stands for a blend factor.
pub open spec fn blend_factor_tag(f: BlendFactor) -> u8 {
    match f {
        BlendFactor::Zero => 0,
        BlendFactor::One => 1,
        BlendFactor::SrcColor => 2,
        BlendFactor::OneMinusSrcColor => 3,
        BlendFactor::DstColor => 4,
        BlendFactor::OneMinusDstColor => 5,
        BlendFactor::SrcAlpha => 6,
        BlendFactor::OneMinusSrcAlpha => 7,
        BlendFactor::DstAlpha => 8,
        BlendFactor::OneMinusDstAlpha => 9,
        BlendFactor::ConstantColor => 10,
        BlendFactor::OneMinusConstantColor => 11,
        BlendFactor::ConstantAlpha => 12,
        BlendFactor::OneMinusConstantAlpha => 13,
        BlendFactor::SrcAlphaSaturate => 14,
        BlendFactor::Src1Color => 15,
        BlendFactor::OneMinusSrc1Color => 16,
        BlendFactor::Src1Alpha => 17,
        BlendFactor::OneMinusSrc1Alpha => 18,
    }
}

/// The byte that stands for a blend operation.
pub open spec fn blend_op_tag(o: BlendOp) -> u8 {
    match o {
        BlendOp::Add => 0,
        BlendOp::Subtract => 1,
        BlendOp::ReverseSubtract => 2,
        BlendOp::Min => 3,
        BlendOp::Max => 4,
    }
}

/// The three bytes of a data source.
pub open spec fn data_source_key(s: DataSource) -> Seq<u8> {
    match s {
        DataSource::PushConstant => seq![0u8, 0u8, 0u8],
        DataSource::Uniform { set, binding } => seq![1u8, set, binding],
    }
}

/// The four bytes of a colour mode.
pub open spec fn color_mode_key(c: ColorMode) -> Seq<u8> {
    match c {
        ColorMode::Flat(source) => seq![0u8] + data_source_key(source),
        ColorMode::Texture { set, binding } => seq![1u8, set, binding, 0u8],
        ColorMode::Array => seq![2u8, 0u8, 0u8, 0u8],
    }
}

/// The seven bytes of a matrix mode.
pub open spec fn matrix_mode_key(m: ShaderMatrixMode) -> Seq<u8> {
    match m {
        ShaderMatrixMode::MVP(source) => seq![0u8] + data_source_key(source) + seq![
            0u8,
            0u8,
            0u8,
        ],
        ShaderMatrixMode::VP_M(vp, model) => seq![1u8] + data_source_key(vp) + data_source_key(
            model,
        ),
    }
}

/// The four bytes of a field that a vertex may have.
pub open spec fn field_key(f: Option<VertexInputSpec>) -> Seq<u8> {
    match f {
        None => seq![0u8, 0u8, 0u8, 0u8],
        Some(field) => seq![1u8, data_type_tag(field.data_type), field.num_elements, field.offset],
    }
}

/// The twenty-one bytes of a layout: its fields in their order, then its
/// stride.
pub open spec fn layout_key(l: VertexBufferLayout) -> Seq<u8> {
    field_key(l.field(VertexInputType::Position)) + field_key(l.field(VertexInputType::Normal))
        + field_key(l.field(VertexInputType::Color)) + field_key(
        l.field(VertexInputType::TexCoord),
    ) + field_key(l.field(VertexInputType::TexIndex)) + seq![l.stride]
}

/// The seven bytes of a blend that an attachment may have.
pub open spec fn blend_key(b: Option<AttachmentBlend>) -> Seq<u8> {
    match b {
        None => seq![0u8, 0u8, 0u8, 0u8, 0u8, 0u8, 0u8],
        Some(blend) => seq![
            1u8,
            blend_factor_tag(blend.src_color_blend_factor),
            blend_factor_tag(blend.dst_color_blend_factor),
            blend_op_tag(blend.color_blend_op),
            blend_factor_tag(blend.src_alpha_blend_factor),
            blend_factor_tag(blend.dst_alpha_blend_factor),
            blend_op_tag(blend.alpha_blend_op),
        ],
    }
}

/// The thirteen bytes of the state of the rasterizer.
pub open spec fn rasterization_key(r: DynamicPipelineRasterization) -> Seq<u8> {
    seq![cull_mode_tag(r.cull_mode), front_face_tag(r.front_face)] + le_bytes4(
        r.line_width as int,
    ) + blend_key(r.color_blending)
}

impl ShaderSpec {
    /// The key of the specification.
    pub open spec fn key(&self) -> Seq<u8> {
        layout_key(self.vertex_buffer) + color_mode_key(self.color) + matrix_mode_key(self.matrix)
    }
}

impl DynamicPipelineSpec {
    /// The part of the specification that its shaders are compiled from.
    pub open spec fn shader_spec(&self) -> ShaderSpec {
        ShaderSpec { vertex_buffer: self.vertex_buffer, color: self.color, matrix: self.matrix }
    }

    /// The key of the specification.
    pub open spec fn key(&self) -> Seq<u8> {
        seq![draw_mode_tag(self.draw_mode)] + self.shader_spec().key() + rasterization_key(
            self.rasterization,
        )
    }
}

/// Two texts that are put together from parts of the same lengths are
/// equal only if their parts are.
pub proof fn lemma_parts_equal(a1: Seq<u8>, b1: Seq<u8>, a2: Seq<u8>, b2: Seq<u8>)
    requires
        a1.len() == a2.len(),
        a1 + b1 == a2 + b2,
    ensures
        a1 == a2,
        b1 == b2,
{
    let left = a1 + b1;
    let right = a2 + b2;
    assert(left.len() == a1.len() + b1.len());
    assert(right.len() == a2.len() + b2.len());
    assert forall|i: int| 0 <= i < a1.len() implies a1[i] == a2[i] by {
        assert(left[i] == a1[i]);
        assert(right[i] == a2[i]);
    }
    assert(a1 =~= a2);
    assert forall|i: int| 0 <= i < b1.len() implies b1[i] == b2[i] by {
        assert(left[a1.len() + i] == b1[i]);
        assert(right[a2.len() + i] == b2[i]);
    }
    assert(b1 =~= b2);
}

/// A data source has three bytes, and another source has other bytes.
pub proof fn lemma_data_source_key(a: DataSource, b: DataSource)
    ensures
        data_source_key(a).len() == 3,
        data_source_key(a) == data_source_key(b) ==> a == b,
{
    if data_source_key(a) == data_source_key(b) {
        assert(data_source_key(a)[0] == data_source_key(b)[0]);
        assert(data_source_key(a)[1] == data_source_key(b)[1]);
        assert(data_source_key(a)[2] == data_source_key(b)[2]);
    }
}

/// A colour mode has four bytes, and another mode has other bytes.
pub proof fn lemma_color_mode_key(a: ColorMode, b: ColorMode)
    ensures
        color_mode_key(a).len() == 4,
        color_mode_key(a) == color_mode_key(b) ==> a == b,
{
    match a {
        ColorMode::Flat(source) => lemma_data_source_key(source, source),
        _ => {},
    }
    if color_mode_key(a) == color_mode_key(b) {
        let ka = color_mode_key(a);
        let kb = color_mode_key(b);
        assert(ka[0] == kb[0] && ka[1] == kb[1] && ka[2] == kb[2] && ka[3] == kb[3]);
        match (a, b) {
            (ColorMode::Flat(sa), ColorMode::Flat(sb)) => {
                lemma_data_source_key(sa, sb);
                lemma_parts_equal(seq![0u8], data_source_key(sa), seq![0u8], data_source_key(sb));
            },
            _ => {},
        }
    }
}

/// A matrix mode has seven bytes, and another mode has other bytes.
pub proof fn lemma_matrix_mode_key(a: ShaderMatrixMode, b: ShaderMatrixMode)
    ensures
        matrix_mode_key(a).len() == 7,
        matrix_mode_key(a) == matrix_mode_key(b) ==> a == b,
{
    match a {
        ShaderMatrixMode::MVP(s) => lemma_data_source_key(s, s),
        ShaderMatrixMode::VP_M(s, t) => {
            lemma_data_source_key(s, s);
            lemma_data_source_key(t, t);
        },
    }
    match b {
        ShaderMatrixMode::MVP(s) => lemma_data_source_key(s, s),
        ShaderMatrixMode::VP_M(s, t) => {
            lemma_data_source_key(s, s);
            lemma_data_source_key(t, t);
        },
    }
    if matrix_mode_key(a) == matrix_mode_key(b) {
        let ka = matrix_mode_key(a);
        let kb = matrix_mode_key(b);
        assert(ka[0] == kb[0]);
        match (a, b) {
            (ShaderMatrixMode::MVP(sa), ShaderMatrixMode::MVP(sb)) => {
                lemma_parts_equal(
                    seq![0u8] + data_source_key(sa),
                    seq![0u8, 0u8, 0u8],
                    seq![0u8] + data_source_key(sb),
                    seq![0u8, 0u8, 0u8],
                );
                lemma_parts_equal(seq![0u8], data_source_key(sa), seq![0u8], data_source_key(sb));
                lemma_data_source_key(sa, sb);
            },
            (ShaderMatrixMode::VP_M(sa, ta), ShaderMatrixMode::VP_M(sb, tb)) => {
                lemma_parts_equal(
                    seq![1u8] + data_source_key(sa),
                    data_source_key(ta),
                    seq![1u8] + data_source_key(sb),
                    data_source_key(tb),
                );
                lemma_parts_equal(seq![1u8], data_source_key(sa), seq![1u8], data_source_key(sb));
                lemma_data_source_key(sa, sb);
                lemma_data_source_key(ta, tb);
            },
            _ => {},
        }
    }
}

/// A field has four bytes, and another field has other bytes.
pub proof fn lemma_field_key(a: Option<VertexInputSpec>, b: Option<VertexInputSpec>)
    ensures
        field_key(a).len() == 4,
        field_key(a) == field_key(b) ==> a == b,
{
    if field_key(a) == field_key(b) {
        let ka = field_key(a);
        let kb = field_key(b);
        assert(ka[0] == kb[0] && ka[1] == kb[1] && ka[2] == kb[2] && ka[3] == kb[3]);
    }
}

/// A layout has twenty-one bytes, and another layout has other bytes.
pub proof fn lemma_layout_key(a: VertexBufferLayout, b: VertexBufferLayout)
    ensures
        layout_key(a).len() == 21,
        layout_key(a) == layout_key(b) ==> a == b,
{
    let a0 = field_key(a.field(VertexInputType::Position));
    let a1 = field_key(a.field(VertexInputType::Normal));
    let a2 = field_key(a.field(VertexInputType::Color));
    let a3 = field_key(a.field(VertexInputType::TexCoord));
    let a4 = field_key(a.field(VertexInputType::TexIndex));
    let b0 = field_key(b.field(VertexInputType::Position));
    let b1 = field_key(b.field(VertexInputType::Normal));
    let b2 = field_key(b.field(VertexInputType::Color));
    let b3 = field_key(b.field(VertexInputType::TexCoord));
    let b4 = field_key(b.field(VertexInputType::TexIndex));
    lemma_field_key(a.field(VertexInputType::Position), b.field(VertexInputType::Position));
    lemma_field_key(a.field(VertexInputType::Normal), b.field(VertexInputType::Normal));
    lemma_field_key(a.field(VertexInputType::Color), b.field(VertexInputType::Color));
    lemma_field_key(a.field(VertexInputType::TexCoord), b.field(VertexInputType::TexCoord));
    lemma_field_key(a.field(VertexInputType::TexIndex), b.field(VertexInputType::TexIndex));
    lemma_field_key(b.field(VertexInputType::Position), b.field(VertexInputType::Position));
    lemma_field_key(b.field(VertexInputType::Normal), b.field(VertexInputType::Normal));
    lemma_field_key(b.field(VertexInputType::Color), b.field(VertexInputType::Color));
    lemma_field_key(b.field(VertexInputType::TexCoord), b.field(VertexInputType::TexCoord));
    lemma_field_key(b.field(VertexInputType::TexIndex), b.field(VertexInputType::TexIndex));
    if layout_key(a) == layout_key(b) {
        lemma_parts_equal(a0 + a1 + a2 + a3 + a4, seq![a.stride], b0 + b1 + b2 + b3 + b4, seq![
            b.stride,
        ]);
        assert(seq![a.stride][0] == seq![b.stride][0]);
        lemma_parts_equal(a0 + a1 + a2 + a3, a4, b0 + b1 + b2 + b3, b4);
        lemma_parts_equal(a0 + a1 + a2, a3, b0 + b1 + b2, b3);
        lemma_parts_equal(a0 + a1, a2, b0 + b1, b2);
        lemma_parts_equal(a0, a1, b0, b1);
        assert forall|which: VertexInputType| a.field(which) == b.field(which) by {
            match which {
                VertexInputType::Position => {},
                VertexInputType::Normal => {},
                VertexInputType::Color => {},
                VertexInputType::TexCoord => {},
                VertexInputType::TexIndex => {},
            }
        }
        VertexBufferLayout::lemma_extensional(a, b);
    }
}

/// The four bytes of a 32-bit number are those of no other.
pub proof fn lemma_le_bytes4(a: u32, b: u32)
    ensures
        le_bytes4(a as int).len() == 4,
        le_bytes4(a as int) == le_bytes4(b as int) ==> a == b,
{
    if le_bytes4(a as int) == le_bytes4(b as int) {
        let ka = le_bytes4(a as int);
        let kb = le_bytes4(b as int);
        assert(ka[0] == kb[0] && ka[1] == kb[1] && ka[2] == kb[2] && ka[3] == kb[3]);
        assert(a == (a % 256) + 256 * ((a / 0x100) % 256) + 0x1_0000 * ((a / 0x1_0000) % 256)
            + 0x100_0000 * ((a / 0x100_0000) % 256)) by (bit_vector);
        assert(b == (b % 256) + 256 * ((b / 0x100) % 256) + 0x1_0000 * ((b / 0x1_0000) % 256)
            + 0x100_0000 * ((b / 0x100_0000) % 256)) by (bit_vector);
    }
}

/// Another blend factor has another byte.
pub proof fn lemma_blend_factor_tag(a: BlendFactor, b: BlendFactor)
    ensures
        blend_factor_tag(a) == blend_factor_tag(b) ==> a == b,
{
}

/// Another blend operation has another byte.
pub proof fn lemma_blend_op_tag(a: BlendOp, b: BlendOp)
    ensures
        blend_op_tag(a) == blend_op_tag(b) ==> a == b,
{
}

/// A blend has seven bytes, and another blend has other bytes.
pub proof fn lemma_blend_key(a: Option<AttachmentBlend>, b: Option<AttachmentBlend>)
    ensures
        blend_key(a).len() == 7,
        blend_key(a) == blend_key(b) ==> a == b,
{
    if blend_key(a) == blend_key(b) {
        let ka = blend_key(a);
        let kb = blend_key(b);
        assert(ka[0] == kb[0]);
        match (a, b) {
            (Some(x), Some(y)) => {
                assert(ka[1] == kb[1] && ka[2] == kb[2] && ka[3] == kb[3] && ka[4] == kb[4]
                    && ka[5] == kb[5] && ka[6] == kb[6]);
                lemma_blend_factor_tag(x.src_color_blend_factor, y.src_color_blend_factor);
                lemma_blend_factor_tag(x.dst_color_blend_factor, y.dst_color_blend_factor);
                lemma_blend_op_tag(x.color_blend_op, y.color_blend_op);
                lemma_blend_factor_tag(x.src_alpha_blend_factor, y.src_alpha_blend_factor);
                lemma_blend_factor_tag(x.dst_alpha_blend_factor, y.dst_alpha_blend_factor);
                lemma_blend_op_tag(x.alpha_blend_op, y.alpha_blend_op);
            },
            _ => {},
        }
    }
}

/// The state of the rasterizer has thirteen bytes, and another state has
/// other bytes.
pub proof fn lemma_rasterization_key(
    a: DynamicPipelineRasterization,
    b: DynamicPipelineRasterization,
)
    ensures
        rasterization_key(a).len() == 13,
        rasterization_key(a) == rasterization_key(b) ==> a == b,
{
    lemma_le_bytes4(a.line_width, b.line_width);
    lemma_le_bytes4(b.line_width, b.line_width);
    lemma_blend_key(a.color_blending, b.color_blending);
    lemma_blend_key(b.color_blending, b.color_blending);
    if rasterization_key(a) == rasterization_key(b) {
        let ha = seq![cull_mode_tag(a.cull_mode), front_face_tag(a.front_face)];
        let hb = seq![cull_mode_tag(b.cull_mode), front_face_tag(b.front_face)];
        lemma_parts_equal(
            ha + le_bytes4(a.line_width as int),
            blend_key(a.color_blending),
            hb + le_bytes4(b.line_width as int),
            blend_key(b.color_blending),
        );
        lemma_parts_equal(ha, le_bytes4(a.line_width as int), hb, le_bytes4(b.line_width as int));
        assert(ha[0] == hb[0] && ha[1] == hb[1]);
    }
}

impl ShaderSpec {
    /// The key of a shader specification has thirty-two bytes, and two
    /// specifications have the same key only if they are equal.
    pub proof fn lemma_key_injective(a: ShaderSpec, b: ShaderSpec)
        ensures
            a.key().len() == SHADER_KEY_LEN,
            a.key() == b.key() <==> a == b,
    {
        lemma_layout_key(a.vertex_buffer, b.vertex_buffer);
        lemma_layout_key(b.vertex_buffer, b.vertex_buffer);
        lemma_color_mode_key(a.color, b.color);
        lemma_color_mode_key(b.color, b.color);
        lemma_matrix_mode_key(a.matrix, b.matrix);
        lemma_matrix_mode_key(b.matrix, b.matrix);
        if a.key() == b.key() {
            lemma_parts_equal(
                layout_key(a.vertex_buffer) + color_mode_key(a.color),
                matrix_mode_key(a.matrix),
                layout_key(b.vertex_buffer) + color_mode_key(b.color),
                matrix_mode_key(b.matrix),
            );
            lemma_parts_equal(
                layout_key(a.vertex_buffer),
                color_mode_key(a.color),
                layout_key(b.vertex_buffer),
                color_mode_key(b.color),
            );
        }
    }
}

impl DynamicPipelineSpec {
    /// The key of a pipeline specification has forty-six bytes, and two
    /// specifications have the same key only if they are equal.
    pub proof fn lemma_key_injective(a: DynamicPipelineSpec, b: DynamicPipelineSpec)
        ensures
            a.key().len() == PIPELINE_KEY_LEN,
            a.key() == b.key() <==> a == b,
    {
        ShaderSpec::lemma_key_injective(a.shader_spec(), b.shader_spec());
        ShaderSpec::lemma_key_injective(b.shader_spec(), b.shader_spec());
        lemma_rasterization_key(a.rasterization, b.rasterization);
        lemma_rasterization_key(b.rasterization, b.rasterization);
        if a.key() == b.key() {
            let ha = seq![draw_mode_tag(a.draw_mode)];
            let hb = seq![draw_mode_tag(b.draw_mode)];
            lemma_parts_equal(
                ha + a.shader_spec().key(),
                rasterization_key(a.rasterization),
                hb + b.shader_spec().key(),
                rasterization_key(b.rasterization),
            );
            lemma_parts_equal(ha, a.shader_spec().key(), hb, b.shader_spec().key());
            assert(ha[0] == hb[0]);
        }
    }
}

fn push_data_source(key: &mut Vec<u8>, source: &DataSource)
    ensures
        final(key)@ == old(key)@ + data_source_key(*source),
{
    match source {
        DataSource::PushConstant => {
            key.push(0);
            key.push(0);
            key.push(0);
        },
        DataSource::Uniform { set, binding } => {
            key.push(1);
            key.push(*set);
            key.push(*binding);
        },
    }
    assert(key@ =~= old(key)@ + data_source_key(*source));
}

fn push_color_mode(key: &mut Vec<u8>, color: &ColorMode)
    ensures
        final(key)@ == old(key)@ + color_mode_key(*color),
{
    match color {
        ColorMode::Flat(source) => {
            key.push(0);
            push_data_source(key, source);
        },
        ColorMode::Texture { set, binding } => {
            key.push(1);
            key.push(*set);
            key.push(*binding);
            key.push(0);
        },
        ColorMode::Array => {
            key.push(2);
            key.push(0);
            key.push(0);
            key.push(0);
        },
    }
    assert(key@ =~= old(key)@ + color_mode_key(*color));
}

fn push_matrix_mode(key: &mut Vec<u8>, matrix: &ShaderMatrixMode)
    ensures
        final(key)@ == old(key)@ + matrix_mode_key(*matrix),
{
    match matrix {
        ShaderMatrixMode::MVP(source) => {
            key.push(0);
            push_data_source(key, source);
            key.push(0);
            key.push(0);
            key.push(0);
        },
        ShaderMatrixMode::VP_M(vp, model) => {
            key.push(1);
            push_data_source(key, vp);
            push_data_source(key, model);
        },
    }
    assert(key@ =~= old(key)@ + matrix_mode_key(*matrix));
}

fn data_type_byte(t: PointerDataType) -> (r: u8)
    ensures
        r == data_type_tag(t),
{
    match t {
        PointerDataType::U8 => 0,
        PointerDataType::I8 => 1,
        PointerDataType::U16 => 2,
        PointerDataType::I16 => 3,
        PointerDataType::U32 => 4,
        PointerDataType::I32 => 5,
        PointerDataType::F32 => 6,
        PointerDataType::F64 => 7,
    }
}

fn push_field(key: &mut Vec<u8>, field: Option<&VertexInputSpec>)
    ensures
        final(key)@ == old(key)@ + field_key(
            match field {
                Some(f) => Some(*f),
                None => None,
            },
        ),
{
    match field {
        None => {
            key.push(0);
            key.push(0);
            key.push(0);
            key.push(0);
            assert(key@ =~= old(key)@ + field_key(None));
        },
        Some(f) => {
            key.push(1);
            key.push(data_type_byte(f.data_type));
            key.push(f.num_elements);
            key.push(f.offset);
            assert(key@ =~= old(key)@ + field_key(Some(*f)));
        },
    }
}

/// Putting texts together gives the same text in whatever order it is done.
proof fn lemma_concat6(
    k: Seq<u8>,
    a: Seq<u8>,
    b: Seq<u8>,
    c: Seq<u8>,
    d: Seq<u8>,
    e: Seq<u8>,
    f: Seq<u8>,
)
    ensures
        k + a + b + c + d + e + f == k + (a + b + c + d + e + f),
{
    assert(k + a + b + c + d + e + f =~= k + (a + b + c + d + e + f));
}

fn push_layout(key: &mut Vec<u8>, layout: &VertexBufferLayout)
    ensures
        final(key)@ == old(key)@ + layout_key(*layout),
{
    let ghost k0 = key@;
    let ghost f0 = field_key(layout.field(VertexInputType::Position));
    let ghost f1 = field_key(layout.field(VertexInputType::Normal));
    let ghost f2 = field_key(layout.field(VertexInputType::Color));
    let ghost f3 = field_key(layout.field(VertexInputType::TexCoord));
    let ghost f4 = field_key(layout.field(VertexInputType::TexIndex));
    push_field(key, layout.position());
    assert(key@ == k0 + f0);
    push_field(key, layout.normal());
    assert(key@ == k0 + f0 + f1);
    push_field(key, layout.color());
    assert(key@ == k0 + f0 + f1 + f2);
    push_field(key, layout.texcoord());
    assert(key@ == k0 + f0 + f1 + f2 + f3);
    push_field(key, layout.texindex());
    assert(key@ == k0 + f0 + f1 + f2 + f3 + f4);
    key.push(layout.stride);
    assert(key@ == k0 + f0 + f1 + f2 + f3 + f4 + seq![layout.stride]);
    proof {
        lemma_concat6(k0, f0, f1, f2, f3, f4, seq![layout.stride]);
    }
}

fn blend_factor_byte(f: BlendFactor) -> (r: u8)
    ensures
        r == blend_factor_tag(f),
{
    match f {
        BlendFactor::Zero => 0,
        BlendFactor::One => 1,
        BlendFactor::SrcColor => 2,
        BlendFactor::OneMinusSrcColor => 3,
        BlendFactor::DstColor => 4,
        BlendFactor::OneMinusDstColor => 5,
        BlendFactor::SrcAlpha => 6,
        BlendFactor::OneMinusSrcAlpha => 7,
        BlendFactor::DstAlpha => 8,
        BlendFactor::OneMinusDstAlpha => 9,
        BlendFactor::ConstantColor => 10,
        BlendFactor::OneMinusConstantColor => 11,
        BlendFactor::ConstantAlpha => 12,
        BlendFactor::OneMinusConstantAlpha => 13,
        BlendFactor::SrcAlphaSaturate => 14,
        BlendFactor::Src1Color => 15,
        BlendFactor::OneMinusSrc1Color => 16,
        BlendFactor::Src1Alpha => 17,
        BlendFactor::OneMinusSrc1Alpha => 18,
    }
}

fn blend_op_byte(o: BlendOp) -> (r: u8)
    ensures
        r == blend_op_tag(o),
{
    match o {
        BlendOp::Add => 0,
        BlendOp::Subtract => 1,
        BlendOp::ReverseSubtract => 2,
        BlendOp::Min => 3,
        BlendOp::Max => 4,
    }
}

fn push_rasterization(key: &mut Vec<u8>, state: &DynamicPipelineRasterization)
    ensures
        final(key)@ == old(key)@ + rasterization_key(*state),
{
    key.push(
        match state.cull_mode {
            CullMode::Nothing => 0,
            CullMode::Front => 1,
            CullMode::Back => 2,
            CullMode::FrontAndBack => 3,
        },
    );
    key.push(
        match state.front_face {
            FrontFace::CounterClockwise => 0,
            FrontFace::Clockwise => 1,
        },
    );
    let width = state.line_width;
    key.push((width % 256) as u8);
    key.push((width / 0x100 % 256) as u8);
    key.push((width / 0x1_0000 % 256) as u8);
    key.push((width / 0x100_0000 % 256) as u8);
    match &state.color_blending {
        None => {
            key.push(0);
            key.push(0);
            key.push(0);
            key.push(0);
            key.push(0);
            key.push(0);
            key.push(0);
        },
        Some(blend) => {
            key.push(1);
            key.push(blend_factor_byte(blend.src_color_blend_factor));
            key.push(blend_factor_byte(blend.dst_color_blend_factor));
            key.push(blend_op_byte(blend.color_blend_op));
            key.push(blend_factor_byte(blend.src_alpha_blend_factor));
            key.push(blend_factor_byte(blend.dst_alpha_blend_factor));
            key.push(blend_op_byte(blend.alpha_blend_op));
        },
    }
    assert(key@ =~= old(key)@ + rasterization_key(*state));
}

fn draw_mode_byte(m: DrawMode) -> (r: u8)
    ensures
        r == draw_mode_tag(m),
{
    match m {
        DrawMode::Points => 0,
        DrawMode::LineStrip => 1,
        DrawMode::LineLoop => 2,
        DrawMode::Lines => 3,
        DrawMode::LineStripAdj => 4,
        DrawMode::LinesAdj => 5,
        DrawMode::TriStrip => 6,
        DrawMode::TriFan => 7,
        DrawMode::Tri => 8,
        DrawMode::TriStripAdj => 9,
        DrawMode::TriAdj => 10,
    }
}

impl ShaderSpec {
    /// The key under which the shaders of the specification are kept.
    pub fn cache_key(&self) -> (r: Vec<u8>)
        ensures
            r@ == self.key(),
    {
        let mut key: Vec<u8> = Vec::new();
        push_layout(&mut key, &self.vertex_buffer);
        push_color_mode(&mut key, &self.color);
        push_matrix_mode(&mut key, &self.matrix);
        assert(key@ =~= self.key());
        key
    }
}

impl DynamicPipelineSpec {
    /// The key under which the pipeline of the specification is kept.
    pub fn cache_key(&self) -> (r: Vec<u8>)
        ensures
            r@ == self.key(),
    {
        let mut key: Vec<u8> = Vec::new();
        key.push(draw_mode_byte(self.draw_mode));
        push_layout(&mut key, &self.vertex_buffer);
        push_color_mode(&mut key, &self.color);
        push_matrix_mode(&mut key, &self.matrix);
        push_rasterization(&mut key, &self.rasterization);
        assert(key@ =~= self.key());
        key
    }

    /// Whether two specifications ask the same of the graphics device.
    pub fn equals(&self, other: &DynamicPipelineSpec) -> (r: bool)
        ensures
            r == (*self == *other),
    {
        let mine = self.cache_key();
        let theirs = other.cache_key();
        proof {
            Self::lemma_key_injective(*self, *other);
        }
        let mut i: usize = 0;
        if mine.len() != theirs.len() {
            return false;
        }
        while i < mine.len()
            invariant
                0 <= i <= mine@.len(),
                mine@.len() == theirs@.len(),
                mine@ == self.key(),
                theirs@ == other.key(),
                self.key() == other.key() <==> *self == *other,
                forall|j: int| 0 <= j < i ==> mine@[j] == theirs@[j],
            decreases mine@.len() - i,
        {
            if mine[i] != theirs[i] {
                return false;
            }
            i += 1;
        }
        assert(mine@ =~= theirs@);
        true
    }
}

} // verus!
