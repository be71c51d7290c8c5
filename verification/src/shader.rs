//! The source text of the shaders of a pipeline.

use vstd::prelude::*;
use vstd::string::StringExecFns;
use crate::gl::PointerDataType;
use crate::layout::VertexInputSpec;
use crate::layout::VertexInputType;
use crate::pipeline::ColorMode;
use crate::pipeline::DataSource;
use crate::pipeline::ShaderMatrixMode;
use crate::pipeline::ShaderSpec;

verus! {

/// A vector of up to four items of one numeric type, named by the type of
/// its items; the number is that of the items.
#[derive(Clone, Copy, Debug, PartialEq, Eq, Structural)]
pub enum VectorDataType {
    U8(u8),
    I8(u8),
    U16(u8),
    I16(u8),
    U32(u8),
    I32(u8),
    F32(u8),
    F64(u8),
}

/// The format of a vertex attribute: one to four single- or
/// double-precision numbers.
#[allow(non_camel_case_types)]
#[derive(Clone, Copy, Debug, PartialEq, Eq, Structural, Hash)]
pub enum VertexFormat {
    R32_SFLOAT,
    R32G32_SFLOAT,
    R32G32B32_SFLOAT,
    R32G32B32A32_SFLOAT,
    R64_SFLOAT,
    R64G64_SFLOAT,
    R64G64B64_SFLOAT,
    R64G64B64A64_SFLOAT,
}

impl VectorDataType {
    /// The vector of `size` items of a type.
    pub open spec fn of(item_type: PointerDataType, size: u8) -> VectorDataType {
        match item_type {
            PointerDataType::U8 => VectorDataType::U8(size),
            PointerDataType::I8 => VectorDataType::I8(size),
            PointerDataType::U16 => VectorDataType::U16(size),
            PointerDataType::I16 => VectorDataType::I16(size),
            PointerDataType::U32 => VectorDataType::U32(size),
            PointerDataType::I32 => VectorDataType::I32(size),
            PointerDataType::F32 => VectorDataType::F32(size),
            PointerDataType::F64 => VectorDataType::F64(size),
        }
    }

    /// The type of the items.
    pub open spec fn item_type(&self) -> PointerDataType {
        match self {
            VectorDataType::U8(_) => PointerDataType::U8,
            VectorDataType::I8(_) => PointerDataType::I8,
            VectorDataType::U16(_) => PointerDataType::U16,
            VectorDataType::I16(_) => PointerDataType::I16,
            VectorDataType::U32(_) => PointerDataType::U32,
            VectorDataType::I32(_) => PointerDataType::I32,
            VectorDataType::F32(_) => PointerDataType::F32,
            VectorDataType::F64(_) => PointerDataType::F64,
        }
    }

    /// The type of the items.
    #[verifier::when_used_as_spec(item_type)]
    pub fn ordinal(&self) -> (r: PointerDataType)
        ensures
            r == self.item_type(),
    {
        match self {
            VectorDataType::U8(_) => PointerDataType::U8,
            VectorDataType::I8(_) => PointerDataType::I8,
            VectorDataType::U16(_) => PointerDataType::U16,
            VectorDataType::I16(_) => PointerDataType::I16,
            VectorDataType::U32(_) => PointerDataType::U32,
            VectorDataType::I32(_) => PointerDataType::I32,
            VectorDataType::F32(_) => PointerDataType::F32,
            VectorDataType::F64(_) => PointerDataType::F64,
        }
    }

    /// The number of items.
    pub open spec fn spec_size(&self) -> u8 {
        match self {
            VectorDataType::U8(size)
            | VectorDataType::I8(size)
            | VectorDataType::U16(size)
            | VectorDataType::I16(size)
            | VectorDataType::U32(size)
            | VectorDataType::I32(size)
            | VectorDataType::F32(size)
            | VectorDataType::F64(size) => *size,
        }
    }

    /// The number of items.
    #[verifier::when_used_as_spec(spec_size)]
    pub fn size(&self) -> (r: u8)
        ensures
            r == self.spec_size(),
            *self == Self::of(self.item_type(), r),
    {
        match self {
            VectorDataType::U8(size) => *size,
            VectorDataType::I8(size) => *size,
            VectorDataType::U16(size) => *size,
            VectorDataType::I16(size) => *size,
            VectorDataType::U32(size) => *size,
            VectorDataType::I32(size) => *size,
            VectorDataType::F32(size) => *size,
            VectorDataType::F64(size) => *size,
        }
    }

    /// The text that widens a vector to four items inside a constructor: a
    /// zero for each item that is missing.
    pub open spec fn widening_zeroes(&self) -> Seq<char> {
        if self.spec_size() == 1 {
            ", 0.0, 0.0, 0.0"@
        } else if self.spec_size() == 2 {
            ", 0.0, 0.0"@
        } else if self.spec_size() == 3 {
            ", 0.0"@
        } else {
            ""@
        }
    }

    /// The text that widens a vector to four items inside a constructor.
    pub fn get_widening_zeroes(&self) -> (r: &'static str)
        ensures
            r@ == self.widening_zeroes(),
    {
        let size = self.size();
        if size == 1 {
            ", 0.0, 0.0, 0.0"
        } else if size == 2 {
            ", 0.0, 0.0"
        } else if size == 3 {
            ", 0.0"
        } else {
            ""
        }
    }

    /// The text that completes a vector to a point of four coordinates
    /// inside a constructor: a zero for each coordinate that is missing,
    /// but a one for the last.
    pub open spec fn point_completion(&self) -> Seq<char> {
        if self.spec_size() == 1 {
            ", 0.0, 0.0, 1.0"@
        } else if self.spec_size() == 2 {
            ", 0.0, 1.0"@
        } else if self.spec_size() == 3 {
            ", 1.0"@
        } else {
            ""@
        }
    }

    /// The text that completes a vector to a point of four coordinates
    /// inside a constructor.
    pub fn get_point_completion(&self) -> (r: &'static str)
        ensures
            r@ == self.point_completion(),
    {
        let size = self.size();
        if size == 1 {
            ", 0.0, 0.0, 1.0"
        } else if size == 2 {
            ", 0.0, 1.0"
        } else if size == 3 {
            ", 1.0"
        } else {
            ""
        }
    }

    /// The first part of the name of the type in a shader: the scalar type
    /// for a single item, the vector type without its length for more.
    pub open spec fn type_prefix(&self) -> Seq<char> {
        let scalar = self.spec_size() <= 1;
        match self {
            VectorDataType::U8(_) | VectorDataType::U16(_) | VectorDataType::U32(_) => if scalar {
                "uint"@
            } else {
                "uvec"@
            },
            VectorDataType::I8(_) | VectorDataType::I16(_) | VectorDataType::I32(_) => if scalar {
                "int"@
            } else {
                "ivec"@
            },
            VectorDataType::F32(_) => if scalar {
                "float"@
            } else {
                "vec"@
            },
            VectorDataType::F64(_) => if scalar {
                "double"@
            } else {
                "dvec"@
            },
        }
    }

    /// The second part of the name of the type in a shader: the length of a
    /// vector, nothing for a single item.
    pub open spec fn type_suffix(&self) -> Seq<char> {
        if self.spec_size() <= 1 {
            ""@
        } else if self.spec_size() == 2 {
            "2"@
        } else if self.spec_size() == 3 {
            "3"@
        } else {
            "4"@
        }
    }

    /// The two parts of the name of the type in a shader.
    pub fn as_strs(&self) -> (r: (&'static str, &'static str))
        requires
            self.spec_size() <= 4,
        ensures
            r.0@ == self.type_prefix(),
            r.1@ == self.type_suffix(),
    {
        let size = self.size();
        if size <= 1 {
            match self {
                VectorDataType::U8(_) | VectorDataType::U16(_) | VectorDataType::U32(_) => (
                    "uint",
                    "",
                ),
                VectorDataType::I8(_) | VectorDataType::I16(_) | VectorDataType::I32(_) => (
                    "int",
                    "",
                ),
                VectorDataType::F32(_) => ("float", ""),
                VectorDataType::F64(_) => ("double", ""),
            }
        } else {
            let suffix = if size == 2 {
                "2"
            } else if size == 3 {
                "3"
            } else {
                "4"
            };
            match self {
                VectorDataType::U8(_) | VectorDataType::U16(_) | VectorDataType::U32(_) => (
                    "uvec",
                    suffix,
                ),
                VectorDataType::I8(_) | VectorDataType::I16(_) | VectorDataType::I32(_) => (
                    "ivec",
                    suffix,
                ),
                VectorDataType::F32(_) => ("vec", suffix),
                VectorDataType::F64(_) => ("dvec", suffix),
            }
        }
    }

    /// Whether a vertex attribute can have this type: one to four
    /// floating-point numbers.
    pub open spec fn has_format(&self) -> bool {
        self.item_type().spec_is_float() && 1 <= self.spec_size() <= 4
    }

    /// The format of a vertex attribute of this type.
    pub open spec fn format(&self) -> VertexFormat
        recommends
            self.has_format(),
    {
        match self {
            VectorDataType::F64(size) => if *size == 1 {
                VertexFormat::R64_SFLOAT
            } else if *size == 2 {
                VertexFormat::R64G64_SFLOAT
            } else if *size == 3 {
                VertexFormat::R64G64B64_SFLOAT
            } else {
                VertexFormat::R64G64B64A64_SFLOAT
            },
            _ => if self.spec_size() == 1 {
                VertexFormat::R32_SFLOAT
            } else if self.spec_size() == 2 {
                VertexFormat::R32G32_SFLOAT
            } else if self.spec_size() == 3 {
                VertexFormat::R32G32B32_SFLOAT
            } else {
                VertexFormat::R32G32B32A32_SFLOAT
            },
        }
    }

    /// The format of a vertex attribute of this type.
    pub fn as_format(&self) -> (r: VertexFormat)
        requires
            self.has_format(),
        ensures
            r == self.format(),
    {
        match self {
            VectorDataType::F64(size) => if *size == 1 {
                VertexFormat::R64_SFLOAT
            } else if *size == 2 {
                VertexFormat::R64G64_SFLOAT
            } else if *size == 3 {
                VertexFormat::R64G64B64_SFLOAT
            } else {
                VertexFormat::R64G64B64A64_SFLOAT
            },
            _ => {
                let size = self.size();
                if size == 1 {
                    VertexFormat::R32_SFLOAT
                } else if size == 2 {
                    VertexFormat::R32G32_SFLOAT
                } else if size == 3 {
                    VertexFormat::R32G32B32_SFLOAT
                } else {
                    VertexFormat::R32G32B32A32_SFLOAT
                }
            },
        }
    }
}

impl VertexInputSpec {
    /// The type of the field as a vector.
    pub open spec fn vector(&self) -> VectorDataType {
        VectorDataType::of(self.data_type, self.num_elements)
    }

    /// The type of the field as a vector.
    pub fn as_vector(&self) -> (r: VectorDataType)
        requires
            self.num_elements <= 4,
        ensures
            r == self.vector(),
    {
        match self.data_type {
            PointerDataType::U8 => VectorDataType::U8(self.num_elements),
            PointerDataType::I8 => VectorDataType::I8(self.num_elements),
            PointerDataType::U16 => VectorDataType::U16(self.num_elements),
            PointerDataType::I16 => VectorDataType::I16(self.num_elements),
            PointerDataType::U32 => VectorDataType::U32(self.num_elements),
            PointerDataType::I32 => VectorDataType::I32(self.num_elements),
            PointerDataType::F32 => VectorDataType::F32(self.num_elements),
            PointerDataType::F64 => VectorDataType::F64(self.num_elements),
        }
    }
}

/// The empty text is empty.
pub proof fn lemma_empty_text()
    ensures
        ""@ =~= Seq::<char>::empty(),
{
    reveal_strlit("");
}

/// The decimal digit of a number below ten.
pub open spec fn digit_text(d: nat) -> Seq<char> {
    if d == 0 {
        "0"@
    } else if d == 1 {
        "1"@
    } else if d == 2 {
        "2"@
    } else if d == 3 {
        "3"@
    } else if d == 4 {
        "4"@
    } else if d == 5 {
        "5"@
    } else if d == 6 {
        "6"@
    } else if d == 7 {
        "7"@
    } else if d == 8 {
        "8"@
    } else {
        "9"@
    }
}

/// A number in decimal digits, without leading zeros.
pub open spec fn decimal_text(n: nat) -> Seq<char>
    decreases n,
{
    if n < 10 {
        digit_text(n)
    } else {
        decimal_text(n / 10) + digit_text(n % 10)
    }
}

/// The decimal digit of a number below ten.
fn digit_str(d: u32) -> (r: &'static str)
    requires
        d < 10,
    ensures
        r@ == digit_text(d as nat),
{
    if d == 0 {
        "0"
    } else if d == 1 {
        "1"
    } else if d == 2 {
        "2"
    } else if d == 3 {
        "3"
    } else if d == 4 {
        "4"
    } else if d == 5 {
        "5"
    } else if d == 6 {
        "6"
    } else if d == 7 {
        "7"
    } else if d == 8 {
        "8"
    } else {
        "9"
    }
}

/// Appends a number in decimal digits.
pub fn append_decimal(code: &mut String, n: u32)
    ensures
        final(code)@ == old(code)@ + decimal_text(n as nat),
    decreases n,
{
    if n >= 10 {
        append_decimal(code, n / 10);
    }
    code.append(digit_str(n % 10));
    assert(code@ =~= old(code)@ + decimal_text(n as nat));
}

/// The declaration of a variable that a shader stage takes in or gives out
/// at a location.
pub open spec fn io_text(
    location: nat,
    is_input: bool,
    var_type: VectorDataType,
    name: Seq<char>,
) -> Seq<char> {
    "layout(location = "@ + decimal_text(location) + (if is_input {
        ") in "@
    } else {
        ") out "@
    }) + var_type.type_prefix() + var_type.type_suffix() + " "@ + name + ";\n"@
}

/// The declaration of a descriptor binding up to the name of its kind.
pub open spec fn binding_text(set: u8, binding: u8) -> Seq<char> {
    "layout (set = "@ + decimal_text(set as nat) + ", binding = "@ + decimal_text(binding as nat)
        + ") uniform "@
}

impl ShaderSpec {
    /// Whether shaders can be written for the specification: the vertices
    /// have a position, of every field that a shader reads there are at
    /// most four items, and the field that the colour mode reads is there.
    pub open spec fn shadeable(&self) -> bool {
        &&& self.vertex_buffer.field(VertexInputType::Position) matches Some(f)
            && f.num_elements <= 4
        &&& self.vertex_buffer.field(VertexInputType::Normal) matches Some(f) ==> f.num_elements
            <= 4
        &&& self.color is Texture ==> (self.vertex_buffer.field(VertexInputType::TexCoord) matches Some(
            f,
        ) && f.num_elements <= 4)
        &&& self.color is Array ==> (self.vertex_buffer.field(VertexInputType::Color) matches Some(
            f,
        ) && f.num_elements <= 4)
    }

    /// Whether shaders can be written for the specification.
    pub fn is_shadeable(&self) -> (r: bool)
        ensures
            r == self.shadeable(),
    {
        let position_fits = match self.vertex_buffer.position() {
            Some(f) => f.num_elements <= 4,
            None => false,
        };
        let normal_fits = match self.vertex_buffer.normal() {
            Some(f) => f.num_elements <= 4,
            None => true,
        };
        let color_fits = match self.color {
            ColorMode::Texture { .. } => match self.vertex_buffer.texcoord() {
                Some(f) => f.num_elements <= 4,
                None => false,
            },
            ColorMode::Array => match self.vertex_buffer.color() {
                Some(f) => f.num_elements <= 4,
                None => false,
            },
            ColorMode::Flat(_) => true,
        };
        position_fits && normal_fits && color_fits
    }

    /// Appends the declaration of a variable that a stage takes in.
    fn append_input(code: &mut String, location: u32, var_type: &VectorDataType, name: &str)
        requires
            var_type.spec_size() <= 4,
        ensures
            final(code)@ == old(code)@ + io_text(location as nat, true, *var_type, name@),
    {
        Self::append_io(code, location, true, var_type, name);
    }

    /// Appends the declaration of a variable that a stage gives out.
    fn append_output(code: &mut String, location: u32, var_type: &VectorDataType, name: &str)
        requires
            var_type.spec_size() <= 4,
        ensures
            final(code)@ == old(code)@ + io_text(location as nat, false, *var_type, name@),
    {
        Self::append_io(code, location, false, var_type, name);
    }

    /// Appends the declaration of a variable of a stage.
    fn append_io(
        code: &mut String,
        location: u32,
        is_input: bool,
        var_type: &VectorDataType,
        name: &str,
    )
        requires
            var_type.spec_size() <= 4,
        ensures
            final(code)@ == old(code)@ + io_text(location as nat, is_input, *var_type, name@),
    {
        let (tprefix, tsuffix) = var_type.as_strs();
        code.append("layout(location = ");
        append_decimal(code, location);
        code.append(
            if is_input {
                ") in "
            } else {
                ") out "
            },
        );
        code.append(tprefix);
        code.append(tsuffix);
        code.append(" ");
        code.append(name);
        code.append(";\n");
        assert(code@ =~= old(code)@ + io_text(location as nat, is_input, *var_type, name@));
    }

    /// Appends the declaration of a descriptor binding up to the name of its
    /// kind.
    fn append_binding(code: &mut String, set: u8, binding: u8)
        ensures
            final(code)@ == old(code)@ + binding_text(set, binding),
    {
        code.append("layout (set = ");
        append_decimal(code, set as u32);
        code.append(", binding = ");
        append_decimal(code, binding as u32);
        code.append(") uniform ");
        assert(code@ =~= old(code)@ + binding_text(set, binding));
    }

    /// The position field of the vertices.
    fn position(&self) -> (r: &VertexInputSpec)
        requires
            self.vertex_buffer.field(VertexInputType::Position) is Some,
        ensures
            Some(*r) == self.vertex_buffer.field(VertexInputType::Position),
    {
        match self.vertex_buffer.position() {
            Some(field) => field,
            None => vstd::pervasive::unreached(),
        }
    }

    /// The normal field of the vertices, if they have one.
    fn normal(&self) -> (r: Option<&VertexInputSpec>)
        ensures
            match r {
                Some(f) => self.vertex_buffer.field(VertexInputType::Normal) == Some(*f),
                None => self.vertex_buffer.field(VertexInputType::Normal) is None,
            },
    {
        self.vertex_buffer.normal()
    }

    /// The texture coordinate field of the vertices, if they have one.
    fn texcoord(&self) -> (r: Option<&VertexInputSpec>)
        ensures
            match r {
                Some(f) => self.vertex_buffer.field(VertexInputType::TexCoord) == Some(*f),
                None => self.vertex_buffer.field(VertexInputType::TexCoord) is None,
            },
    {
        self.vertex_buffer.texcoord()
    }

    /// The colour field of the vertices, if they have one.
    fn color(&self) -> (r: Option<&VertexInputSpec>)
        ensures
            match r {
                Some(f) => self.vertex_buffer.field(VertexInputType::Color) == Some(*f),
                None => self.vertex_buffer.field(VertexInputType::Color) is None,
            },
    {
        self.vertex_buffer.color()
    }
}

impl ShaderSpec {
    /// The position field as a vector.
    pub open spec fn position_vector(&self) -> VectorDataType {
        self.vertex_buffer.field(VertexInputType::Position).unwrap().vector()
    }

    /// Whether the vertices have a normal.
    pub open spec fn has_normal(&self) -> bool {
        self.vertex_buffer.field(VertexInputType::Normal) is Some
    }

    /// The declarations of what the vertex shader reads from the vertices:
    /// the position, the normal where there is one, and the texture
    /// coordinates or the colour where the colour mode reads them.
    pub open spec fn vertex_inputs_text(&self) -> Seq<char> {
        io_text(0, true, self.position_vector(), "position_in"@) + (if self.has_normal() {
            io_text(
                1,
                true,
                self.vertex_buffer.field(VertexInputType::Normal).unwrap().vector(),
                "normal_in"@,
            )
        } else {
            ""@
        }) + (match self.color {
            ColorMode::Flat(_) => ""@,
            ColorMode::Texture { .. } => io_text(
                2,
                true,
                self.vertex_buffer.field(VertexInputType::TexCoord).unwrap().vector(),
                "texcoord_in"@,
            ),
            ColorMode::Array => io_text(
                2,
                true,
                self.vertex_buffer.field(VertexInputType::Color).unwrap().vector(),
                "color_in"@,
            ),
        })
    }

    /// Whether the matrices are push constants.
    pub open spec fn pushes_matrix(&self) -> bool {
        self.matrix == ShaderMatrixMode::MVP(DataSource::PushConstant) || self.matrix
            == ShaderMatrixMode::VP_M(DataSource::PushConstant, DataSource::PushConstant)
    }

    /// Whether the flat colour is a push constant.
    pub open spec fn pushes_color(&self) -> bool {
        self.color == ColorMode::Flat(DataSource::PushConstant)
    }

    /// The block of push constants: the matrices and the flat colour, as far
    /// as they are push constants. Where neither is, there is no block.
    pub open spec fn push_constants_text(&self) -> Seq<char> {
        if !self.pushes_matrix() && !self.pushes_color() {
            ""@
        } else {
            "layout(push_constant) uniform constants {\n"@ + (match self.matrix {
                ShaderMatrixMode::MVP(DataSource::PushConstant) => "  mat4 mvp;\n"@,
                ShaderMatrixMode::VP_M(DataSource::PushConstant, DataSource::PushConstant) => {
                    "  mat4 model;\n"@ + "  mat4 vp;\n"@
                },
                _ => ""@,
            }) + (if self.pushes_color() {
                "  vec4 color;\n"@
            } else {
                ""@
            }) + "} PushConstants;\n"@
        }
    }

    /// The declarations of the uniform blocks: the matrices and the flat
    /// colour, as far as they are uniforms.
    pub open spec fn uniforms_text(&self) -> Seq<char> {
        (match self.matrix {
            ShaderMatrixMode::MVP(DataSource::Uniform { set, binding }) => binding_text(
                set,
                binding,
            ) + "MVPUniformData { mat4 matrix; } MVPUniform;\n"@,
            ShaderMatrixMode::VP_M(
                DataSource::Uniform { set: vp_set, binding: vp_binding },
                DataSource::Uniform { set: model_set, binding: model_binding },
            ) => binding_text(vp_set, vp_binding) + "VPUniformData { mat4 matrix; } VPUniform;\n"@
                + binding_text(model_set, model_binding)
                + "MUniformData { mat4 matrix; } MUniform;\n"@,
            _ => ""@,
        }) + (match self.color {
            ColorMode::Flat(DataSource::Uniform { set, binding }) => binding_text(set, binding)
                + "ColorUniformData { vec4 color; } ColorUniform;\n"@,
            _ => ""@,
        })
    }

    /// The declarations of what the vertex shader hands to the fragment
    /// shader: the texture coordinates or else the colour, and the normal
    /// where there is one.
    pub open spec fn vertex_outputs_text(&self) -> Seq<char> {
        (match self.color {
            ColorMode::Texture { .. } => io_text(
                0,
                false,
                VectorDataType::F32(2),
                "tex_coord_out"@,
            ),
            _ => io_text(0, false, VectorDataType::F32(4), "frag_color_out"@),
        }) + (if self.has_normal() {
            io_text(1, false, VectorDataType::F32(3), "normal_out"@)
        } else {
            ""@
        })
    }

    /// The statement of the vertex shader that transforms the position: the
    /// matrix, or the product of the two matrices, times the position as a
    /// point of four coordinates.
    pub open spec fn transform_text(&self) -> Seq<char> {
        let point = "vec4(position_in"@ + self.position_vector().point_completion() + ");\n"@;
        match self.matrix {
            ShaderMatrixMode::MVP(DataSource::PushConstant) => {
                "  gl_Position = PushConstants.mvp * "@ + point
            },
            ShaderMatrixMode::MVP(DataSource::Uniform { .. }) => {
                "  gl_Position = MVPUniform.matrix * "@ + point
            },
            ShaderMatrixMode::VP_M(DataSource::PushConstant, DataSource::PushConstant) => {
                "  gl_Position = PushConstants.vp * PushConstants.model * "@ + point
            },
            ShaderMatrixMode::VP_M(DataSource::Uniform { .. }, DataSource::Uniform { .. }) => {
                "  gl_Position = VPUniform.matrix * MUniform.matrix * "@ + point
            },
            _ => ""@,
        }
    }

    /// The statement of the vertex shader that hands on the colour or the
    /// texture coordinates. A colour from the vertices is completed to
    /// four items, the last of which is one.
    pub open spec fn color_statement_text(&self) -> Seq<char> {
        match self.color {
            ColorMode::Flat(DataSource::PushConstant) => {
                "  frag_color_out = PushConstants.color;\n"@
            },
            ColorMode::Flat(DataSource::Uniform { .. }) => {
                "  frag_color_out = ColorUniform.color;\n"@
            },
            ColorMode::Texture { .. } => "  tex_coord_out = texcoord_in;\n"@,
            ColorMode::Array => "  frag_color_out = vec4(color_in"@ + self.vertex_buffer.field(
                VertexInputType::Color,
            ).unwrap().vector().point_completion() + ");\n"@,
        }
    }

    /// The body of the vertex shader.
    pub open spec fn vertex_main_text(&self) -> Seq<char> {
        "void main() {\n"@ + self.transform_text() + self.color_statement_text() + (
        if self.has_normal() {
            "  normal_out = normal_in;\n"@
        } else {
            ""@
        }) + "}\n"@
    }

    /// The source text of the vertex shader.
    pub open spec fn vertex_shader_text(&self) -> Seq<char> {
        "#version 450\n"@ + self.vertex_inputs_text() + self.push_constants_text()
            + self.uniforms_text() + self.vertex_outputs_text() + self.vertex_main_text()
    }

    /// The source text of the fragment shader.
    pub open spec fn fragment_shader_text(&self) -> Seq<char> {
        "#version 450\n"@ + (match self.color {
            ColorMode::Texture { set, binding } => binding_text(set, binding)
                + "sampler2D texture_sampler;\n"@,
            _ => ""@,
        }) + (match self.color {
            ColorMode::Texture { .. } => io_text(0, true, VectorDataType::F32(2), "tex_coord_in"@),
            _ => io_text(0, true, VectorDataType::F32(4), "frag_color_in"@),
        }) + (if self.has_normal() {
            io_text(1, true, VectorDataType::F32(3), "normal_in"@)
        } else {
            ""@
        }) + io_text(0, false, VectorDataType::F32(4), "frag_color_out"@) + (if self.has_normal() {
            io_text(1, false, VectorDataType::F32(3), "normal_out"@)
        } else {
            ""@
        }) + "void main() {\n"@ + (match self.color {
            ColorMode::Texture { .. } => {
                "  frag_color_out = texture(texture_sampler, tex_coord_in);\n"@
            },
            _ => "  frag_color_out = frag_color_in;\n"@,
        }) + (if self.has_normal() {
            "  normal_out = normal_in;\n"@
        } else {
            ""@
        }) + "}\n"@
    }
}

impl ShaderSpec {
    fn append_vertex_inputs(&self, code: &mut String)
        requires
            self.shadeable(),
        ensures
            final(code)@ == old(code)@ + self.vertex_inputs_text(),
    {
        proof {
            lemma_empty_text();
        }
        Self::append_input(code, 0, &self.position().as_vector(), "position_in");
        let ghost with_position = code@;
        match self.normal() {
            Some(normal) => {
                Self::append_input(code, 1, &normal.as_vector(), "normal_in");
            },
            None => {
                assert(code@ =~= with_position + ""@);
            },
        }
        let ghost with_normal = code@;
        match &self.color {
            ColorMode::Flat(_) => {
                assert(code@ =~= with_normal + ""@);
            },
            ColorMode::Texture { .. } => {
                match self.texcoord() {
                    Some(texcoord) => {
                        Self::append_input(code, 2, &texcoord.as_vector(), "texcoord_in");
                    },
                    None => {},
                }
            },
            ColorMode::Array => {
                match self.color() {
                    Some(color) => {
                        Self::append_input(code, 2, &color.as_vector(), "color_in");
                    },
                    None => {},
                }
            },
        }
        assert(code@ =~= old(code)@ + self.vertex_inputs_text());
    }

    fn append_push_constants(&self, code: &mut String)
        ensures
            final(code)@ == old(code)@ + self.push_constants_text(),
    {
        proof {
            lemma_empty_text();
        }
        let pushes_matrix = match &self.matrix {
            ShaderMatrixMode::MVP(DataSource::PushConstant) => true,
            ShaderMatrixMode::VP_M(DataSource::PushConstant, DataSource::PushConstant) => true,
            _ => false,
        };
        let pushes_color = match &self.color {
            ColorMode::Flat(DataSource::PushConstant) => true,
            _ => false,
        };
        if !pushes_matrix && !pushes_color {
            assert(code@ =~= old(code)@ + ""@);
            return ;
        }
        code.append("layout(push_constant) uniform constants {\n");
        let ghost opened = code@;
        match &self.matrix {
            ShaderMatrixMode::MVP(DataSource::PushConstant) => {
                code.append("  mat4 mvp;\n");
            },
            ShaderMatrixMode::VP_M(DataSource::PushConstant, DataSource::PushConstant) => {
                code.append("  mat4 model;\n");
                code.append("  mat4 vp;\n");
                assert(code@ =~= opened + ("  mat4 model;\n"@ + "  mat4 vp;\n"@));
            },
            _ => {
                assert(code@ =~= opened + ""@);
            },
        }
        let ghost with_matrix = code@;
        if pushes_color {
            code.append("  vec4 color;\n");
        } else {
            assert(code@ =~= with_matrix + ""@);
        }
        code.append("} PushConstants;\n");
        assert(code@ =~= old(code)@ + self.push_constants_text());
    }

    fn append_uniforms(&self, code: &mut String)
        ensures
            final(code)@ == old(code)@ + self.uniforms_text(),
    {
        proof {
            lemma_empty_text();
        }
        match &self.matrix {
            ShaderMatrixMode::MVP(DataSource::Uniform { set, binding }) => {
                Self::append_binding(code, *set, *binding);
                code.append("MVPUniformData { mat4 matrix; } MVPUniform;\n");
            },
            ShaderMatrixMode::VP_M(
                DataSource::Uniform { set: vp_set, binding: vp_binding },
                DataSource::Uniform { set: model_set, binding: model_binding },
            ) => {
                Self::append_binding(code, *vp_set, *vp_binding);
                code.append("VPUniformData { mat4 matrix; } VPUniform;\n");
                Self::append_binding(code, *model_set, *model_binding);
                code.append("MUniformData { mat4 matrix; } MUniform;\n");
            },
            _ => {},
        }
        let ghost with_matrix = code@;
        match &self.color {
            ColorMode::Flat(DataSource::Uniform { set, binding }) => {
                Self::append_binding(code, *set, *binding);
                code.append("ColorUniformData { vec4 color; } ColorUniform;\n");
            },
            _ => {
                assert(code@ =~= with_matrix + ""@);
            },
        }
        assert(code@ =~= old(code)@ + self.uniforms_text());
    }

    fn append_vertex_outputs(&self, code: &mut String)
        ensures
            final(code)@ == old(code)@ + self.vertex_outputs_text(),
    {
        proof {
            lemma_empty_text();
        }
        match &self.color {
            ColorMode::Texture { .. } => {
                Self::append_output(code, 0, &VectorDataType::F32(2), "tex_coord_out");
            },
            _ => {
                Self::append_output(code, 0, &VectorDataType::F32(4), "frag_color_out");
            },
        }
        let ghost with_color = code@;
        if self.normal().is_some() {
            Self::append_output(code, 1, &VectorDataType::F32(3), "normal_out");
        } else {
            assert(code@ =~= with_color + ""@);
        }
        assert(code@ =~= old(code)@ + self.vertex_outputs_text());
    }

    fn append_transform(&self, code: &mut String)
        requires
            self.shadeable(),
        ensures
            final(code)@ == old(code)@ + self.transform_text(),
    {
        proof {
            lemma_empty_text();
        }
        match &self.matrix {
            ShaderMatrixMode::MVP(DataSource::PushConstant) => {
                code.append("  gl_Position = PushConstants.mvp * ");
            },
            ShaderMatrixMode::MVP(DataSource::Uniform { .. }) => {
                code.append("  gl_Position = MVPUniform.matrix * ");
            },
            ShaderMatrixMode::VP_M(DataSource::PushConstant, DataSource::PushConstant) => {
                code.append("  gl_Position = PushConstants.vp * PushConstants.model * ");
            },
            ShaderMatrixMode::VP_M(DataSource::Uniform { .. }, DataSource::Uniform { .. }) => {
                code.append("  gl_Position = VPUniform.matrix * MUniform.matrix * ");
            },
            _ => {
                assert(code@ =~= old(code)@ + ""@);
                return ;
            },
        }
        code.append("vec4(position_in");
        code.append(self.position().as_vector().get_point_completion());
        code.append(");\n");
        assert(code@ =~= old(code)@ + self.transform_text());
    }

    fn append_color_statement(&self, code: &mut String)
        requires
            self.shadeable(),
        ensures
            final(code)@ == old(code)@ + self.color_statement_text(),
    {
        match &self.color {
            ColorMode::Flat(DataSource::PushConstant) => {
                code.append("  frag_color_out = PushConstants.color;\n");
            },
            ColorMode::Flat(DataSource::Uniform { .. }) => {
                code.append("  frag_color_out = ColorUniform.color;\n");
            },
            ColorMode::Texture { .. } => {
                code.append("  tex_coord_out = texcoord_in;\n");
            },
            ColorMode::Array => {
                code.append("  frag_color_out = vec4(color_in");
                match self.color() {
                    Some(color) => {
                        code.append(color.as_vector().get_point_completion());
                    },
                    None => {},
                }
                code.append(");\n");
                assert(code@ =~= old(code)@ + self.color_statement_text());
            },
        }
    }

    fn append_vertex_main(&self, code: &mut String)
        requires
            self.shadeable(),
        ensures
            final(code)@ == old(code)@ + self.vertex_main_text(),
    {
        proof {
            lemma_empty_text();
        }
        code.append("void main() {\n");
        self.append_transform(code);
        self.append_color_statement(code);
        let ghost with_color = code@;
        if self.normal().is_some() {
            code.append("  normal_out = normal_in;\n");
        } else {
            assert(code@ =~= with_color + ""@);
        }
        code.append("}\n");
        assert(code@ =~= old(code)@ + self.vertex_main_text());
    }

    /// Writes the source text of the vertex shader.
    pub fn get_vertex_shader_code(&self) -> (r: String)
        requires
            self.shadeable(),
        ensures
            r@ == self.vertex_shader_text(),
    {
        proof {
            lemma_empty_text();
        }
        let mut code = String::new();
        code.append("#version 450\n");
        self.append_vertex_inputs(&mut code);
        self.append_push_constants(&mut code);
        self.append_uniforms(&mut code);
        self.append_vertex_outputs(&mut code);
        self.append_vertex_main(&mut code);
        assert(code@ =~= self.vertex_shader_text());
        code
    }

    /// Writes the source text of the fragment shader.
    pub fn get_fragment_shader_code(&self) -> (r: String)
        ensures
            r@ == self.fragment_shader_text(),
    {
        proof {
            lemma_empty_text();
        }
        let mut code = String::new();
        code.append("#version 450\n");
        let ghost a0 = code@;
        match &self.color {
            ColorMode::Texture { set, binding } => {
                Self::append_binding(&mut code, *set, *binding);
                code.append("sampler2D texture_sampler;\n");
            },
            _ => {
                assert(code@ =~= a0 + ""@);
            },
        }
        match &self.color {
            ColorMode::Texture { .. } => {
                Self::append_input(&mut code, 0, &VectorDataType::F32(2), "tex_coord_in");
            },
            _ => {
                Self::append_input(&mut code, 0, &VectorDataType::F32(4), "frag_color_in");
            },
        }
        let has_normal = self.normal().is_some();
        let ghost a2 = code@;
        if has_normal {
            Self::append_input(&mut code, 1, &VectorDataType::F32(3), "normal_in");
        } else {
            assert(code@ =~= a2 + ""@);
        }
        Self::append_output(&mut code, 0, &VectorDataType::F32(4), "frag_color_out");
        let ghost a4 = code@;
        if has_normal {
            Self::append_output(&mut code, 1, &VectorDataType::F32(3), "normal_out");
        } else {
            assert(code@ =~= a4 + ""@);
        }
        code.append("void main() {\n");
        match &self.color {
            ColorMode::Texture { .. } => {
                code.append("  frag_color_out = texture(texture_sampler, tex_coord_in);\n");
            },
            _ => {
                code.append("  frag_color_out = frag_color_in;\n");
            },
        }
        let ghost a7 = code@;
        if has_normal {
            code.append("  normal_out = normal_in;\n");
        } else {
            assert(code@ =~= a7 + ""@);
        }
        code.append("}\n");
        assert(code@ =~= self.fragment_shader_text());
        code
    }

    /// Equal specifications give the same source text, character for
    /// character.
    pub proof fn lemma_source_is_determined(a: ShaderSpec, b: ShaderSpec)
        requires
            a == b,
        ensures
            a.vertex_shader_text() == b.vertex_shader_text(),
            a.fragment_shader_text() == b.fragment_shader_text(),
    {
    }
}

} // verus!
