//! The enumerations of the immediate-mode interface and the numeric codes by
//! which a host names them.

use vstd::prelude::*;

verus! {

/// The code of the capability that switches two-dimensional texturing on.
pub const GL_TEXTURE_2D: i32 = 0x0DE1;

/// `gl_constants::GL_TEXTURE_2D`: the code of the capability that switches
/// two-dimensional texturing on, as a member of the set of capabilities.
/// The contract is not proved: it says what the outside crate declares.
#[verifier::external_body]
pub(crate) fn texture_2d_capability() -> (r: usize)
    ensures
        r == GL_TEXTURE_2D,
{
    gl_constants::GL_TEXTURE_2D as usize
}

/// The bit of a clear mask that selects the depth buffer.
pub const GL_DEPTH_BUFFER_BIT: u32 = 0x0100;

/// The bit of a clear mask that selects the colour buffer.
pub const GL_COLOR_BUFFER_BIT: u32 = 0x4000;

/// Which of the four matrix stacks later matrix operations act on.
#[derive(Clone, Copy, Debug, PartialEq, Eq, Structural, Hash)]
pub enum MatrixMode {
    ModelView,
    Projection,
    Texture,
    Color,
}

impl MatrixMode {
    /// The code by which the host names this mode.
    pub open spec fn code(self) -> int {
        match self {
            MatrixMode::ModelView => 0x1700,
            MatrixMode::Projection => 0x1701,
            MatrixMode::Texture => 0x1702,
            MatrixMode::Color => 0x1800,
        }
    }

    /// The mode that a code names, if it names one.
    pub fn from_i32(value: i32) -> (r: Option<MatrixMode>)
        ensures
            match r {
                Some(v) => v.code() == value,
                None => forall|v: MatrixMode| v.code() != value,
            },
    {
        if value == 0x1700 {
            Some(MatrixMode::ModelView)
        } else if value == 0x1701 {
            Some(MatrixMode::Projection)
        } else if value == 0x1702 {
            Some(MatrixMode::Texture)
        } else if value == 0x1800 {
            Some(MatrixMode::Color)
        } else {
            None
        }
    }

    /// The code of this mode. Every code fits, so the result is never `None`.
    pub fn to_i32(&self) -> (r: Option<i32>)
        ensures
            r matches Some(c) && c == self.code(),
    {
        match self {
            MatrixMode::ModelView => Some(0x1700),
            MatrixMode::Projection => Some(0x1701),
            MatrixMode::Texture => Some(0x1702),
            MatrixMode::Color => Some(0x1800),
        }
    }
}

/// The vertex attribute that a client array supplies.
#[derive(Clone, Copy, Debug, PartialEq, Eq, Structural, Hash)]
pub enum PointerArrayType {
    Color,
    EdgeFlag,
    FogCoord,
    ColorIndex,
    Normal,
    SecondaryColor,
    TexCoord,
    Vertex,
}

impl PointerArrayType {
    /// The code by which the host names this kind.
    pub open spec fn code(self) -> int {
        match self {
            PointerArrayType::Color => 0x8076,
            PointerArrayType::EdgeFlag => 0x8079,
            PointerArrayType::FogCoord => 0x8457,
            PointerArrayType::ColorIndex => 0x8077,
            PointerArrayType::Normal => 0x8075,
            PointerArrayType::SecondaryColor => 0x845e,
            PointerArrayType::TexCoord => 0x8078,
            PointerArrayType::Vertex => 0x8074,
        }
    }

    /// The kind that a code names, if it names one.
    pub fn from_i32(value: i32) -> (r: Option<PointerArrayType>)
        ensures
            match r {
                Some(v) => v.code() == value,
                None => forall|v: PointerArrayType| v.code() != value,
            },
    {
        if value == 0x8076 {
            Some(PointerArrayType::Color)
        } else if value == 0x8079 {
            Some(PointerArrayType::EdgeFlag)
        } else if value == 0x8457 {
            Some(PointerArrayType::FogCoord)
        } else if value == 0x8077 {
            Some(PointerArrayType::ColorIndex)
        } else if value == 0x8075 {
            Some(PointerArrayType::Normal)
        } else if value == 0x845e {
            Some(PointerArrayType::SecondaryColor)
        } else if value == 0x8078 {
            Some(PointerArrayType::TexCoord)
        } else if value == 0x8074 {
            Some(PointerArrayType::Vertex)
        } else {
            None
        }
    }

    /// The code of this kind. Every code fits, so the result is never `None`.
    pub fn to_i32(&self) -> (r: Option<i32>)
        ensures
            r matches Some(c) && c == self.code(),
    {
        match self {
            PointerArrayType::Color => Some(0x8076),
            PointerArrayType::EdgeFlag => Some(0x8079),
            PointerArrayType::FogCoord => Some(0x8457),
            PointerArrayType::ColorIndex => Some(0x8077),
            PointerArrayType::Normal => Some(0x8075),
            PointerArrayType::SecondaryColor => Some(0x845e),
            PointerArrayType::TexCoord => Some(0x8078),
            PointerArrayType::Vertex => Some(0x8074),
        }
    }
}

/// The numeric type of the items of a client array.
#[derive(Clone, Copy, Debug, PartialEq, Eq, Structural, Hash)]
pub enum PointerDataType {
    U8,
    I8,
    U16,
    I16,
    U32,
    I32,
    F32,
    F64,
}

impl PointerDataType {
    /// The code by which the host names this type.
    pub open spec fn code(self) -> int {
        match self {
            PointerDataType::U8 => 0x1401,
            PointerDataType::I8 => 0x1400,
            PointerDataType::U16 => 0x1403,
            PointerDataType::I16 => 0x1402,
            PointerDataType::U32 => 0x1405,
            PointerDataType::I32 => 0x1404,
            PointerDataType::F32 => 0x1406,
            PointerDataType::F64 => 0x140a,
        }
    }

    /// The type that a code names, if it names one.
    pub fn from_i32(value: i32) -> (r: Option<PointerDataType>)
        ensures
            match r {
                Some(v) => v.code() == value,
                None => forall|v: PointerDataType| v.code() != value,
            },
    {
        if value == 0x1401 {
            Some(PointerDataType::U8)
        } else if value == 0x1400 {
            Some(PointerDataType::I8)
        } else if value == 0x1403 {
            Some(PointerDataType::U16)
        } else if value == 0x1402 {
            Some(PointerDataType::I16)
        } else if value == 0x1405 {
            Some(PointerDataType::U32)
        } else if value == 0x1404 {
            Some(PointerDataType::I32)
        } else if value == 0x1406 {
            Some(PointerDataType::F32)
        } else if value == 0x140a {
            Some(PointerDataType::F64)
        } else {
            None
        }
    }

    /// The code of this type. Every code fits, so the result is never `None`.
    pub fn to_i32(&self) -> (r: Option<i32>)
        ensures
            r matches Some(c) && c == self.code(),
    {
        match self {
            PointerDataType::U8 => Some(0x1401),
            PointerDataType::I8 => Some(0x1400),
            PointerDataType::U16 => Some(0x1403),
            PointerDataType::I16 => Some(0x1402),
            PointerDataType::U32 => Some(0x1405),
            PointerDataType::I32 => Some(0x1404),
            PointerDataType::F32 => Some(0x1406),
            PointerDataType::F64 => Some(0x140a),
        }
    }
}

/// How the vertices of a draw call are assembled into primitives.
#[derive(Clone, Copy, Debug, PartialEq, Eq, Structural, Hash)]
pub enum DrawMode {
    Points,
    LineStrip,
    LineLoop,
    Lines,
    LineStripAdj,
    LinesAdj,
    TriStrip,
    TriFan,
    Tri,
    TriStripAdj,
    TriAdj,
}

impl DrawMode {
    /// The code by which the host names this mode.
    pub open spec fn code(self) -> int {
        match self {
            DrawMode::Points => 0x0000,
            DrawMode::LineStrip => 0x0003,
            DrawMode::LineLoop => 0x0002,
            DrawMode::Lines => 0x0001,
            DrawMode::LineStripAdj => 0x000b,
            DrawMode::LinesAdj => 0x000a,
            DrawMode::TriStrip => 0x0005,
            DrawMode::TriFan => 0x0006,
            DrawMode::Tri => 0x0004,
            DrawMode::TriStripAdj => 0x000d,
            DrawMode::TriAdj => 0x000c,
        }
    }

    /// The mode that a code names, if it names one.
    pub fn from_i32(value: i32) -> (r: Option<DrawMode>)
        ensures
            match r {
                Some(v) => v.code() == value,
                None => forall|v: DrawMode| v.code() != value,
            },
    {
        if value == 0x0000 {
            Some(DrawMode::Points)
        } else if value == 0x0003 {
            Some(DrawMode::LineStrip)
        } else if value == 0x0002 {
            Some(DrawMode::LineLoop)
        } else if value == 0x0001 {
            Some(DrawMode::Lines)
        } else if value == 0x000b {
            Some(DrawMode::LineStripAdj)
        } else if value == 0x000a {
            Some(DrawMode::LinesAdj)
        } else if value == 0x0005 {
            Some(DrawMode::TriStrip)
        } else if value == 0x0006 {
            Some(DrawMode::TriFan)
        } else if value == 0x0004 {
            Some(DrawMode::Tri)
        } else if value == 0x000d {
            Some(DrawMode::TriStripAdj)
        } else if value == 0x000c {
            Some(DrawMode::TriAdj)
        } else {
            None
        }
    }

    /// The code of this mode. Every code fits, so the result is never `None`.
    pub fn to_i32(&self) -> (r: Option<i32>)
        ensures
            r matches Some(c) && c == self.code(),
    {
        match self {
            DrawMode::Points => Some(0x0000),
            DrawMode::LineStrip => Some(0x0003),
            DrawMode::LineLoop => Some(0x0002),
            DrawMode::Lines => Some(0x0001),
            DrawMode::LineStripAdj => Some(0x000b),
            DrawMode::LinesAdj => Some(0x000a),
            DrawMode::TriStrip => Some(0x0005),
            DrawMode::TriFan => Some(0x0006),
            DrawMode::Tri => Some(0x0004),
            DrawMode::TriStripAdj => Some(0x000d),
            DrawMode::TriAdj => Some(0x000c),
        }
    }
}

/// The numeric type of the items of a vertex field.
pub type GLDataType = PointerDataType;

impl PointerArrayType {
    /// Whether arrays of this attribute take part in vertex assembly.
    pub open spec fn spec_is_supported(&self) -> bool {
        *self == PointerArrayType::Color || *self == PointerArrayType::Normal
            || *self == PointerArrayType::TexCoord || *self == PointerArrayType::Vertex
    }

    /// Whether arrays of this attribute take part in vertex assembly. The
    /// others are accepted and kept out of every layout.
    #[verifier::when_used_as_spec(spec_is_supported)]
    pub fn is_supported(&self) -> (r: bool)
        ensures
            r == self.spec_is_supported(),
    {
        match self {
            PointerArrayType::Color => true,
            PointerArrayType::Normal => true,
            PointerArrayType::TexCoord => true,
            PointerArrayType::Vertex => true,
            PointerArrayType::EdgeFlag => false,
            PointerArrayType::FogCoord => false,
            PointerArrayType::ColorIndex => false,
            PointerArrayType::SecondaryColor => false,
        }
    }
}

impl PointerDataType {
    /// The number of bytes that one item of this type takes.
    pub open spec fn spec_size(&self) -> usize {
        match self {
            PointerDataType::U8 | PointerDataType::I8 => 1,
            PointerDataType::U16 | PointerDataType::I16 => 2,
            PointerDataType::U32 | PointerDataType::I32 | PointerDataType::F32 => 4,
            PointerDataType::F64 => 8,
        }
    }

    /// The number of bytes that one item of this type takes.
    #[verifier::when_used_as_spec(spec_size)]
    pub fn size(&self) -> (r: usize)
        ensures
            r == self.spec_size(),
            1 <= r <= 8,
    {
        match self {
            PointerDataType::U8 => 1,
            PointerDataType::I8 => 1,
            PointerDataType::U16 => 2,
            PointerDataType::I16 => 2,
            PointerDataType::U32 => 4,
            PointerDataType::I32 => 4,
            PointerDataType::F32 => 4,
            PointerDataType::F64 => 8,
        }
    }

    /// Whether items of this type are floating-point numbers.
    pub open spec fn spec_is_float(&self) -> bool {
        *self == PointerDataType::F32 || *self == PointerDataType::F64
    }

    /// Whether items of this type are floating-point numbers.
    #[verifier::when_used_as_spec(spec_is_float)]
    pub fn is_float(&self) -> (r: bool)
        ensures
            r == self.spec_is_float(),
    {
        match self {
            PointerDataType::F32 => true,
            PointerDataType::F64 => true,
            _ => false,
        }
    }
}

} // verus!
