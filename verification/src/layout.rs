//! The layout of one interleaved vertex: which attributes it holds, of what
//! type, and at which byte offset.

use vstd::prelude::*;
use crate::gl::PointerArrayType;
use crate::gl::PointerDataType;

verus! {

/// The number of fields that a vertex can hold.
pub const VERTEX_INPUT_COUNT: usize = 5;

/// A field of a packed vertex.
#[derive(Clone, Copy, Debug, PartialEq, Eq, Structural, Hash)]
pub enum VertexInputType {
    Position,
    Normal,
    Color,
    TexCoord,
    TexIndex,
}

impl VertexInputType {
    /// The place of this field in a layout's table of fields.
    pub open spec fn index(self) -> int {
        match self {
            VertexInputType::Position => 0,
            VertexInputType::Normal => 1,
            VertexInputType::Color => 2,
            VertexInputType::TexCoord => 3,
            VertexInputType::TexIndex => 4,
        }
    }

    /// The place of this field in a layout's table of fields. Every place
    /// fits, so the result is never `None`.
    pub fn to_usize(&self) -> (r: Option<usize>)
        ensures
            r matches Some(i) && i == self.index(),
    {
        match self {
            VertexInputType::Position => Some(0),
            VertexInputType::Normal => Some(1),
            VertexInputType::Color => Some(2),
            VertexInputType::TexCoord => Some(3),
            VertexInputType::TexIndex => Some(4),
        }
    }

    /// The field that the arrays of a supported attribute fill.
    pub open spec fn of_array(kind: PointerArrayType) -> VertexInputType
        recommends
            kind.spec_is_supported(),
    {
        match kind {
            PointerArrayType::Normal => VertexInputType::Normal,
            PointerArrayType::Color => VertexInputType::Color,
            PointerArrayType::TexCoord => VertexInputType::TexCoord,
            _ => VertexInputType::Position,
        }
    }

    /// The field that the arrays of an attribute fill; `None` for the
    /// attributes that take no part in vertex assembly.
    pub fn from_array(kind: PointerArrayType) -> (r: Option<VertexInputType>)
        ensures
            r is Some <==> kind.spec_is_supported(),
            r matches Some(f) ==> f == Self::of_array(kind),
    {
        match kind {
            PointerArrayType::Color => Some(VertexInputType::Color),
            PointerArrayType::Normal => Some(VertexInputType::Normal),
            PointerArrayType::TexCoord => Some(VertexInputType::TexCoord),
            PointerArrayType::Vertex => Some(VertexInputType::Position),
            PointerArrayType::EdgeFlag => None,
            PointerArrayType::FogCoord => None,
            PointerArrayType::ColorIndex => None,
            PointerArrayType::SecondaryColor => None,
        }
    }
}

/// One field of a packed vertex: `num_elements` items of `data_type`, starting
/// `offset` bytes into the vertex.
#[derive(Clone, Copy, Debug, PartialEq, Eq, Structural, Hash)]
pub struct VertexInputSpec {
    pub data_type: PointerDataType,
    pub num_elements: u8,
    pub offset: u8,
}

impl VertexInputSpec {
    /// The number of bytes that the field takes in each vertex.
    pub open spec fn byte_len(self) -> int {
        self.data_type.spec_size() * self.num_elements
    }

    /// The first byte offset behind the field.
    pub open spec fn end(self) -> int {
        self.offset + self.byte_len()
    }
}

/// The fields of a vertex, each at the place that `VertexInputType::index` gives.
pub type VertexBufferFields = [Option<VertexInputSpec>; VERTEX_INPUT_COUNT];

/// The layout of a packed vertex: its fields and the distance in bytes from
/// one vertex to the next.
#[derive(Clone, Copy, Debug, PartialEq, Eq, Hash)]
pub struct VertexBufferLayout {
    pub fields: VertexBufferFields,
    pub stride: u8,
}

/// The least multiple of `width` that is not below `n`.
pub open spec fn round_up(n: int, width: int) -> int
    recommends
        n >= 0,
        width > 0,
{
    if n % width == 0 {
        n
    } else {
        n + (width - n % width)
    }
}

impl VertexBufferLayout {
    /// The layout of a vertex without fields.
    pub fn empty() -> (r: Self)
        ensures
            r.stride == 0,
            forall|i: int| 0 <= i < 5 ==> r.fields[i] is None,
    {
        VertexBufferLayout { fields: [None, None, None, None, None], stride: 0 }
    }

    /// The field at a place of the table.
    pub open spec fn field(self, which: VertexInputType) -> Option<VertexInputSpec> {
        self.fields[which.index()]
    }

    /// Rounds the stride up to the next multiple of `width`.
    pub fn align_to(&mut self, width: u8)
        requires
            width > 0,
            round_up(old(self).stride as int, width as int) <= u8::MAX,
        ensures
            final(self).stride == round_up(old(self).stride as int, width as int),
            final(self).fields == old(self).fields,
    {
        let n_past_align: u8 = self.stride % width;
        if n_past_align > 0 {
            self.stride += width - n_past_align;
        }
    }

    /// Two layouts with the same stride and the same field for every input
    /// are the same layout.
    pub proof fn lemma_extensional(a: VertexBufferLayout, b: VertexBufferLayout)
        requires
            a.stride == b.stride,
            forall|which: VertexInputType| a.field(which) == b.field(which),
        ensures
            a == b,
    {
        assert(a.field(VertexInputType::Position) == b.field(VertexInputType::Position));
        assert(a.field(VertexInputType::Normal) == b.field(VertexInputType::Normal));
        assert(a.field(VertexInputType::Color) == b.field(VertexInputType::Color));
        assert(a.field(VertexInputType::TexCoord) == b.field(VertexInputType::TexCoord));
        assert(a.field(VertexInputType::TexIndex) == b.field(VertexInputType::TexIndex));
        assert(a.fields@ =~= b.fields@);
        assert(a.fields == b.fields);
    }

    /// Whether two layouts have the same fields and the same stride.
    pub fn equals(&self, other: &VertexBufferLayout) -> (r: bool)
        ensures
            r == (*self == *other),
    {
        let same = self.stride == other.stride && self.fields[0] == other.fields[0]
            && self.fields[1] == other.fields[1] && self.fields[2] == other.fields[2]
            && self.fields[3] == other.fields[3] && self.fields[4] == other.fields[4];
        proof {
            if same {
                assert(self.fields@ =~= other.fields@);
                assert(self.fields == other.fields);
            }
        }
        same
    }

    /// The position field, if the vertex has one.
    pub fn position(&self) -> (r: Option<&VertexInputSpec>)
        ensures
            match r {
                Some(f) => self.field(VertexInputType::Position) == Some(*f),
                None => self.field(VertexInputType::Position) is None,
            },
    {
        self.fields[0].as_ref()
    }

    /// The normal field, if the vertex has one.
    pub fn normal(&self) -> (r: Option<&VertexInputSpec>)
        ensures
            match r {
                Some(f) => self.field(VertexInputType::Normal) == Some(*f),
                None => self.field(VertexInputType::Normal) is None,
            },
    {
        self.fields[1].as_ref()
    }

    /// The colour field, if the vertex has one.
    pub fn color(&self) -> (r: Option<&VertexInputSpec>)
        ensures
            match r {
                Some(f) => self.field(VertexInputType::Color) == Some(*f),
                None => self.field(VertexInputType::Color) is None,
            },
    {
        self.fields[2].as_ref()
    }

    /// The texture coordinate field, if the vertex has one.
    pub fn texcoord(&self) -> (r: Option<&VertexInputSpec>)
        ensures
            match r {
                Some(f) => self.field(VertexInputType::TexCoord) == Some(*f),
                None => self.field(VertexInputType::TexCoord) is None,
            },
    {
        self.fields[3].as_ref()
    }

    /// The texture index field, if the vertex has one.
    pub fn texindex(&self) -> (r: Option<&VertexInputSpec>)
        ensures
            match r {
                Some(f) => self.field(VertexInputType::TexIndex) == Some(*f),
                None => self.field(VertexInputType::TexIndex) is None,
            },
    {
        self.fields[4].as_ref()
    }
}

} // verus!
