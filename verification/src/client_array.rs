//! The client arrays: the per-vertex attribute data that the host binds
//! before a draw call.

use vstd::prelude::*;
use std::sync::Arc;
use crate::gl::PointerArrayType;
use crate::gl::PointerDataType;

verus! {

/// The most items that one vector of a client array may hold.
pub const MAX_ELEMENT_COUNT: u8 = 4;

/// The number of client arrays that the store holds, one for each attribute.
pub const CLIENT_ARRAY_COUNT: usize = 8;

/// One client array: `vertex_count` vectors of `element_count` items of
/// `data_type` each, tightly packed in `data` with the low byte of each item
/// first.
#[derive(Clone, Debug)]
pub struct ClientArray {
    pub enabled: bool,
    pub vertex_count: u32,
    pub data_type: PointerDataType,
    pub element_count: u8,
    pub data: Option<Arc<Vec<u8>>>,
}

impl ClientArray {
    /// The number of bytes of one vector of the array.
    pub open spec fn vector_len(&self) -> int {
        self.element_count * self.data_type.spec_size()
    }

    /// A bound array holds one to four items in each vector and exactly the
    /// bytes of its vectors.
    pub open spec fn wf(&self) -> bool {
        self.data matches Some(bytes) ==> {
            &&& 1 <= self.element_count <= MAX_ELEMENT_COUNT
            &&& bytes@.len() == self.vertex_count * self.vector_len()
        }
    }

    /// The bytes of a bound array.
    pub open spec fn bytes(&self) -> Seq<u8>
        recommends
            self.data is Some,
    {
        self.data.unwrap()@
    }

    /// A disabled array to which nothing is bound.
    pub fn new() -> (r: Self)
        ensures
            r.wf(),
            !r.enabled,
            r.vertex_count == 0,
            r.data_type == PointerDataType::U8,
            r.element_count == 0,
            r.data is None,
    {
        ClientArray {
            enabled: false,
            vertex_count: 0,
            data_type: PointerDataType::U8,
            element_count: 0,
            data: None,
        }
    }
}

/// The place of an attribute's array in the store.
pub open spec fn client_array_index(array: PointerArrayType) -> int {
    match array {
        PointerArrayType::Color => 0,
        PointerArrayType::EdgeFlag => 1,
        PointerArrayType::FogCoord => 2,
        PointerArrayType::ColorIndex => 3,
        PointerArrayType::Normal => 4,
        PointerArrayType::SecondaryColor => 5,
        PointerArrayType::TexCoord => 6,
        PointerArrayType::Vertex => 7,
    }
}

/// The place of an attribute's array in the store.
pub fn get_client_array_index(array: &PointerArrayType) -> (r: usize)
    ensures
        r == client_array_index(*array),
        r < CLIENT_ARRAY_COUNT,
{
    match array {
        PointerArrayType::Color => 0,
        PointerArrayType::EdgeFlag => 1,
        PointerArrayType::FogCoord => 2,
        PointerArrayType::ColorIndex => 3,
        PointerArrayType::Normal => 4,
        PointerArrayType::SecondaryColor => 5,
        PointerArrayType::TexCoord => 6,
        PointerArrayType::Vertex => 7,
    }
}

/// The attribute whose array stands at a place of the store.
pub fn get_client_array_type(index: usize) -> (r: PointerArrayType)
    requires
        index < CLIENT_ARRAY_COUNT,
    ensures
        client_array_index(r) == index,
{
    if index == 0 {
        PointerArrayType::Color
    } else if index == 1 {
        PointerArrayType::EdgeFlag
    } else if index == 2 {
        PointerArrayType::FogCoord
    } else if index == 3 {
        PointerArrayType::ColorIndex
    } else if index == 4 {
        PointerArrayType::Normal
    } else if index == 5 {
        PointerArrayType::SecondaryColor
    } else if index == 6 {
        PointerArrayType::TexCoord
    } else {
        PointerArrayType::Vertex
    }
}

/// The name under which the array at a place of the store is reported.
pub open spec fn client_array_name(index: int) -> Seq<char> {
    if index == 0 {
        "color"@
    } else if index == 1 {
        "edgeflag"@
    } else if index == 2 {
        "fogcoord"@
    } else if index == 3 {
        "color_index"@
    } else if index == 4 {
        "normal"@
    } else if index == 5 {
        "secondary_color"@
    } else if index == 6 {
        "texcoord"@
    } else {
        "pos"@
    }
}

/// The name under which the array at a place of the store is reported.
pub fn get_client_array_name(index: usize) -> (r: &'static str)
    requires
        index < CLIENT_ARRAY_COUNT,
    ensures
        r@ == client_array_name(index as int),
{
    if index == 0 {
        "color"
    } else if index == 1 {
        "edgeflag"
    } else if index == 2 {
        "fogcoord"
    } else if index == 3 {
        "color_index"
    } else if index == 4 {
        "normal"
    } else if index == 5 {
        "secondary_color"
    } else if index == 6 {
        "texcoord"
    } else {
        "pos"
    }
}

} // verus!
