//! The store of client arrays: the array of each attribute, as the host
//! has bound and enabled it.

use vstd::prelude::*;
use std::sync::Arc;
use crate::client_array::client_array_index;
use crate::client_array::get_client_array_index;
use crate::client_array::ClientArray;
use crate::client_array::MAX_ELEMENT_COUNT;
use crate::gl::PointerArrayType;
use crate::gl::PointerDataType;

verus! {

/// The number of attributes whose arrays can enter a vertex.
pub const PACKED_KIND_COUNT: usize = 4;

/// What vertex assembly needs to know of the texturing state.
#[derive(Clone, Copy, Debug, PartialEq, Eq, Structural)]
pub struct Texturing {
    /// Two-dimensional texturing is switched on.
    pub enabled: bool,
    /// The active texture unit has a texture bound.
    pub bound: bool,
}

/// The attributes whose arrays can enter a vertex, in the order in which
/// their fields follow each other.
pub open spec fn packed_kind(k: int) -> PointerArrayType {
    if k == 0 {
        PointerArrayType::Vertex
    } else if k == 1 {
        PointerArrayType::Normal
    } else if k == 2 {
        PointerArrayType::Color
    } else {
        PointerArrayType::TexCoord
    }
}

/// The attributes whose arrays can enter a vertex, in the order in which
/// their fields follow each other.
pub fn get_packed_kind(k: usize) -> (r: PointerArrayType)
    requires
        k < PACKED_KIND_COUNT,
    ensures
        r == packed_kind(k as int),
{
    if k == 0 {
        PointerArrayType::Vertex
    } else if k == 1 {
        PointerArrayType::Normal
    } else if k == 2 {
        PointerArrayType::Color
    } else {
        PointerArrayType::TexCoord
    }
}

/// Whether the integers of an attribute are mapped into the unit interval.
pub open spec fn is_normalized(kind: PointerArrayType) -> bool {
    kind == PointerArrayType::Color || kind == PointerArrayType::SecondaryColor
}

/// Whether the integers of an attribute are mapped into the unit interval.
pub fn normalizes(kind: PointerArrayType) -> (r: bool)
    ensures
        r == is_normalized(kind),
{
    match kind {
        PointerArrayType::Color => true,
        PointerArrayType::SecondaryColor => true,
        _ => false,
    }
}

/// Whether a pointer may be bound: its vectors hold one to four items, and
/// its bytes are exactly those of its vectors.
pub open spec fn pointer_valid(
    size: u8,
    vec_count: u32,
    item_type: PointerDataType,
    len: int,
) -> bool {
    &&& 1 <= size <= MAX_ELEMENT_COUNT
    &&& len == vec_count * (size * item_type.spec_size())
}

/// The client arrays as a value: the array of each attribute.
pub struct ArraysModel {
    pub table: Map<PointerArrayType, ClientArray>,
}

impl ArraysModel {
    /// The array of an attribute.
    pub open spec fn array(&self, kind: PointerArrayType) -> ClientArray {
        self.table[kind]
    }

    /// The arrays with another array in place of that of one attribute.
    pub open spec fn with_array(&self, kind: PointerArrayType, array: ClientArray) -> ArraysModel {
        ArraysModel { table: self.table.insert(kind, array) }
    }

    /// Every attribute has an array, and every array is well formed.
    pub open spec fn wf(&self) -> bool {
        forall|kind: PointerArrayType|
            self.table.contains_key(kind) && (#[trigger] self.table[kind]).wf()
    }
}

/// The client arrays, one for each attribute.
pub struct ClientArrays {
    arrays: [ClientArray; 8],
}

impl View for ClientArrays {
    type V = ArraysModel;

    closed spec fn view(&self) -> ArraysModel {
        ArraysModel {
            table: Map::new(
                |kind: PointerArrayType| true,
                |kind: PointerArrayType| self.arrays[client_array_index(kind)],
            ),
        }
    }
}

impl ClientArrays {
    #[verifier::type_invariant]
    spec fn arrays_wf(self) -> bool {
        forall|i: int| 0 <= i < 8 ==> (#[trigger] self.arrays[i]).wf()
    }

    /// A store in which every array is disabled and unbound.
    pub fn new() -> (r: Self)
        ensures
            r@.wf(),
            forall|kind: PointerArrayType|
                {
                    let a = #[trigger] r@.array(kind);
                    &&& !a.enabled
                    &&& a.data is None
                    &&& a.vertex_count == 0
                    &&& a.element_count == 0
                    &&& a.data_type == PointerDataType::U8
                },
    {
        ClientArrays {
            arrays: [
                ClientArray::new(),
                ClientArray::new(),
                ClientArray::new(),
                ClientArray::new(),
                ClientArray::new(),
                ClientArray::new(),
                ClientArray::new(),
                ClientArray::new(),
            ],
        }
    }

    /// The array of an attribute.
    pub fn get(&self, kind: PointerArrayType) -> (r: &ClientArray)
        ensures
            self@.wf(),
            *r == self@.array(kind),
            r.wf(),
    {
        proof {
            use_type_invariant(self);
        }
        &self.arrays[get_client_array_index(&kind)]
    }

    /// Every array of a store is well formed.
    pub(crate) fn check(&self)
        ensures
            self@.wf(),
    {
        proof {
            use_type_invariant(self);
        }
    }

    /// Switches the array of an attribute on or off.
    pub fn set_client_state(&mut self, kind: PointerArrayType, enabled: bool)
        ensures
            final(self)@.wf(),
            final(self)@ == old(self)@.with_array(
                kind,
                ClientArray { enabled, ..old(self)@.array(kind) },
            ),
    {
        proof {
            use_type_invariant(&*self);
        }
        let i = get_client_array_index(&kind);
        self.arrays[i].enabled = enabled;
        assert(self@.table =~= old(self)@.with_array(
            kind,
            ClientArray { enabled, ..old(self)@.array(kind) },
        ).table);
    }

    /// Binds data to the array of an attribute, in place of what was bound
    /// to it. A pointer that is not valid is refused and changes nothing.
    pub fn set_pointer(
        &mut self,
        kind: PointerArrayType,
        size: u8,
        vec_count: u32,
        item_type: PointerDataType,
        data: Arc<Vec<u8>>,
    ) -> (accepted: bool)
        ensures
            final(self)@.wf(),
            accepted == pointer_valid(size, vec_count, item_type, data@.len() as int),
            accepted ==> final(self)@ == old(self)@.with_array(
                kind,
                ClientArray {
                    enabled: old(self)@.array(kind).enabled,
                    vertex_count: vec_count,
                    data_type: item_type,
                    element_count: size,
                    data: Some(data),
                },
            ),
            !accepted ==> final(self)@ == old(self)@,
    {
        proof {
            use_type_invariant(&*self);
        }
        if size < 1 || size > 4 {
            return false;
        }
        let item_size: usize = item_type.size();
        assert(size * item_size <= 32) by (nonlinear_arith)
            requires
                size <= 4,
                item_size <= 8,
        ;
        let vector_len: u64 = (size as usize * item_size) as u64;
        assert(vec_count * vector_len <= 0x20_0000_0000) by (nonlinear_arith)
            requires
                vec_count <= 0xFFFF_FFFF,
                vector_len <= 32,
        ;
        let expected: u64 = vec_count as u64 * vector_len;
        if data.len() as u64 != expected {
            return false;
        }
        let i = get_client_array_index(&kind);
        let enabled = self.arrays[i].enabled;
        let ghost bound = ClientArray {
            enabled,
            vertex_count: vec_count,
            data_type: item_type,
            element_count: size,
            data: Some(data),
        };
        self.arrays[i] = ClientArray {
            enabled,
            vertex_count: vec_count,
            data_type: item_type,
            element_count: size,
            data: Some(data),
        };
        assert(self@.table =~= old(self)@.with_array(kind, bound).table);
        true
    }
}

} // verus!
