//! Taking in a client array: a strided run of vectors becomes a tightly
//! packed one.

use vstd::prelude::*;
use crate::client_array::MAX_ELEMENT_COUNT;
use crate::gl::PointerDataType;

verus! {

/// Why a run of vectors could not be taken in.
#[derive(Clone, Copy, Debug, PartialEq, Eq, Structural)]
pub enum PointerError {
    /// A vector must hold one to four items.
    BadElementCount,
    /// The last vector would reach past the end of the source bytes.
    VectorOutOfBounds,
    /// The source holds more vectors than a 32-bit count can express.
    TooManyVectors,
}

/// A tightly packed run of vectors.
#[derive(Clone, Debug, PartialEq, Eq)]
pub struct PackedPointer {
    pub vec_count: u32,
    pub data: Vec<u8>,
}

/// The distance in bytes between the starts of two vectors: the stride that
/// was given, or the length of a vector where none was given.
pub open spec fn effective_stride(size: int, stride: int, item_type: PointerDataType) -> int {
    if stride > 0 {
        stride
    } else {
        size * item_type.spec_size()
    }
}

/// The number of whole strides in a source of `len` bytes.
pub open spec fn strided_count(size: int, stride: int, item_type: PointerDataType, len: int) -> int {
    len / effective_stride(size, stride, item_type)
}

/// The error, if any, with which a run of vectors is refused.
pub open spec fn strided_error(
    size: int,
    stride: int,
    item_type: PointerDataType,
    len: int,
) -> Option<PointerError> {
    let vector_len = size * item_type.spec_size();
    let step = effective_stride(size, stride, item_type);
    let count = strided_count(size, stride, item_type, len);
    if size < 1 || size > MAX_ELEMENT_COUNT {
        Some(PointerError::BadElementCount)
    } else if count > 0 && (count - 1) * step + vector_len > len {
        Some(PointerError::VectorOutOfBounds)
    } else if count > u32::MAX {
        Some(PointerError::TooManyVectors)
    } else {
        None
    }
}

/// The tightly packed bytes of the vectors of a strided source: byte `j`
/// of the result is byte `j % vector_len` of vector `j / vector_len`.
pub open spec fn strided_payload(
    size: int,
    stride: int,
    item_type: PointerDataType,
    source: Seq<u8>,
) -> Seq<u8> {
    let vector_len = size * item_type.spec_size();
    let step = effective_stride(size, stride, item_type);
    let count = strided_count(size, stride, item_type, source.len() as int);
    Seq::new(
        (count * vector_len) as nat,
        |j: int| source[(j / vector_len) * step + j % vector_len],
    )
}

/// Takes the vectors out of a strided source, dropping the bytes between
/// them. A `stride` of zero stands for vectors that follow each other
/// directly; trailing bytes that do not fill a stride are left out.
pub fn pack_pointer_array(
    size: usize,
    stride: usize,
    item_type: PointerDataType,
    source: &[u8],
) -> (r: Result<PackedPointer, PointerError>)
    ensures
        match r {
            Ok(packed) => {
                &&& strided_error(size as int, stride as int, item_type, source@.len() as int)
                    is None
                &&& packed.vec_count == strided_count(
                    size as int,
                    stride as int,
                    item_type,
                    source@.len() as int,
                )
                &&& packed.data@ == strided_payload(size as int, stride as int, item_type, source@)
            },
            Err(e) => strided_error(size as int, stride as int, item_type, source@.len() as int)
                == Some(e),
        },
{
    if size < 1 || size > 4 {
        return Err(PointerError::BadElementCount);
    }
    let item_size: usize = item_type.size();
    assert(1 <= size * item_size <= 32) by (nonlinear_arith)
        requires
            1 <= size <= 4,
            1 <= item_size <= 8,
    ;
    let vector_len: usize = size * item_size;
    let step: usize = if stride > 0 {
        stride
    } else {
        vector_len
    };
    let len: usize = source.len();
    let count: usize = len / step;
    assert(count * step <= len) by (nonlinear_arith)
        requires
            count == len / step,
            step > 0,
    ;
    if count > 0 {
        assert((count - 1) * step <= len) by (nonlinear_arith)
            requires
                count * step <= len,
                count > 0,
                step > 0,
        ;
        let last: usize = (count - 1) * step;
        if vector_len > len - last {
            return Err(PointerError::VectorOutOfBounds);
        }
    }
    if count > 0xFFFF_FFFF {
        return Err(PointerError::TooManyVectors);
    }
    let ghost want = strided_payload(size as int, stride as int, item_type, source@);
    let mut data: Vec<u8> = Vec::new();
    let mut vec_idx: usize = 0;
    while vec_idx < count
        invariant
            0 <= vec_idx <= count,
            1 <= vector_len <= 32,
            step > 0,
            len == source@.len(),
            count * step <= len,
            count > 0 ==> (count - 1) * step + vector_len <= len,
            want.len() == count * vector_len,
            data@.len() == vec_idx * vector_len,
            forall|j: int| 0 <= j < data@.len() ==> data@[j] == #[trigger] want[j],
            forall|j: int|
                0 <= j < want.len() ==> #[trigger] want[j] == source@[(j / (vector_len as int))
                    * step + j % (vector_len as int)],
        decreases count - vec_idx,
    {
        assert(vec_idx * step + vector_len <= len) by (nonlinear_arith)
            requires
                vec_idx < count,
                (count - 1) * step + vector_len <= len,
                step > 0,
        ;
        let base: usize = vec_idx * step;
        let mut b: usize = 0;
        while b < vector_len
            invariant
                0 <= b <= vector_len,
                vec_idx < count,
                1 <= vector_len <= 32,
                base == vec_idx * step,
                base + vector_len <= len,
                len == source@.len(),
                want.len() == count * vector_len,
                data@.len() == vec_idx * vector_len + b,
                forall|j: int| 0 <= j < data@.len() ==> data@[j] == #[trigger] want[j],
                forall|j: int|
                    0 <= j < want.len() ==> #[trigger] want[j] == source@[(j / (
                    vector_len as int)) * step + j % (vector_len as int)],
            decreases vector_len - b,
        {
            let ghost j = vec_idx * vector_len + b;
            proof {
                lemma_vector_position(vec_idx as int, b as int, vector_len as int);
                assert(j < count * vector_len) by (nonlinear_arith)
                    requires
                        j == vec_idx * vector_len + b,
                        b < vector_len,
                        vec_idx < count,
                ;
                assert(want[j] == source@[base + b]);
            }
            data.push(source[base + b]);
            b += 1;
        }
        vec_idx += 1;
        assert(vec_idx * vector_len == (vec_idx - 1) * vector_len + vector_len)
            by (nonlinear_arith);
    }
    assert(data@ =~= want);
    Ok(PackedPointer { vec_count: count as u32, data })
}

/// Byte `b` of vector `v` stands at place `v * len + b`, and from that place
/// both are found again by division.
pub proof fn lemma_vector_position(v: int, b: int, len: int)
    requires
        0 <= v,
        0 <= b < len,
    ensures
        (v * len + b) / len == v,
        (v * len + b) % len == b,
{
    vstd::arithmetic::div_mod::lemma_fundamental_div_mod_converse(v * len + b, len, v, b);
}

} // verus!
