//! The conversion of one item of a client array into the form in which a
//! packed vertex holds it. Items are little-endian.

use vstd::prelude::*;
use crate::float_bits::narrow_double;
use crate::float_bits::narrowed_double;
use crate::float_bits::single_from_signed_ratio;
use crate::float_bits::single_of_signed_ratio;
use crate::gl::PointerDataType;

verus! {

/// The unsigned number that up to eight little-endian bytes hold.
pub open spec fn le_unsigned(bytes: Seq<u8>) -> nat
    decreases bytes.len(),
{
    if bytes.len() == 0 {
        0
    } else {
        bytes[0] as nat + 256 * le_unsigned(bytes.skip(1))
    }
}

/// The four little-endian bytes of a 32-bit pattern.
pub open spec fn le_bytes4(bits: int) -> Seq<u8> {
    seq![
        (bits % 256) as u8,
        (bits / 0x100 % 256) as u8,
        (bits / 0x1_0000 % 256) as u8,
        (bits / 0x100_0000 % 256) as u8,
    ]
}

/// The number that an item of an integer type holds.
pub open spec fn integer_value(item_type: PointerDataType, item: Seq<u8>) -> int {
    let raw = le_unsigned(item) as int;
    match item_type {
        PointerDataType::I8 => if raw >= 0x80 { raw - 0x100 } else { raw },
        PointerDataType::I16 => if raw >= 0x8000 { raw - 0x1_0000 } else { raw },
        PointerDataType::I32 => if raw >= 0x8000_0000 { raw - 0x1_0000_0000 } else { raw },
        _ => raw,
    }
}

/// The number by which a normalized item of an integer type is divided: the
/// greatest value of the type, as the single-precision number nearest to it.
/// For the 32-bit types that is a power of two.
pub open spec fn normal_divisor(item_type: PointerDataType) -> nat {
    match item_type {
        PointerDataType::U8 => 255,
        PointerDataType::I8 => 127,
        PointerDataType::U16 => 65535,
        PointerDataType::I16 => 32767,
        PointerDataType::U32 => 0x1_0000_0000,
        PointerDataType::I32 => 0x8000_0000,
        _ => 1,
    }
}

/// The type in which a packed vertex holds the items of an array: double
/// precision only for normalized items that are of double precision already,
/// single precision for every other.
pub open spec fn packed_type(normalized: bool, item_type: PointerDataType) -> PointerDataType {
    if normalized && item_type == PointerDataType::F64 {
        PointerDataType::F64
    } else {
        PointerDataType::F32
    }
}

/// The type in which a packed vertex holds the items of an array.
pub fn packed_type_of(normalized: bool, item_type: PointerDataType) -> (r: PointerDataType)
    ensures
        r == packed_type(normalized, item_type),
{
    if normalized {
        match item_type {
            PointerDataType::F64 => PointerDataType::F64,
            _ => PointerDataType::F32,
        }
    } else {
        PointerDataType::F32
    }
}

/// The bytes of one item in a packed vertex.
///
/// A normalized integer is divided by the greatest value of its type; any
/// other integer is taken as it is; both become the nearest single-precision
/// number. A single-precision number stays as it is. A double-precision
/// number stays as it is where it is normalized and is narrowed to single
/// precision where it is not.
pub open spec fn packed_item(normalized: bool, item_type: PointerDataType, item: Seq<u8>) -> Seq<
    u8,
> {
    match item_type {
        PointerDataType::F32 => item,
        PointerDataType::F64 => if normalized {
            item
        } else {
            le_bytes4(narrowed_double(le_unsigned(item) as u64))
        },
        _ => le_bytes4(
            single_of_signed_ratio(
                integer_value(item_type, item),
                if normalized {
                    normal_divisor(item_type)
                } else {
                    1
                },
            ),
        ),
    }
}

/// What up to eight little-endian bytes hold, written out byte by byte.
pub proof fn lemma_le_unsigned_unfold(bytes: Seq<u8>)
    ensures
        bytes.len() == 1 ==> le_unsigned(bytes) == bytes[0],
        bytes.len() == 2 ==> le_unsigned(bytes) == bytes[0] + 0x100 * bytes[1],
        bytes.len() == 4 ==> le_unsigned(bytes) == bytes[0] + 0x100 * bytes[1] + 0x1_0000
            * bytes[2] + 0x100_0000 * bytes[3],
        bytes.len() == 8 ==> le_unsigned(bytes) == bytes[0] + 0x100 * bytes[1] + 0x1_0000
            * bytes[2] + 0x100_0000 * bytes[3] + 0x1_0000_0000 * bytes[4] + 0x100_0000_0000
            * bytes[5] + 0x1_0000_0000_0000 * bytes[6] + 0x100_0000_0000_0000 * bytes[7],
{
    reveal_with_fuel(le_unsigned, 9);
    let s1 = bytes.skip(1);
    let s2 = s1.skip(1);
    let s3 = s2.skip(1);
    let s4 = s3.skip(1);
    let s5 = s4.skip(1);
    let s6 = s5.skip(1);
    let s7 = s6.skip(1);
    if bytes.len() == 8 {
        assert(s1[0] == bytes[1] && s2[0] == bytes[2] && s3[0] == bytes[3] && s4[0] == bytes[4]
            && s5[0] == bytes[5] && s6[0] == bytes[6] && s7[0] == bytes[7]);
        assert(s7.skip(1).len() == 0);
    } else if bytes.len() == 4 {
        assert(s1[0] == bytes[1] && s2[0] == bytes[2] && s3[0] == bytes[3]);
        assert(s4.len() == 0);
    } else if bytes.len() == 2 {
        assert(s1[0] == bytes[1]);
        assert(s2.len() == 0);
    } else if bytes.len() == 1 {
        assert(s1.len() == 0);
    }
}

/// Reads the unsigned number that `size` little-endian bytes hold.
pub fn read_le(source: &[u8], at: usize, size: usize) -> (r: u64)
    requires
        size == 1 || size == 2 || size == 4 || size == 8,
        at + size <= source@.len(),
    ensures
        r == le_unsigned(source@.subrange(at as int, at + size)),
        size == 1 ==> r < 0x100,
        size == 2 ==> r < 0x1_0000,
        size == 4 ==> r < 0x1_0000_0000,
{
    proof {
        let item = source@.subrange(at as int, at + size);
        lemma_le_unsigned_unfold(item);
        assert(forall|i: int| 0 <= i < size ==> item[i] == source@[at + i]);
    }
    if size == 1 {
        source[at] as u64
    } else if size == 2 {
        source[at] as u64 + 0x100 * (source[at + 1] as u64)
    } else if size == 4 {
        source[at] as u64 + 0x100 * (source[at + 1] as u64) + 0x1_0000 * (source[at + 2] as u64)
            + 0x100_0000 * (source[at + 3] as u64)
    } else {
        source[at] as u64 + 0x100 * (source[at + 1] as u64) + 0x1_0000 * (source[at + 2] as u64)
            + 0x100_0000 * (source[at + 3] as u64) + 0x1_0000_0000 * (source[at + 4] as u64)
            + 0x100_0000_0000 * (source[at + 5] as u64) + 0x1_0000_0000_0000 * (source[at
            + 6] as u64) + 0x100_0000_0000_0000 * (source[at + 7] as u64)
    }
}

/// A sequence in which the items from `to` on are those of `patch` and the
/// others are those of `base`.
pub open spec fn patched(base: Seq<u8>, to: int, patch: Seq<u8>) -> Seq<u8> {
    Seq::new(
        base.len(),
        |i: int|
            if to <= i < to + patch.len() {
                patch[i - to]
            } else {
                base[i]
            },
    )
}

/// Writes a 32-bit pattern as four little-endian bytes.
pub fn write_le4(dest: &mut Vec<u8>, to: usize, bits: u32)
    requires
        to + 4 <= old(dest).len(),
    ensures
        final(dest)@ == patched(old(dest)@, to as int, le_bytes4(bits as int)),
{
    dest.set(to, (bits % 256) as u8);
    dest.set(to + 1, (bits / 0x100 % 256) as u8);
    dest.set(to + 2, (bits / 0x1_0000 % 256) as u8);
    dest.set(to + 3, (bits / 0x100_0000 % 256) as u8);
    assert(dest@ =~= patched(old(dest)@, to as int, le_bytes4(bits as int)));
}

/// Copies `len` bytes.
pub fn copy_bytes(source: &[u8], at: usize, dest: &mut Vec<u8>, to: usize, len: usize)
    requires
        at + len <= source.len(),
        to + len <= old(dest).len(),
    ensures
        final(dest)@ == patched(old(dest)@, to as int, source@.subrange(at as int, at + len)),
{
    let mut i: usize = 0;
    while i < len
        invariant
            0 <= i <= len,
            at + len <= source.len(),
            to + len <= dest.len(),
            dest@.len() == old(dest)@.len(),
            forall|j: int| 0 <= j < dest@.len() && !(to <= j < to + i) ==> dest@[j] == old(dest)@[j],
            forall|j: int| to <= j < to + i ==> dest@[j] == source@[at + (j - to)],
        decreases len - i,
    {
        dest.set(to + i, source[at + i]);
        i += 1;
    }
    assert(dest@ =~= patched(old(dest)@, to as int, source@.subrange(at as int, at + len)));
}

/// The number that an item of an integer type holds.
pub fn read_integer(item_type: PointerDataType, source: &[u8], at: usize) -> (r: i64)
    requires
        !item_type.spec_is_float(),
        at + item_type.spec_size() <= source@.len(),
    ensures
        r == integer_value(item_type, source@.subrange(at as int, at + item_type.spec_size())),
        -0x8000_0000 <= r < 0x1_0000_0000,
{
    let raw: u64 = read_le(source, at, item_type.size());
    match item_type {
        PointerDataType::I8 => if raw >= 0x80 {
            raw as i64 - 0x100
        } else {
            raw as i64
        },
        PointerDataType::I16 => if raw >= 0x8000 {
            raw as i64 - 0x1_0000
        } else {
            raw as i64
        },
        PointerDataType::I32 => if raw >= 0x8000_0000 {
            raw as i64 - 0x1_0000_0000
        } else {
            raw as i64
        },
        _ => raw as i64,
    }
}

/// The number by which a normalized item of an integer type is divided.
pub fn divisor_of(normalized: bool, item_type: PointerDataType) -> (r: u64)
    ensures
        r == (if normalized {
            normal_divisor(item_type)
        } else {
            1
        }),
        0 < r <= 0x1_0000_0000,
{
    if !normalized {
        1
    } else {
        match item_type {
            PointerDataType::U8 => 255,
            PointerDataType::I8 => 127,
            PointerDataType::U16 => 65535,
            PointerDataType::I16 => 32767,
            PointerDataType::U32 => 0x1_0000_0000,
            PointerDataType::I32 => 0x8000_0000,
            _ => 1,
        }
    }
}

/// Converts the item at `at` of `source` and writes it at `to` of `dest`.
pub fn pack_item(
    normalized: bool,
    item_type: PointerDataType,
    source: &[u8],
    at: usize,
    dest: &mut Vec<u8>,
    to: usize,
)
    requires
        at + item_type.spec_size() <= source@.len(),
        to + packed_type(normalized, item_type).spec_size() <= old(dest)@.len(),
    ensures
        final(dest)@ == patched(
            old(dest)@,
            to as int,
            packed_item(
                normalized,
                item_type,
                source@.subrange(at as int, at + item_type.spec_size()),
            ),
        ),
{
    match item_type {
        PointerDataType::F32 => {
            copy_bytes(source, at, dest, to, 4);
        },
        PointerDataType::F64 => {
            if normalized {
                copy_bytes(source, at, dest, to, 8);
            } else {
                let bits: u64 = read_le(source, at, 8);
                write_le4(dest, to, narrow_double(bits));
            }
        },
        _ => {
            let value: i64 = read_integer(item_type, source, at);
            let divisor: u64 = divisor_of(normalized, item_type);
            write_le4(dest, to, single_from_signed_ratio(value, divisor));
        },
    }
}

} // verus!
