//! From the arguments of a call of the host to the instruction that the
//! call stands for. Numbers of single and of double precision come as
//! their bits; those of double precision are narrowed, which may lose
//! digits.

use vstd::prelude::*;
use crate::float_bits::narrow_double;
use crate::float_bits::narrowed_double;
use crate::gl::DrawMode;
use crate::gl::MatrixMode;
use crate::gl::PointerArrayType;
use crate::gl::PointerDataType;
use crate::gl::GL_COLOR_BUFFER_BIT;
use crate::gl::GL_DEPTH_BUFFER_BIT;
use crate::gl::GL_TEXTURE_2D;
use crate::instruction::RenderInstruction;
use crate::matrix::OrthoData;
use crate::matrix::Vec3;
use crate::matrix::Vec4;
use crate::matrix::ONE_BITS;
use crate::pointer::strided_count;
use crate::pointer::strided_error;
use crate::pointer::strided_payload;
use crate::pointer::PointerError;
use std::sync::Arc;

verus! {

/// The instruction that selects the matrix stack that a code names; `None`
/// for a code that names none.
pub fn matrix_mode(mode: i32) -> (r: Option<RenderInstruction>)
    ensures
        match r {
            Some(insn) => insn matches RenderInstruction::MatrixMode(m) && m.code() == mode,
            None => forall|m: MatrixMode| m.code() != mode,
        },
{
    match MatrixMode::from_i32(mode) {
        Some(m) => Some(RenderInstruction::MatrixMode(m)),
        None => None,
    }
}

/// Three numbers of double precision as a vector of single precision.
pub open spec fn narrowed_vec3(x: u64, y: u64, z: u64) -> Vec3 {
    Vec3 { x: narrowed_double(x) as u32, y: narrowed_double(y) as u32, z: narrowed_double(
        z,
    ) as u32 }
}

/// Three numbers of double precision as a vector of single precision.
pub fn narrow_vec3(x: u64, y: u64, z: u64) -> (r: Vec3)
    ensures
        r == narrowed_vec3(x, y, z),
{
    Vec3 { x: narrow_double(x), y: narrow_double(y), z: narrow_double(z) }
}

/// The instruction of an orthographic projection whose planes are given in
/// double precision.
pub fn ortho(left: u64, right: u64, bottom: u64, top: u64, z_near: u64, z_far: u64) -> (r:
    RenderInstruction)
    ensures
        r matches RenderInstruction::Ortho { data } && *data == (OrthoData {
            left: narrowed_double(left) as u32,
            right: narrowed_double(right) as u32,
            bottom: narrowed_double(bottom) as u32,
            top: narrowed_double(top) as u32,
            z_near: narrowed_double(z_near) as u32,
            z_far: narrowed_double(z_far) as u32,
        }),
{
    RenderInstruction::Ortho {
        data: Box::new(
            OrthoData {
                left: narrow_double(left),
                right: narrow_double(right),
                bottom: narrow_double(bottom),
                top: narrow_double(top),
                z_near: narrow_double(z_near),
                z_far: narrow_double(z_far),
            },
        ),
    }
}

/// The instruction of a translation that is given in double precision.
pub fn translate_double(x: u64, y: u64, z: u64) -> (r: RenderInstruction)
    ensures
        r == (RenderInstruction::Translate { delta: narrowed_vec3(x, y, z) }),
{
    RenderInstruction::Translate { delta: narrow_vec3(x, y, z) }
}

/// The instruction of a scaling that is given in double precision.
pub fn scale_double(x: u64, y: u64, z: u64) -> (r: RenderInstruction)
    ensures
        r == (RenderInstruction::Scale { scale: narrowed_vec3(x, y, z) }),
{
    RenderInstruction::Scale { scale: narrow_vec3(x, y, z) }
}

/// The instruction of a rotation that is given in double precision.
pub fn rotate_double(angle: u64, x: u64, y: u64, z: u64) -> (r: RenderInstruction)
    ensures
        r == (RenderInstruction::Rotate {
            angle: narrowed_double(angle) as u32,
            axis: narrowed_vec3(x, y, z),
        }),
{
    RenderInstruction::Rotate { angle: narrow_double(angle), axis: narrow_vec3(x, y, z) }
}

/// The instruction that switches the array of an attribute on or off;
/// `None` for a code that names no attribute and for an attribute that
/// takes no part in vertex assembly.
pub fn client_state(array_type: i32, enabled: bool) -> (r: Option<RenderInstruction>)
    ensures
        match r {
            Some(insn) => insn matches RenderInstruction::SetClientState {
                enabled: e,
                array_type: kind,
            } && e == enabled && kind.code() == array_type && kind.spec_is_supported(),
            None => forall|kind: PointerArrayType|
                kind.code() == array_type ==> !kind.spec_is_supported(),
        },
{
    match PointerArrayType::from_i32(array_type) {
        Some(kind) => {
            if kind.is_supported() {
                Some(RenderInstruction::SetClientState { enabled, array_type: kind })
            } else {
                assert forall|other: PointerArrayType| other.code() == array_type implies other
                    == kind by {}
                None
            }
        },
        None => None,
    }
}

/// Why a call that binds a pointer array stands for no instruction.
#[derive(Clone, Copy, Debug, PartialEq, Eq, Structural)]
pub enum PointerCallError {
    /// The code names no attribute.
    UnknownArray,
    /// The code names no type of item.
    UnknownItemType,
    /// The vectors cannot be taken out of the source.
    Refused(PointerError),
}

/// The distance between two vectors that the host's stride stands for. A
/// negative stride is a distance beyond the end of every source; zero
/// still stands for vectors that follow each other directly.
pub open spec fn host_stride(stride: i32, len: int) -> int {
    if stride < 0 {
        len + 1
    } else {
        stride as int
    }
}

/// Why the vectors of a call cannot be taken out of a source of `len`
/// bytes. Vectors of no items are taken as they come, all of them empty,
/// as long as a stride says how many they are.
pub open spec fn pointer_refusal(size: i32, stride: i32, item_type: PointerDataType, len: int)
    -> Option<PointerError> {
    if size != 0 {
        strided_error(size as int, host_stride(stride, len), item_type, len)
    } else if stride == 0 {
        Some(PointerError::BadElementCount)
    } else if strided_count(0, host_stride(stride, len), item_type, len) > u32::MAX {
        Some(PointerError::TooManyVectors)
    } else {
        None
    }
}

/// Why a call that binds a pointer array stands for no instruction, if it
/// does for a reason other than its attribute. An attribute that takes no
/// part in vertex assembly ends the matter before the rest is looked at.
pub open spec fn pointer_call_error(
    size: i32,
    stride: i32,
    array_type: i32,
    item_type: i32,
    len: int,
) -> Option<PointerCallError> {
    if forall|kind: PointerArrayType| kind.code() != array_type {
        Some(PointerCallError::UnknownArray)
    } else if exists|kind: PointerArrayType|
        kind.code() == array_type && !kind.spec_is_supported() {
        None
    } else if size < 0 || size > 4 {
        Some(PointerCallError::Refused(PointerError::BadElementCount))
    } else if forall|ty: PointerDataType| ty.code() != item_type {
        Some(PointerCallError::UnknownItemType)
    } else {
        let ty = choose|ty: PointerDataType| ty.code() == item_type;
        match pointer_refusal(size, stride, ty, len) {
            Some(error) => Some(PointerCallError::Refused(error)),
            None => None,
        }
    }
}

/// The instruction of a call that binds the vectors of a strided source to
/// the array of an attribute.
///
/// For an attribute that takes no part in vertex assembly there is none:
/// the call is dropped, whatever its other arguments are. Otherwise the
/// instruction holds the vectors tightly packed, as many as there are
/// whole strides in the source.
pub fn pointer_array(size: i32, stride: i32, array_type: i32, item_type: i32, source: &[u8]) -> (r:
    Result<Option<RenderInstruction>, PointerCallError>)
    ensures
        match r {
            Err(error) => pointer_call_error(
                size,
                stride,
                array_type,
                item_type,
                source@.len() as int,
            ) == Some(error),
            Ok(None) => exists|kind: PointerArrayType|
                kind.code() == array_type && !kind.spec_is_supported(),
            Ok(Some(insn)) => {
                &&& pointer_call_error(size, stride, array_type, item_type, source@.len() as int)
                    is None
                &&& insn matches RenderInstruction::SetPointer {
                    vec_count,
                    array_type: kind,
                    item_type: ty,
                    data,
                    size: n,
                }
                &&& kind.code() == array_type
                &&& kind.spec_is_supported()
                &&& ty.code() == item_type
                &&& n == size
                &&& vec_count == strided_count(
                    size as int,
                    host_stride(stride, source@.len() as int),
                    ty,
                    source@.len() as int,
                )
                &&& data@ == strided_payload(
                    size as int,
                    host_stride(stride, source@.len() as int),
                    ty,
                    source@,
                )
            },
        },
{
    let kind = match PointerArrayType::from_i32(array_type) {
        Some(kind) => kind,
        None => {
            return Err(PointerCallError::UnknownArray);
        },
    };
    assert forall|other: PointerArrayType| other.code() == array_type implies other == kind by {}
    if !kind.is_supported() {
        return Ok(None);
    }
    if size < 0 || size > 4 {
        return Err(PointerCallError::Refused(PointerError::BadElementCount));
    }
    let ty = match PointerDataType::from_i32(item_type) {
        Some(ty) => ty,
        None => {
            return Err(PointerCallError::UnknownItemType);
        },
    };
    assert forall|other: PointerDataType| other.code() == item_type implies other == ty by {}
    let len: usize = source.len();
    proof {
        if stride < 0 {
            vstd::arithmetic::div_mod::lemma_basic_div(len as int, len + 1);
        }
    }
    if size == 0 || stride < 0 {
        if size == 0 && stride == 0 {
            return Err(PointerCallError::Refused(PointerError::BadElementCount));
        }
        let count: usize = if stride < 0 {
            0
        } else {
            len / (stride as usize)
        };
        if count > 0xFFFF_FFFF {
            return Err(PointerCallError::Refused(PointerError::TooManyVectors));
        }
        let data: Vec<u8> = Vec::new();
        assert(count * (size * ty.spec_size()) == 0) by (nonlinear_arith)
            requires
                count == 0 || size == 0,
        ;
        assert(data@ =~= strided_payload(size as int, host_stride(stride, len as int), ty, source@));
        Ok(
            Some(
                RenderInstruction::SetPointer {
                    vec_count: count as u32,
                    array_type: kind,
                    item_type: ty,
                    data: Arc::new(data),
                    size: size as u8,
                },
            ),
        )
    } else {
        match RenderInstruction::set_pointer(size as usize, stride as usize, kind, ty, source) {
            Ok(insn) => Ok(Some(insn)),
            Err(error) => Err(PointerCallError::Refused(error)),
        }
    }
}

/// A count or an index that the host gives as a signed number, as the
/// unsigned number of the same bits.
pub open spec fn as_unsigned(value: i32) -> u32 {
    if value < 0 {
        (value + 0x1_0000_0000) as u32
    } else {
        value as u32
    }
}

/// A count or an index that the host gives as a signed number, as the
/// unsigned number of the same bits.
pub fn to_unsigned(value: i32) -> (r: u32)
    ensures
        r == as_unsigned(value),
{
    if value < 0 {
        (value as i64 + 0x1_0000_0000) as u32
    } else {
        value as u32
    }
}

/// The instruction of a draw call; `None` for a code that names no draw
/// mode.
pub fn draw_arrays(mode: i32, first: i32, count: i32) -> (r: Option<RenderInstruction>)
    ensures
        match r {
            Some(insn) => insn matches RenderInstruction::DrawArrays {
                mode: m,
                first: f,
                count: c,
            } && m.code() == mode && f == as_unsigned(first) && c == as_unsigned(count),
            None => forall|m: DrawMode| m.code() != mode,
        },
{
    match DrawMode::from_i32(mode) {
        Some(m) => Some(
            RenderInstruction::DrawArrays {
                mode: m,
                first: to_unsigned(first),
                count: to_unsigned(count),
            },
        ),
        None => None,
    }
}

/// The instruction that begins a primitive; `None` for a code that names
/// no draw mode.
pub fn begin(mode: i32) -> (r: Option<RenderInstruction>)
    ensures
        match r {
            Some(insn) => insn matches RenderInstruction::Begin(m) && m.code() == mode,
            None => forall|m: DrawMode| m.code() != mode,
        },
{
    match DrawMode::from_i32(mode) {
        Some(m) => Some(RenderInstruction::Begin(m)),
        None => None,
    }
}

/// The instruction that binds a texture to a target; `None` for a target
/// other than the two-dimensional one, to which nothing is bound.
pub fn bind_texture(target: i32, texture: i32) -> (r: Option<RenderInstruction>)
    ensures
        r == if target == GL_TEXTURE_2D {
            Some(RenderInstruction::BindTexture(texture))
        } else {
            None
        },
{
    if target == GL_TEXTURE_2D {
        Some(RenderInstruction::BindTexture(texture))
    } else {
        None
    }
}

/// What a call that clears buffers leads to.
#[derive(Clone, Copy, Debug, PartialEq, Eq, Structural)]
pub enum ClearAction {
    /// The colour buffer is cleared, which is not the assembler's business.
    Colour,
    /// The depth buffer is cleared by an instruction.
    Depth,
    /// Nothing is cleared.
    Nothing,
}

/// Whether a mask has all the bits of another.
pub open spec fn has_bits(mask: u32, bits: u32) -> bool {
    mask & bits == bits
}

/// What a call that clears the buffers of a mask leads to: the colour
/// buffer goes first, and the depth buffer is cleared only without it.
pub fn clear(mask: u32) -> (r: ClearAction)
    ensures
        r == if has_bits(mask, GL_COLOR_BUFFER_BIT) {
            ClearAction::Colour
        } else if has_bits(mask, GL_DEPTH_BUFFER_BIT) {
            ClearAction::Depth
        } else {
            ClearAction::Nothing
        },
{
    let depth = (mask & GL_DEPTH_BUFFER_BIT) == GL_DEPTH_BUFFER_BIT;
    let colour = (mask & GL_COLOR_BUFFER_BIT) == GL_COLOR_BUFFER_BIT;
    if colour {
        ClearAction::Colour
    } else if depth {
        ClearAction::Depth
    } else {
        ClearAction::Nothing
    }
}

/// The vector of the first `given` of four numbers, with zero for a second
/// or third number that is not given and one for a fourth.
pub open spec fn completed(given: int, x: u32, y: u32, z: u32, w: u32) -> Vec4 {
    Vec4 {
        x: if given >= 1 {
            x
        } else {
            0
        },
        y: if given >= 2 {
            y
        } else {
            0
        },
        z: if given >= 3 {
            z
        } else {
            0
        },
        w: if given >= 4 {
            w
        } else {
            ONE_BITS
        },
    }
}

/// The vector of the first `given` of four numbers, with zero for a second
/// or third number that is not given and one for a fourth.
pub fn complete(given: u8, x: u32, y: u32, z: u32, w: u32) -> (r: Vec4)
    ensures
        r == completed(given as int, x, y, z, w),
{
    Vec4 {
        x: if given >= 1 {
            x
        } else {
            0
        },
        y: if given >= 2 {
            y
        } else {
            0
        },
        z: if given >= 3 {
            z
        } else {
            0
        },
        w: if given >= 4 {
            w
        } else {
            ONE_BITS
        },
    }
}

} // verus!
