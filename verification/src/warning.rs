//! What the assembler reports of input that it could only take in part.

use vstd::prelude::*;
use crate::gl::PointerArrayType;

verus! {

/// A remark on an instruction that was carried out in part or not at all.
/// None of them stops the assembler.
#[derive(Clone, Copy, Debug, PartialEq, Eq, Structural)]
pub enum Warning {
    /// An array is enabled whose attribute takes no part in vertex assembly.
    UnsupportedArray { array: PointerArrayType },
    /// An array is enabled to which no data was bound; it is left out.
    MissingArrayData { array: PointerArrayType },
    /// The arrays that enter a vertex differ in length. The array named
    /// here is longer than the shortest of them and was cut: of its
    /// `array_length` vertices the first `packed_length` are used.
    LengthMismatch { array: PointerArrayType, array_length: u32, packed_length: u32 },
    /// Texture coordinates are left out because texturing is switched off.
    TexturingDisabled,
    /// Texture coordinates are left out because no texture is bound.
    NoActiveTexture,
    /// Texture coordinates are left out because they are not pairs of
    /// floating-point numbers.
    BadTexCoordFormat,
    /// A draw call was dropped because no usable position array is enabled.
    DrawWithoutPosition,
    /// Texturing is switched on, but the vertices carry no texture coordinates.
    TextureWithoutTexCoord,
    /// Texturing is switched on, but the active unit has no texture bound.
    TextureUnitWithoutTexture { texture_unit: usize },
    /// A pointer was refused: its vectors do not have one to four items, or
    /// its bytes are not exactly those of its vectors.
    InvalidPointer { array: PointerArrayType },
    /// A texture unit beyond the last one was selected; the selection stays.
    BadTextureUnit { texture_unit: usize },
    /// A draw call was dropped because its vertices would fill more bytes
    /// than a buffer can hold.
    BufferTooLarge,
    /// An instruction of the immediate mode that is not carried out.
    UnsupportedInstruction,
}

} // verus!
