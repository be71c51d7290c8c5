//! The instructions of the immediate-mode interface, one for each call of
//! the host.

use vstd::prelude::*;
use std::sync::Arc;
use crate::gl::DrawMode;
use crate::gl::MatrixMode;
use crate::gl::PointerArrayType;
use crate::gl::PointerDataType;
use crate::matrix::OrthoData;
use crate::matrix::Vec3;
use crate::matrix::Vec4;
use crate::pointer::pack_pointer_array;
use crate::pointer::strided_count;
use crate::pointer::strided_error;
use crate::pointer::strided_payload;
use crate::pointer::PointerError;

verus! {

/// One call of the host.
#[derive(Clone, Debug, PartialEq)]
pub enum RenderInstruction {
    /// Selects the stack that later matrix instructions act on.
    MatrixMode(MatrixMode),
    PushMatrix,
    PopMatrix,
    LoadIdentity,
    Ortho { data: Box<OrthoData> },
    Translate { delta: Vec3 },
    Rotate { angle: u32, axis: Vec3 },
    Scale { scale: Vec3 },
    /// Switches a capability on.
    Enable(i32),
    /// Switches a capability off.
    Disable(i32),
    SetClientState { enabled: bool, array_type: PointerArrayType },
    /// Binds tightly packed vectors to the array of an attribute.
    SetPointer {
        vec_count: u32,
        array_type: PointerArrayType,
        item_type: PointerDataType,
        data: Arc<Vec<u8>>,
        size: u8,
    },
    DrawArrays { mode: DrawMode, first: u32, count: u32 },
    SetActiveTextureUnit(usize),
    /// Binds a texture to the active unit; the texture zero unbinds.
    BindTexture(i32),
    TexCoord(Vec4),
    SetColor(Vec4),
    Begin(DrawMode),
    Vertex(Vec4),
    End,
    AlphaFunc,
    ClearDepth,
}

impl RenderInstruction {
    /// Whether the instruction changes the matrix stack that is selected.
    pub open spec fn mutates_matrix(&self) -> bool {
        match self {
            RenderInstruction::PushMatrix => true,
            RenderInstruction::PopMatrix => true,
            RenderInstruction::LoadIdentity => true,
            RenderInstruction::Ortho { .. } => true,
            RenderInstruction::Translate { .. } => true,
            RenderInstruction::Rotate { .. } => true,
            RenderInstruction::Scale { .. } => true,
            _ => false,
        }
    }

    /// Whether the instruction changes the matrix stack that is selected.
    #[verifier::when_used_as_spec(mutates_matrix)]
    pub fn is_matrix_mutation(&self) -> (r: bool)
        ensures
            r == self.mutates_matrix(),
    {
        match self {
            RenderInstruction::PushMatrix => true,
            RenderInstruction::PopMatrix => true,
            RenderInstruction::LoadIdentity => true,
            RenderInstruction::Ortho { .. } => true,
            RenderInstruction::Translate { .. } => true,
            RenderInstruction::Rotate { .. } => true,
            RenderInstruction::Scale { .. } => true,
            _ => false,
        }
    }

    /// The instruction that binds the vectors of a strided source to the
    /// array of an attribute. The stride is used up here: the instruction
    /// holds the vectors tightly packed.
    pub fn set_pointer(
        size: usize,
        stride: usize,
        array_type: PointerArrayType,
        item_type: PointerDataType,
        source: &[u8],
    ) -> (r: Result<RenderInstruction, PointerError>)
        ensures
            match r {
                Ok(insn) => {
                    &&& strided_error(size as int, stride as int, item_type, source@.len() as int)
                        is None
                    &&& insn matches RenderInstruction::SetPointer {
                        vec_count,
                        array_type: kind,
                        item_type: ty,
                        data,
                        size: n,
                    }
                    &&& vec_count == strided_count(
                        size as int,
                        stride as int,
                        item_type,
                        source@.len() as int,
                    )
                    &&& kind == array_type
                    &&& ty == item_type
                    &&& n == size
                    &&& data@ == strided_payload(size as int, stride as int, item_type, source@)
                },
                Err(e) => strided_error(
                    size as int,
                    stride as int,
                    item_type,
                    source@.len() as int,
                ) == Some(e),
            },
    {
        match pack_pointer_array(size, stride, item_type, source) {
            Ok(packed) => Ok(
                RenderInstruction::SetPointer {
                    vec_count: packed.vec_count,
                    array_type,
                    item_type,
                    data: Arc::new(packed.data),
                    size: size as u8,
                },
            ),
            Err(e) => Err(e),
        }
    }
}

} // verus!
