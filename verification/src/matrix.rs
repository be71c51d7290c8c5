//! Vectors and matrices of single-precision numbers, held as bit patterns,
//! and the matrix stack.
//!
//! The library carries these numbers and never computes with them: a
//! transformation is handed out as a task, and its result is handed back.

use vstd::prelude::*;

verus! {

/// The bits of the single-precision number one.
pub const ONE_BITS: u32 = 0x3F80_0000;

/// Three single-precision numbers, each as its bits.
#[derive(Clone, Copy, Debug, PartialEq, Eq, Structural, Hash)]
pub struct Vec3 {
    pub x: u32,
    pub y: u32,
    pub z: u32,
}

/// Four single-precision numbers, each as its bits.
#[derive(Clone, Copy, Debug, PartialEq, Eq, Structural, Hash)]
pub struct Vec4 {
    pub x: u32,
    pub y: u32,
    pub z: u32,
    pub w: u32,
}

impl Vec4 {
    /// The vector whose four numbers are one: opaque white, as a colour.
    pub fn ones() -> (r: Self)
        ensures
            r == (Vec4 { x: ONE_BITS, y: ONE_BITS, z: ONE_BITS, w: ONE_BITS }),
    {
        Vec4 { x: ONE_BITS, y: ONE_BITS, z: ONE_BITS, w: ONE_BITS }
    }

    /// The vector whose four numbers are zero.
    pub fn zeros() -> (r: Self)
        ensures
            r == (Vec4 { x: 0, y: 0, z: 0, w: 0 }),
    {
        Vec4 { x: 0, y: 0, z: 0, w: 0 }
    }
}

/// A matrix of four columns of four single-precision numbers, column after
/// column, each number as its bits.
#[derive(Clone, Copy, Debug, PartialEq, Eq, Hash)]
pub struct Mat4 {
    pub cells: [u32; 16],
}

impl Mat4 {
    /// The cells of the identity: one on the diagonal, zero elsewhere.
    pub open spec fn identity_cells() -> Seq<u32> {
        Seq::new(
            16,
            |i: int|
                if i % 5 == 0 {
                    ONE_BITS
                } else {
                    0u32
                },
        )
    }

    /// Whether this is the identity matrix.
    pub open spec fn is_identity(self) -> bool {
        self.cells@ == Self::identity_cells()
    }

    /// Whether two matrices have the same bits in every cell.
    pub fn equals(&self, other: &Mat4) -> (r: bool)
        ensures
            r == (*self == *other),
    {
        let mut i: usize = 0;
        while i < 16
            invariant
                0 <= i <= 16,
                forall|j: int| 0 <= j < i ==> self.cells[j] == other.cells[j],
            decreases 16 - i,
        {
            if self.cells[i] != other.cells[i] {
                return false;
            }
            i += 1;
        }
        proof {
            assert(self.cells@ =~= other.cells@);
            assert(self.cells == other.cells);
        }
        true
    }

    /// The identity matrix.
    pub fn identity() -> (r: Self)
        ensures
            r.is_identity(),
            r == identity_matrix(),
    {
        let r = Mat4 {
            cells: [
                ONE_BITS,
                0,
                0,
                0,
                0,
                ONE_BITS,
                0,
                0,
                0,
                0,
                ONE_BITS,
                0,
                0,
                0,
                0,
                ONE_BITS,
            ],
        };
        assert(r.cells@ =~= Self::identity_cells());
        proof {
            lemma_identity_matrix(r);
        }
        r
    }
}

/// The identity matrix.
pub open spec fn identity_matrix() -> Mat4 {
    choose|m: Mat4| m.is_identity()
}

/// There is but one identity matrix.
pub proof fn lemma_identity_matrix(m: Mat4)
    requires
        m.is_identity(),
    ensures
        m == identity_matrix(),
{
    let i = identity_matrix();
    assert(m.cells@ =~= i.cells@);
    assert(m.cells == i.cells);
}

/// The planes of an orthographic view volume.
#[derive(Clone, Copy, Debug, PartialEq, Eq, Structural)]
pub struct OrthoData {
    pub left: u32,
    pub right: u32,
    pub bottom: u32,
    pub top: u32,
    pub z_near: u32,
    pub z_far: u32,
}

/// Arithmetic on matrices that the library leaves to its caller. The caller
/// works the task out and hands the result back.
#[derive(Clone, Copy, Debug, PartialEq, Eq)]
pub enum MatrixTask {
    /// The product of the orthographic projection of `data` and `current`,
    /// in this order.
    Ortho { data: OrthoData, current: Mat4 },
    /// The product of `current` and the translation by `delta`, in this
    /// order: the translation is applied to a vertex first.
    Translate { delta: Vec3, current: Mat4 },
    /// The product of the rotation by `angle` about `axis` and `current`,
    /// in this order.
    Rotate { angle: u32, axis: Vec3, current: Mat4 },
    /// The product of `current` and the scaling by `scale`, in this
    /// order: the scaling is applied to a vertex first.
    Scale { scale: Vec3, current: Mat4 },
    /// The product of `projection` and `model_view`, in this order.
    Product { projection: Mat4, model_view: Mat4 },
}

/// A matrix stack as a value: the matrices it has room for, and the place
/// of the one on top.
pub struct StackModel {
    pub top: nat,
    pub slots: Seq<Mat4>,
}

impl StackModel {
    /// The top lies within the slots.
    pub open spec fn wf(self) -> bool {
        self.top < self.slots.len()
    }

    /// The matrix on top.
    pub open spec fn current(self) -> Mat4
        recommends
            self.wf(),
    {
        self.slots[self.top as int]
    }

    /// The stack with the top matrix once more on top of it. A slot that an
    /// earlier pop left behind is used again.
    pub open spec fn push(self) -> StackModel {
        StackModel {
            top: self.top + 1,
            slots: if self.top + 1 < self.slots.len() {
                self.slots.update(self.top + 1 as int, self.current())
            } else {
                self.slots.push(self.current())
            },
        }
    }

    /// The stack without its top matrix; the same stack where only one
    /// matrix is on it.
    pub open spec fn pop(self) -> StackModel {
        StackModel {
            top: if self.top > 0 {
                (self.top - 1) as nat
            } else {
                0
            },
            slots: self.slots,
        }
    }

    /// The stack with another matrix in place of the top one.
    pub open spec fn replace(self, matrix: Mat4) -> StackModel {
        StackModel { top: self.top, slots: self.slots.update(self.top as int, matrix) }
    }
}

/// A stack of matrices. There is always a matrix on it.
pub struct MatrixStack {
    top: usize,
    matrices: Vec<Mat4>,
}

impl View for MatrixStack {
    type V = StackModel;

    closed spec fn view(&self) -> StackModel {
        StackModel { top: self.top as nat, slots: self.matrices@ }
    }
}

impl MatrixStack {
    #[verifier::type_invariant]
    spec fn top_within(self) -> bool {
        self.top < self.matrices@.len()
    }

    /// A stack that holds the identity matrix alone.
    pub fn new() -> (r: Self)
        ensures
            r@.wf(),
            r@ == (StackModel { top: 0, slots: seq![identity_matrix()] }),
            identity_matrix().is_identity(),
    {
        let mut matrices: Vec<Mat4> = Vec::new();
        matrices.push(Mat4::identity());
        assert(matrices@ =~= seq![identity_matrix()]);
        MatrixStack { top: 0, matrices }
    }

    /// Puts the top matrix once more on top of the stack.
    pub fn push(&mut self)
        ensures
            final(self)@ == old(self)@.push(),
            final(self)@.wf(),
    {
        proof {
            use_type_invariant(&*self);
        }
        let current = self.matrices[self.top];
        let len: usize = self.matrices.len();
        let above: usize = self.top + 1;
        if above < len {
            self.matrices[above] = current;
        } else {
            let mut grown: Vec<Mat4> = Vec::new();
            let mut i: usize = 0;
            while i < above
                invariant
                    i <= above == self.matrices@.len(),
                    grown@ == self.matrices@.subrange(0, i as int),
                decreases above - i,
            {
                grown.push(self.matrices[i]);
                assert(grown@ =~= self.matrices@.subrange(0, i + 1));
                i += 1;
            }
            assert(grown@ =~= self.matrices@);
            grown.push(current);
            self.matrices = grown;
        }
        self.top = above;
    }

    /// Takes the top matrix off the stack, unless it is the only one.
    pub fn pop(&mut self)
        ensures
            final(self)@ == old(self)@.pop(),
            final(self)@.wf(),
    {
        proof {
            use_type_invariant(&*self);
        }
        if self.top > 0 {
            self.top -= 1;
        }
    }

    /// The matrix on top.
    pub fn get(&self) -> (r: &Mat4)
        ensures
            self@.wf(),
            *r == self@.current(),
    {
        proof {
            use_type_invariant(self);
        }
        &self.matrices[self.top]
    }

    /// Puts the identity matrix in place of the top one.
    pub fn load_identity(&mut self)
        ensures
            final(self)@.wf(),
            final(self)@ == old(self)@.replace(identity_matrix()),
            identity_matrix().is_identity(),
    {
        proof {
            use_type_invariant(&*self);
        }
        let top = self.top;
        self.matrices[top] = Mat4::identity();
    }

    /// The task to translate the top matrix.
    pub fn translate(&self, v: &Vec3) -> (r: MatrixTask)
        ensures
            r == (MatrixTask::Translate { delta: *v, current: self@.current() }),
    {
        MatrixTask::Translate { delta: *v, current: *self.get() }
    }

    /// The task to scale the top matrix.
    pub fn scale(&self, v: &Vec3) -> (r: MatrixTask)
        ensures
            r == (MatrixTask::Scale { scale: *v, current: self@.current() }),
    {
        MatrixTask::Scale { scale: *v, current: *self.get() }
    }

    /// The task to multiply a rotation onto the top matrix.
    pub fn rotate(&self, axis: &Vec3, angle: u32) -> (r: MatrixTask)
        ensures
            r == (MatrixTask::Rotate { angle, axis: *axis, current: self@.current() }),
    {
        MatrixTask::Rotate { angle, axis: *axis, current: *self.get() }
    }

    /// The task to multiply an orthographic projection onto the top matrix.
    pub fn ortho(&self, params: &OrthoData) -> (r: MatrixTask)
        ensures
            r == (MatrixTask::Ortho { data: *params, current: self@.current() }),
    {
        MatrixTask::Ortho { data: *params, current: *self.get() }
    }

    /// Puts a matrix in place of the top one.
    pub fn set(&mut self, matrix: Mat4)
        ensures
            final(self)@.wf(),
            final(self)@ == old(self)@.replace(matrix),
    {
        proof {
            use_type_invariant(&*self);
        }
        let top = self.top;
        self.matrices[top] = matrix;
    }
}

/// An operation on a matrix stack. Loading the identity and every
/// transformation put a matrix in place of the top one.
pub enum StackOp {
    Push,
    Pop,
    Replace(Mat4),
}

/// The stack after one operation.
pub open spec fn stack_after(stack: StackModel, op: StackOp) -> StackModel {
    match op {
        StackOp::Push => stack.push(),
        StackOp::Pop => stack.pop(),
        StackOp::Replace(matrix) => stack.replace(matrix),
    }
}

/// The stack after a run of operations.
pub open spec fn stack_after_all(stack: StackModel, ops: Seq<StackOp>) -> StackModel
    decreases ops.len(),
{
    if ops.len() == 0 {
        stack
    } else {
        stack_after(stack_after_all(stack, ops.drop_last()), ops.last())
    }
}

/// Whatever is done to a stack and however often, there is a matrix on
/// top of it: the top never falls below the first slot and never lies
/// beyond the last, and no slot is ever given up.
pub proof fn lemma_stack_never_underflows(stack: StackModel, ops: Seq<StackOp>)
    requires
        stack.wf(),
    ensures
        stack_after_all(stack, ops).wf(),
        stack_after_all(stack, ops).top >= 0,
        stack_after_all(stack, ops).slots.len() >= stack.slots.len(),
    decreases ops.len(),
{
    if ops.len() > 0 {
        lemma_stack_never_underflows(stack, ops.drop_last());
    }
}

} // verus!
