//! The sandbox of a recording context: where the instructions of the host
//! go, either straight into an assembler or onto a list.

use vstd::prelude::*;
use crate::assembler::FeedReport;
use crate::assembler::RenderInsnAssembler;
use crate::instruction::RenderInstruction;

verus! {

/// Where the instructions of a recording context go.
pub enum RenderSandbox {
    /// Into an assembler, which carries them out.
    Assembler(Box<RenderInsnAssembler>),
    /// Onto a list, for a later reader.
    List(Vec<RenderInstruction>),
    /// Nowhere: no sandbox is installed.
    Empty,
}

/// What became of an instruction that was pushed into a sandbox.
#[derive(Debug)]
pub enum PushOutcome {
    /// The assembler was fed with it.
    Fed(FeedReport),
    /// It was put onto the list.
    Listed,
    /// It was dropped: no sandbox is installed.
    Dropped,
}

impl RenderSandbox {
    /// A sandbox that holds an assembler holds one that is well formed.
    pub open spec fn wf(&self) -> bool {
        self matches RenderSandbox::Assembler(assembler) ==> assembler@.wf()
    }

    /// The texture that the last `BindTexture` of a list names, zero
    /// included.
    pub open spec fn last_bound(insns: Seq<RenderInstruction>) -> Option<i32>
        decreases insns.len(),
    {
        if insns.len() == 0 {
            None
        } else {
            match insns.last() {
                RenderInstruction::BindTexture(id) => Some(id),
                _ => Self::last_bound(insns.drop_last()),
            }
        }
    }

    /// Whether `after` and `outcome` are what pushing an instruction into
    /// `before` gives: an assembler is fed with it, a list is lengthened by
    /// it, and without a sandbox it is dropped.
    pub open spec fn pushes(
        before: RenderSandbox,
        insn: RenderInstruction,
        after: RenderSandbox,
        outcome: PushOutcome,
    ) -> bool {
        match before {
            RenderSandbox::Assembler(fed) => {
                &&& after matches RenderSandbox::Assembler(then)
                &&& outcome matches PushOutcome::Fed(report)
                &&& then@ == fed@.run(seq![insn]).state
                &&& report.consumed == fed@.run(seq![insn]).consumed
                &&& report.task == fed@.run(seq![insn]).task
                &&& report.warnings@ == fed@.run(seq![insn]).warnings
            },
            RenderSandbox::List(list) => {
                &&& after matches RenderSandbox::List(then)
                &&& outcome is Listed
                &&& then@ == list@.push(insn)
            },
            RenderSandbox::Empty => {
                &&& after is Empty
                &&& outcome is Dropped
            },
        }
    }

    /// Hands an instruction to the sandbox.
    pub fn push(&mut self, insn: RenderInstruction) -> (r: PushOutcome)
        requires
            old(self).wf(),
        ensures
            final(self).wf(),
            Self::pushes(*old(self), insn, *final(self), r),
    {
        match self {
            RenderSandbox::Assembler(assembler) => {
                let insns = [insn];
                assert(insns@ =~= seq![insn]);
                PushOutcome::Fed(assembler.feed(insns.as_slice()))
            },
            RenderSandbox::List(insns) => {
                insns.push(insn);
                PushOutcome::Listed
            },
            RenderSandbox::Empty => PushOutcome::Dropped,
        }
    }

    /// The texture that the last `BindTexture` of a list names.
    fn last_bound_texture(insns: &Vec<RenderInstruction>) -> (r: Option<i32>)
        ensures
            r == Self::last_bound(insns@),
    {
        let mut i: usize = insns.len();
        assert(insns@.subrange(0, i as int) =~= insns@);
        while i > 0
            invariant
                0 <= i <= insns@.len(),
                Self::last_bound(insns@) == Self::last_bound(insns@.subrange(0, i as int)),
            decreases i,
        {
            let ghost prefix = insns@.subrange(0, i as int);
            assert(prefix.last() == insns@[i - 1]);
            assert(prefix.drop_last() =~= insns@.subrange(0, i - 1));
            match &insns[i - 1] {
                RenderInstruction::BindTexture(id) => {
                    return Some(*id);
                },
                _ => {},
            }
            i -= 1;
        }
        assert(insns@.subrange(0, 0).len() == 0);
        None
    }

    /// The texture that is bound: to the active unit of the assembler, or by
    /// the last `BindTexture` of the list.
    pub fn get_bound_texture(&self) -> (r: Option<i32>)
        requires
            self.wf(),
        ensures
            r == match *self {
                RenderSandbox::Assembler(assembler) => assembler@.active_texture(),
                RenderSandbox::List(insns) => Self::last_bound(insns@),
                RenderSandbox::Empty => None,
            },
    {
        match self {
            RenderSandbox::Assembler(assembler) => assembler.get_active_texture(),
            RenderSandbox::List(insns) => Self::last_bound_texture(insns),
            RenderSandbox::Empty => None,
        }
    }
}

/// Hands an instruction to the sandbox of a recording context.
pub fn push_instruction(sandbox: &mut RenderSandbox, insn: RenderInstruction) -> (r: PushOutcome)
    requires
        old(sandbox).wf(),
    ensures
        final(sandbox).wf(),
        RenderSandbox::pushes(*old(sandbox), insn, *final(sandbox), r),
{
    sandbox.push(insn)
}

/// Installs a sandbox in the slot of a recording context. A slot holds one
/// sandbox at most.
pub fn put_sandbox(slot: &mut RenderSandbox, sandbox: RenderSandbox)
    requires
        *old(slot) is Empty,
    ensures
        *final(slot) == sandbox,
{
    *slot = sandbox;
}

/// Takes the sandbox out of the slot of a recording context, if one is
/// installed.
pub fn take_sandbox(slot: &mut RenderSandbox) -> (r: Option<RenderSandbox>)
    ensures
        *final(slot) is Empty,
        match r {
            Some(sandbox) => sandbox == *old(slot) && !(sandbox is Empty),
            None => *old(slot) is Empty,
        },
{
    let mut existing = RenderSandbox::Empty;
    core::mem::swap(slot, &mut existing);
    match existing {
        RenderSandbox::Empty => None,
        other => Some(other),
    }
}

} // verus!
