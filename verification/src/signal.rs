//! What the machine says to the loop that runs it, and what it asks of its host.

use vstd::prelude::*;

verus! {

/// The floating-point operations, which the machine leaves to its host.
#[derive(Clone, Copy, Debug, PartialEq, Eq, Structural)]
pub enum FloatOp {
    AddSingle,
    SubSingle,
    MulSingle,
    DivSingle,
    AddDouble,
    SubDouble,
    MulDouble,
    DivDouble,
}

impl FloatOp {
    /// Whether the operation works on the low 32 bits of its operands.
    pub open spec fn is_single(self) -> bool {
        self is AddSingle || self is SubSingle || self is MulSingle || self is DivSingle
    }

    /// The part of a word that the operation reads and writes.
    pub open spec fn pattern(self, word: u64) -> u64 {
        if self.is_single() {
            word % 0x1_0000_0000
        } else {
            word
        }
    }

    /// Whether a word is a pattern of the operation's width.
    pub open spec fn fits(self, word: u64) -> bool {
        self.is_single() ==> word < 0x1_0000_0000
    }

    /// Whether the operation works on the low 32 bits of its operands.
    pub fn single(self) -> (b: bool)
        ensures
            b == self.is_single(),
    {
        match self {
            FloatOp::AddSingle | FloatOp::SubSingle | FloatOp::MulSingle | FloatOp::DivSingle => true,
            _ => false,
        }
    }

    /// Cuts a word to the part that the operation reads and writes.
    pub fn crop(self, word: u64) -> (w: u64)
        ensures
            w == self.pattern(word),
            self.fits(w),
    {
        if self.single() {
            word % 0x1_0000_0000
        } else {
            word
        }
    }
}

/// What an instruction tells the loop that runs the machine.
#[derive(Clone, Copy, Debug, PartialEq, Eq, Structural)]
pub enum Signal {
    /// Go on with the next instruction.
    Next,
    /// `halt` was executed.
    Halt,
    /// The instruction pointer stands at or behind the end of the bytecode.
    End,
    /// The host is to compute `left op right` on bit patterns and to deliver
    /// the pattern of the result.
    Float { op: FloatOp, left: u64, right: u64 },
    /// The host is to call the extern function with this index.
    Extern { index: u64 },
}

} // verus!
