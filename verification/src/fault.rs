//! The typed faults that end a run.

use vstd::prelude::*;

verus! {

/// Why the machine stopped without finishing.
///
/// A fault is final: the instruction that raised it has changed nothing, and
/// the run it belongs to is over.
#[derive(Clone, Copy, Debug, PartialEq, Eq, Structural)]
pub enum Fault {
    /// The byte fetched at `position` is no opcode.
    UnknownOpcode { tag: u8, position: u64 },
    /// The instruction with this opcode needed more words than the value stack held.
    StackUnderflow { opcode: u8 },
    /// `ret` found no saved return position.
    CallStackUnderflow,
    /// A global slot outside the register file was addressed.
    GlobalIndexOutOfRange { index: u64 },
    /// `div` with a zero divisor.
    DivisionByZero,
    /// A block was released with a size other than the one it was allocated with.
    AllocationSizeMismatch,
    /// The bytecode ended inside the immediate operand that starts at `position`.
    MissingOperand { position: u64 },
    /// The bytes addressed do not lie inside one live block.
    InvalidAddress { address: u64 },
    /// The arena cannot hand out a block of this size.
    AllocationRefused { size: u64 },
    /// An extern function was called by an index that the host has not registered.
    ExternIndexOutOfRange { index: u64 },
    /// The instruction budget of the run was used up.
    StepLimit,
}

} // verus!
