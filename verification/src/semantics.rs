//! What each instruction does, as functions on the machine state.
//!
//! Every function here takes the state in which the instruction pointer
//! already stands behind the opcode, as a handler finds it, and gives the
//! state that the instruction leaves together with its signal, or the fault
//! it raises. Of two popped words the one popped first is the left operand.

use vstd::prelude::*;
use crate::arena::allocated;
use crate::arena::base_address;
use crate::arena::can_allocate;
use crate::arena::in_block;
use crate::arena::loaded;
use crate::arena::release_check;
use crate::arena::released;
use crate::arena::stored;
use crate::fault::Fault;
use crate::machine::Machine;
use crate::opcode;
use crate::signal::FloatOp;
use crate::signal::Signal;
use crate::word::Width;
use crate::word::be_value;
use crate::word::shift_left;
use crate::word::shift_right;
use crate::word::wrapping_difference;
use crate::word::wrapping_product;
use crate::word::wrapping_sum;

verus! {

/// What an instruction comes to: the state it leaves and its signal, or a fault.
pub type Outcome = Result<(Machine, Signal), Fault>;

/// The instruction left `s` and asks for the next one.
pub open spec fn proceed(s: Machine) -> Outcome {
    Ok((s, Signal::Next))
}

/// The word popped first: the top of the stack.
pub open spec fn first(s: Machine) -> u64 {
    s.stack[s.stack.len() - 1]
}

/// The word popped second.
pub open spec fn second(s: Machine) -> u64 {
    s.stack[s.stack.len() - 2]
}

/// `s` without the `n` top words of its stack.
pub open spec fn dropped(s: Machine, n: nat) -> Machine {
    Machine { stack: s.stack.subrange(0, s.stack.len() - n), ..s }
}

/// `s` with `word` pushed.
pub open spec fn pushed(s: Machine, word: u64) -> Machine {
    Machine { stack: s.stack.push(word), ..s }
}

/// `s` with the instruction pointer moved `n` bytes on.
pub open spec fn advanced(s: Machine, n: nat) -> Machine {
    Machine { ip: (s.ip + n) as u64, ..s }
}

/// The immediate operand of `n` bytes at `at`, read most significant byte first.
pub open spec fn operand(code: Seq<u8>, at: u64, n: nat) -> Result<u64, Fault> {
    if at + n <= code.len() {
        Ok(be_value(code.subrange(at as int, at + n)) as u64)
    } else {
        Err(Fault::MissingOperand { position: at })
    }
}

/// What `halt` does.
pub open spec fn halt_spec(s: Machine) -> Outcome {
    Ok((s, Signal::Halt))
}

/// A constant push: a new block holds the immediate, its address is pushed.
pub open spec fn push_const_spec(s: Machine, code: Seq<u8>, width: Width) -> Outcome {
    let n = width.size();
    match operand(code, s.ip, n) {
        Err(f) => Err(f),
        Ok(value) => if !can_allocate(s.memory, n as u64) {
            Err(Fault::AllocationRefused { size: n as u64 })
        } else {
            let address = base_address(s.memory.len() as int) as u64;
            proceed(
                Machine {
                    ip: (s.ip + n) as u64,
                    stack: s.stack.push(address),
                    memory: stored(allocated(s.memory, n as u64), address, width, value),
                    ..s
                },
            )
        },
    }
}

/// What `pu1` does.
pub open spec fn pu1_spec(s: Machine, code: Seq<u8>) -> Outcome {
    push_const_spec(s, code, Width::One)
}

/// What `pu2` does.
pub open spec fn pu2_spec(s: Machine, code: Seq<u8>) -> Outcome {
    push_const_spec(s, code, Width::Two)
}

/// What `pu4` does.
pub open spec fn pu4_spec(s: Machine, code: Seq<u8>) -> Outcome {
    push_const_spec(s, code, Width::Four)
}

/// What `pu8` does.
pub open spec fn pu8_spec(s: Machine, code: Seq<u8>) -> Outcome {
    push_const_spec(s, code, Width::Eight)
}

/// Pops a size and pushes the address of a new zero-filled block of that size.
pub open spec fn pux_spec(s: Machine) -> Outcome {
    if s.stack.len() < 1 {
        Err(Fault::StackUnderflow { opcode: opcode::PUX })
    } else if !can_allocate(s.memory, first(s)) {
        Err(Fault::AllocationRefused { size: first(s) })
    } else {
        proceed(
            Machine {
                stack: s.stack.drop_last().push(base_address(s.memory.len() as int) as u64),
                memory: allocated(s.memory, first(s)),
                ..s
            },
        )
    }
}

/// Pops a word into the global slot that the operand byte names.
pub open spec fn set_spec(s: Machine, code: Seq<u8>) -> Outcome {
    if s.stack.len() < 1 {
        Err(Fault::StackUnderflow { opcode: opcode::SET })
    } else {
        match operand(code, s.ip, 1) {
            Err(f) => Err(f),
            Ok(index) => proceed(
                Machine {
                    ip: (s.ip + 1) as u64,
                    stack: s.stack.drop_last(),
                    globals: s.globals.update(index as int, first(s)),
                    ..s
                },
            ),
        }
    }
}

/// Pushes the word in the global slot that the operand byte names.
pub open spec fn get_spec(s: Machine, code: Seq<u8>) -> Outcome {
    match operand(code, s.ip, 1) {
        Err(f) => Err(f),
        Ok(index) => proceed(
            Machine {
                ip: (s.ip + 1) as u64,
                stack: s.stack.push(s.globals[index as int]),
                ..s
            },
        ),
    }
}

/// Pops a byte offset and writes the operand byte that far into the block
/// addressed by the word below, which stays on the stack.
pub open spec fn setx_spec(s: Machine, code: Seq<u8>) -> Outcome {
    if s.stack.len() < 2 {
        Err(Fault::StackUnderflow { opcode: opcode::SETX })
    } else {
        match operand(code, s.ip, 1) {
            Err(f) => Err(f),
            Ok(byte) => {
                let target = wrapping_sum(second(s), first(s));
                if !in_block(s.memory, target, 1) {
                    Err(Fault::InvalidAddress { address: target })
                } else {
                    proceed(
                        Machine {
                            ip: (s.ip + 1) as u64,
                            stack: s.stack.drop_last(),
                            memory: stored(s.memory, target, Width::One, byte),
                            ..s
                        },
                    )
                }
            },
        }
    }
}

/// Pops a byte count and moves the address below it by that many bytes.
pub open spec fn off_spec(s: Machine) -> Outcome {
    if s.stack.len() < 2 {
        Err(Fault::StackUnderflow { opcode: opcode::OFF })
    } else {
        proceed(pushed(dropped(s, 2), wrapping_sum(second(s), first(s))))
    }
}

/// Pushes a copy of the top word; does nothing on an empty stack.
pub open spec fn cp_spec(s: Machine) -> Outcome {
    if s.stack.len() < 1 {
        proceed(s)
    } else {
        proceed(pushed(s, first(s)))
    }
}

/// A typed load: pops an address and pushes the number its bytes spell.
pub open spec fn load_spec(s: Machine, tag: u8, width: Width) -> Outcome {
    if s.stack.len() < 1 {
        Err(Fault::StackUnderflow { opcode: tag })
    } else if !in_block(s.memory, first(s), width.size()) {
        Err(Fault::InvalidAddress { address: first(s) })
    } else {
        proceed(pushed(dropped(s, 1), loaded(s.memory, first(s), width)))
    }
}

/// What `load1` does.
pub open spec fn load1_spec(s: Machine) -> Outcome {
    load_spec(s, opcode::LOAD1, Width::One)
}

/// What `load2` does.
pub open spec fn load2_spec(s: Machine) -> Outcome {
    load_spec(s, opcode::LOAD2, Width::Two)
}

/// What `load4` does.
pub open spec fn load4_spec(s: Machine) -> Outcome {
    load_spec(s, opcode::LOAD4, Width::Four)
}

/// What `load8` does.
pub open spec fn load8_spec(s: Machine) -> Outcome {
    load_spec(s, opcode::LOAD8, Width::Eight)
}

/// Pops two words and pushes `result`, which the caller computed from them.
pub open spec fn binary_spec(s: Machine, tag: u8, result: u64) -> Outcome {
    if s.stack.len() < 2 {
        Err(Fault::StackUnderflow { opcode: tag })
    } else {
        proceed(pushed(dropped(s, 2), result))
    }
}

/// What `and` does.
pub open spec fn and_spec(s: Machine) -> Outcome {
    binary_spec(s, opcode::AND, first(s) & second(s))
}

/// What `or` does.
pub open spec fn or_spec(s: Machine) -> Outcome {
    binary_spec(s, opcode::OR, first(s) | second(s))
}

/// What `xor` does.
pub open spec fn xor_spec(s: Machine) -> Outcome {
    binary_spec(s, opcode::XOR, first(s) ^ second(s))
}

/// The word popped first is the amount, the second the value shifted.
pub open spec fn lshift_spec(s: Machine) -> Outcome {
    binary_spec(s, opcode::LSHIFT, shift_left(second(s), first(s)))
}

/// The word popped first is the amount, the second the value shifted.
pub open spec fn rshift_spec(s: Machine) -> Outcome {
    binary_spec(s, opcode::RSHIFT, shift_right(second(s), first(s)))
}

/// What `add` does.
pub open spec fn add_spec(s: Machine) -> Outcome {
    binary_spec(s, opcode::ADD, wrapping_sum(first(s), second(s)))
}

/// What `sub` does.
pub open spec fn sub_spec(s: Machine) -> Outcome {
    binary_spec(s, opcode::SUB, wrapping_difference(first(s), second(s)))
}

/// What `mul` does.
pub open spec fn mul_spec(s: Machine) -> Outcome {
    binary_spec(s, opcode::MUL, wrapping_product(first(s), second(s)))
}

/// The word popped first is divided by the second.
pub open spec fn div_spec(s: Machine) -> Outcome {
    if s.stack.len() < 2 {
        Err(Fault::StackUnderflow { opcode: opcode::DIV })
    } else if second(s) == 0 {
        Err(Fault::DivisionByZero)
    } else {
        proceed(pushed(dropped(s, 2), first(s) / second(s)))
    }
}

/// Pops two words and hands their patterns to the host as operands of `op`.
pub open spec fn float_spec(s: Machine, tag: u8, op: FloatOp) -> Outcome {
    if s.stack.len() < 2 {
        Err(Fault::StackUnderflow { opcode: tag })
    } else {
        Ok(
            (
                dropped(s, 2),
                Signal::Float { op, left: op.pattern(first(s)), right: op.pattern(second(s)) },
            ),
        )
    }
}

/// What `addf` does.
pub open spec fn addf_spec(s: Machine) -> Outcome {
    float_spec(s, opcode::ADDF, FloatOp::AddSingle)
}

/// What `subf` does.
pub open spec fn subf_spec(s: Machine) -> Outcome {
    float_spec(s, opcode::SUBF, FloatOp::SubSingle)
}

/// What `mulf` does.
pub open spec fn mulf_spec(s: Machine) -> Outcome {
    float_spec(s, opcode::MULF, FloatOp::MulSingle)
}

/// What `divf` does.
pub open spec fn divf_spec(s: Machine) -> Outcome {
    float_spec(s, opcode::DIVF, FloatOp::DivSingle)
}

/// What `addd` does.
pub open spec fn addd_spec(s: Machine) -> Outcome {
    float_spec(s, opcode::ADDD, FloatOp::AddDouble)
}

/// What `subd` does.
pub open spec fn subd_spec(s: Machine) -> Outcome {
    float_spec(s, opcode::SUBD, FloatOp::SubDouble)
}

/// What `muld` does.
pub open spec fn muld_spec(s: Machine) -> Outcome {
    float_spec(s, opcode::MULD, FloatOp::MulDouble)
}

/// What `divd` does.
pub open spec fn divd_spec(s: Machine) -> Outcome {
    float_spec(s, opcode::DIVD, FloatOp::DivDouble)
}

/// The state after the host delivered `result` for a float operation.
pub open spec fn delivered(s: Machine, op: FloatOp, result: u64) -> Machine {
    pushed(s, op.pattern(result))
}

/// Pops two words and sets the flag to `result`, which the caller computed from them.
pub open spec fn compare_spec(s: Machine, tag: u8, result: bool) -> Outcome {
    if s.stack.len() < 2 {
        Err(Fault::StackUnderflow { opcode: tag })
    } else {
        proceed(Machine { flag: result, ..dropped(s, 2) })
    }
}

/// What `eq` does.
pub open spec fn eq_spec(s: Machine) -> Outcome {
    compare_spec(s, opcode::EQ, first(s) == second(s))
}

/// What `neq` does.
pub open spec fn neq_spec(s: Machine) -> Outcome {
    compare_spec(s, opcode::NEQ, first(s) != second(s))
}

/// What `gr` does.
pub open spec fn gr_spec(s: Machine) -> Outcome {
    compare_spec(s, opcode::GR, first(s) > second(s))
}

/// What `sm` does.
pub open spec fn sm_spec(s: Machine) -> Outcome {
    compare_spec(s, opcode::SM, first(s) < second(s))
}

/// What `not` does.
pub open spec fn not_spec(s: Machine) -> Outcome {
    proceed(Machine { flag: !s.flag, ..s })
}

/// Pops a target and, if `taken`, goes on there.
pub open spec fn jump_spec(s: Machine, tag: u8, taken: bool) -> Outcome {
    if s.stack.len() < 1 {
        Err(Fault::StackUnderflow { opcode: tag })
    } else if taken {
        proceed(Machine { ip: first(s), ..dropped(s, 1) })
    } else {
        proceed(dropped(s, 1))
    }
}

/// What `jmp` does.
pub open spec fn jmp_spec(s: Machine) -> Outcome {
    jump_spec(s, opcode::JMP, true)
}

/// What `jmpif` does.
pub open spec fn jmpif_spec(s: Machine) -> Outcome {
    jump_spec(s, opcode::JMPIF, s.flag)
}

/// What `jmpifn` does.
pub open spec fn jmpifn_spec(s: Machine) -> Outcome {
    jump_spec(s, opcode::JMPIFN, !s.flag)
}

/// What `ret` does.
pub open spec fn ret_spec(s: Machine) -> Outcome {
    if s.calls.len() < 1 {
        Err(Fault::CallStackUnderflow)
    } else {
        proceed(Machine { ip: s.calls.last(), calls: s.calls.drop_last(), ..s })
    }
}

/// Saves the position behind the eight operand bytes and goes on at the
/// target they spell.
pub open spec fn call_spec(s: Machine, code: Seq<u8>) -> Outcome {
    match operand(code, s.ip, 8) {
        Err(f) => Err(f),
        Ok(target) => proceed(
            Machine { ip: target, calls: s.calls.push((s.ip + 8) as u64), ..s },
        ),
    }
}

/// What `calldy` does.
pub open spec fn calldy_spec(s: Machine) -> Outcome {
    if s.stack.len() < 1 {
        Err(Fault::StackUnderflow { opcode: opcode::CALLDY })
    } else {
        proceed(Machine { ip: first(s), calls: s.calls.push(s.ip), ..dropped(s, 1) })
    }
}

/// Asks the host for the extern function `index`, if one is registered.
pub open spec fn extern_spec(s: Machine, index: u64) -> Outcome {
    if index >= s.externs {
        Err(Fault::ExternIndexOutOfRange { index })
    } else {
        Ok((s, Signal::Extern { index }))
    }
}

/// What `fun` does.
pub open spec fn fun_spec(s: Machine, code: Seq<u8>) -> Outcome {
    match operand(code, s.ip, 8) {
        Err(f) => Err(f),
        Ok(index) => extern_spec(advanced(s, 8), index),
    }
}

/// What `fundy` does.
pub open spec fn fundy_spec(s: Machine) -> Outcome {
    if s.stack.len() < 1 {
        Err(Fault::StackUnderflow { opcode: opcode::FUNDY })
    } else {
        extern_spec(dropped(s, 1), first(s))
    }
}

/// A typed write: the immediate goes into the block that the top word
/// addresses; the stack stays as it is.
pub open spec fn store_spec(s: Machine, code: Seq<u8>, tag: u8, width: Width) -> Outcome {
    if s.stack.len() < 1 {
        Err(Fault::StackUnderflow { opcode: tag })
    } else {
        match operand(code, s.ip, width.size()) {
            Err(f) => Err(f),
            Ok(value) => if !in_block(s.memory, first(s), width.size()) {
                Err(Fault::InvalidAddress { address: first(s) })
            } else {
                proceed(
                    Machine {
                        ip: (s.ip + width.size()) as u64,
                        memory: stored(s.memory, first(s), width, value),
                        ..s
                    },
                )
            },
        }
    }
}

/// What `set1` does.
pub open spec fn set1_spec(s: Machine, code: Seq<u8>) -> Outcome {
    store_spec(s, code, opcode::SET1, Width::One)
}

/// What `set2` does.
pub open spec fn set2_spec(s: Machine, code: Seq<u8>) -> Outcome {
    store_spec(s, code, opcode::SET2, Width::Two)
}

/// What `set4` does.
pub open spec fn set4_spec(s: Machine, code: Seq<u8>) -> Outcome {
    store_spec(s, code, opcode::SET4, Width::Four)
}

/// What `set8` does.
pub open spec fn set8_spec(s: Machine, code: Seq<u8>) -> Outcome {
    store_spec(s, code, opcode::SET8, Width::Eight)
}

/// A sized free: pops an address and releases its block, which must have
/// been allocated with `size` bytes.
pub open spec fn free_spec(s: Machine, tag: u8, size: u64) -> Outcome {
    if s.stack.len() < 1 {
        Err(Fault::StackUnderflow { opcode: tag })
    } else {
        match release_check(s.memory, first(s), size) {
            Err(f) => Err(f),
            Ok(_) => proceed(Machine { memory: released(s.memory, first(s)), ..dropped(s, 1) }),
        }
    }
}

/// What `pop1` does.
pub open spec fn pop1_spec(s: Machine) -> Outcome {
    free_spec(s, opcode::POP1, 1)
}

/// What `pop2` does.
pub open spec fn pop2_spec(s: Machine) -> Outcome {
    free_spec(s, opcode::POP2, 2)
}

/// What `pop4` does.
pub open spec fn pop4_spec(s: Machine) -> Outcome {
    free_spec(s, opcode::POP4, 4)
}

/// What `pop8` does.
pub open spec fn pop8_spec(s: Machine) -> Outcome {
    free_spec(s, opcode::POP8, 8)
}

/// Pops an address and releases its block with the size that the eight
/// operand bytes spell.
pub open spec fn popx_spec(s: Machine, code: Seq<u8>) -> Outcome {
    if s.stack.len() < 1 {
        Err(Fault::StackUnderflow { opcode: opcode::POPX })
    } else {
        match operand(code, s.ip, 8) {
            Err(f) => Err(f),
            Ok(size) => free_spec(advanced(s, 8), opcode::POPX, size),
        }
    }
}

/// Drops the top word; a block it may address stays allocated.
pub open spec fn pop_spec(s: Machine) -> Outcome {
    if s.stack.len() < 1 {
        Err(Fault::StackUnderflow { opcode: opcode::POP })
    } else {
        proceed(dropped(s, 1))
    }
}

/// Whether a handler that found the machine in `before` and returned `r`,
/// leaving `after`, did what `want` says: the state and signal of a
/// success, or the fault and the state untouched.
pub open spec fn agrees(before: Machine, r: Result<Signal, Fault>, after: Machine, want: Outcome) -> bool {
    match want {
        Ok((s, signal)) => r == Ok::<Signal, Fault>(signal) && after == s,
        Err(f) => r == Err::<Signal, Fault>(f) && after == before,
    }
}

} // verus!
