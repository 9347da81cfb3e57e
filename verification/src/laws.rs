//! Laws of the machine, proved from the instruction semantics.

use vstd::prelude::*;
use crate::arena::Memory;
use crate::arena::allocated;
use crate::arena::base_address;
use crate::arena::can_allocate;
use crate::arena::lemma_fresh_block;
use crate::arena::lemma_load_after_store;
use crate::arena::outstanding;
use crate::arena::release_check;
use crate::arena::released;
use crate::dispatch::step_spec;
use crate::execution::may_end;
use crate::fault::Fault;
use crate::machine::GLOBAL_SLOTS;
use crate::machine::Machine;
use crate::machine::VM;
use crate::opcode;
use crate::semantics;
use crate::signal::FloatOp;
use crate::signal::Signal;
use crate::word::Width;
use crate::word::lemma_be_value_bound;
use crate::word::lemma_byte_range_values;
use crate::word::shift_left;
use crate::word::shift_right;
use crate::word::wrapping_difference;

verus! {

/// `halt` stops the run with success and changes nothing but the
/// instruction pointer: every global slot keeps its word.
pub proof fn lemma_halt_succeeds<F: Fn(FloatOp, u64, u64) -> u64, X: Fn(u64, VM) -> VM>(
    s: Machine,
    code: Seq<u8>,
    fuel: nat,
    f: F,
    x: X,
    r: Result<(), Fault>,
)
    requires
        s.ip < code.len(),
        code[s.ip as int] == opcode::HALT,
        fuel > 0,
        may_end(s, code, fuel, f, x, r),
    ensures
        step_spec(s, code) == Ok::<(Machine, Signal), Fault>((semantics::advanced(s, 1), Signal::Halt)),
        semantics::advanced(s, 1).globals == s.globals,
        r == Ok::<(), Fault>(()),
{
}

/// A program that is a single `halt` succeeds from every position.
pub proof fn lemma_halt_only_succeeds<F: Fn(FloatOp, u64, u64) -> u64, X: Fn(u64, VM) -> VM>(
    s: Machine,
    fuel: nat,
    f: F,
    x: X,
    r: Result<(), Fault>,
)
    requires
        fuel > 0,
        may_end(s, seq![opcode::HALT], fuel, f, x, r),
    ensures
        r == Ok::<(), Fault>(()),
{
    let code = seq![opcode::HALT];
    if s.ip < code.len() {
        lemma_halt_succeeds(s, code, fuel, f, x, r);
    }
}

/// Of the two operands of `sub`, the one pushed last is the one subtracted
/// from: after `a` then `b` were pushed, `sub` leaves `b - a`.
pub proof fn lemma_sub_operand_order(s: Machine, a: u64, b: u64)
    ensures
        semantics::sub_spec(semantics::pushed(semantics::pushed(s, a), b)) == semantics::proceed(
            semantics::pushed(s, wrapping_difference(b, a)),
        ),
{
    let t = semantics::pushed(semantics::pushed(s, a), b);
    assert(semantics::dropped(t, 2).stack =~= s.stack);
}

/// After `a` then `b` were pushed, `sub` leaves `a - b` where the two
/// differences agree.
pub proof fn lemma_sub_in_push_order(s: Machine, a: u64, b: u64)
    requires
        wrapping_difference(a, b) == wrapping_difference(b, a),
    ensures
        semantics::sub_spec(semantics::pushed(semantics::pushed(s, a), b)) == semantics::proceed(
            semantics::pushed(s, wrapping_difference(a, b)),
        ),
{
    lemma_sub_operand_order(s, a, b);
}

/// Of the two operands of `div`, the one pushed last is the dividend: after
/// `a` then `b` were pushed, `div` leaves `b / a`, and faults where `a` is zero.
pub proof fn lemma_div_operand_order(s: Machine, a: u64, b: u64)
    ensures
        a != 0 ==> semantics::div_spec(semantics::pushed(semantics::pushed(s, a), b))
            == semantics::proceed(semantics::pushed(s, b / a)),
        a == 0 ==> semantics::div_spec(semantics::pushed(semantics::pushed(s, a), b)) == Err::<
            (Machine, Signal),
            Fault,
        >(Fault::DivisionByZero),
{
    let t = semantics::pushed(semantics::pushed(s, a), b);
    assert(semantics::dropped(t, 2).stack =~= s.stack);
}

/// After `a` then `b` were pushed, `div` leaves `a / b` where the two
/// operands are the same and not zero.
pub proof fn lemma_div_in_push_order(s: Machine, a: u64, b: u64)
    requires
        a == b,
        b != 0,
    ensures
        semantics::div_spec(semantics::pushed(semantics::pushed(s, a), b)) == semantics::proceed(
            semantics::pushed(s, a / b),
        ),
{
    lemma_div_operand_order(s, a, b);
}

/// After a value and then an amount were pushed, `lshift` leaves the value
/// shifted left by the amount.
pub proof fn lemma_lshift_operand_order(s: Machine, value: u64, amount: u64)
    ensures
        semantics::lshift_spec(semantics::pushed(semantics::pushed(s, value), amount))
            == semantics::proceed(semantics::pushed(s, shift_left(value, amount))),
{
    let t = semantics::pushed(semantics::pushed(s, value), amount);
    assert(semantics::dropped(t, 2).stack =~= s.stack);
}

/// After a value and then an amount were pushed, `rshift` leaves the value
/// shifted right by the amount.
pub proof fn lemma_rshift_operand_order(s: Machine, value: u64, amount: u64)
    ensures
        semantics::rshift_spec(semantics::pushed(semantics::pushed(s, value), amount))
            == semantics::proceed(semantics::pushed(s, shift_right(value, amount))),
{
    let t = semantics::pushed(semantics::pushed(s, value), amount);
    assert(semantics::dropped(t, 2).stack =~= s.stack);
}

/// A new slot adds one to the count of live blocks if its block is live.
proof fn lemma_outstanding_push(m: Memory, block: Option<Seq<u8>>)
    ensures
        outstanding(m.push(block)) == outstanding(m) + if block is Some {
            1nat
        } else {
            0nat
        },
{
    assert(m.push(block).drop_last() =~= m);
}

/// A block that is released with the size it was allocated with leaves the
/// arena with as many live blocks as before.
pub proof fn lemma_allocate_then_release(m: Memory, size: u64)
    requires
        can_allocate(m, size),
    ensures
        release_check(allocated(m, size), base_address(m.len() as int) as u64, size) == Ok::<
            (),
            Fault,
        >(()),
        outstanding(allocated(m, size)) == outstanding(m) + 1,
        outstanding(released(allocated(m, size), base_address(m.len() as int) as u64))
            == outstanding(m),
{
    lemma_fresh_block(m, size);
    lemma_outstanding_push(m, Some(crate::arena::zeros(size as nat)));
    lemma_outstanding_push(m, None);
    assert(released(allocated(m, size), base_address(m.len() as int) as u64) =~= m.push(None));
}

/// `pux` with `size` on top of the stack, followed by the sized free with
/// the same size, succeeds and leaves the stack without the size and the
/// arena with as many live blocks as before: none, if there were none.
pub proof fn lemma_pux_then_free(s: Machine, size: u64)
    requires
        can_allocate(s.memory, size),
    ensures
        semantics::pux_spec(semantics::pushed(s, size)) is Ok,
        semantics::pux_spec(semantics::pushed(s, size))->Ok_0.1 == Signal::Next,
        semantics::free_spec(
            semantics::pux_spec(semantics::pushed(s, size))->Ok_0.0,
            opcode::POPX,
            size,
        ) is Ok,
        ({
            let after = semantics::free_spec(
                semantics::pux_spec(semantics::pushed(s, size))->Ok_0.0,
                opcode::POPX,
                size,
            )->Ok_0.0;
            &&& after.stack == s.stack
            &&& outstanding(after.memory) == outstanding(s.memory)
        }),
{
    lemma_allocate_then_release(s.memory, size);
    let t = semantics::pux_spec(semantics::pushed(s, size))->Ok_0.0;
    assert(semantics::pushed(s, size).stack.drop_last() =~= s.stack);
    assert(semantics::dropped(t, 1).stack =~= s.stack);
}

/// A typed load from the address that a constant push left on the stack
/// pushes the constant.
pub proof fn lemma_load_after_push_const(s: Machine, code: Seq<u8>, tag: u8, width: Width)
    requires
        semantics::push_const_spec(s, code, width) is Ok,
    ensures
        semantics::load_spec(semantics::push_const_spec(s, code, width)->Ok_0.0, tag, width) is Ok,
        ({
            let pushed = semantics::push_const_spec(s, code, width)->Ok_0.0;
            let after = semantics::load_spec(pushed, tag, width)->Ok_0.0;
            &&& after.stack == s.stack.push(semantics::operand(code, s.ip, width.size())->Ok_0)
            &&& after.memory == pushed.memory
            &&& after.ip == pushed.ip
        }),
{
    let n = width.size();
    let value = semantics::operand(code, s.ip, n)->Ok_0;
    let address = base_address(s.memory.len() as int) as u64;
    let pushed = semantics::push_const_spec(s, code, width)->Ok_0.0;
    lemma_byte_range_values();
    lemma_fresh_block(s.memory, n as u64);
    lemma_load_after_store(allocated(s.memory, n as u64), address, width, value);
    lemma_be_value_bound(code.subrange(s.ip as int, s.ip + n));
    vstd::arithmetic::div_mod::lemma_small_mod(value as nat, crate::word::byte_range(n));
    let after = semantics::load_spec(pushed, tag, width)->Ok_0.0;
    assert(after.stack =~= s.stack.push(value));
}

/// `jmp` makes the next fetch happen at the target popped.
pub proof fn lemma_jmp_sets_fetch_position(s: Machine, code: Seq<u8>, target: u64)
    requires
        code.len() <= u64::MAX,
        s.ip < code.len(),
        code[s.ip as int] == opcode::JMP,
        s.stack.len() > 0,
        s.stack.last() == target,
    ensures
        step_spec(s, code) == semantics::proceed(
            Machine { ip: target, stack: s.stack.drop_last(), ..s },
        ),
{
    let t = semantics::advanced(s, 1);
    assert(semantics::dropped(t, 1).stack =~= s.stack.drop_last());
}

/// A fetch at or behind the end of the bytecode is the end of the run and
/// no fault.
pub proof fn lemma_fetch_behind_end<F: Fn(FloatOp, u64, u64) -> u64, X: Fn(u64, VM) -> VM>(
    s: Machine,
    code: Seq<u8>,
    fuel: nat,
    f: F,
    x: X,
    r: Result<(), Fault>,
)
    requires
        s.ip >= code.len(),
        may_end(s, code, fuel, f, x, r),
    ensures
        step_spec(s, code) == Ok::<(Machine, Signal), Fault>((s, Signal::End)),
        r == Ok::<(), Fault>(()),
{
}

/// `call` saves the position behind its operand: a `ret` that finds the
/// call stack as the call left it goes on there, not at the call's target.
pub proof fn lemma_ret_resumes_behind_call(s: Machine, code: Seq<u8>, later: Machine)
    requires
        code.len() <= u64::MAX,
        s.ip < code.len(),
        code[s.ip as int] == opcode::CALL,
        s.ip + 9 <= code.len(),
        later.ip < code.len(),
        code[later.ip as int] == opcode::RET,
        later.calls == step_spec(s, code)->Ok_0.0.calls,
    ensures
        step_spec(s, code) is Ok,
        step_spec(s, code)->Ok_0.0.ip == semantics::operand(code, (s.ip + 1) as u64, 8)->Ok_0,
        step_spec(s, code)->Ok_0.0.calls == s.calls.push((s.ip + 9) as u64),
        step_spec(later, code) is Ok,
        step_spec(later, code)->Ok_0.0.ip == s.ip + 9,
        step_spec(later, code)->Ok_0.0.calls == s.calls,
{
    let t = step_spec(s, code)->Ok_0.0;
    assert(t.calls.drop_last() =~= s.calls);
}

/// `ret` on an empty call stack is a fault, whatever else the machine holds.
pub proof fn lemma_ret_on_empty_call_stack(s: Machine, code: Seq<u8>)
    requires
        s.ip < code.len(),
        code[s.ip as int] == opcode::RET,
        s.calls.len() == 0,
    ensures
        step_spec(s, code) == Err::<(Machine, Signal), Fault>(Fault::CallStackUnderflow),
{
}

/// `jmp` to a target at or behind the end of the bytecode ends the run with
/// success.
pub proof fn lemma_jmp_behind_end_succeeds<F: Fn(FloatOp, u64, u64) -> u64, X: Fn(u64, VM) -> VM>(
    s: Machine,
    code: Seq<u8>,
    fuel: nat,
    f: F,
    x: X,
    r: Result<(), Fault>,
)
    requires
        s.ip < code.len(),
        code[s.ip as int] == opcode::JMP,
        s.stack.len() > 0,
        s.stack.last() >= code.len(),
        fuel > 0,
        may_end(s, code, fuel, f, x, r),
    ensures
        r == Ok::<(), Fault>(()),
{
    let t = step_spec(s, code)->Ok_0.0;
    assert(may_end(t, code, (fuel - 1) as nat, f, x, r));
}

/// The flag belongs to the comparisons and `not`, the globals to `set`, the
/// call stack to `call`, `calldy` and `ret`: no other instruction changes
/// them. No instruction changes the number of extern functions.
pub proof fn lemma_step_frame(s: Machine, code: Seq<u8>)
    requires
        s.ip < code.len(),
        step_spec(s, code) is Ok,
    ensures
        ({
            let tag = code[s.ip as int];
            let t = step_spec(s, code)->Ok_0.0;
            &&& t.externs == s.externs
            &&& tag != opcode::EQ && tag != opcode::NEQ && tag != opcode::GR && tag != opcode::SM
                && tag != opcode::NOT ==> t.flag == s.flag
            &&& tag != opcode::SET ==> t.globals == s.globals
            &&& tag != opcode::CALL && tag != opcode::CALLDY && tag != opcode::RET ==> t.calls
                == s.calls
        }),
{
}

/// The instructions that neither allocate, release nor write leave the
/// arena as it is; among them `pop`, which drops an address and keeps its block.
pub proof fn lemma_step_keeps_memory(s: Machine, code: Seq<u8>)
    requires
        s.ip < code.len(),
        step_spec(s, code) is Ok,
        ({
            let tag = code[s.ip as int];
            &&& tag != opcode::PU1 && tag != opcode::PU2 && tag != opcode::PU4 && tag != opcode::PU8
                && tag != opcode::PUX
            &&& tag != opcode::SETX && tag != opcode::SET1 && tag != opcode::SET2 && tag
                != opcode::SET4 && tag != opcode::SET8
            &&& tag != opcode::POP1 && tag != opcode::POP2 && tag != opcode::POP4 && tag
                != opcode::POP8 && tag != opcode::POPX
        }),
    ensures
        step_spec(s, code)->Ok_0.0.memory == s.memory,
{
}

/// No instruction adds or removes a global slot.
pub proof fn lemma_step_keeps_global_slots(s: Machine, code: Seq<u8>)
    requires
        s.globals.len() == GLOBAL_SLOTS,
        step_spec(s, code) is Ok,
    ensures
        step_spec(s, code)->Ok_0.0.globals.len() == GLOBAL_SLOTS,
{
    let at = semantics::advanced(s, 1).ip;
    if at + 1 <= code.len() {
        lemma_be_value_bound(code.subrange(at as int, at + 1));
        lemma_byte_range_values();
    }
}

} // verus!
