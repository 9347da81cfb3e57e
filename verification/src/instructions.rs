//! The instruction handlers.
//!
//! A handler finds the instruction pointer behind its opcode, reads its
//! operands, and either carries the instruction out or raises a fault and
//! leaves the machine exactly as it found it.

use vstd::prelude::*;
use crate::arena::lemma_fresh_block;
use crate::fault::Fault;
use crate::machine::VM;
use crate::opcode;
use crate::semantics;
use crate::signal::FloatOp;
use crate::signal::Signal;
use crate::word::Width;
use crate::word::lemma_be_value_bound;
use crate::word::lemma_byte_range_values;
use crate::word::lemma_wrapping_sum_zero;
use crate::word::read_be;
use crate::word::word_add;
use crate::word::word_mul;
use crate::word::word_shl;
use crate::word::word_shr;
use crate::word::word_sub;

verus! {

/// Reads the immediate operand of the given width at the instruction pointer.
pub fn immediate(vm: &VM, code: &[u8], width: Width) -> (r: Result<u64, Fault>)
    ensures
        r == semantics::operand(code@, vm@.ip, width.size()),
        r is Ok ==> vm@.ip + width.size() <= code@.len() <= u64::MAX,
        r is Ok ==> r->Ok_0 < crate::word::byte_range(width.size()),
{
    let n = width.bytes();
    let at = vm.ip();
    if at > code.len() as u64 || code.len() as u64 - at < n as u64 {
        return Err(Fault::MissingOperand { position: at });
    }
    let value = read_be(code, at as usize, n);
    proof {
        lemma_be_value_bound(code@.subrange(at as int, at + n));
        lemma_byte_range_values();
    }
    Ok(value)
}

/// Pops one word for the instruction `tag`.
pub fn take_one(vm: &mut VM, tag: u8) -> (r: Result<u64, Fault>)
    ensures
        old(vm)@.stack.len() < 1 ==> r == Err::<u64, Fault>(Fault::StackUnderflow { opcode: tag })
            && final(vm)@ == old(vm)@,
        old(vm)@.stack.len() >= 1 ==> r == Ok::<u64, Fault>(semantics::first(old(vm)@)) && final(vm)@
            == semantics::dropped(old(vm)@, 1),
{
    match vm.pop() {
        Some(word) => Ok(word),
        None => Err(Fault::StackUnderflow { opcode: tag }),
    }
}

/// Pops two words for the instruction `tag`: the first popped, then the second.
pub fn take_two(vm: &mut VM, tag: u8) -> (r: Result<(u64, u64), Fault>)
    ensures
        old(vm)@.stack.len() < 2 ==> r == Err::<(u64, u64), Fault>(
            Fault::StackUnderflow { opcode: tag },
        ) && final(vm)@ == old(vm)@,
        old(vm)@.stack.len() >= 2 ==> r == Ok::<(u64, u64), Fault>(
            (semantics::first(old(vm)@), semantics::second(old(vm)@)),
        ) && final(vm)@ == semantics::dropped(old(vm)@, 2),
{
    if vm.depth() < 2 {
        return Err(Fault::StackUnderflow { opcode: tag });
    }
    let a = take_one(vm, tag)?;
    let b = take_one(vm, tag)?;
    assert(vm@.stack =~= semantics::dropped(old(vm)@, 2).stack);
    Ok((a, b))
}

/// Moves the instruction pointer over `n` operand bytes.
fn skip(vm: &mut VM, n: u64)
    requires
        old(vm)@.ip + n <= u64::MAX,
    ensures
        final(vm)@ == semantics::advanced(old(vm)@, n as nat),
{
    let at = vm.ip();
    vm.jump(at + n);
}

/// Stops the machine.
pub fn halt(vm: &mut VM) -> (r: Result<Signal, Fault>)
    ensures
        semantics::agrees(old(vm)@, r, final(vm)@, semantics::halt_spec(old(vm)@)),
{
    Ok(Signal::Halt)
}

/// Pushes a constant: the immediate of the given width goes into a new block
/// of that size, whose address is pushed.
pub fn push_const(vm: &mut VM, code: &[u8], width: Width) -> (r: Result<Signal, Fault>)
    ensures
        semantics::agrees(old(vm)@, r, final(vm)@, semantics::push_const_spec(old(vm)@, code@, width)),
{
    let value = immediate(vm, code, width)?;
    let n = width.bytes() as u64;
    let address = vm.allocate(n)?;
    proof {
        lemma_fresh_block(old(vm)@.memory, n);
        lemma_wrapping_sum_zero(address);
    }
    match vm.write_typed(address, 0, width, value) {
        Ok(()) => {},
        Err(f) => {
            return Err(f);
        },
    }
    vm.push(address);
    skip(vm, n);
    Ok(Signal::Next)
}

/// Pushes the one-byte constant that follows the opcode.
pub fn pu1(vm: &mut VM, code: &[u8]) -> (r: Result<Signal, Fault>)
    ensures
        semantics::agrees(old(vm)@, r, final(vm)@, semantics::pu1_spec(old(vm)@, code@)),
{
    push_const(vm, code, Width::One)
}

/// Pushes the two-byte constant that follows the opcode.
pub fn pu2(vm: &mut VM, code: &[u8]) -> (r: Result<Signal, Fault>)
    ensures
        semantics::agrees(old(vm)@, r, final(vm)@, semantics::pu2_spec(old(vm)@, code@)),
{
    push_const(vm, code, Width::Two)
}

/// Pushes the four-byte constant that follows the opcode.
pub fn pu4(vm: &mut VM, code: &[u8]) -> (r: Result<Signal, Fault>)
    ensures
        semantics::agrees(old(vm)@, r, final(vm)@, semantics::pu4_spec(old(vm)@, code@)),
{
    push_const(vm, code, Width::Four)
}

/// Pushes the eight-byte constant that follows the opcode.
pub fn pu8(vm: &mut VM, code: &[u8]) -> (r: Result<Signal, Fault>)
    ensures
        semantics::agrees(old(vm)@, r, final(vm)@, semantics::pu8_spec(old(vm)@, code@)),
{
    push_const(vm, code, Width::Eight)
}

/// Pops a size and pushes the address of a new zero-filled block of that size.
pub fn pux(vm: &mut VM) -> (r: Result<Signal, Fault>)
    ensures
        semantics::agrees(old(vm)@, r, final(vm)@, semantics::pux_spec(old(vm)@)),
{
    let size = match vm.peek(0) {
        Some(word) => word,
        None => {
            return Err(Fault::StackUnderflow { opcode: opcode::PUX });
        },
    };
    let address = vm.allocate(size)?;
    let _ = vm.pop();
    vm.push(address);
    Ok(Signal::Next)
}

/// Pops a word into the global slot that the operand byte names.
pub fn set(vm: &mut VM, code: &[u8]) -> (r: Result<Signal, Fault>)
    ensures
        semantics::agrees(old(vm)@, r, final(vm)@, semantics::set_spec(old(vm)@, code@)),
{
    if vm.depth() < 1 {
        return Err(Fault::StackUnderflow { opcode: opcode::SET });
    }
    let index = immediate(vm, code, Width::One)?;
    let value = take_one(vm, opcode::SET)?;
    proof {
        lemma_byte_range_values();
    }
    match vm.set_global(index, value) {
        Ok(()) => {},
        Err(f) => {
            return Err(f);
        },
    }
    skip(vm, 1);
    Ok(Signal::Next)
}

/// Pushes the word in the global slot that the operand byte names.
pub fn get(vm: &mut VM, code: &[u8]) -> (r: Result<Signal, Fault>)
    ensures
        semantics::agrees(old(vm)@, r, final(vm)@, semantics::get_spec(old(vm)@, code@)),
{
    let index = immediate(vm, code, Width::One)?;
    proof {
        lemma_byte_range_values();
    }
    let value = vm.global(index)?;
    vm.push(value);
    skip(vm, 1);
    Ok(Signal::Next)
}

/// Pops a byte offset and writes the operand byte that far into the block
/// addressed by the word below, which stays on the stack.
pub fn setx(vm: &mut VM, code: &[u8]) -> (r: Result<Signal, Fault>)
    ensures
        semantics::agrees(old(vm)@, r, final(vm)@, semantics::setx_spec(old(vm)@, code@)),
{
    let (x, address) = match (vm.peek(0), vm.peek(1)) {
        (Some(x), Some(address)) => (x, address),
        _ => {
            return Err(Fault::StackUnderflow { opcode: opcode::SETX });
        },
    };
    let byte = immediate(vm, code, Width::One)?;
    vm.write_typed(address, x, Width::One, byte)?;
    let _ = vm.pop();
    skip(vm, 1);
    Ok(Signal::Next)
}

/// Pops a byte count and moves the address below it by that many bytes.
pub fn off(vm: &mut VM) -> (r: Result<Signal, Fault>)
    ensures
        semantics::agrees(old(vm)@, r, final(vm)@, semantics::off_spec(old(vm)@)),
{
    let (count, address) = take_two(vm, opcode::OFF)?;
    vm.push(word_add(address, count));
    Ok(Signal::Next)
}

/// Pushes a copy of the top word; does nothing on an empty stack.
pub fn cp(vm: &mut VM) -> (r: Result<Signal, Fault>)
    ensures
        semantics::agrees(old(vm)@, r, final(vm)@, semantics::cp_spec(old(vm)@)),
{
    match vm.peek(0) {
        Some(word) => {
            vm.push(word);
        },
        None => {},
    }
    Ok(Signal::Next)
}

/// A typed load: pops an address and pushes the number that the bytes there
/// spell, most significant byte first, without sign extension.
pub fn load(vm: &mut VM, tag: u8, width: Width) -> (r: Result<Signal, Fault>)
    ensures
        semantics::agrees(old(vm)@, r, final(vm)@, semantics::load_spec(old(vm)@, tag, width)),
{
    let address = match vm.peek(0) {
        Some(word) => word,
        None => {
            return Err(Fault::StackUnderflow { opcode: tag });
        },
    };
    proof {
        lemma_wrapping_sum_zero(address);
    }
    let value = vm.read_typed(address, 0, width)?;
    let _ = vm.pop();
    vm.push(value);
    Ok(Signal::Next)
}

/// Pops an address and pushes the byte there.
pub fn load1(vm: &mut VM) -> (r: Result<Signal, Fault>)
    ensures
        semantics::agrees(old(vm)@, r, final(vm)@, semantics::load1_spec(old(vm)@)),
{
    load(vm, opcode::LOAD1, Width::One)
}

/// Pops an address and pushes the two-byte number there.
pub fn load2(vm: &mut VM) -> (r: Result<Signal, Fault>)
    ensures
        semantics::agrees(old(vm)@, r, final(vm)@, semantics::load2_spec(old(vm)@)),
{
    load(vm, opcode::LOAD2, Width::Two)
}

/// Pops an address and pushes the four-byte number there.
pub fn load4(vm: &mut VM) -> (r: Result<Signal, Fault>)
    ensures
        semantics::agrees(old(vm)@, r, final(vm)@, semantics::load4_spec(old(vm)@)),
{
    load(vm, opcode::LOAD4, Width::Four)
}

/// Pops an address and pushes the eight-byte number there.
pub fn load8(vm: &mut VM) -> (r: Result<Signal, Fault>)
    ensures
        semantics::agrees(old(vm)@, r, final(vm)@, semantics::load8_spec(old(vm)@)),
{
    load(vm, opcode::LOAD8, Width::Eight)
}

/// Pops two words and pushes their bitwise and.
pub fn and(vm: &mut VM) -> (r: Result<Signal, Fault>)
    ensures
        semantics::agrees(old(vm)@, r, final(vm)@, semantics::and_spec(old(vm)@)),
{
    let (a, b) = take_two(vm, opcode::AND)?;
    vm.push(a & b);
    Ok(Signal::Next)
}

/// Pops two words and pushes their bitwise or.
pub fn or(vm: &mut VM) -> (r: Result<Signal, Fault>)
    ensures
        semantics::agrees(old(vm)@, r, final(vm)@, semantics::or_spec(old(vm)@)),
{
    let (a, b) = take_two(vm, opcode::OR)?;
    vm.push(a | b);
    Ok(Signal::Next)
}

/// Pops two words and pushes their bitwise exclusive or.
pub fn xor(vm: &mut VM) -> (r: Result<Signal, Fault>)
    ensures
        semantics::agrees(old(vm)@, r, final(vm)@, semantics::xor_spec(old(vm)@)),
{
    let (a, b) = take_two(vm, opcode::XOR)?;
    vm.push(a ^ b);
    Ok(Signal::Next)
}

/// Pops an amount, then a value, and pushes the value shifted left.
pub fn lshift(vm: &mut VM) -> (r: Result<Signal, Fault>)
    ensures
        semantics::agrees(old(vm)@, r, final(vm)@, semantics::lshift_spec(old(vm)@)),
{
    let (amount, value) = take_two(vm, opcode::LSHIFT)?;
    vm.push(word_shl(value, amount));
    Ok(Signal::Next)
}

/// Pops an amount, then a value, and pushes the value shifted right.
pub fn rshift(vm: &mut VM) -> (r: Result<Signal, Fault>)
    ensures
        semantics::agrees(old(vm)@, r, final(vm)@, semantics::rshift_spec(old(vm)@)),
{
    let (amount, value) = take_two(vm, opcode::RSHIFT)?;
    vm.push(word_shr(value, amount));
    Ok(Signal::Next)
}

/// Pops two words and pushes their sum.
pub fn add(vm: &mut VM) -> (r: Result<Signal, Fault>)
    ensures
        semantics::agrees(old(vm)@, r, final(vm)@, semantics::add_spec(old(vm)@)),
{
    let (a, b) = take_two(vm, opcode::ADD)?;
    vm.push(word_add(a, b));
    Ok(Signal::Next)
}

/// Pops two words and pushes the first less the second.
pub fn sub(vm: &mut VM) -> (r: Result<Signal, Fault>)
    ensures
        semantics::agrees(old(vm)@, r, final(vm)@, semantics::sub_spec(old(vm)@)),
{
    let (a, b) = take_two(vm, opcode::SUB)?;
    vm.push(word_sub(a, b));
    Ok(Signal::Next)
}

/// Pops two words and pushes their product.
pub fn mul(vm: &mut VM) -> (r: Result<Signal, Fault>)
    ensures
        semantics::agrees(old(vm)@, r, final(vm)@, semantics::mul_spec(old(vm)@)),
{
    let (a, b) = take_two(vm, opcode::MUL)?;
    vm.push(word_mul(a, b));
    Ok(Signal::Next)
}

/// Pops two words and pushes the first divided by the second.
pub fn div(vm: &mut VM) -> (r: Result<Signal, Fault>)
    ensures
        semantics::agrees(old(vm)@, r, final(vm)@, semantics::div_spec(old(vm)@)),
{
    match vm.peek(1) {
        Some(divisor) => {
            if divisor == 0 {
                return Err(Fault::DivisionByZero);
            }
        },
        None => {
            return Err(Fault::StackUnderflow { opcode: opcode::DIV });
        },
    }
    let (a, b) = take_two(vm, opcode::DIV)?;
    vm.push(a / b);
    Ok(Signal::Next)
}

/// Pops the two operands of a float operation and hands them to the host.
pub fn float(vm: &mut VM, tag: u8, op: FloatOp) -> (r: Result<Signal, Fault>)
    ensures
        semantics::agrees(old(vm)@, r, final(vm)@, semantics::float_spec(old(vm)@, tag, op)),
{
    let (a, b) = take_two(vm, tag)?;
    Ok(Signal::Float { op, left: op.crop(a), right: op.crop(b) })
}

/// Pops two single-precision numbers; the host pushes their sum.
pub fn addf(vm: &mut VM) -> (r: Result<Signal, Fault>)
    ensures
        semantics::agrees(old(vm)@, r, final(vm)@, semantics::addf_spec(old(vm)@)),
{
    float(vm, opcode::ADDF, FloatOp::AddSingle)
}

/// Pops two single-precision numbers; the host pushes the first less the second.
pub fn subf(vm: &mut VM) -> (r: Result<Signal, Fault>)
    ensures
        semantics::agrees(old(vm)@, r, final(vm)@, semantics::subf_spec(old(vm)@)),
{
    float(vm, opcode::SUBF, FloatOp::SubSingle)
}

/// Pops two single-precision numbers; the host pushes their product.
pub fn mulf(vm: &mut VM) -> (r: Result<Signal, Fault>)
    ensures
        semantics::agrees(old(vm)@, r, final(vm)@, semantics::mulf_spec(old(vm)@)),
{
    float(vm, opcode::MULF, FloatOp::MulSingle)
}

/// Pops two single-precision numbers; the host pushes the first divided by the second.
pub fn divf(vm: &mut VM) -> (r: Result<Signal, Fault>)
    ensures
        semantics::agrees(old(vm)@, r, final(vm)@, semantics::divf_spec(old(vm)@)),
{
    float(vm, opcode::DIVF, FloatOp::DivSingle)
}

/// Pops two double-precision numbers; the host pushes their sum.
pub fn addd(vm: &mut VM) -> (r: Result<Signal, Fault>)
    ensures
        semantics::agrees(old(vm)@, r, final(vm)@, semantics::addd_spec(old(vm)@)),
{
    float(vm, opcode::ADDD, FloatOp::AddDouble)
}

/// Pops two double-precision numbers; the host pushes the first less the second.
pub fn subd(vm: &mut VM) -> (r: Result<Signal, Fault>)
    ensures
        semantics::agrees(old(vm)@, r, final(vm)@, semantics::subd_spec(old(vm)@)),
{
    float(vm, opcode::SUBD, FloatOp::SubDouble)
}

/// Pops two double-precision numbers; the host pushes their product.
pub fn muld(vm: &mut VM) -> (r: Result<Signal, Fault>)
    ensures
        semantics::agrees(old(vm)@, r, final(vm)@, semantics::muld_spec(old(vm)@)),
{
    float(vm, opcode::MULD, FloatOp::MulDouble)
}

/// Pops two double-precision numbers; the host pushes the first divided by the second.
pub fn divd(vm: &mut VM) -> (r: Result<Signal, Fault>)
    ensures
        semantics::agrees(old(vm)@, r, final(vm)@, semantics::divd_spec(old(vm)@)),
{
    float(vm, opcode::DIVD, FloatOp::DivDouble)
}

/// Pushes the pattern that the host computed for a float operation.
pub fn deliver(vm: &mut VM, op: FloatOp, result: u64)
    ensures
        final(vm)@ == semantics::delivered(old(vm)@, op, result),
{
    vm.push(op.crop(result));
}

/// Pops two words and sets the flag if they are equal.
pub fn eq(vm: &mut VM) -> (r: Result<Signal, Fault>)
    ensures
        semantics::agrees(old(vm)@, r, final(vm)@, semantics::eq_spec(old(vm)@)),
{
    let (a, b) = take_two(vm, opcode::EQ)?;
    vm.set_flag(a == b);
    Ok(Signal::Next)
}

/// Pops two words and sets the flag if they differ.
pub fn neq(vm: &mut VM) -> (r: Result<Signal, Fault>)
    ensures
        semantics::agrees(old(vm)@, r, final(vm)@, semantics::neq_spec(old(vm)@)),
{
    let (a, b) = take_two(vm, opcode::NEQ)?;
    vm.set_flag(a != b);
    Ok(Signal::Next)
}

/// Pops two words and sets the flag if the first is greater than the second.
pub fn gr(vm: &mut VM) -> (r: Result<Signal, Fault>)
    ensures
        semantics::agrees(old(vm)@, r, final(vm)@, semantics::gr_spec(old(vm)@)),
{
    let (a, b) = take_two(vm, opcode::GR)?;
    vm.set_flag(a > b);
    Ok(Signal::Next)
}

/// Pops two words and sets the flag if the first is smaller than the second.
pub fn sm(vm: &mut VM) -> (r: Result<Signal, Fault>)
    ensures
        semantics::agrees(old(vm)@, r, final(vm)@, semantics::sm_spec(old(vm)@)),
{
    let (a, b) = take_two(vm, opcode::SM)?;
    vm.set_flag(a < b);
    Ok(Signal::Next)
}

/// Inverts the flag.
pub fn not(vm: &mut VM) -> (r: Result<Signal, Fault>)
    ensures
        semantics::agrees(old(vm)@, r, final(vm)@, semantics::not_spec(old(vm)@)),
{
    let flag = vm.flag();
    vm.set_flag(!flag);
    Ok(Signal::Next)
}

/// Pops a target and, if `taken`, goes on there.
pub fn jump(vm: &mut VM, tag: u8, taken: bool) -> (r: Result<Signal, Fault>)
    ensures
        semantics::agrees(old(vm)@, r, final(vm)@, semantics::jump_spec(old(vm)@, tag, taken)),
{
    let target = take_one(vm, tag)?;
    if taken {
        vm.jump(target);
    }
    Ok(Signal::Next)
}

/// Pops a target and goes on there.
pub fn jmp(vm: &mut VM) -> (r: Result<Signal, Fault>)
    ensures
        semantics::agrees(old(vm)@, r, final(vm)@, semantics::jmp_spec(old(vm)@)),
{
    jump(vm, opcode::JMP, true)
}

/// Pops a target and goes on there if the flag is set.
pub fn jmpif(vm: &mut VM) -> (r: Result<Signal, Fault>)
    ensures
        semantics::agrees(old(vm)@, r, final(vm)@, semantics::jmpif_spec(old(vm)@)),
{
    let taken = vm.flag();
    jump(vm, opcode::JMPIF, taken)
}

/// Pops a target and goes on there if the flag is clear.
pub fn jmpifn(vm: &mut VM) -> (r: Result<Signal, Fault>)
    ensures
        semantics::agrees(old(vm)@, r, final(vm)@, semantics::jmpifn_spec(old(vm)@)),
{
    let taken = !vm.flag();
    jump(vm, opcode::JMPIFN, taken)
}

/// Returns from a call: goes on at the innermost saved position.
pub fn ret(vm: &mut VM) -> (r: Result<Signal, Fault>)
    ensures
        semantics::agrees(old(vm)@, r, final(vm)@, semantics::ret_spec(old(vm)@)),
{
    match vm.pop_return() {
        Some(position) => {
            vm.jump(position);
            Ok(Signal::Next)
        },
        None => Err(Fault::CallStackUnderflow),
    }
}

/// Calls the subroutine at the target that the eight operand bytes spell.
pub fn call(vm: &mut VM, code: &[u8]) -> (r: Result<Signal, Fault>)
    ensures
        semantics::agrees(old(vm)@, r, final(vm)@, semantics::call_spec(old(vm)@, code@)),
{
    let target = immediate(vm, code, Width::Eight)?;
    let back = vm.ip() + 8;
    vm.push_return(back);
    vm.jump(target);
    Ok(Signal::Next)
}

/// Pops a target and calls the subroutine there.
pub fn calldy(vm: &mut VM) -> (r: Result<Signal, Fault>)
    ensures
        semantics::agrees(old(vm)@, r, final(vm)@, semantics::calldy_spec(old(vm)@)),
{
    let target = take_one(vm, opcode::CALLDY)?;
    let back = vm.ip();
    vm.push_return(back);
    vm.jump(target);
    Ok(Signal::Next)
}

/// Asks the host for the extern function that the eight operand bytes name.
pub fn fun(vm: &mut VM, code: &[u8]) -> (r: Result<Signal, Fault>)
    ensures
        semantics::agrees(old(vm)@, r, final(vm)@, semantics::fun_spec(old(vm)@, code@)),
{
    let index = immediate(vm, code, Width::Eight)?;
    if index >= vm.externs() {
        return Err(Fault::ExternIndexOutOfRange { index });
    }
    skip(vm, 8);
    Ok(Signal::Extern { index })
}

/// Pops an index and asks the host for the extern function it names.
pub fn fundy(vm: &mut VM) -> (r: Result<Signal, Fault>)
    ensures
        semantics::agrees(old(vm)@, r, final(vm)@, semantics::fundy_spec(old(vm)@)),
{
    let index = match vm.peek(0) {
        Some(word) => word,
        None => {
            return Err(Fault::StackUnderflow { opcode: opcode::FUNDY });
        },
    };
    if index >= vm.externs() {
        return Err(Fault::ExternIndexOutOfRange { index });
    }
    let _ = vm.pop();
    Ok(Signal::Extern { index })
}

/// A typed write: the immediate of the given width goes into the block that
/// the top word addresses; the stack stays as it is.
pub fn store(vm: &mut VM, code: &[u8], tag: u8, width: Width) -> (r: Result<Signal, Fault>)
    ensures
        semantics::agrees(old(vm)@, r, final(vm)@, semantics::store_spec(old(vm)@, code@, tag, width)),
{
    let address = match vm.peek(0) {
        Some(word) => word,
        None => {
            return Err(Fault::StackUnderflow { opcode: tag });
        },
    };
    let value = immediate(vm, code, width)?;
    proof {
        lemma_wrapping_sum_zero(address);
    }
    vm.write_typed(address, 0, width, value)?;
    skip(vm, width.bytes() as u64);
    Ok(Signal::Next)
}

/// Writes the operand byte into the block that the top word addresses.
pub fn set1(vm: &mut VM, code: &[u8]) -> (r: Result<Signal, Fault>)
    ensures
        semantics::agrees(old(vm)@, r, final(vm)@, semantics::set1_spec(old(vm)@, code@)),
{
    store(vm, code, opcode::SET1, Width::One)
}

/// Writes the two operand bytes into the block that the top word addresses.
pub fn set2(vm: &mut VM, code: &[u8]) -> (r: Result<Signal, Fault>)
    ensures
        semantics::agrees(old(vm)@, r, final(vm)@, semantics::set2_spec(old(vm)@, code@)),
{
    store(vm, code, opcode::SET2, Width::Two)
}

/// Writes the four operand bytes into the block that the top word addresses.
pub fn set4(vm: &mut VM, code: &[u8]) -> (r: Result<Signal, Fault>)
    ensures
        semantics::agrees(old(vm)@, r, final(vm)@, semantics::set4_spec(old(vm)@, code@)),
{
    store(vm, code, opcode::SET4, Width::Four)
}

/// Writes the eight operand bytes into the block that the top word addresses.
pub fn set8(vm: &mut VM, code: &[u8]) -> (r: Result<Signal, Fault>)
    ensures
        semantics::agrees(old(vm)@, r, final(vm)@, semantics::set8_spec(old(vm)@, code@)),
{
    store(vm, code, opcode::SET8, Width::Eight)
}

/// A sized free: pops an address and releases its block, which must have
/// been allocated with `size` bytes.
pub fn free(vm: &mut VM, tag: u8, size: u64) -> (r: Result<Signal, Fault>)
    ensures
        semantics::agrees(old(vm)@, r, final(vm)@, semantics::free_spec(old(vm)@, tag, size)),
{
    let address = match vm.peek(0) {
        Some(word) => word,
        None => {
            return Err(Fault::StackUnderflow { opcode: tag });
        },
    };
    vm.deallocate(address, size)?;
    let _ = vm.pop();
    Ok(Signal::Next)
}

/// Pops the address of a one-byte block and releases the block.
pub fn pop1(vm: &mut VM) -> (r: Result<Signal, Fault>)
    ensures
        semantics::agrees(old(vm)@, r, final(vm)@, semantics::pop1_spec(old(vm)@)),
{
    free(vm, opcode::POP1, 1)
}

/// Pops the address of a two-byte block and releases the block.
pub fn pop2(vm: &mut VM) -> (r: Result<Signal, Fault>)
    ensures
        semantics::agrees(old(vm)@, r, final(vm)@, semantics::pop2_spec(old(vm)@)),
{
    free(vm, opcode::POP2, 2)
}

/// Pops the address of a four-byte block and releases the block.
pub fn pop4(vm: &mut VM) -> (r: Result<Signal, Fault>)
    ensures
        semantics::agrees(old(vm)@, r, final(vm)@, semantics::pop4_spec(old(vm)@)),
{
    free(vm, opcode::POP4, 4)
}

/// Pops the address of an eight-byte block and releases the block.
pub fn pop8(vm: &mut VM) -> (r: Result<Signal, Fault>)
    ensures
        semantics::agrees(old(vm)@, r, final(vm)@, semantics::pop8_spec(old(vm)@)),
{
    free(vm, opcode::POP8, 8)
}

/// Pops an address and releases its block with the size that the eight
/// operand bytes spell.
pub fn popx(vm: &mut VM, code: &[u8]) -> (r: Result<Signal, Fault>)
    ensures
        semantics::agrees(old(vm)@, r, final(vm)@, semantics::popx_spec(old(vm)@, code@)),
{
    let address = match vm.peek(0) {
        Some(word) => word,
        None => {
            return Err(Fault::StackUnderflow { opcode: opcode::POPX });
        },
    };
    let size = immediate(vm, code, Width::Eight)?;
    vm.deallocate(address, size)?;
    let _ = vm.pop();
    skip(vm, 8);
    Ok(Signal::Next)
}

/// Drops the top word; a block it may address stays allocated.
pub fn pop(vm: &mut VM) -> (r: Result<Signal, Fault>)
    ensures
        semantics::agrees(old(vm)@, r, final(vm)@, semantics::pop_spec(old(vm)@)),
{
    let _ = take_one(vm, opcode::POP)?;
    Ok(Signal::Next)
}

} // verus!
