//! The dispatch of one instruction: fetch, step over the opcode, execute.

use vstd::prelude::*;
use crate::fault::Fault;
use crate::instructions;
use crate::machine::Machine;
use crate::machine::VM;
use crate::opcode;
use crate::semantics;
use crate::semantics::Outcome;
use crate::signal::Signal;

verus! {

/// What the instruction with opcode `tag` does in state `s`, in which the
/// instruction pointer stands behind the opcode.
pub open spec fn dispatch_spec(tag: u8, s: Machine, code: Seq<u8>) -> Outcome {
    if tag == opcode::HALT {
        semantics::halt_spec(s)
    } else if tag == opcode::PU1 {
        semantics::pu1_spec(s, code)
    } else if tag == opcode::PU2 {
        semantics::pu2_spec(s, code)
    } else if tag == opcode::PU4 {
        semantics::pu4_spec(s, code)
    } else if tag == opcode::PU8 {
        semantics::pu8_spec(s, code)
    } else if tag == opcode::PUX {
        semantics::pux_spec(s)
    } else if tag == opcode::SET {
        semantics::set_spec(s, code)
    } else if tag == opcode::GET {
        semantics::get_spec(s, code)
    } else if tag == opcode::SETX {
        semantics::setx_spec(s, code)
    } else if tag == opcode::OFF {
        semantics::off_spec(s)
    } else if tag == opcode::CP {
        semantics::cp_spec(s)
    } else if tag == opcode::LOAD1 {
        semantics::load1_spec(s)
    } else if tag == opcode::LOAD2 {
        semantics::load2_spec(s)
    } else if tag == opcode::LOAD4 {
        semantics::load4_spec(s)
    } else if tag == opcode::LOAD8 {
        semantics::load8_spec(s)
    } else if tag == opcode::AND {
        semantics::and_spec(s)
    } else if tag == opcode::OR {
        semantics::or_spec(s)
    } else if tag == opcode::XOR {
        semantics::xor_spec(s)
    } else if tag == opcode::LSHIFT {
        semantics::lshift_spec(s)
    } else if tag == opcode::RSHIFT {
        semantics::rshift_spec(s)
    } else if tag == opcode::ADD {
        semantics::add_spec(s)
    } else if tag == opcode::SUB {
        semantics::sub_spec(s)
    } else if tag == opcode::MUL {
        semantics::mul_spec(s)
    } else if tag == opcode::DIV {
        semantics::div_spec(s)
    } else if tag == opcode::ADDF {
        semantics::addf_spec(s)
    } else if tag == opcode::SUBF {
        semantics::subf_spec(s)
    } else if tag == opcode::MULF {
        semantics::mulf_spec(s)
    } else if tag == opcode::DIVF {
        semantics::divf_spec(s)
    } else if tag == opcode::ADDD {
        semantics::addd_spec(s)
    } else if tag == opcode::SUBD {
        semantics::subd_spec(s)
    } else if tag == opcode::MULD {
        semantics::muld_spec(s)
    } else if tag == opcode::DIVD {
        semantics::divd_spec(s)
    } else if tag == opcode::EQ {
        semantics::eq_spec(s)
    } else if tag == opcode::NEQ {
        semantics::neq_spec(s)
    } else if tag == opcode::GR {
        semantics::gr_spec(s)
    } else if tag == opcode::SM {
        semantics::sm_spec(s)
    } else if tag == opcode::NOT {
        semantics::not_spec(s)
    } else if tag == opcode::JMP {
        semantics::jmp_spec(s)
    } else if tag == opcode::JMPIF {
        semantics::jmpif_spec(s)
    } else if tag == opcode::JMPIFN {
        semantics::jmpifn_spec(s)
    } else if tag == opcode::RET {
        semantics::ret_spec(s)
    } else if tag == opcode::CALL {
        semantics::call_spec(s, code)
    } else if tag == opcode::CALLDY {
        semantics::calldy_spec(s)
    } else if tag == opcode::FUN {
        semantics::fun_spec(s, code)
    } else if tag == opcode::FUNDY {
        semantics::fundy_spec(s)
    } else if tag == opcode::SET1 {
        semantics::set1_spec(s, code)
    } else if tag == opcode::SET2 {
        semantics::set2_spec(s, code)
    } else if tag == opcode::SET4 {
        semantics::set4_spec(s, code)
    } else if tag == opcode::SET8 {
        semantics::set8_spec(s, code)
    } else if tag == opcode::POP1 {
        semantics::pop1_spec(s)
    } else if tag == opcode::POP2 {
        semantics::pop2_spec(s)
    } else if tag == opcode::POP4 {
        semantics::pop4_spec(s)
    } else if tag == opcode::POP8 {
        semantics::pop8_spec(s)
    } else if tag == opcode::POPX {
        semantics::popx_spec(s, code)
    } else {
        semantics::pop_spec(s)
    }
}

/// One turn of the dispatch loop in state `s`: fetch the opcode at the
/// instruction pointer, step over it, and carry the instruction out.
///
/// At or behind the end of the bytecode there is nothing to fetch, and the
/// turn signals the end. A byte that is no opcode is a fault.
pub open spec fn step_spec(s: Machine, code: Seq<u8>) -> Outcome {
    if s.ip >= code.len() {
        Ok((s, Signal::End))
    } else if code[s.ip as int] >= opcode::COUNT {
        Err(Fault::UnknownOpcode { tag: code[s.ip as int], position: s.ip })
    } else {
        dispatch_spec(code[s.ip as int], semantics::advanced(s, 1), code)
    }
}

/// What a turn hands to the host is fit for it: float operands are
/// patterns of the width of their operation, and an extern index is a
/// registered one.
pub proof fn lemma_step_requests_fit_the_host(s: Machine, code: Seq<u8>)
    ensures
        match step_spec(s, code) {
            Ok((t, Signal::Float { op, left, right })) => op.fits(left) && op.fits(right),
            Ok((t, Signal::Extern { index })) => index < t.externs,
            _ => true,
        },
{
    if s.ip < code.len() && code[s.ip as int] < opcode::COUNT {
        let tag = code[s.ip as int];
        let found = semantics::advanced(s, 1);
        if tag == opcode::FUN || tag == opcode::FUNDY {
        } else if opcode::ADDF <= tag <= opcode::DIVD {
        } else {
            let outcome = dispatch_spec(tag, found, code);
            assert(outcome is Ok ==> outcome->Ok_0.1 is Next || outcome->Ok_0.1 is Halt);
        }
    }
}

/// Hands the machine to the handler of the opcode `tag`.
fn dispatch(vm: &mut VM, code: &[u8], tag: u8) -> (r: Result<Signal, Fault>)
    requires
        tag < opcode::COUNT,
    ensures
        semantics::agrees(old(vm)@, r, final(vm)@, dispatch_spec(tag, old(vm)@, code@)),
{
    if tag == opcode::HALT {
        instructions::halt(vm)
    } else if tag == opcode::PU1 {
        instructions::pu1(vm, code)
    } else if tag == opcode::PU2 {
        instructions::pu2(vm, code)
    } else if tag == opcode::PU4 {
        instructions::pu4(vm, code)
    } else if tag == opcode::PU8 {
        instructions::pu8(vm, code)
    } else if tag == opcode::PUX {
        instructions::pux(vm)
    } else if tag == opcode::SET {
        instructions::set(vm, code)
    } else if tag == opcode::GET {
        instructions::get(vm, code)
    } else if tag == opcode::SETX {
        instructions::setx(vm, code)
    } else if tag == opcode::OFF {
        instructions::off(vm)
    } else if tag == opcode::CP {
        instructions::cp(vm)
    } else if tag == opcode::LOAD1 {
        instructions::load1(vm)
    } else if tag == opcode::LOAD2 {
        instructions::load2(vm)
    } else if tag == opcode::LOAD4 {
        instructions::load4(vm)
    } else if tag == opcode::LOAD8 {
        instructions::load8(vm)
    } else if tag == opcode::AND {
        instructions::and(vm)
    } else if tag == opcode::OR {
        instructions::or(vm)
    } else if tag == opcode::XOR {
        instructions::xor(vm)
    } else if tag == opcode::LSHIFT {
        instructions::lshift(vm)
    } else if tag == opcode::RSHIFT {
        instructions::rshift(vm)
    } else if tag == opcode::ADD {
        instructions::add(vm)
    } else if tag == opcode::SUB {
        instructions::sub(vm)
    } else if tag == opcode::MUL {
        instructions::mul(vm)
    } else if tag == opcode::DIV {
        instructions::div(vm)
    } else if tag == opcode::ADDF {
        instructions::addf(vm)
    } else if tag == opcode::SUBF {
        instructions::subf(vm)
    } else if tag == opcode::MULF {
        instructions::mulf(vm)
    } else if tag == opcode::DIVF {
        instructions::divf(vm)
    } else if tag == opcode::ADDD {
        instructions::addd(vm)
    } else if tag == opcode::SUBD {
        instructions::subd(vm)
    } else if tag == opcode::MULD {
        instructions::muld(vm)
    } else if tag == opcode::DIVD {
        instructions::divd(vm)
    } else if tag == opcode::EQ {
        instructions::eq(vm)
    } else if tag == opcode::NEQ {
        instructions::neq(vm)
    } else if tag == opcode::GR {
        instructions::gr(vm)
    } else if tag == opcode::SM {
        instructions::sm(vm)
    } else if tag == opcode::NOT {
        instructions::not(vm)
    } else if tag == opcode::JMP {
        instructions::jmp(vm)
    } else if tag == opcode::JMPIF {
        instructions::jmpif(vm)
    } else if tag == opcode::JMPIFN {
        instructions::jmpifn(vm)
    } else if tag == opcode::RET {
        instructions::ret(vm)
    } else if tag == opcode::CALL {
        instructions::call(vm, code)
    } else if tag == opcode::CALLDY {
        instructions::calldy(vm)
    } else if tag == opcode::FUN {
        instructions::fun(vm, code)
    } else if tag == opcode::FUNDY {
        instructions::fundy(vm)
    } else if tag == opcode::SET1 {
        instructions::set1(vm, code)
    } else if tag == opcode::SET2 {
        instructions::set2(vm, code)
    } else if tag == opcode::SET4 {
        instructions::set4(vm, code)
    } else if tag == opcode::SET8 {
        instructions::set8(vm, code)
    } else if tag == opcode::POP1 {
        instructions::pop1(vm)
    } else if tag == opcode::POP2 {
        instructions::pop2(vm)
    } else if tag == opcode::POP4 {
        instructions::pop4(vm)
    } else if tag == opcode::POP8 {
        instructions::pop8(vm)
    } else if tag == opcode::POPX {
        instructions::popx(vm, code)
    } else {
        instructions::pop(vm)
    }
}

impl VM {
    /// Executes one instruction: fetches the opcode at the instruction
    /// pointer, steps over it, and hands the machine to its handler.
    ///
    /// A fault leaves the machine as it was, the instruction pointer still at
    /// the opcode that raised it.
    pub fn step(&mut self, code: &[u8]) -> (r: Result<Signal, Fault>)
        ensures
            semantics::agrees(old(self)@, r, final(self)@, step_spec(old(self)@, code@)),
    {
        let at = self.ip();
        if at >= code.len() as u64 {
            return Ok(Signal::End);
        }
        let tag = code[at as usize];
        if tag >= opcode::COUNT {
            return Err(Fault::UnknownOpcode { tag, position: at });
        }
        self.jump(at + 1);
        let r = dispatch(self, code, tag);
        if r.is_err() {
            self.jump(at);
        }
        r
    }
}

} // verus!
