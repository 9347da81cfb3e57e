//! A stack-based bytecode virtual machine.
//!
//! The machine executes a byte buffer of opcodes against a value stack, a
//! call stack, a file of global slots, a flag and an arena of byte blocks.
//! Floating-point arithmetic and extern functions are the host's part: the
//! machine pops the operands and says what is wanted, the host delivers.

pub mod arena;
pub mod dispatch;
pub mod execution;
pub mod fault;
pub mod instructions;
pub mod laws;
pub mod machine;
pub mod opcode;
pub mod semantics;
pub mod signal;
pub mod word;

use vstd::prelude::*;
use crate::dispatch::lemma_step_requests_fit_the_host;
use crate::execution::may_end;
use crate::fault::Fault;
pub use crate::machine::VM;
use crate::machine::initial;
use crate::signal::FloatOp;
use crate::signal::Signal;

verus! {

/// Runs the bytecode from position `ip` on a fresh machine, executing at
/// most `limit` instructions.
///
/// `float_unit` is called with the operation and the bit patterns of the
/// operands popped first and second, cut to the width of the operation, and
/// returns the pattern of the result.
/// `extern_call` is called with the machine and an index below the number of
/// extern functions registered, which is `externs` at the start, and returns
/// the machine to go on with.
pub fn run_bounded<F: Fn(FloatOp, u64, u64) -> u64, X: Fn(u64, VM) -> VM>(
    bytecode: &mut Vec<u8>,
    ip: usize,
    limit: u64,
    externs: u64,
    float_unit: F,
    extern_call: X,
) -> (r: Result<(), Fault>)
    requires
        forall|op: FloatOp, left: u64, right: u64|
            op.fits(left) && op.fits(right) ==> call_requires(
                float_unit,
                (op, left, right),
            ),
        forall|index: u64, vm: VM| index < vm@.externs ==> call_requires(extern_call, (index, vm)),
    ensures
        final(bytecode)@ == old(bytecode)@,
        may_end(
            initial(ip as u64, externs),
            old(bytecode)@,
            limit as nat,
            float_unit,
            extern_call,
            r,
        ),
{
    let code = bytecode.as_slice();
    let mut vm = VM::new(ip as u64, externs);
    let mut left = limit;
    loop
        invariant
            code@ == old(bytecode)@,
            forall|op: FloatOp, a: u64, b: u64|
                op.fits(a) && op.fits(b) ==> call_requires(float_unit, (op, a, b)),
            forall|index: u64, m: VM| index < m@.externs ==> call_requires(extern_call, (index, m)),
            forall|end: Result<(), Fault>| #[trigger]
                may_end(vm@, code@, left as nat, float_unit, extern_call, end) ==> may_end(
                    initial(ip as u64, externs),
                    code@,
                    limit as nat,
                    float_unit,
                    extern_call,
                    end,
                ),
        decreases left,
    {
        let ghost before = vm@;
        let ghost fuel = left as nat;
        if vm.ip() >= code.len() as u64 {
            assert(may_end(before, code@, fuel, float_unit, extern_call, Ok(())));
            return Ok(());
        }
        if left == 0 {
            assert(may_end(before, code@, fuel, float_unit, extern_call, Err(Fault::StepLimit)));
            return Err(Fault::StepLimit);
        }
        proof {
            lemma_step_requests_fit_the_host(before, code@);
        }
        match vm.step(code) {
            Err(fault) => {
                assert(may_end(before, code@, fuel, float_unit, extern_call, Err(fault)));
                return Err(fault);
            },
            Ok(Signal::Halt) => {
                assert(may_end(before, code@, fuel, float_unit, extern_call, Ok(())));
                return Ok(());
            },
            Ok(Signal::End) => {
                assert(may_end(before, code@, fuel, float_unit, extern_call, Ok(())));
                return Ok(());
            },
            Ok(Signal::Next) => {},
            Ok(Signal::Float { op, left: a, right: b }) => {
                let result = float_unit(op, a, b);
                instructions::deliver(&mut vm, op, result);
            },
            Ok(Signal::Extern { index }) => {
                vm = extern_call(index, vm);
            },
        }
        left = left - 1;
        assert forall|end: Result<(), Fault>| #[trigger]
            may_end(vm@, code@, left as nat, float_unit, extern_call, end) implies may_end(
            before,
            code@,
            fuel,
            float_unit,
            extern_call,
            end,
        ) by {}
    }
}

/// Runs the bytecode from position `ip` on a fresh machine until it halts,
/// runs off the end of the bytecode, or faults.
///
/// The host's part is as in [`run_bounded`]; the budget is the largest there is.
pub fn run<F: Fn(FloatOp, u64, u64) -> u64, X: Fn(u64, VM) -> VM>(
    bytecode: &mut Vec<u8>,
    ip: usize,
    externs: u64,
    float_unit: F,
    extern_call: X,
) -> (r: Result<(), Fault>)
    requires
        forall|op: FloatOp, left: u64, right: u64|
            op.fits(left) && op.fits(right) ==> call_requires(
                float_unit,
                (op, left, right),
            ),
        forall|index: u64, vm: VM| index < vm@.externs ==> call_requires(extern_call, (index, vm)),
    ensures
        final(bytecode)@ == old(bytecode)@,
        may_end(
            initial(ip as u64, externs),
            old(bytecode)@,
            u64::MAX as nat,
            float_unit,
            extern_call,
            r,
        ),
{
    run_bounded(bytecode, ip, u64::MAX, externs, float_unit, extern_call)
}

} // verus!
