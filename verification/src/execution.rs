//! How a run ends: the relation that the dispatch loop is held to, and the
//! function it becomes once the host's part is known.

use vstd::prelude::*;
use crate::dispatch::step_spec;
use crate::fault::Fault;
use crate::machine::Machine;
use crate::machine::VM;
use crate::signal::FloatOp;
use crate::signal::Signal;
use crate::semantics::delivered;

verus! {

/// Whether a run from state `s` that may execute at most `fuel` instructions
/// can end with `r`, given what the float unit `f` and the extern functions
/// behind `x` may return.
///
/// The run succeeds when `halt` is executed or the instruction pointer
/// stands at or behind the end of the bytecode, and ends with the first
/// fault raised. An instruction wanted when the fuel is used up is a fault.
/// A float operation goes on with some result of `f` pushed, an extern call
/// with some machine that `x` returns.
pub open spec fn may_end<F: Fn(FloatOp, u64, u64) -> u64, X: Fn(u64, VM) -> VM>(
    s: Machine,
    code: Seq<u8>,
    fuel: nat,
    f: F,
    x: X,
    r: Result<(), Fault>,
) -> bool
    decreases fuel,
{
    if s.ip >= code.len() {
        r == Ok::<(), Fault>(())
    } else if fuel == 0 {
        r == Err::<(), Fault>(Fault::StepLimit)
    } else {
        match step_spec(s, code) {
            Err(fault) => r == Err::<(), Fault>(fault),
            Ok((t, Signal::Halt)) => r == Ok::<(), Fault>(()),
            Ok((t, Signal::End)) => r == Ok::<(), Fault>(()),
            Ok((t, Signal::Next)) => may_end(t, code, (fuel - 1) as nat, f, x, r),
            Ok((t, Signal::Float { op, left, right })) => exists|result: u64| #[trigger]
                call_ensures(f, (op, left, right), result) && may_end(
                    delivered(t, op, result),
                    code,
                    (fuel - 1) as nat,
                    f,
                    x,
                    r,
                ),
            Ok((t, Signal::Extern { index })) => exists|before: VM, after: VM| #[trigger]
                call_ensures(x, (index, before), after) && before@ == t && may_end(
                    after@,
                    code,
                    (fuel - 1) as nat,
                    f,
                    x,
                    r,
                ),
        }
    }
}

/// What a float unit computes, as a function on bit patterns.
pub type FloatUnit = spec_fn(FloatOp, u64, u64) -> u64;

/// What extern functions do to the machine, by index.
pub type ExternTable = spec_fn(u64, Machine) -> Machine;

/// The float unit `f` computes `unit`.
pub open spec fn computes<F: Fn(FloatOp, u64, u64) -> u64>(f: F, unit: FloatUnit) -> bool {
    forall|op: FloatOp, left: u64, right: u64, result: u64| #[trigger]
        call_ensures(f, (op, left, right), result) ==> result == unit(op, left, right)
}

/// The extern functions behind `x` do what `table` says.
pub open spec fn performs<X: Fn(u64, VM) -> VM>(x: X, table: ExternTable) -> bool {
    forall|index: u64, before: VM, after: VM| #[trigger]
        call_ensures(x, (index, before), after) ==> after@ == table(index, before@)
}

/// How a run from state `s` ends when at most `fuel` instructions may be
/// executed, the host computing `unit` and doing `table`.
pub open spec fn run_spec(
    s: Machine,
    code: Seq<u8>,
    fuel: nat,
    unit: FloatUnit,
    table: ExternTable,
) -> Result<(), Fault>
    decreases fuel,
{
    if s.ip >= code.len() {
        Ok(())
    } else if fuel == 0 {
        Err(Fault::StepLimit)
    } else {
        match step_spec(s, code) {
            Err(fault) => Err(fault),
            Ok((t, Signal::Halt)) => Ok(()),
            Ok((t, Signal::End)) => Ok(()),
            Ok((t, Signal::Next)) => run_spec(t, code, (fuel - 1) as nat, unit, table),
            Ok((t, Signal::Float { op, left, right })) => run_spec(
                delivered(t, op, unit(op, left, right)),
                code,
                (fuel - 1) as nat,
                unit,
                table,
            ),
            Ok((t, Signal::Extern { index })) => run_spec(
                table(index, t),
                code,
                (fuel - 1) as nat,
                unit,
                table,
            ),
        }
    }
}

/// A host whose float unit and extern functions are functions leaves a run
/// one way to end.
pub proof fn lemma_run_determined<F: Fn(FloatOp, u64, u64) -> u64, X: Fn(u64, VM) -> VM>(
    s: Machine,
    code: Seq<u8>,
    fuel: nat,
    f: F,
    x: X,
    unit: FloatUnit,
    table: ExternTable,
    r: Result<(), Fault>,
)
    requires
        may_end(s, code, fuel, f, x, r),
        computes(f, unit),
        performs(x, table),
    ensures
        r == run_spec(s, code, fuel, unit, table),
    decreases fuel,
{
    if s.ip >= code.len() || fuel == 0 {
    } else {
        match step_spec(s, code) {
            Ok((t, Signal::Next)) => {
                lemma_run_determined(t, code, (fuel - 1) as nat, f, x, unit, table, r);
            },
            Ok((t, Signal::Float { op, left, right })) => {
                let result = choose|result: u64| #[trigger]
                    call_ensures(f, (op, left, right), result) && may_end(
                        delivered(t, op, result),
                        code,
                        (fuel - 1) as nat,
                        f,
                        x,
                        r,
                    );
                lemma_run_determined(
                    delivered(t, op, result),
                    code,
                    (fuel - 1) as nat,
                    f,
                    x,
                    unit,
                    table,
                    r,
                );
            },
            Ok((t, Signal::Extern { index })) => {
                let (before, after) = choose|before: VM, after: VM| #[trigger]
                    call_ensures(x, (index, before), after) && before@ == t && may_end(
                        after@,
                        code,
                        (fuel - 1) as nat,
                        f,
                        x,
                        r,
                    );
                lemma_run_determined(after@, code, (fuel - 1) as nat, f, x, unit, table, r);
            },
            _ => {},
        }
    }
}

/// A run that can end within a budget otherwise than by using it up can
/// end the same way within every larger budget.
pub proof fn lemma_larger_budget_same_end<F: Fn(FloatOp, u64, u64) -> u64, X: Fn(u64, VM) -> VM>(
    s: Machine,
    code: Seq<u8>,
    fuel: nat,
    more: nat,
    f: F,
    x: X,
    r: Result<(), Fault>,
)
    requires
        may_end(s, code, fuel, f, x, r),
        r != Err::<(), Fault>(Fault::StepLimit),
        fuel <= more,
    ensures
        may_end(s, code, more, f, x, r),
    decreases fuel,
{
    if s.ip >= code.len() || fuel == 0 {
    } else {
        let less = (fuel - 1) as nat;
        let next = (more - 1) as nat;
        match step_spec(s, code) {
            Ok((t, Signal::Next)) => {
                lemma_larger_budget_same_end(t, code, less, next, f, x, r);
            },
            Ok((t, Signal::Float { op, left, right })) => {
                let result = choose|result: u64| #[trigger]
                    call_ensures(f, (op, left, right), result) && may_end(
                        delivered(t, op, result),
                        code,
                        less,
                        f,
                        x,
                        r,
                    );
                lemma_larger_budget_same_end(
                    delivered(t, op, result),
                    code,
                    less,
                    next,
                    f,
                    x,
                    r,
                );
            },
            Ok((t, Signal::Extern { index })) => {
                let (before, after) = choose|before: VM, after: VM| #[trigger]
                    call_ensures(x, (index, before), after) && before@ == t && may_end(
                        after@,
                        code,
                        less,
                        f,
                        x,
                        r,
                    );
                lemma_larger_budget_same_end(after@, code, less, next, f, x, r);
            },
            _ => {},
        }
    }
}

} // verus!
