//! The machine state and the operations on it that instructions and extern
//! functions are built from.

use vstd::prelude::*;
use crate::arena::Arena;
use crate::arena::Memory;
use crate::arena::access_check;
use crate::arena::allocated;
use crate::arena::base_address;
use crate::arena::can_allocate;
use crate::arena::outstanding;
use crate::arena::read_result;
use crate::arena::release_check;
use crate::arena::released;
use crate::arena::stored;
use crate::fault::Fault;
use crate::word::Width;
use crate::word::wrapping_sum;

verus! {

/// The number of global slots.
pub const GLOBAL_SLOTS: u64 = 256;

/// The state of a machine, as contracts speak of it.
pub struct Machine {
    /// The position in the bytecode of the next byte to read.
    pub ip: u64,
    /// The value stack; its top is its last entry.
    pub stack: Seq<u64>,
    /// The saved return positions; the innermost call is the last entry.
    pub calls: Seq<u64>,
    /// The global slots.
    pub globals: Seq<u64>,
    /// The flag that comparisons set and conditional jumps read.
    pub flag: bool,
    /// The blocks of the arena.
    pub memory: Memory,
    /// The number of extern functions that the host has registered.
    pub externs: u64,
}

/// The state in which every run starts.
pub open spec fn initial(ip: u64, externs: u64) -> Machine {
    Machine {
        ip,
        stack: Seq::empty(),
        calls: Seq::empty(),
        globals: Seq::new(GLOBAL_SLOTS as nat, |i: int| 0u64),
        flag: false,
        memory: Seq::empty(),
        externs,
    }
}

/// The machine: value stack, call stack, globals, flag and arena of one run.
pub struct VM {
    ip: u64,
    stack: Vec<u64>,
    calls: Vec<u64>,
    globals: [u64; 256],
    flag: bool,
    arena: Arena,
    externs: u64,
}

impl View for VM {
    type V = Machine;

    closed spec fn view(&self) -> Machine {
        Machine {
            ip: self.ip,
            stack: self.stack@,
            calls: self.calls@,
            globals: self.globals@,
            flag: self.flag,
            memory: self.arena@,
            externs: self.externs,
        }
    }
}

impl VM {
    /// A machine about to read the byte at `ip`, with `externs` extern
    /// functions registered by its host.
    pub fn new(ip: u64, externs: u64) -> (vm: VM)
        ensures
            vm@ == initial(ip, externs),
    {
        let vm = VM {
            ip,
            stack: Vec::new(),
            calls: Vec::new(),
            globals: [0u64;256],
            flag: false,
            arena: Arena::new(),
            externs,
        };
        assert(vm@.globals =~= initial(ip, externs).globals);
        vm
    }

    /// Every machine has all its global slots.
    pub proof fn lemma_globals_len(&self)
        ensures
            self@.globals.len() == GLOBAL_SLOTS,
    {
    }

    /// The position in the bytecode of the next byte to read.
    pub fn ip(&self) -> (ip: u64)
        ensures
            ip == self@.ip,
    {
        self.ip
    }

    /// Sets the position of the next byte to read.
    pub fn jump(&mut self, target: u64)
        ensures
            final(self)@ == (Machine { ip: target, ..old(self)@ }),
    {
        self.ip = target;
    }

    /// The flag.
    pub fn flag(&self) -> (flag: bool)
        ensures
            flag == self@.flag,
    {
        self.flag
    }

    /// Sets or clears the flag.
    pub fn set_flag(&mut self, flag: bool)
        ensures
            final(self)@ == (Machine { flag, ..old(self)@ }),
    {
        self.flag = flag;
    }

    /// The number of extern functions that the host has registered.
    pub fn externs(&self) -> (n: u64)
        ensures
            n == self@.externs,
    {
        self.externs
    }

    /// The number of words on the value stack.
    pub fn depth(&self) -> (n: usize)
        ensures
            n == self@.stack.len(),
    {
        self.stack.len()
    }

    /// Puts a word on top of the value stack.
    pub fn push(&mut self, word: u64)
        ensures
            final(self)@ == (Machine { stack: old(self)@.stack.push(word), ..old(self)@ }),
    {
        self.stack.push(word);
    }

    /// Takes the top word off the value stack, if there is one.
    pub fn pop(&mut self) -> (word: Option<u64>)
        ensures
            old(self)@.stack.len() == 0 ==> word is None && final(self)@ == old(self)@,
            old(self)@.stack.len() > 0 ==> word == Some(old(self)@.stack.last()) && final(self)@ == (
            Machine { stack: old(self)@.stack.drop_last(), ..old(self)@ }),
    {
        self.stack.pop()
    }

    /// The word that lies `below` words under the top of the value stack, if
    /// the stack is that deep; `peek(0)` is the top.
    pub fn peek(&self, below: usize) -> (word: Option<u64>)
        ensures
            below >= self@.stack.len() ==> word is None,
            below < self@.stack.len() ==> word == Some(
                self@.stack[self@.stack.len() - 1 - below],
            ),
    {
        let n = self.stack.len();
        if below >= n {
            None
        } else {
            Some(self.stack[n - 1 - below])
        }
    }

    /// The number of saved return positions.
    pub fn call_depth(&self) -> (n: usize)
        ensures
            n == self@.calls.len(),
    {
        self.calls.len()
    }

    /// Saves a return position on the call stack.
    pub fn push_return(&mut self, position: u64)
        ensures
            final(self)@ == (Machine { calls: old(self)@.calls.push(position), ..old(self)@ }),
    {
        self.calls.push(position);
    }

    /// Takes the innermost return position off the call stack, if there is one.
    pub fn pop_return(&mut self) -> (position: Option<u64>)
        ensures
            old(self)@.calls.len() == 0 ==> position is None && final(self)@ == old(self)@,
            old(self)@.calls.len() > 0 ==> position == Some(old(self)@.calls.last())
                && final(self)@ == (Machine { calls: old(self)@.calls.drop_last(), ..old(self)@ }),
    {
        self.calls.pop()
    }

    /// The word in global slot `index`.
    pub fn global(&self, index: u64) -> (r: Result<u64, Fault>)
        ensures
            index < GLOBAL_SLOTS ==> r == Ok::<u64, Fault>(self@.globals[index as int]),
            index >= GLOBAL_SLOTS ==> r == Err::<u64, Fault>(Fault::GlobalIndexOutOfRange { index }),
    {
        if index >= GLOBAL_SLOTS {
            return Err(Fault::GlobalIndexOutOfRange { index });
        }
        Ok(self.globals[index as usize])
    }

    /// Stores `word` into global slot `index`.
    pub fn set_global(&mut self, index: u64, word: u64) -> (r: Result<(), Fault>)
        ensures
            index < GLOBAL_SLOTS ==> r is Ok && final(self)@ == (Machine {
                globals: old(self)@.globals.update(index as int, word),
                ..old(self)@
            }),
            index >= GLOBAL_SLOTS ==> r == Err::<(), Fault>(Fault::GlobalIndexOutOfRange { index })
                && final(self)@ == old(self)@,
    {
        if index >= GLOBAL_SLOTS {
            return Err(Fault::GlobalIndexOutOfRange { index });
        }
        self.globals[index as usize] = word;
        Ok(())
    }

    /// Hands out a zero-filled block of `size` bytes and returns its address.
    pub fn allocate(&mut self, size: u64) -> (r: Result<u64, Fault>)
        ensures
            can_allocate(old(self)@.memory, size) ==> r == Ok::<u64, Fault>(
                base_address(old(self)@.memory.len() as int) as u64,
            ) && final(self)@ == (Machine {
                memory: allocated(old(self)@.memory, size),
                ..old(self)@
            }),
            !can_allocate(old(self)@.memory, size) ==> r == Err::<u64, Fault>(
                Fault::AllocationRefused { size },
            ) && final(self)@ == old(self)@,
    {
        self.arena.allocate(size)
    }

    /// Releases the block at `address`, which was allocated with `size` bytes.
    pub fn deallocate(&mut self, address: u64, size: u64) -> (r: Result<(), Fault>)
        ensures
            r == release_check(old(self)@.memory, address, size),
            r is Ok ==> final(self)@ == (Machine {
                memory: released(old(self)@.memory, address),
                ..old(self)@
            }),
            r is Err ==> final(self)@ == old(self)@,
    {
        self.arena.deallocate(address, size)
    }

    /// Reads the `width` bytes at `address + offset` as an unsigned number.
    pub fn read_typed(&self, address: u64, offset: u64, width: Width) -> (r: Result<u64, Fault>)
        ensures
            r == read_result(self@.memory, wrapping_sum(address, offset), width),
    {
        self.arena.read_typed(address, offset, width)
    }

    /// Writes the `width` low bytes of `value` at `address + offset`.
    pub fn write_typed(&mut self, address: u64, offset: u64, width: Width, value: u64) -> (r:
        Result<(), Fault>)
        ensures
            r == access_check(old(self)@.memory, wrapping_sum(address, offset), width),
            r is Ok ==> final(self)@ == (Machine {
                memory: stored(old(self)@.memory, wrapping_sum(address, offset), width, value),
                ..old(self)@
            }),
            r is Err ==> final(self)@ == old(self)@,
    {
        self.arena.write_typed(address, offset, width, value)
    }

    /// The number of blocks that were allocated and not yet released.
    pub fn outstanding(&self) -> (n: usize)
        ensures
            n == outstanding(self@.memory),
    {
        self.arena.outstanding()
    }
}

} // verus!
