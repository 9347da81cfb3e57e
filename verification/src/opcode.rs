//! The opcode numbering: one byte per instruction, immediate operands
//! behind it, most significant byte first.

use vstd::prelude::*;

verus! {

/// `halt`: stop the machine.
pub const HALT: u8 = 0;
/// `pu1`: push a one-byte constant.
pub const PU1: u8 = 1;
/// `pu2`: push a two-byte constant.
pub const PU2: u8 = 2;
/// `pu4`: push a four-byte constant.
pub const PU4: u8 = 3;
/// `pu8`: push an eight-byte constant.
pub const PU8: u8 = 4;
/// `pux`: pop a size, push a zero-filled block of that size.
pub const PUX: u8 = 5;
/// `set`: pop a word into a global slot.
pub const SET: u8 = 6;
/// `get`: push the word of a global slot.
pub const GET: u8 = 7;
/// `setx`: pop an offset, write one byte into the block on top.
pub const SETX: u8 = 8;
/// `off`: pop a byte count, move the address on top by it.
pub const OFF: u8 = 9;
/// `cp`: push a copy of the top word.
pub const CP: u8 = 10;
/// `load1`: pop an address, push the byte there.
pub const LOAD1: u8 = 11;
/// `load2`: pop an address, push the two-byte number there.
pub const LOAD2: u8 = 12;
/// `load4`: pop an address, push the four-byte number there.
pub const LOAD4: u8 = 13;
/// `load8`: pop an address, push the eight-byte number there.
pub const LOAD8: u8 = 14;
/// `and`: bitwise and.
pub const AND: u8 = 15;
/// `or`: bitwise or.
pub const OR: u8 = 16;
/// `xor`: bitwise exclusive or.
pub const XOR: u8 = 17;
/// `lshift`: shift left.
pub const LSHIFT: u8 = 18;
/// `rshift`: shift right.
pub const RSHIFT: u8 = 19;
/// `add`: integer sum.
pub const ADD: u8 = 20;
/// `sub`: integer difference.
pub const SUB: u8 = 21;
/// `mul`: integer product.
pub const MUL: u8 = 22;
/// `div`: integer quotient.
pub const DIV: u8 = 23;
/// `addf`: single-precision sum.
pub const ADDF: u8 = 24;
/// `subf`: single-precision difference.
pub const SUBF: u8 = 25;
/// `mulf`: single-precision product.
pub const MULF: u8 = 26;
/// `divf`: single-precision quotient.
pub const DIVF: u8 = 27;
/// `addd`: double-precision sum.
pub const ADDD: u8 = 28;
/// `subd`: double-precision difference.
pub const SUBD: u8 = 29;
/// `muld`: double-precision product.
pub const MULD: u8 = 30;
/// `divd`: double-precision quotient.
pub const DIVD: u8 = 31;
/// `eq`: set the flag if two words are equal.
pub const EQ: u8 = 32;
/// `neq`: set the flag if two words differ.
pub const NEQ: u8 = 33;
/// `gr`: set the flag if the first word popped is greater.
pub const GR: u8 = 34;
/// `sm`: set the flag if the first word popped is smaller.
pub const SM: u8 = 35;
/// `not`: invert the flag.
pub const NOT: u8 = 36;
/// `jmp`: pop a target and go there.
pub const JMP: u8 = 37;
/// `jmpif`: pop a target and go there if the flag is set.
pub const JMPIF: u8 = 38;
/// `jmpifn`: pop a target and go there if the flag is clear.
pub const JMPIFN: u8 = 39;
/// `ret`: return from a call.
pub const RET: u8 = 40;
/// `call`: call the subroutine at the operand.
pub const CALL: u8 = 41;
/// `calldy`: pop a target and call the subroutine there.
pub const CALLDY: u8 = 42;
/// `fun`: call the extern function that the operand names.
pub const FUN: u8 = 43;
/// `fundy`: pop an index and call the extern function it names.
pub const FUNDY: u8 = 44;
/// `set1`: write one operand byte into the block on top.
pub const SET1: u8 = 45;
/// `set2`: write two operand bytes into the block on top.
pub const SET2: u8 = 46;
/// `set4`: write four operand bytes into the block on top.
pub const SET4: u8 = 47;
/// `set8`: write eight operand bytes into the block on top.
pub const SET8: u8 = 48;
/// `pop1`: pop the address of a one-byte block and release it.
pub const POP1: u8 = 49;
/// `pop2`: pop the address of a two-byte block and release it.
pub const POP2: u8 = 50;
/// `pop4`: pop the address of a four-byte block and release it.
pub const POP4: u8 = 51;
/// `pop8`: pop the address of an eight-byte block and release it.
pub const POP8: u8 = 52;
/// `popx`: pop the address of a block and release it with the size in the operand.
pub const POPX: u8 = 53;
/// `pop`: drop the top word.
pub const POP: u8 = 54;

/// The number of opcodes; every tag below it is one.
pub const COUNT: u8 = 55;

} // verus!
