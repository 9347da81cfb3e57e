//! Words and their readings: big-endian byte strings and wrapping arithmetic.

use vstd::prelude::*;
use vstd::arithmetic::div_mod::lemma_fundamental_div_mod;
use vstd::arithmetic::div_mod::lemma_fundamental_div_mod_converse;
use vstd::arithmetic::div_mod::lemma_mod_add_multiples_vanish;
use vstd::arithmetic::div_mod::lemma_mod_breakdown;
use vstd::arithmetic::div_mod::lemma_small_mod;

verus! {

/// The number of values a word can take.
pub open spec fn word_range() -> int {
    0x1_0000_0000_0000_0000
}

/// The number of values that `width` bytes can take.
pub open spec fn byte_range(width: nat) -> nat
    decreases width,
{
    if width == 0 {
        1
    } else {
        256 * byte_range((width - 1) as nat)
    }
}

/// The unsigned number that a byte string spells, most significant byte first.
pub open spec fn be_value(bytes: Seq<u8>) -> nat
    decreases bytes.len(),
{
    if bytes.len() == 0 {
        0
    } else {
        be_value(bytes.drop_last()) * 256 + bytes.last() as nat
    }
}

/// The `width` low bytes of `value`, most significant byte first.
pub open spec fn be_bytes(value: nat, width: nat) -> Seq<u8>
    decreases width,
{
    if width == 0 {
        Seq::empty()
    } else {
        be_bytes(value / 256, (width - 1) as nat).push((value % 256) as u8)
    }
}

/// The widths of a typed access to memory.
#[derive(Clone, Copy, Debug, PartialEq, Eq, Structural)]
pub enum Width {
    One,
    Two,
    Four,
    Eight,
}

impl Width {
    /// The number of bytes of an access of this width.
    pub open spec fn size(self) -> nat {
        match self {
            Width::One => 1,
            Width::Two => 2,
            Width::Four => 4,
            Width::Eight => 8,
        }
    }

    /// The number of bytes of an access of this width.
    pub fn bytes(self) -> (n: usize)
        ensures
            n == self.size(),
    {
        match self {
            Width::One => 1,
            Width::Two => 2,
            Width::Four => 4,
            Width::Eight => 8,
        }
    }
}

/// The ranges of the widths up to a word.
pub proof fn lemma_byte_range_values()
    ensures
        byte_range(0) == 1,
        byte_range(1) == 0x100,
        byte_range(2) == 0x1_0000,
        byte_range(3) == 0x100_0000,
        byte_range(4) == 0x1_0000_0000,
        byte_range(5) == 0x100_0000_0000,
        byte_range(6) == 0x1_0000_0000_0000,
        byte_range(7) == 0x100_0000_0000_0000,
        byte_range(8) == 0x1_0000_0000_0000_0000,
{
    reveal_with_fuel(byte_range, 10);
}

/// A byte string of `n` bytes spells a number below `byte_range(n)`.
pub proof fn lemma_be_value_bound(bytes: Seq<u8>)
    ensures
        be_value(bytes) < byte_range(bytes.len()),
    decreases bytes.len(),
{
    if bytes.len() > 0 {
        lemma_be_value_bound(bytes.drop_last());
    }
}

/// `be_bytes` gives as many bytes as asked for.
pub proof fn lemma_be_bytes_len(value: nat, width: nat)
    ensures
        be_bytes(value, width).len() == width,
    decreases width,
{
    if width > 0 {
        lemma_be_bytes_len(value / 256, (width - 1) as nat);
    }
}

/// Reading back what was written gives the value, cut to the width written.
pub proof fn lemma_be_value_of_be_bytes(value: nat, width: nat)
    ensures
        be_value(be_bytes(value, width)) == value % byte_range(width),
    decreases width,
{
    if width == 0 {
    } else {
        let rest = be_bytes(value / 256, (width - 1) as nat);
        let all = be_bytes(value, width);
        lemma_be_value_of_be_bytes(value / 256, (width - 1) as nat);
        assert(all.drop_last() =~= rest);
        assert(all.last() == (value % 256) as u8);
        let m = byte_range((width - 1) as nat);
        lemma_byte_range_positive((width - 1) as nat);
        lemma_mod_breakdown(value as int, 256, m as int);
        assert(be_value(all) == ((value / 256) % m) * 256 + value % 256);
    }
}

/// Writing what was read gives the bytes back.
pub proof fn lemma_be_bytes_of_be_value(bytes: Seq<u8>)
    ensures
        be_bytes(be_value(bytes), bytes.len()) == bytes,
    decreases bytes.len(),
{
    if bytes.len() == 0 {
        assert(be_bytes(be_value(bytes), bytes.len()) =~= bytes);
    } else {
        let v = be_value(bytes);
        let head = be_value(bytes.drop_last());
        let last = bytes.last() as nat;
        lemma_be_bytes_of_be_value(bytes.drop_last());
        lemma_fundamental_div_mod(v as int, 256);
        assert(v / 256 == head && v % 256 == last) by {
            lemma_div_mod_unique(v as int, 256, head as int, last as int);
        }
        assert(be_bytes(v, bytes.len()) =~= bytes);
    }
}

/// No range is empty.
pub proof fn lemma_byte_range_positive(width: nat)
    ensures
        byte_range(width) > 0,
    decreases width,
{
    if width > 0 {
        lemma_byte_range_positive((width - 1) as nat);
    }
}

/// Quotient and remainder are the only pair that fits.
proof fn lemma_div_mod_unique(x: int, d: int, q: int, r: int)
    requires
        d > 0,
        0 <= r < d,
        x == q * d + r,
    ensures
        x / d == q,
        x % d == r,
{
    lemma_fundamental_div_mod_converse(x, d, q, r);
}

/// `a + b` on words: the sum cut to 64 bits.
pub open spec fn wrapping_sum(a: u64, b: u64) -> u64 {
    ((a + b) % word_range()) as u64
}

/// `a - b` on words: the difference cut to 64 bits.
pub open spec fn wrapping_difference(a: u64, b: u64) -> u64 {
    ((a - b) % word_range()) as u64
}

/// `a * b` on words: the product cut to 64 bits.
pub open spec fn wrapping_product(a: u64, b: u64) -> u64 {
    ((a * b) % word_range()) as u64
}

/// `value << amount` on words; only the low six bits of the amount count.
pub open spec fn shift_left(value: u64, amount: u64) -> u64 {
    value << (amount % 64)
}

/// `value >> amount` on words; only the low six bits of the amount count.
pub open spec fn shift_right(value: u64, amount: u64) -> u64 {
    value >> (amount % 64)
}

/// Adding nothing leaves a word as it is.
pub proof fn lemma_wrapping_sum_zero(a: u64)
    ensures
        wrapping_sum(a, 0) == a,
{
    lemma_small_mod(a as nat, word_range() as nat);
}

/// The sum of two words, cut to 64 bits.
pub fn word_add(a: u64, b: u64) -> (r: u64)
    ensures
        r == wrapping_sum(a, b),
{
    proof {
        if a + b > u64::MAX {
            lemma_small_mod((a + b - word_range()) as nat, word_range() as nat);
            lemma_mod_add_multiples_vanish(a + b - word_range(), word_range());
        } else {
            lemma_small_mod((a + b) as nat, word_range() as nat);
        }
    }
    a.wrapping_add(b)
}

/// The difference of two words, cut to 64 bits.
pub fn word_sub(a: u64, b: u64) -> (r: u64)
    ensures
        r == wrapping_difference(a, b),
{
    proof {
        if a - b < 0 {
            lemma_small_mod((a - b + word_range()) as nat, word_range() as nat);
            lemma_mod_add_multiples_vanish(a - b, word_range());
        } else {
            lemma_small_mod((a - b) as nat, word_range() as nat);
        }
    }
    a.wrapping_sub(b)
}

/// The product of two words, cut to 64 bits.
pub fn word_mul(a: u64, b: u64) -> (r: u64)
    ensures
        r == wrapping_product(a, b),
{
    proof {
        assert(a as nat * b as nat == a * b) by (nonlinear_arith);
    }
    a.wrapping_mul(b)
}

/// A word shifted left by the low six bits of `amount`.
pub fn word_shl(value: u64, amount: u64) -> (r: u64)
    ensures
        r == shift_left(value, amount),
{
    value << (amount % 64)
}

/// A word shifted right by the low six bits of `amount`.
pub fn word_shr(value: u64, amount: u64) -> (r: u64)
    ensures
        r == shift_right(value, amount),
{
    value >> (amount % 64)
}

/// Reads the `width` bytes of `bytes` that start at `start`, most significant first.
pub fn read_be(bytes: &[u8], start: usize, width: usize) -> (r: u64)
    requires
        width <= 8,
        start + width <= bytes.len(),
    ensures
        r == be_value(bytes@.subrange(start as int, start + width)),
{
    let mut acc: u64 = 0;
    let mut i: usize = 0;
    while i < width
        invariant
            i <= width <= 8,
            start + width <= bytes.len(),
            acc == be_value(bytes@.subrange(start as int, start + i)),
            acc < byte_range(i as nat),
        decreases width - i,
    {
        let b: u8 = bytes[start + i];
        proof {
            let next = bytes@.subrange(start as int, start + i + 1);
            assert(next.drop_last() =~= bytes@.subrange(start as int, start + i));
            assert(next.last() == b);
            lemma_byte_range_values();
            lemma_byte_range_monotone(i as nat, 7);
            lemma_be_value_bound(next);
        }
        acc = acc * 256 + b as u64;
        i = i + 1;
    }
    acc
}

/// More bytes take more values.
pub proof fn lemma_byte_range_monotone(a: nat, b: nat)
    requires
        a <= b,
    ensures
        byte_range(a) <= byte_range(b),
    decreases b,
{
    if a < b {
        lemma_byte_range_monotone(a, (b - 1) as nat);
    }
}

} // verus!
