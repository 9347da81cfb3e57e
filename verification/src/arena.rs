//! The memory arena: explicitly allocated and released byte blocks.
//!
//! An address is a slot handle, not a machine pointer: the high half of the
//! word names the slot of a block, the low half a byte inside it. Every access
//! is held against the block it names, so a stray address is a fault and
//! never a read or write of foreign memory. Multi-byte values lie in a block
//! most significant byte first.

use vstd::prelude::*;
use crate::fault::Fault;
use crate::word::Width;
use crate::word::be_bytes;
use crate::word::be_value;
use crate::word::byte_range;
use crate::word::lemma_be_bytes_len;
use crate::word::lemma_be_value_of_be_bytes;
use crate::word::lemma_byte_range_values;
use crate::word::read_be;
use crate::word::word_add;
use crate::word::wrapping_sum;

verus! {

/// The number of addresses that belong to one slot.
pub const SLOT_SPAN: u64 = 0x1_0000_0000;

/// The largest block the arena hands out, in bytes.
pub const MAX_BLOCK_SIZE: u64 = 0xffff_ffff;

/// What the arena holds: for each slot ever handed out, the bytes of its
/// block while the block is live, and `None` once it was released.
pub type Memory = Seq<Option<Seq<u8>>>;

/// The slot that an address names.
pub open spec fn slot_of(address: u64) -> int {
    address as int / SLOT_SPAN as int
}

/// The byte inside its slot that an address names.
pub open spec fn offset_of(address: u64) -> int {
    address as int % SLOT_SPAN as int
}

/// The address of the first byte of the block in `slot`.
pub open spec fn base_address(slot: int) -> int {
    slot * SLOT_SPAN as int
}

/// `len` bytes from `address` on lie inside one live block.
pub open spec fn in_block(m: Memory, address: u64, len: nat) -> bool {
    &&& slot_of(address) < m.len()
    &&& m[slot_of(address)] is Some
    &&& offset_of(address) + len <= m[slot_of(address)]->0.len()
}

/// `address` is the first byte of a live block.
pub open spec fn is_block(m: Memory, address: u64) -> bool {
    in_block(m, address, 0) && offset_of(address) == 0
}

/// Whether the arena, holding `m`, hands out a block of `size` bytes.
pub open spec fn can_allocate(m: Memory, size: u64) -> bool {
    size <= MAX_BLOCK_SIZE && m.len() < SLOT_SPAN
}

/// `size` zero bytes.
pub open spec fn zeros(size: nat) -> Seq<u8> {
    Seq::new(size, |i: int| 0u8)
}

/// The memory after a block of `size` bytes was handed out.
pub open spec fn allocated(m: Memory, size: u64) -> Memory {
    m.push(Some(zeros(size as nat)))
}

/// The memory after the block at `address` was released.
pub open spec fn released(m: Memory, address: u64) -> Memory {
    m.update(slot_of(address), None)
}

/// The word that the `width` bytes at `address` spell.
pub open spec fn loaded(m: Memory, address: u64, width: Width) -> u64 {
    let block = m[slot_of(address)]->0;
    be_value(block.subrange(offset_of(address), offset_of(address) + width.size())) as u64
}

/// The block `block` with the `width` low bytes of `value` written at `at`.
pub open spec fn patched(block: Seq<u8>, at: int, width: Width, value: u64) -> Seq<u8> {
    block.subrange(0, at) + be_bytes(value as nat, width.size()) + block.subrange(
        at + width.size(),
        block.len() as int,
    )
}

/// The memory after the `width` low bytes of `value` were written at `address`.
pub open spec fn stored(m: Memory, address: u64, width: Width, value: u64) -> Memory {
    let slot = slot_of(address);
    m.update(slot, Some(patched(m[slot]->0, offset_of(address), width, value)))
}

/// The number of live blocks.
pub open spec fn outstanding(m: Memory) -> nat
    decreases m.len(),
{
    if m.len() == 0 {
        0
    } else {
        outstanding(m.drop_last()) + if m.last() is Some {
            1nat
        } else {
            0nat
        }
    }
}

/// The arena of one machine.
pub struct Arena {
    blocks: Vec<Option<Vec<u8>>>,
}

impl View for Arena {
    type V = Memory;

    closed spec fn view(&self) -> Memory {
        Seq::new(
            self.blocks@.len(),
            |i: int|
                match self.blocks@[i] {
                    Some(b) => Some(b@),
                    None => None,
                },
        )
    }
}

impl Arena {
    /// An arena that has handed out nothing.
    pub fn new() -> (arena: Arena)
        ensures
            arena@ == Seq::<Option<Seq<u8>>>::empty(),
    {
        let arena = Arena { blocks: Vec::new() };
        assert(arena@ =~= Seq::<Option<Seq<u8>>>::empty());
        arena
    }

    /// Hands out a zero-filled block of `size` bytes and returns its address.
    ///
    /// The block takes the next slot; slots are never used twice, so an
    /// address kept after its block was released stays invalid.
    pub fn allocate(&mut self, size: u64) -> (r: Result<u64, Fault>)
        ensures
            can_allocate(old(self)@, size) ==> r == Ok::<u64, Fault>(
                base_address(old(self)@.len() as int) as u64,
            ) && final(self)@ == allocated(old(self)@, size),
            !can_allocate(old(self)@, size) ==> r == Err::<u64, Fault>(
                Fault::AllocationRefused { size },
            ) && final(self)@ == old(self)@,
    {
        let slots = self.blocks.len();
        if size > MAX_BLOCK_SIZE || slots as u64 >= SLOT_SPAN || size > usize::MAX as u64 {
            return Err(Fault::AllocationRefused { size });
        }
        let mut block: Vec<u8> = Vec::new();
        let mut i: u64 = 0;
        while i < size
            invariant
                i <= size,
                block@ =~= zeros(i as nat),
            decreases size - i,
        {
            block.push(0u8);
            i = i + 1;
        }
        self.blocks.push(Some(block));
        assert(self@ =~= allocated(old(self)@, size));
        assert(slots as u64 * SLOT_SPAN <= u64::MAX) by (nonlinear_arith)
            requires
                (slots as u64) < SLOT_SPAN,
                SLOT_SPAN == 0x1_0000_0000,
        ;
        Ok(slots as u64 * SLOT_SPAN)
    }

    /// Releases the block at `address`, which was allocated with `size` bytes.
    pub fn deallocate(&mut self, address: u64, size: u64) -> (r: Result<(), Fault>)
        ensures
            r == release_check(old(self)@, address, size),
            r is Ok ==> final(self)@ == released(old(self)@, address),
            r is Err ==> final(self)@ == old(self)@,
    {
        let slot = address / SLOT_SPAN;
        if address % SLOT_SPAN != 0 || slot >= self.blocks.len() as u64 {
            return Err(Fault::InvalidAddress { address });
        }
        let at = slot as usize;
        let held: u64 = match &self.blocks[at] {
            Some(b) => b.len() as u64,
            None => {
                return Err(Fault::InvalidAddress { address });
            },
        };
        if held != size {
            return Err(Fault::AllocationSizeMismatch);
        }
        self.blocks[at] = None;
        assert(self@ =~= released(old(self)@, address));
        Ok(())
    }

    /// Whether `len` bytes from `address` on lie inside one live block.
    pub fn contains(&self, address: u64, len: u64) -> (b: bool)
        ensures
            b == in_block(self@, address, len as nat),
    {
        let slot = address / SLOT_SPAN;
        if slot >= self.blocks.len() as u64 {
            return false;
        }
        match &self.blocks[slot as usize] {
            Some(b) => (address % SLOT_SPAN) as u128 + len as u128 <= b.len() as u128,
            None => false,
        }
    }

    /// Reads the `width` bytes at `address + offset` as an unsigned number.
    ///
    /// The offset is a byte count in two's complement; the sum wraps.
    pub fn read_typed(&self, address: u64, offset: u64, width: Width) -> (r: Result<u64, Fault>)
        ensures
            r == read_result(self@, wrapping_sum(address, offset), width),
    {
        let target = word_add(address, offset);
        let n = width.bytes();
        if !self.contains(target, n as u64) {
            return Err(Fault::InvalidAddress { address: target });
        }
        let slot = (target / SLOT_SPAN) as usize;
        let at = (target % SLOT_SPAN) as usize;
        match &self.blocks[slot] {
            Some(b) => {
                let v = read_be(b.as_slice(), at, n);
                Ok(v)
            },
            None => Err(Fault::InvalidAddress { address: target }),
        }
    }

    /// Writes the `width` low bytes of `value` at `address + offset`.
    ///
    /// The offset is a byte count in two's complement; the sum wraps.
    pub fn write_typed(&mut self, address: u64, offset: u64, width: Width, value: u64) -> (r:
        Result<(), Fault>)
        ensures
            r == access_check(old(self)@, wrapping_sum(address, offset), width),
            r is Ok ==> final(self)@ == stored(
                old(self)@,
                wrapping_sum(address, offset),
                width,
                value,
            ),
            r is Err ==> final(self)@ == old(self)@,
    {
        let target = word_add(address, offset);
        let n = width.bytes();
        if !self.contains(target, n as u64) {
            return Err(Fault::InvalidAddress { address: target });
        }
        let slot = (target / SLOT_SPAN) as usize;
        let at = (target % SLOT_SPAN) as usize;
        let ghost before = self@;
        match &mut self.blocks[slot] {
            Some(b) => {
                let ghost block = b@;
                assert(at + n <= b.len());
                let mut k: usize = n;
                let mut v: u64 = value;
                while k > 0
                    invariant
                        k <= n,
                        n == width.size(),
                        at + n <= block.len(),
                        at + n <= usize::MAX,
                        b@.len() == block.len(),
                        b@.subrange(0, at as int) == block.subrange(0, at as int),
                        b@.subrange(at + n, block.len() as int) == block.subrange(
                            at + n,
                            block.len() as int,
                        ),
                        be_bytes(value as nat, n as nat) == be_bytes(v as nat, k as nat) + b@.subrange(
                            at + k,
                            at + n,
                        ),
                    decreases k,
                {
                    let ghost prev = b@;
                    k = k - 1;
                    b[at + k] = (v % 256) as u8;
                    proof {
                        assert(b@.subrange(0, at as int) =~= prev.subrange(0, at as int));
                        assert(b@.subrange(at + n, block.len() as int) =~= prev.subrange(
                            at + n,
                            block.len() as int,
                        ));
                        lemma_be_bytes_len((v / 256) as nat, k as nat);
                        assert(be_bytes(v as nat, (k + 1) as nat) + prev.subrange(
                            at + k + 1,
                            at + n,
                        ) =~= be_bytes((v / 256) as nat, k as nat) + b@.subrange(at + k, at + n));
                    }
                    v = v / 256;
                }
                proof {
                    assert(be_bytes(v as nat, 0) =~= Seq::<u8>::empty());
                    lemma_be_bytes_len(value as nat, n as nat);
                    assert(b@ =~= patched(block, at as int, width, value)) by {
                        assert(b@ =~= b@.subrange(0, at as int) + b@.subrange(at as int, at + n)
                            + b@.subrange(at + n, block.len() as int));
                    }
                }
            },
            None => {},
        }
        assert(self@ =~= stored(before, target, width, value));
        Ok(())
    }

    /// The number of live blocks.
    pub fn outstanding(&self) -> (n: usize)
        ensures
            n == outstanding(self@),
    {
        let mut n: usize = 0;
        let mut i: usize = 0;
        while i < self.blocks.len()
            invariant
                i <= self.blocks.len(),
                n <= i,
                n == outstanding(self@.take(i as int)),
            decreases self.blocks.len() - i,
        {
            assert(self@.take(i + 1).drop_last() =~= self@.take(i as int));
            if self.blocks[i].is_some() {
                n = n + 1;
            }
            i = i + 1;
        }
        assert(self@.take(i as int) =~= self@);
        n
    }
}

/// A block just handed out lies at the address returned, whole and live.
pub proof fn lemma_fresh_block(m: Memory, size: u64)
    requires
        can_allocate(m, size),
    ensures
        base_address(m.len() as int) <= u64::MAX,
        slot_of(base_address(m.len() as int) as u64) == m.len(),
        offset_of(base_address(m.len() as int) as u64) == 0,
        is_block(allocated(m, size), base_address(m.len() as int) as u64),
        in_block(allocated(m, size), base_address(m.len() as int) as u64, size as nat),
        allocated(m, size)[m.len() as int] == Some(zeros(size as nat)),
{
    let k = m.len() as int;
    assert(k * 0x1_0000_0000 <= u64::MAX);
    assert((k * 0x1_0000_0000) / 0x1_0000_0000 == k);
    assert((k * 0x1_0000_0000) % 0x1_0000_0000 == 0);
}

/// A new block leaves the others as they are.
pub proof fn lemma_allocate_keeps_blocks(m: Memory, size: u64, other: u64, len: nat)
    requires
        in_block(m, other, len),
    ensures
        in_block(allocated(m, size), other, len),
        allocated(m, size)[slot_of(other)] == m[slot_of(other)],
{
}

/// A block ends with its release: nothing in its slot can be accessed any
/// more, and every other block stays as it is.
pub proof fn lemma_release_ends_block(m: Memory, address: u64, other: u64, len: nat)
    requires
        is_block(m, address),
    ensures
        in_block(released(m, address), other, len) <==> in_block(m, other, len) && slot_of(other)
            != slot_of(address),
        slot_of(other) != slot_of(address) && 0 <= slot_of(other) < m.len() ==> released(
            m,
            address,
        )[slot_of(other)] == m[slot_of(other)],
{
}

/// A write changes no block's size: what could be accessed before can be
/// accessed after, and nothing else.
pub proof fn lemma_store_keeps_blocks(m: Memory, address: u64, width: Width, value: u64)
    requires
        in_block(m, address, width.size()),
    ensures
        stored(m, address, width, value).len() == m.len(),
        forall|slot: int|
            0 <= slot < m.len() ==> (#[trigger] stored(m, address, width, value)[slot] is Some
                <==> m[slot] is Some),
        forall|slot: int|
            0 <= slot < m.len() && m[slot] is Some ==> (#[trigger] stored(
                m,
                address,
                width,
                value,
            )[slot])->0.len() == m[slot]->0.len(),
        forall|other: u64, len: nat|
            in_block(m, other, len) <==> #[trigger] in_block(
                stored(m, address, width, value),
                other,
                len,
            ),
        outstanding(stored(m, address, width, value)) == outstanding(m),
{
    lemma_be_bytes_len(value as nat, width.size());
    lemma_outstanding_update(m, slot_of(address), stored(m, address, width, value)[slot_of(address)]);
}

/// Replacing a live block by a live block leaves the number of live blocks.
proof fn lemma_outstanding_update(m: Memory, slot: int, block: Option<Seq<u8>>)
    requires
        0 <= slot < m.len(),
        m[slot] is Some <==> block is Some,
    ensures
        outstanding(m.update(slot, block)) == outstanding(m),
    decreases m.len(),
{
    let n = m.update(slot, block);
    if slot == m.len() - 1 {
        assert(n.drop_last() =~= m.drop_last());
    } else {
        assert(n.drop_last() =~= m.drop_last().update(slot, block));
        lemma_outstanding_update(m.drop_last(), slot, block);
    }
}

/// A read of what was just written gives the value written, cut to the
/// width of the access.
pub proof fn lemma_load_after_store(m: Memory, address: u64, width: Width, value: u64)
    requires
        in_block(m, address, width.size()),
    ensures
        in_block(stored(m, address, width, value), address, width.size()),
        loaded(stored(m, address, width, value), address, width) == (value as nat) % byte_range(
            width.size(),
        ),
{
    let n = width.size();
    let at = offset_of(address);
    let block = m[slot_of(address)]->0;
    let after = patched(block, at, width, value);
    lemma_be_bytes_len(value as nat, n);
    lemma_be_value_of_be_bytes(value as nat, n);
    assert(after.subrange(at, at + n) =~= be_bytes(value as nat, n));
    lemma_byte_range_values();
}

/// Whether the `width` bytes at `address` can be accessed.
pub open spec fn access_check(m: Memory, address: u64, width: Width) -> Result<(), Fault> {
    if in_block(m, address, width.size()) {
        Ok(())
    } else {
        Err(Fault::InvalidAddress { address })
    }
}

/// What a read of the `width` bytes at `address` gives.
pub open spec fn read_result(m: Memory, address: u64, width: Width) -> Result<u64, Fault> {
    if in_block(m, address, width.size()) {
        Ok(loaded(m, address, width))
    } else {
        Err(Fault::InvalidAddress { address })
    }
}

/// Whether the block at `address` can be released as one of `size` bytes.
pub open spec fn release_check(m: Memory, address: u64, size: u64) -> Result<(), Fault> {
    if !is_block(m, address) {
        Err(Fault::InvalidAddress { address })
    } else if m[slot_of(address)]->0.len() != size {
        Err(Fault::AllocationSizeMismatch)
    } else {
        Ok(())
    }
}

} // verus!
