//! How the library sees the memory of the patched process.
//!
//! The library never touches process memory itself. Whoever drives a patch hands
//! it a value of a type that implements `Memory`: its state is, for each
//! address, the byte stored there, and for each write, what that write would
//! answer. `MemoryImage` is such a type, a block of bytes at a base address.

use vstd::prelude::*;

verus! {

/// The text of an answer: `Ok`, or the error's text.
pub open spec fn answer_text(r: Result<(), String>) -> Result<(), Seq<char>> {
    match r {
        Ok(()) => Ok(()),
        Err(e) => Err(e@),
    }
}

/// Memory `after` is what storing `bytes` at `address` over memory `before` may
/// leave, given the write's answer `r`: the bytes are stored if it succeeded; if
/// it failed, they are stored whole or not at all.
pub open spec fn stored(
    before: spec_fn(int) -> u8,
    after: spec_fn(int) -> u8,
    address: usize,
    bytes: Seq<u8>,
    r: Result<(), String>,
) -> bool {
    &&& r is Ok ==> after == mem_write(before, address as int, bytes)
    &&& r is Err ==> after == before || after == mem_write(before, address as int, bytes)
}

/// The memory of a process, as byte patches see it.
pub trait Memory {
    /// The byte stored at each address. A memory type states it; left out,
    /// nothing is known of it.
    open spec fn contents(&self) -> spec_fn(int) -> u8 {
        arbitrary()
    }

    /// What writing `bytes` at `address` answers in this state. A memory type
    /// states it; left out, nothing is known of it.
    open spec fn write_outcome(&self, address: usize, bytes: Seq<u8>) -> Result<(), Seq<char>> {
        arbitrary()
    }

    /// The `len` bytes stored from `address` on.
    fn read(&self, address: usize, len: usize) -> (r: Vec<u8>)
        ensures
            r@ == mem_read(self.contents(), address as int, len as nat),
    ;

    /// Stores `bytes` at `address`, or says why not.
    fn write(&mut self, address: usize, bytes: Vec<u8>) -> (r: Result<(), String>)
        ensures
            answer_text(r) == old(self).write_outcome(address, bytes@),
            stored(old(self).contents(), final(self).contents(), address, bytes@, r),
    ;
}

/// A block of bytes at a base address; every other address holds zero, and only
/// the block can be written.
pub struct MemoryImage {
    base: usize,
    bytes: Vec<u8>,
}

impl View for MemoryImage {
    type V = (usize, Seq<u8>);

    closed spec fn view(&self) -> (usize, Seq<u8>) {
        (self.base, self.bytes@)
    }
}

/// Whether the `len` bytes from `address` on lie in the block of `len_block`
/// bytes at `base`.
pub open spec fn within(base: usize, len_block: nat, address: usize, len: nat) -> bool {
    base <= address && address + len <= base + len_block
}

impl MemoryImage {
    /// The block `bytes` at `base`.
    pub fn new(base: usize, bytes: Vec<u8>) -> (r: Self)
        requires
            base + bytes@.len() <= usize::MAX,
        ensures
            r@ == (base, bytes@),
    {
        MemoryImage { base, bytes }
    }

    /// The bytes of the block.
    pub fn bytes(&self) -> (r: &Vec<u8>)
        ensures
            r@ == self@.1,
    {
        &self.bytes
    }

    /// The address of the block.
    pub fn base(&self) -> (r: usize)
        ensures
            r == self@.0,
    {
        self.base
    }
}

impl Memory for MemoryImage {
    open spec fn contents(&self) -> spec_fn(int) -> u8 {
        |x: int|
            if self@.0 <= x < self@.0 + self@.1.len() {
                self@.1[x - self@.0]
            } else {
                0u8
            }
    }

    open spec fn write_outcome(&self, address: usize, bytes: Seq<u8>) -> Result<(), Seq<char>> {
        if within(self@.0, self@.1.len(), address, bytes.len()) {
            Ok(())
        } else {
            Err("address out of range"@)
        }
    }

    fn read(&self, address: usize, len: usize) -> (r: Vec<u8>) {
        let n = self.bytes.len();
        let mut r: Vec<u8> = Vec::new();
        let mut i: usize = 0;
        while i < len
            invariant
                i <= len,
                n == self.bytes@.len(),
                r@ =~= mem_read(self.contents(), address as int, i as nat),
            decreases len - i,
        {
            let b = if address >= self.base {
                let off = address - self.base;
                if off < n && i < n - off {
                    self.bytes[off + i]
                } else {
                    0u8
                }
            } else {
                let gap = self.base - address;
                if i >= gap && i - gap < n {
                    self.bytes[i - gap]
                } else {
                    0u8
                }
            };
            assert(b == self.contents()(address + i));
            r.push(b);
            i += 1;
        }
        r
    }

    fn write(&mut self, address: usize, bytes: Vec<u8>) -> (r: Result<(), String>) {
        let n = self.bytes.len();
        if !(address >= self.base && address - self.base <= n && bytes.len() <= n - (address
            - self.base)) {
            return Err(String::from_str("address out of range"));
        }
        let off = address - self.base;
        let ghost before = self.contents();
        let mut i: usize = 0;
        while i < bytes.len()
            invariant
                i <= bytes@.len(),
                off + bytes@.len() <= n,
                n == self.bytes@.len(),
                off == address - self.base,
                self.base == old(self).base,
                forall|j: int| 0 <= j < n ==> #[trigger] self.bytes@[j] == (if off <= j < off + i {
                    bytes@[j - off]
                } else {
                    old(self).bytes@[j]
                }),
            decreases bytes@.len() - i,
        {
            self.bytes.set(off + i, bytes[i]);
            i += 1;
        }
        assert(self.contents() =~= mem_write(before, address as int, bytes@));
        Ok(())
    }
}

/// The `len` bytes of memory `m` from `address` on.
pub open spec fn mem_read(m: spec_fn(int) -> u8, address: int, len: nat) -> Seq<u8> {
    Seq::new(len, |i: int| m(address + i))
}

/// Memory `m` after `bytes` were stored from `address` on.
pub open spec fn mem_write(m: spec_fn(int) -> u8, address: int, bytes: Seq<u8>) -> spec_fn(int) -> u8 {
    |x: int| if address <= x < address + bytes.len() { bytes[x - address] } else { m(x) }
}

/// Writing back what was read restores memory, whatever was written in between
/// over the same range.
pub proof fn lemma_write_back_restores(m: spec_fn(int) -> u8, address: int, bytes: Seq<u8>)
    ensures
        mem_write(mem_write(m, address, bytes), address, mem_read(m, address, bytes.len())) == m,
{
    let m1 = mem_write(m, address, bytes);
    let m2 = mem_write(m1, address, mem_read(m, address, bytes.len()));
    assert(m2 =~= m);
}

/// Unsigned little-endian value of `bytes`.
pub open spec fn le_value(bytes: Seq<u8>) -> nat
    decreases bytes.len(),
{
    if bytes.len() == 0 {
        0
    } else {
        bytes[0] as nat + 256 * le_value(bytes.drop_first())
    }
}

/// `bytes` are the four little-endian bytes of the 32-bit two's-complement form of `v`.
pub open spec fn is_le_i32(bytes: Seq<u8>, v: i32) -> bool {
    &&& bytes.len() == 4
    &&& le_value(bytes) == (if v < 0 { v + 0x1_0000_0000 } else { v as int })
}

/// The signed value of the four little-endian bytes `bytes`.
pub open spec fn le_i32_value(bytes: Seq<u8>) -> int {
    if le_value(bytes) >= 0x8000_0000 {
        le_value(bytes) - 0x1_0000_0000
    } else {
        le_value(bytes) as int
    }
}

/// Spells out the little-endian value of four bytes.
pub proof fn lemma_le_value4(b: Seq<u8>)
    requires
        b.len() == 4,
    ensures
        le_value(b) == b[0] + 256 * b[1] + 65536 * b[2] + 16777216 * b[3],
{
    let b1 = b.drop_first();
    let b2 = b1.drop_first();
    let b3 = b2.drop_first();
    let b4 = b3.drop_first();
    assert(b4.len() == 0);
    assert(le_value(b4) == 0);
    assert(le_value(b3) == b[3] as nat);
    assert(le_value(b2) == b[2] + 256 * b[3]);
    assert(le_value(b1) == b[1] + 256 * (b[2] + 256 * b[3]));
}

/// Spells out the little-endian value of eight bytes.
pub proof fn lemma_le_value8(b: Seq<u8>)
    requires
        b.len() == 8,
    ensures
        le_value(b) == b[0] + 0x100 * b[1] + 0x1_0000 * b[2] + 0x100_0000 * b[3]
            + 0x1_0000_0000 * b[4] + 0x100_0000_0000 * b[5] + 0x1_0000_0000_0000 * b[6]
            + 0x100_0000_0000_0000 * b[7],
{
    let b1 = b.drop_first();
    let b2 = b1.drop_first();
    let b3 = b2.drop_first();
    let b4 = b3.drop_first();
    let b5 = b4.drop_first();
    let b6 = b5.drop_first();
    let b7 = b6.drop_first();
    let b8 = b7.drop_first();
    assert(le_value(b8) == 0);
    assert(le_value(b7) == b[7] as nat);
    assert(le_value(b6) == b[6] + 256 * b[7]);
    assert(le_value(b5) == b[5] + 256 * (b[6] + 256 * b[7]));
    assert(le_value(b4) == b[4] + 256 * (b[5] + 256 * (b[6] + 256 * b[7])));
    assert(le_value(b3) == b[3] + 256 * (b[4] + 256 * (b[5] + 256 * (b[6] + 256 * b[7]))));
    assert(le_value(b2) == b[2] + 256 * (b[3] + 256 * (b[4] + 256 * (b[5] + 256 * (b[6] + 256
        * b[7])))));
    assert(le_value(b1) == b[1] + 256 * (b[2] + 256 * (b[3] + 256 * (b[4] + 256 * (b[5] + 256 * (
    b[6] + 256 * b[7]))))));
}

/// `bytes` are the eight little-endian bytes of `v`.
pub open spec fn is_le_u64(bytes: Seq<u8>, v: u64) -> bool {
    &&& bytes.len() == 8
    &&& le_value(bytes) == v
}

} // verus!
