//! Byte-level helpers: relative jumps, jump patches, displacements of decoded
//! instructions and the game-version check.

use vstd::prelude::*;
use vstd::string::{StrSliceExecFns, StringExecFns};
use crate::framework::fmt::{append_digits, digits};
use crate::framework::memory::{is_le_i32, is_le_u64, le_i32_value, lemma_le_value4, lemma_le_value8};

verus! {

/// A decoded machine instruction: where it is, its bytes and its text.
pub struct Inst {
    pub address: usize,
    pub bytes: Vec<u8>,
    pub mnemonic: String,
    pub op_str: String,
}

/// The value of `x` read as a two's-complement number of the pointer's width.
pub open spec fn as_isize(x: usize) -> int {
    if x <= isize::MAX {
        x as int
    } else {
        x - usize::MAX - 1
    }
}

/// The `i32` that is congruent to `x` modulo 2^32.
pub open spec fn wrap_i32(x: int) -> int {
    let m = x % 0x1_0000_0000;
    if m >= 0x8000_0000 {
        m - 0x1_0000_0000
    } else {
        m
    }
}

/// The signed value of the byte `b`.
pub open spec fn i8_value(b: u8) -> int {
    if b >= 0x80 {
        b - 0x100
    } else {
        b as int
    }
}

/// The displacement that an instruction of bytes `b` encodes relative to its end,
/// for the forms the patches need: `call`/`jmp rel32`, `jmp rel8`, `jcc rel32`,
/// `mov r64` to or from `[rip + disp32]` and `movss` to or from `[rip + disp32]`.
pub open spec fn displacement_of(b: Seq<u8>) -> Option<int> {
    if b.len() == 5 && (b[0] == 0xE8 || b[0] == 0xE9) {
        Some(le_i32_value(b.subrange(1, 5)))
    } else if b.len() == 2 && b[0] == 0xEB {
        Some(i8_value(b[1]))
    } else if b.len() == 6 && b[0] == 0x0F && 0x80 <= b[1] <= 0x8F {
        Some(le_i32_value(b.subrange(2, 6)))
    } else if b.len() == 7 && b[0] == 0x48 && (b[1] == 0x89 || b[1] == 0x8B) && (b[2] & 0xC7)
        == 0x05 {
        Some(le_i32_value(b.subrange(3, 7)))
    } else if b.len() == 8 && b[0] == 0xF3 && b[1] == 0x0F && (b[2] == 0x10 || b[2] == 0x11) && (
    b[3] & 0xC7) == 0x05 {
        Some(le_i32_value(b.subrange(4, 8)))
    } else {
        None
    }
}

/// The absolute target of a relative instruction at `address` of bytes `b`: the
/// end of the instruction plus its displacement, if that is an address.
pub open spec fn relative_target(address: usize, b: Seq<u8>) -> Option<usize> {
    match displacement_of(b) {
        Some(d) => {
            let t = address + b.len() + d;
            if 0 <= t <= usize::MAX {
                Some(t as usize)
            } else {
                None
            }
        },
        None => None,
    }
}

/// The signed value of four little-endian bytes.
fn i32_from_le(b0: u8, b1: u8, b2: u8, b3: u8) -> (r: i32)
    ensures
        r == le_i32_value(seq![b0, b1, b2, b3]),
{
    proof {
        lemma_le_value4(seq![b0, b1, b2, b3]);
    }
    let u: i64 = b0 as i64 + 256 * b1 as i64 + 65536 * b2 as i64 + 16777216 * b3 as i64;
    if u >= 0x8000_0000 {
        (u - 0x1_0000_0000) as i32
    } else {
        u as i32
    }
}

/// The four little-endian bytes of the 32-bit two's-complement form of `v`.
pub fn i32_to_le_bytes(v: i32) -> (r: [u8; 4])
    ensures
        is_le_i32(r@, v),
{
    let u: u32 = if v < 0 {
        (v as i64 + 0x1_0000_0000) as u32
    } else {
        v as u32
    };
    let b0 = (u & 0xff) as u8;
    let b1 = ((u >> 8) & 0xff) as u8;
    let b2 = ((u >> 16) & 0xff) as u8;
    let b3 = ((u >> 24) & 0xff) as u8;
    assert(u == (u & 0xff) + 256 * ((u >> 8) & 0xff) + 65536 * ((u >> 16) & 0xff) + 16777216 * (
    (u >> 24) & 0xff)) by (bit_vector);
    assert((u & 0xff) < 256 && ((u >> 8) & 0xff) < 256 && ((u >> 16) & 0xff) < 256 && ((u >> 24)
        & 0xff) < 256) by (bit_vector);
    let r = [b0, b1, b2, b3];
    proof {
        lemma_le_value4(r@);
    }
    r
}

/// The eight little-endian bytes of `v`.
pub fn u64_to_le_bytes(v: u64) -> (r: [u8; 8])
    ensures
        is_le_u64(r@, v),
{
    assert((v & 0xff) < 256 && ((v >> 8) & 0xff) < 256 && ((v >> 16) & 0xff) < 256 && ((v >> 24)
        & 0xff) < 256 && ((v >> 32) & 0xff) < 256 && ((v >> 40) & 0xff) < 256 && ((v >> 48) & 0xff)
        < 256 && ((v >> 56) & 0xff) < 256) by (bit_vector);
    let r = [
        (v & 0xff) as u8,
        ((v >> 8) & 0xff) as u8,
        ((v >> 16) & 0xff) as u8,
        ((v >> 24) & 0xff) as u8,
        ((v >> 32) & 0xff) as u8,
        ((v >> 40) & 0xff) as u8,
        ((v >> 48) & 0xff) as u8,
        ((v >> 56) & 0xff) as u8,
    ];
    assert(v == (v & 0xff) + 0x100 * ((v >> 8) & 0xff) + 0x1_0000 * ((v >> 16) & 0xff) + 0x100_0000
        * ((v >> 24) & 0xff) + 0x1_0000_0000 * ((v >> 32) & 0xff) + 0x100_0000_0000 * ((v >> 40)
        & 0xff) + 0x1_0000_0000_0000 * ((v >> 48) & 0xff) + 0x100_0000_0000_0000 * ((v >> 56) & 0xff))
        by (bit_vector);
    proof {
        lemma_le_value8(r@);
    }
    r
}

/// The displacement of a relative instruction, for the forms listed at
/// `displacement_of`; `None` for any other instruction.
pub fn extract_displacement(inst: &Inst) -> (r: Option<isize>)
    ensures
        r matches Some(d) ==> displacement_of(inst.bytes@) == Some(d as int),
        r is None ==> displacement_of(inst.bytes@) is None,
{
    let b = &inst.bytes;
    let n = b.len();
    if n == 5 && (b[0] == 0xE8 || b[0] == 0xE9) {
        proof {
            assert(b@.subrange(1, 5) =~= seq![b[1], b[2], b[3], b[4]]);
        }
        Some(i32_from_le(b[1], b[2], b[3], b[4]) as isize)
    } else if n == 2 && b[0] == 0xEB {
        let d = b[1];
        Some(
            if d >= 0x80 {
                d as isize - 0x100
            } else {
                d as isize
            },
        )
    } else if n == 6 && b[0] == 0x0F && 0x80 <= b[1] && b[1] <= 0x8F {
        proof {
            assert(b@.subrange(2, 6) =~= seq![b[2], b[3], b[4], b[5]]);
        }
        Some(i32_from_le(b[2], b[3], b[4], b[5]) as isize)
    } else if n == 7 && b[0] == 0x48 && (b[1] == 0x89 || b[1] == 0x8B) && (b[2] & 0xC7) == 0x05 {
        proof {
            assert(b@.subrange(3, 7) =~= seq![b[3], b[4], b[5], b[6]]);
        }
        Some(i32_from_le(b[3], b[4], b[5], b[6]) as isize)
    } else if n == 8 && b[0] == 0xF3 && b[1] == 0x0F && (b[2] == 0x10 || b[2] == 0x11) && (b[3]
        & 0xC7) == 0x05 {
        proof {
            assert(b@.subrange(4, 8) =~= seq![b[4], b[5], b[6], b[7]]);
        }
        Some(i32_from_le(b[4], b[5], b[6], b[7]) as isize)
    } else {
        None
    }
}

/// Resolves the target of a relative instruction: the address right after it
/// plus its displacement; `None` if it has no displacement or the sum is not an
/// address.
pub fn resolve_relative_target(inst: &Inst) -> (r: Option<usize>)
    requires
        inst.address + inst.bytes@.len() <= usize::MAX,
    ensures
        r == relative_target(inst.address, inst.bytes@),
{
    match extract_displacement(inst) {
        Some(displacement) => {
            let next_address = inst.address + inst.bytes.len();
            next_address.checked_add_signed(displacement)
        },
        None => None,
    }
}

/// The rel32 operand of a 5-byte `jmp` at `source_addr` that lands on
/// `dest_addr`: the distance from the end of the jump to the destination, taken
/// modulo 2^32.
pub fn get_jump_rel32(source_addr: usize, dest_addr: usize) -> (r: i32)
    requires
        as_isize(source_addr) + 5 <= isize::MAX,
        isize::MIN <= as_isize(dest_addr) - (as_isize(source_addr) + 5) <= isize::MAX,
    ensures
        r == wrap_i32(dest_addr - source_addr - 5),
{
    let x: i128 = dest_addr as i128 - source_addr as i128 - 5;
    let y: u128 = (x + 0x1_0000_0000_0000_0000_0000) as u128;
    let m: u128 = y % 0x1_0000_0000;
    proof {
        assert(y as int == x + 0x1_0000_0000 * 0x1_0000_0000_0000);
        vstd::arithmetic::div_mod::lemma_mod_multiples_vanish(
            0x1_0000_0000_0000,
            x as int,
            0x1_0000_0000,
        );
    }
    if m >= 0x8000_0000 {
        (m as i64 - 0x1_0000_0000) as i32
    } else {
        m as i32
    }
}

/// `bytes` are a jump patch for `source`: a 5-byte `jmp rel32` that lands on
/// `dest`, then `nop`s.
pub open spec fn is_jmp_patch(bytes: Seq<u8>, source: usize, dest: usize) -> bool {
    &&& bytes.len() >= 5
    &&& bytes[0] == 0xE9
    &&& is_le_i32(bytes.subrange(1, 5), wrap_i32(dest - source - 5) as i32)
    &&& forall|i: int| 5 <= i < bytes.len() ==> bytes[i] == 0x90
}

/// A jump patch of `N` bytes at `source_addr`: a 5-byte `jmp rel32` to
/// `dest_addr`, then `nop`s.
pub fn create_jmp_patch_near<const N: usize>(source_addr: usize, dest_addr: usize) -> (r: [u8; N])
    requires
        N >= 5,
        as_isize(source_addr) + 5 <= isize::MAX,
        isize::MIN <= as_isize(dest_addr) - (as_isize(source_addr) + 5) <= isize::MAX,
    ensures
        is_jmp_patch(r@, source_addr, dest_addr),
        -0x8000_0000 <= dest_addr - source_addr - 5 < 0x8000_0000 ==> relative_target(
            source_addr,
            r@.subrange(0, 5),
        ) == Some(dest_addr),
{
    let mut patch = [0x90u8; N];
    patch[0] = 0xE9;
    let rel32 = i32_to_le_bytes(get_jump_rel32(source_addr, dest_addr));
    patch[1] = rel32[0];
    patch[2] = rel32[1];
    patch[3] = rel32[2];
    patch[4] = rel32[3];
    assert(patch@.subrange(1, 5) =~= rel32@);
    proof {
        if -0x8000_0000 <= dest_addr - source_addr - 5 < 0x8000_0000 {
            lemma_jmp_patch_resolves(patch@, source_addr, dest_addr);
        }
    }
    patch
}

/// A jump patch of `N` bytes: `jmp qword ptr [rip + 0]` followed by the 8-byte
/// absolute destination `dest_addr`, then `nop`s.
pub fn create_jmp_patch_far<const N: usize>(dest_addr: usize) -> (r: [u8; N])
    requires
        N >= 14,
    ensures
        r@.subrange(0, 6) == seq![0xFFu8, 0x25, 0x00, 0x00, 0x00, 0x00],
        is_le_u64(r@.subrange(6, 14), dest_addr as u64),
        forall|i: int| 14 <= i < N ==> r@[i] == 0x90,
{
    let mut patch = [0x90u8; N];
    patch[0] = 0xFF;
    patch[1] = 0x25;
    patch[2] = 0x00;
    patch[3] = 0x00;
    patch[4] = 0x00;
    patch[5] = 0x00;
    let dest64 = u64_to_le_bytes(dest_addr as u64);
    let mut i: usize = 0;
    while i < 8
        invariant
            i <= 8,
            N >= 14,
            forall|j: int| 0 <= j < i ==> patch@[6 + j] == dest64@[j],
            patch@.subrange(0, 6) == seq![0xFFu8, 0x25, 0x00, 0x00, 0x00, 0x00],
            forall|j: int| 14 <= j < N ==> patch@[j] == 0x90,
        decreases 8 - i,
    {
        patch[6 + i] = dest64[i];
        i += 1;
    }
    assert(patch@.subrange(6, 14) =~= dest64@);
    patch
}

/// A `jmp rel32` at `source` whose operand is `get_jump_rel32(source, dest)`
/// lands on `dest` modulo 2^32, and exactly on `dest` when the distance fits in
/// 32 signed bits.
pub proof fn lemma_jump_lands(source: usize, dest: usize)
    ensures
        (source + 5 + wrap_i32(dest - source - 5) - dest) % 0x1_0000_0000 == 0,
        -0x8000_0000 <= dest - source - 5 < 0x8000_0000 ==> source + 5 + wrap_i32(dest - source - 5)
            == dest,
{
    let x = dest - source - 5;
    let m = x % 0x1_0000_0000;
    assert(x == 0x1_0000_0000 * (x / 0x1_0000_0000) + m);
    if -0x8000_0000 <= x < 0x8000_0000 {
        if x >= 0 {
            assert(x / 0x1_0000_0000 == 0);
        } else {
            assert(x / 0x1_0000_0000 == -1);
        }
    }
    assert((wrap_i32(x) - x) % 0x1_0000_0000 == 0) by {
        if m >= 0x8000_0000 {
            assert(wrap_i32(x) - x == -0x1_0000_0000 * (x / 0x1_0000_0000 + 1));
        } else {
            assert(wrap_i32(x) - x == -0x1_0000_0000 * (x / 0x1_0000_0000));
        }
        vstd::arithmetic::div_mod::lemma_mod_multiples_basic(-(x / 0x1_0000_0000) - (if m
            >= 0x8000_0000 {
            1int
        } else {
            0
        }), 0x1_0000_0000);
    }
}

/// The four bytes that encode `v` decode back to `v`.
pub proof fn lemma_le_i32_roundtrip(b: Seq<u8>, v: i32)
    requires
        is_le_i32(b, v),
    ensures
        le_i32_value(b) == v,
{
}

/// A jump patch built for `source` and `dest` decodes, as an instruction at
/// `source`, to a relative jump whose target is `dest`, when the distance fits in
/// 32 signed bits: what `create_jmp_patch_near` writes is what
/// `resolve_relative_target` reads back.
pub proof fn lemma_jmp_patch_resolves(bytes: Seq<u8>, source: usize, dest: usize)
    requires
        is_jmp_patch(bytes, source, dest),
        -0x8000_0000 <= dest - source - 5 < 0x8000_0000,
    ensures
        relative_target(source, bytes.subrange(0, 5)) == Some(dest),
{
    let head = bytes.subrange(0, 5);
    assert(head.subrange(1, 5) =~= bytes.subrange(1, 5));
    lemma_jump_lands(source, dest);
    let x = dest - source - 5;
    assert(-0x8000_0000 <= wrap_i32(x) < 0x8000_0000);
    lemma_le_i32_roundtrip(bytes.subrange(1, 5), wrap_i32(x) as i32);
}

/// `c` in lower case, for the ASCII letters.
pub open spec fn ascii_lower(c: char) -> char {
    if 'A' <= c <= 'Z' {
        ((c as u32) + 32) as char
    } else {
        c
    }
}

/// `s` in lower case is `lower`, a word of lower-case ASCII letters.
pub open spec fn lowercase_is(s: Seq<char>, lower: Seq<char>) -> bool {
    &&& s.len() == lower.len()
    &&& forall|i: int| 0 <= i < s.len() ==> #[trigger] ascii_lower(s[i]) == lower[i]
}

/// Whether `s` in lower case is `lower` (a word of lower-case ASCII letters, for
/// which this agrees with Unicode lower-casing).
pub fn eq_lowercase(s: &str, lower: &str) -> (r: bool)
    ensures
        r == lowercase_is(s@, lower@),
{
    let n = s.unicode_len();
    if n != lower.unicode_len() {
        return false;
    }
    let mut i: usize = 0;
    while i < n
        invariant
            n == s@.len(),
            n == lower@.len(),
            i <= n,
            forall|j: int| 0 <= j < i ==> #[trigger] ascii_lower(s@[j]) == lower@[j],
        decreases n - i,
    {
        let c = s.get_char(i);
        let l = if 'A' <= c && c <= 'Z' {
            (c as u32) + 32
        } else {
            c as u32
        };
        let t = lower.get_char(i);
        if l != t as u32 {
            assert(ascii_lower(s@[i as int]) != lower@[i as int]);
            return false;
        }
        i += 1;
    }
    true
}

/// Why the game version could not be confirmed.
pub enum VersionError {
    /// The game's timestamp could not be read.
    TimestampUnavailable,
    /// The game's timestamp `got` is none of the `expected` ones.
    TimestampMismatch { got: u32, expected: Vec<u32> },
}

/// The values of `xs` in lower-case hexadecimal, separated by `, `.
pub open spec fn hex_list(xs: Seq<u32>) -> Seq<char>
    decreases xs.len(),
{
    if xs.len() == 0 {
        Seq::empty()
    } else if xs.len() == 1 {
        digits(xs[0] as nat, 16, false)
    } else {
        hex_list(xs.drop_last()) + ", "@ + digits(xs.last() as nat, 16, false)
    }
}

/// The text of a version error.
pub open spec fn version_error_text(e: VersionError) -> Seq<char> {
    match e {
        VersionError::TimestampUnavailable => "failed to retrieve timestamp"@,
        VersionError::TimestampMismatch { got, expected } => "timestamp mismatch (got 0x"@ + digits(
            got as nat,
            16,
            true,
        ) + ", expected one of ["@ + hex_list(expected@) + "])"@,
    }
}

impl VersionError {
    /// The error as text: `failed to retrieve timestamp`, or
    /// `timestamp mismatch (got 0x54DB5826, expected one of [54db5826, 69945eef])`
    /// with the timestamp in upper-case and the expected ones in lower-case
    /// hexadecimal.
    pub fn message(&self) -> (r: String)
        ensures
            r@ == version_error_text(*self),
    {
        match self {
            VersionError::TimestampUnavailable => String::from_str("failed to retrieve timestamp"),
            VersionError::TimestampMismatch { got, expected } => {
                let mut out = String::from_str("timestamp mismatch (got 0x");
                append_digits(&mut out, *got as u64, 16, true);
                out.append(", expected one of [");
                let ghost prefix = out@;
                let n = expected.len();
                let mut i: usize = 0;
                while i < n
                    invariant
                        n == expected@.len(),
                        i <= n,
                        out@ == prefix + hex_list(expected@.subrange(0, i as int)),
                    decreases n - i,
                {
                    let ghost before = out@;
                    if i > 0 {
                        out.append(", ");
                    }
                    append_digits(&mut out, expected[i] as u64, 16, false);
                    let ghost next = expected@.subrange(0, i + 1);
                    assert(next.drop_last() =~= expected@.subrange(0, i as int));
                    if i == 0 {
                        assert(next.len() == 1);
                        assert(hex_list(next) == digits(expected@[0] as nat, 16, false));
                        assert(hex_list(expected@.subrange(0, 0)) =~= Seq::<char>::empty());
                    }
                    assert(out@ =~= prefix + hex_list(next));
                    i += 1;
                }
                out.append("])");
                assert(expected@.subrange(0, n as int) =~= expected@);
                assert(out@ =~= version_error_text(*self));
                out
            },
        }
    }
}

/// Checks the timestamp `current` of the game binary against the timestamps of
/// the supported versions: `Ok` with the timestamp if it is one of them.
pub fn check_game_version(expected: &[u32], current: Option<u32>) -> (r: Result<u32, VersionError>)
    ensures
        current is None ==> r matches Err(VersionError::TimestampUnavailable),
        current matches Some(t) ==> (r matches Ok(v) && v == t) == expected@.contains(t),
        current matches Some(t) ==> (!expected@.contains(t) ==> (r matches Err(
            VersionError::TimestampMismatch { got, expected: e },
        ) && got == t && e@ == expected@)),
{
    match current {
        None => Err(VersionError::TimestampUnavailable),
        Some(t) => {
            let n = expected.len();
            let mut i: usize = 0;
            while i < n
                invariant
                    n == expected@.len(),
                    i <= n,
                    forall|j: int| 0 <= j < i ==> expected@[j] != t,
                    current == Some(t),
                decreases n - i,
            {
                if expected[i] == t {
                    assert(expected@.contains(t));
                    return Ok(t);
                }
                i += 1;
            }
            Err(VersionError::TimestampMismatch { got: t, expected: vstd::slice::slice_to_vec(expected) })
        },
    }
}

/// The two's-complement value of the 32-bit little-endian number whose bytes,
/// from the least significant, are `b0`, `b1`, `b2`, `b3`.
pub open spec fn twos_complement32(b0: u8, b1: u8, b2: u8, b3: u8) -> int {
    let u = b0 + 0x100 * b1 + 0x1_0000 * b2 + 0x100_0000 * b3;
    if u >= 0x8000_0000 {
        u - 0x1_0000_0000
    } else {
        u
    }
}

proof fn lemma_field32(b: Seq<u8>, at: int)
    requires
        0 <= at,
        at + 4 <= b.len(),
    ensures
        le_i32_value(b.subrange(at, at + 4)) == twos_complement32(
            b[at],
            b[at + 1],
            b[at + 2],
            b[at + 3],
        ),
{
    let f = b.subrange(at, at + 4);
    lemma_le_value4(f);
}

/// Every relative form is recognised, and its displacement is the signed value
/// of its displacement field: `call`/`jmp rel32` (`E8`/`E9` and four bytes),
/// `jmp rel8` (`EB` and one byte), `jcc rel32` for each of the sixteen condition
/// codes (`0F 80` to `0F 8F` and four bytes), `mov r64` to or from
/// `[rip + disp32]` (`48 89`/`48 8B`, a ModRM byte with mod 0 and r/m 5, four
/// bytes) and `movss` to or from `[rip + disp32]` (`F3 0F 10`/`F3 0F 11`, such a
/// ModRM byte, four bytes). Any other byte string has no displacement. The
/// target is the end of the instruction plus that displacement, when it is an
/// address.
pub proof fn lemma_displacement_forms(b: Seq<u8>, address: usize)
    ensures
        b.len() == 5 && (b[0] == 0xE8 || b[0] == 0xE9) ==> displacement_of(b) == Some(
            twos_complement32(b[1], b[2], b[3], b[4]),
        ),
        b.len() == 2 && b[0] == 0xEB ==> displacement_of(b) == Some(
            if b[1] < 0x80 {
                b[1] as int
            } else {
                b[1] - 0x100
            },
        ),
        b.len() == 6 && b[0] == 0x0F && 0x80 <= b[1] <= 0x8F ==> displacement_of(b) == Some(
            twos_complement32(b[2], b[3], b[4], b[5]),
        ),
        b.len() == 7 && b[0] == 0x48 && (b[1] == 0x89 || b[1] == 0x8B) && b[2] % 8 == 5 && b[2]
            < 0x40 ==> displacement_of(b) == Some(twos_complement32(b[3], b[4], b[5], b[6])),
        b.len() == 8 && b[0] == 0xF3 && b[1] == 0x0F && (b[2] == 0x10 || b[2] == 0x11) && b[3] % 8
            == 5 && b[3] < 0x40 ==> displacement_of(b) == Some(
            twos_complement32(b[4], b[5], b[6], b[7]),
        ),
        !(b.len() == 5 && (b[0] == 0xE8 || b[0] == 0xE9)) && !(b.len() == 2 && b[0] == 0xEB) && !(
        b.len() == 6 && b[0] == 0x0F && 0x80 <= b[1] <= 0x8F) && !(b.len() == 7 && b[0] == 0x48 && (
        b[1] == 0x89 || b[1] == 0x8B) && b[2] % 8 == 5 && b[2] < 0x40) && !(b.len() == 8 && b[0]
            == 0xF3 && b[1] == 0x0F && (b[2] == 0x10 || b[2] == 0x11) && b[3] % 8 == 5 && b[3]
            < 0x40) ==> displacement_of(b) is None,
        displacement_of(b) matches Some(d) ==> relative_target(address, b) == (if 0 <= address
            + b.len() + d <= usize::MAX {
            Some((address + b.len() + d) as usize)
        } else {
            None
        }),
        displacement_of(b) is None ==> relative_target(address, b) is None,
{
    if b.len() == 5 {
        lemma_field32(b, 1);
    }
    if b.len() == 6 {
        lemma_field32(b, 2);
    }
    if b.len() == 7 {
        lemma_field32(b, 3);
        let m = b[2];
        assert(((m & 0xC7) == 0x05) == (m % 8 == 5 && m < 0x40)) by (bit_vector);
    }
    if b.len() == 8 {
        lemma_field32(b, 4);
        let m = b[3];
        assert(((m & 0xC7) == 0x05) == (m % 8 == 5 && m < 0x40)) by (bit_vector);
    }
}

/// `s` is the word `jmp`, each letter in either case.
pub open spec fn spells_jmp(s: Seq<char>) -> bool {
    &&& s.len() == 3
    &&& s[0] == 'j' || s[0] == 'J'
    &&& s[1] == 'm' || s[1] == 'M'
    &&& s[2] == 'p' || s[2] == 'P'
}

/// `s` is the word `call`, each letter in either case.
pub open spec fn spells_call(s: Seq<char>) -> bool {
    &&& s.len() == 4
    &&& s[0] == 'c' || s[0] == 'C'
    &&& s[1] == 'a' || s[1] == 'A'
    &&& s[2] == 'l' || s[2] == 'L'
    &&& s[3] == 'l' || s[3] == 'L'
}

/// The mnemonics `jmp` and `call` are recognised in any mix of cases, and no
/// word of another length is taken for either.
pub proof fn lemma_jmp_call_any_case(s: Seq<char>)
    ensures
        spells_jmp(s) ==> lowercase_is(s, "jmp"@),
        spells_call(s) ==> lowercase_is(s, "call"@),
        s.len() != 3 ==> !lowercase_is(s, "jmp"@),
        s.len() != 4 ==> !lowercase_is(s, "call"@),
{
    reveal_strlit("jmp");
    reveal_strlit("call");
    assert(ascii_lower('J') == 'j');
    assert(ascii_lower('M') == 'm');
    assert(ascii_lower('P') == 'p');
    assert(ascii_lower('C') == 'c');
    assert(ascii_lower('A') == 'a');
    assert(ascii_lower('L') == 'l');
    assert(ascii_lower('j') == 'j');
    assert(ascii_lower('m') == 'm');
    assert(ascii_lower('p') == 'p');
    assert(ascii_lower('c') == 'c');
    assert(ascii_lower('a') == 'a');
    assert(ascii_lower('l') == 'l');
    if spells_jmp(s) {
        assert forall|i: int| 0 <= i < s.len() implies #[trigger] ascii_lower(s[i]) == "jmp"@[i] by {
            if i == 0 {
            } else if i == 1 {
            } else {
            }
        }
    }
    if spells_call(s) {
        assert forall|i: int| 0 <= i < s.len() implies #[trigger] ascii_lower(s[i]) == "call"@[i] by {
            if i == 0 {
            } else if i == 1 {
            } else if i == 2 {
            } else {
            }
        }
    }
}

} // verus!
