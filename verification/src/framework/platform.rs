//! Reading the headers of the game's executable image: its link timestamp and the
//! address range of a named section.
//!
//! The headers are handed over as the bytes of the image from its base address on
//! (the DOS header, the NT headers and the section table); the caller reads them
//! from the loaded module.

use vstd::prelude::*;
use vstd::string::{StrSliceExecFns, StringSliceAdditionalSpecFns};
use core::ops::Range;
use crate::framework::memory::{answer_text, mem_read, stored, Memory};

verus! {

/// The little-endian 16-bit value at `off`.
pub open spec fn u16_at(img: Seq<u8>, off: int) -> int {
    img[off] + 256 * img[off + 1]
}

/// The little-endian 32-bit value at `off`.
pub open spec fn u32_at(img: Seq<u8>, off: int) -> int {
    img[off] + 256 * img[off + 1] + 65536 * img[off + 2] + 16777216 * img[off + 3]
}

/// `MZ`, the signature of the DOS header.
pub const IMAGE_DOS_SIGNATURE: u16 = 0x5A4D;

/// `PE\0\0`, the signature of the NT headers.
pub const IMAGE_NT_SIGNATURE: u32 = 0x0000_4550;

/// The offset of the NT headers in `img`, if `img` starts with a DOS header whose
/// `e_lfanew` points, within `img`, at NT headers with a valid signature and a
/// complete file header.
pub open spec fn nt_headers_offset(img: Seq<u8>) -> Option<int> {
    if img.len() >= 0x40 && u16_at(img, 0) == IMAGE_DOS_SIGNATURE {
        let e = u32_at(img, 0x3C);
        if e < 0x8000_0000 && e + 24 <= img.len() && u32_at(img, e) == IMAGE_NT_SIGNATURE {
            Some(e)
        } else {
            None
        }
    } else {
        None
    }
}

/// The link timestamp of the image, from its file header.
pub open spec fn time_date_stamp(img: Seq<u8>) -> Option<u32> {
    match nt_headers_offset(img) {
        Some(nt) => Some(u32_at(img, nt + 8) as u32),
        None => None,
    }
}

/// The 8-byte name field that a section named by `name` (its UTF-8 bytes) has:
/// the first eight bytes of the name, padded with zeros.
pub open spec fn section_name_field(name: Seq<u8>) -> Seq<u8> {
    Seq::new(8, |i: int| if i < name.len() { name[i] } else { 0u8 })
}

/// Looks through the section headers from the `k`-th of `count`, the first of
/// which starts at `first`, for one whose name field is `key`; gives its virtual
/// address and virtual size. `None` if none matches or a header before the match
/// lies outside `img`.
pub open spec fn find_section_from(
    img: Seq<u8>,
    first: int,
    count: int,
    k: int,
    key: Seq<u8>,
) -> Option<(int, int)>
    decreases count - k,
{
    if k >= count {
        None
    } else {
        let h = first + 40 * k;
        if h + 40 > img.len() {
            None
        } else if img.subrange(h, h + 8) == key {
            Some((u32_at(img, h + 12), u32_at(img, h + 8)))
        } else {
            find_section_from(img, first, count, k + 1, key)
        }
    }
}

/// The virtual address and virtual size of the first section whose name field
/// matches `name`.
pub open spec fn section_of(img: Seq<u8>, name: Seq<u8>) -> Option<(int, int)> {
    match nt_headers_offset(img) {
        Some(nt) => find_section_from(
            img,
            nt + 24 + u16_at(img, nt + 20),
            u16_at(img, nt + 6),
            0,
            section_name_field(name),
        ),
        None => None,
    }
}

/// An image that starts with `MZ`, whose 32-bit `e_lfanew` at `0x3C` (below
/// 2^31) points within it at `PE\0\0` followed by a complete file header, has
/// its NT headers there, and its link timestamp is the 32-bit value 8 bytes
/// into them. An image without the `MZ` signature has neither.
pub proof fn lemma_headers_located(img: Seq<u8>)
    ensures
        ({
            let e = img[0x3C] + 0x100 * img[0x3D] + 0x1_0000 * img[0x3E] + 0x100_0000 * img[0x3F];
            img.len() >= 0x40 && img[0] == 0x4D && img[1] == 0x5A && e < 0x8000_0000 && e + 24
                <= img.len() && img[e] == 0x50 && img[e + 1] == 0x45 && img[e + 2] == 0 && img[e
                + 3] == 0 ==> nt_headers_offset(img) == Some(e) && time_date_stamp(img) == Some(
                (img[e + 8] + 0x100 * img[e + 9] + 0x1_0000 * img[e + 10] + 0x100_0000 * img[e
                    + 11]) as u32,
            )
        }),
        img.len() < 0x40 || img[0] != 0x4D || img[1] != 0x5A ==> nt_headers_offset(img) is None
            && time_date_stamp(img) is None,
{
}

/// The 8-byte name field of the `k`-th section header of the table that starts
/// at `first` holds `name`, padded with zeros.
pub open spec fn header_named(img: Seq<u8>, first: int, k: int, name: Seq<u8>) -> bool {
    forall|i: int|
        0 <= i < 8 ==> #[trigger] img[first + 40 * k + i] == (if i < name.len() {
            name[i]
        } else {
            0u8
        })
}

proof fn lemma_find_section_reaches(
    img: Seq<u8>,
    first: int,
    count: int,
    j: int,
    k: int,
    key: Seq<u8>,
)
    requires
        0 <= first,
        0 <= j <= k < count,
        first + 40 * k + 40 <= img.len(),
        img.subrange(first + 40 * k, first + 40 * k + 8) == key,
        forall|m: int|
            j <= m < k ==> #[trigger] img.subrange(first + 40 * m, first + 40 * m + 8) != key,
    ensures
        find_section_from(img, first, count, j, key) == Some(
            (u32_at(img, first + 40 * k + 12), u32_at(img, first + 40 * k + 8)),
        ),
    decreases k - j,
{
    if j < k {
        assert(img.subrange(first + 40 * j, first + 40 * j + 8) != key);
        lemma_find_section_reaches(img, first, count, j + 1, k, key);
    }
}

/// The section table starts right after the optional header, whose size is the
/// one the file header gives (the 16-bit value at `nt + 20`: `0xE0` in 32-bit
/// images, `0xF0` in 64-bit ones, or any other), and its headers are 40 bytes
/// apart. When the `k`-th of them, one of the number the file header gives (the
/// 16-bit value at `nt + 6`), lies in the image and is the first to carry the
/// name, the section is found with the virtual address and the virtual size
/// that header holds (the 32-bit values at its offsets 12 and 8).
pub proof fn lemma_section_after_optional_header(img: Seq<u8>, name: Seq<u8>, nt: int, k: int)
    requires
        nt_headers_offset(img) == Some(nt),
        0 <= k < img[nt + 6] + 0x100 * img[nt + 7],
        nt + 24 + img[nt + 20] + 0x100 * img[nt + 21] + 40 * k + 40 <= img.len(),
        header_named(img, nt + 24 + img[nt + 20] + 0x100 * img[nt + 21], k, name),
        forall|j: int|
            0 <= j < k ==> !#[trigger] header_named(
                img,
                nt + 24 + img[nt + 20] + 0x100 * img[nt + 21],
                j,
                name,
            ),
    ensures
        ({
            let h = nt + 24 + img[nt + 20] + 0x100 * img[nt + 21] + 40 * k;
            section_of(img, name) == Some(
                (
                    img[h + 12] + 0x100 * img[h + 13] + 0x1_0000 * img[h + 14] + 0x100_0000 * img[h
                        + 15],
                    img[h + 8] + 0x100 * img[h + 9] + 0x1_0000 * img[h + 10] + 0x100_0000 * img[h
                        + 11],
                ),
            )
        }),
{
    let first = nt + 24 + img[nt + 20] + 0x100 * img[nt + 21];
    let key = section_name_field(name);
    let h = first + 40 * k;
    assert(img.subrange(h, h + 8) =~= key) by {
        assert forall|i: int| 0 <= i < 8 implies img.subrange(h, h + 8)[i] == key[i] by {
            assert(img[first + 40 * k + i] == (if i < name.len() {
                name[i]
            } else {
                0u8
            }));
        }
    }
    assert forall|m: int| 0 <= m < k implies #[trigger] img.subrange(
        first + 40 * m,
        first + 40 * m + 8,
    ) != key by {
        assert(!header_named(img, first, m, name));
        let i = choose|i: int|
            0 <= i < 8 && #[trigger] img[first + 40 * m + i] != (if i < name.len() {
                name[i]
            } else {
                0u8
            });
        assert(img.subrange(first + 40 * m, first + 40 * m + 8)[i] != key[i]);
    }
    lemma_find_section_reaches(img, first, u16_at(img, nt + 6), 0, k, key);
}

fn read_u16(img: &[u8], off: usize) -> (r: u16)
    requires
        off + 2 <= img@.len(),
    ensures
        r == u16_at(img@, off as int),
{
    img[off] as u16 + 256 * img[off + 1] as u16
}

fn read_u32(img: &[u8], off: usize) -> (r: u32)
    requires
        off + 4 <= img@.len(),
    ensures
        r == u32_at(img@, off as int),
{
    img[off] as u32 + 256 * img[off + 1] as u32 + 65536 * img[off + 2] as u32 + 16777216
        * img[off + 3] as u32
}

fn nt_offset(img: &[u8]) -> (r: Option<usize>)
    ensures
        r matches Some(nt) ==> nt_headers_offset(img@) == Some(nt as int),
        r is None ==> nt_headers_offset(img@) is None,
{
    if img.len() < 0x40 || read_u16(img, 0) != IMAGE_DOS_SIGNATURE {
        return None;
    }
    let e = read_u32(img, 0x3C);
    if e >= 0x8000_0000 {
        return None;
    }
    let e = e as usize;
    if e > img.len() || img.len() - e < 24 {
        return None;
    }
    if read_u32(img, e) != IMAGE_NT_SIGNATURE {
        return None;
    }
    Some(e)
}

/// The link timestamp recorded in the file header of the image whose bytes from
/// its base address on are `image`; `None` if the headers are not valid or not
/// within `image`.
pub fn get_time_date_stamp(image: &[u8]) -> (r: Option<u32>)
    ensures
        r == time_date_stamp(image@),
{
    match nt_offset(image) {
        Some(nt) => Some(read_u32(image, nt + 8)),
        None => None,
    }
}

/// The address range `[base + VirtualAddress, base + VirtualAddress +
/// VirtualSize)` of the first section named `section_name` (compared on the first
/// eight bytes of the name) in the image loaded at `base`, whose bytes from `base`
/// on are `image`.
pub fn find_section_address_range(image: &[u8], base: usize, section_name: &str) -> (r: Option<
    Range<usize>,
>)
    requires
        section_of(image@, section_name.spec_bytes()) matches Some((va, size)) ==> base + va
            + size <= usize::MAX,
    ensures
        section_of(image@, section_name.spec_bytes()) is None ==> r is None,
        section_of(image@, section_name.spec_bytes()) matches Some((va, size)) ==> r matches Some(
            range,
        ) && range.start == base + va && range.end == base + va + size,
{
    let name = section_name.as_bytes_vec();
    let mut key = [0u8; 8];
    let len = if name.len() < 8 {
        name.len()
    } else {
        8
    };
    let mut i: usize = 0;
    while i < len
        invariant
            len <= 8,
            len <= name@.len(),
            len == name@.len() || len == 8,
            i <= len,
            forall|j: int| 0 <= j < i ==> key@[j] == name@[j],
            forall|j: int| len <= j < 8 ==> key@[j] == 0,
        decreases len - i,
    {
        key[i] = name[i];
        i += 1;
    }
    assert(key@ =~= section_name_field(name@));
    let nt = match nt_offset(image) {
        Some(nt) => nt,
        None => return None,
    };
    let first = nt + 24 + read_u16(image, nt + 20) as usize;
    let count = read_u16(image, nt + 6) as usize;
    let mut k: usize = 0;
    while k < count
        invariant
            count == u16_at(image@, nt + 6),
            nt_headers_offset(image@) == Some(nt as int),
            first == nt + 24 + u16_at(image@, nt + 20),
            first <= image@.len() + 0x10000 + 24,
            k <= count,
            key@ == section_name_field(section_name.spec_bytes()),
            section_of(image@, section_name.spec_bytes()) == find_section_from(
                image@,
                first as int,
                count as int,
                k as int,
                key@,
            ),
            section_of(image@, section_name.spec_bytes()) matches Some((va, size)) ==> base + va
                + size <= usize::MAX,
        decreases count - k,
    {
        let h = first + 40 * k;
        if h > image.len() || image.len() - h < 40 {
            return None;
        }
        let mut same = true;
        let mut j: usize = 0;
        while j < 8
            invariant
                j <= 8,
                h + 40 <= image.len(),
                same == (forall|x: int| 0 <= x < j ==> image@[h + x] == key@[x]),
            decreases 8 - j,
        {
            if image[h + j] != key[j] {
                same = false;
            }
            j += 1;
        }
        assert(same == (image@.subrange(h as int, h + 8) =~= key@));
        if same {
            let va = read_u32(image, h + 12) as usize;
            let size = read_u32(image, h + 8) as usize;
            let start = base + va;
            return Some(start..start + size);
        }
        k += 1;
    }
    None
}

/// One thread of the process and the process that owns it.
pub struct Thread {
    pub tid: u32,
    pub owner_pid: u32,
}

/// The threads of `threads` that belong to process `pid`, by id, in order.
pub open spec fn own_threads(threads: Seq<Thread>, pid: u32) -> Seq<u32>
    decreases threads.len(),
{
    if threads.len() == 0 {
        Seq::empty()
    } else {
        let rest = own_threads(threads.drop_last(), pid);
        if threads.last().owner_pid == pid {
            rest.push(threads.last().tid)
        } else {
            rest
        }
    }
}

/// The first five bytes of an `ntdll` syscall stub for the syscall whose number
/// has low byte `id`: `mov r10, rcx`, then `mov eax,` and that byte.
pub open spec fn syscall_stub_head(id: u8) -> Seq<u8> {
    seq![0x4Cu8, 0x8B, 0xD1, 0xB8, id]
}

/// The low byte of the syscall number of `NtProtectVirtualMemory`: one below
/// that of `NtQuerySection`, modulo 256.
pub open spec fn prot_memory_syscall_id(query_section_id: u8) -> u8 {
    if query_section_id == 0 {
        255
    } else {
        (query_section_id - 1) as u8
    }
}

/// Restores the start of the `NtProtectVirtualMemory` stub at
/// `nt_protect_virtual_memory`, which the game hooks: reads the low byte of the
/// syscall number of the `NtQuerySection` stub at `nt_query_section` (the byte at
/// offset 4), and writes the original stub head with the number one below it.
/// The write's answer is returned.
pub fn unhook_prot_memory<M: Memory>(
    mem: &mut M,
    nt_query_section: usize,
    nt_protect_virtual_memory: usize,
) -> (r: Result<(), String>)
    requires
        nt_query_section + 4 <= usize::MAX,
    ensures
        ({
            let id = mem_read(old(mem).contents(), nt_query_section + 4, 1)[0];
            let head = syscall_stub_head(prot_memory_syscall_id(id));
            &&& answer_text(r) == old(mem).write_outcome(nt_protect_virtual_memory, head)
            &&& stored(old(mem).contents(), final(mem).contents(), nt_protect_virtual_memory, head, r)
        }),
{
    let found = mem.read(nt_query_section + 4, 1);
    let id = found[0].wrapping_sub(1);
    let restore: Vec<u8> = vec![0x4C, 0x8B, 0xD1, 0xB8, id];
    assert(restore@ =~= syscall_stub_head(prot_memory_syscall_id(found@[0])));
    mem.write(nt_protect_virtual_memory, restore)
}

} // verus!
