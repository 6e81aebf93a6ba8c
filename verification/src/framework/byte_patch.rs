//! Replacing a fixed number of bytes of the game, and putting them back.

use vstd::prelude::*;
use vstd::slice::slice_to_vec;
use crate::framework::memory::{answer_text, lemma_write_back_restores, mem_read, stored, Memory};

verus! {

/// `N` bytes at `address` to be replaced by `patch_bytes`. Applying it saves the
/// bytes it overwrites; reverting it writes them back.
pub struct BytePatch<const N: usize> {
    address: usize,
    patch_bytes: [u8; N],
    original_bytes: Vec<u8>,
    is_applied: bool,
}

/// What a byte patch is: where it writes, what it writes, what it saved and
/// whether it is applied.
pub struct BytePatchView {
    pub address: usize,
    pub patch_bytes: Seq<u8>,
    pub original_bytes: Seq<u8>,
    pub is_applied: bool,
}

impl BytePatchView {
    /// The state after an apply that found `found` at the address; `written`
    /// tells whether the patch bytes were stored.
    pub open spec fn applied_with(self, found: Seq<u8>, written: bool) -> BytePatchView {
        BytePatchView { original_bytes: found, is_applied: written, ..self }
    }

    /// The state after a revert; `written` tells whether the saved bytes were
    /// stored back.
    pub open spec fn reverted_with(self, written: bool) -> BytePatchView {
        BytePatchView { is_applied: !written, ..self }
    }
}

/// `n` zero bytes: what a byte patch of `n` bytes holds as saved bytes before it
/// is first applied.
pub open spec fn zeros(n: nat) -> Seq<u8> {
    Seq::new(n, |i: int| 0u8)
}

/// Whether applying a byte patch in state `before` may answer `r` and take
/// memory `m0` to `m1`: if it is applied already, `Ok` and nothing changes;
/// otherwise its patch bytes are written at its address, and the answer is that
/// write's.
pub open spec fn apply_answer<M: Memory>(m0: M, m1: M, before: BytePatchView, r: Result<(), String>) -> bool {
    &&& before.is_applied ==> r is Ok && m1 == m0
    &&& !before.is_applied ==> answer_text(r) == m0.write_outcome(before.address, before.patch_bytes)
        && stored(m0.contents(), m1.contents(), before.address, before.patch_bytes, r)
}

/// Whether reverting a byte patch in state `before` may answer `r` and take
/// memory `m0` to `m1`: if it is not applied, `Ok` and nothing changes;
/// otherwise its saved bytes are written back at its address, and the answer is
/// that write's.
pub open spec fn revert_answer<M: Memory>(m0: M, m1: M, before: BytePatchView, r: Result<(), String>) -> bool {
    &&& !before.is_applied ==> r is Ok && m1 == m0
    &&& before.is_applied ==> answer_text(r) == m0.write_outcome(before.address, before.original_bytes)
        && stored(m0.contents(), m1.contents(), before.address, before.original_bytes, r)
}

/// `after`, `m1` and `r` are what applying a byte patch in state `before` over
/// memory `m0` gives: nothing happens if it is applied; otherwise the bytes
/// that the patch bytes are about to overwrite are saved, as they stand in
/// `m0`, the patch bytes are written, and the patch is applied exactly if that
/// write succeeded, whose answer is returned.
pub open spec fn apply_step<M: Memory>(
    m0: M,
    m1: M,
    before: BytePatchView,
    after: BytePatchView,
    r: Result<(), String>,
) -> bool {
    &&& apply_answer(m0, m1, before, r)
    &&& before.is_applied ==> after == before
    &&& !before.is_applied ==> after == before.applied_with(
        mem_read(m0.contents(), before.address as int, before.patch_bytes.len()),
        r is Ok,
    )
}

/// `after`, `m1` and `r` are what reverting a byte patch in state `before` over
/// memory `m0` gives: nothing happens if it is not applied; otherwise the saved
/// bytes are written back, and the patch stays applied exactly if that write
/// failed, whose answer is returned.
pub open spec fn revert_step<M: Memory>(
    m0: M,
    m1: M,
    before: BytePatchView,
    after: BytePatchView,
    r: Result<(), String>,
) -> bool {
    &&& revert_answer(m0, m1, before, r)
    &&& !before.is_applied ==> after == before
    &&& before.is_applied ==> after == before.reverted_with(r is Ok)
}

/// The result of a sequence of steps that stops at the first failure: if the
/// step before gave `first`, and failed, the whole gives that failure and the
/// remaining patches are `untouched`; otherwise the `rest` of the steps happened.
pub open spec fn then_step(first: Result<(), String>, r: Result<(), String>, untouched: bool, rest: bool) -> bool {
    &&& first is Err ==> r == first && untouched
    &&& first is Ok ==> rest
}

/// A byte patch written through the native `NtProtectVirtualMemory` route; the
/// patch logic is that of `BytePatch`, the route is that of the memory it is handed.
pub type BytePatchNt<const N: usize> = BytePatch<N>;

impl<const N: usize> View for BytePatch<N> {
    type V = BytePatchView;

    closed spec fn view(&self) -> BytePatchView {
        BytePatchView {
            address: self.address,
            patch_bytes: self.patch_bytes@,
            original_bytes: self.original_bytes@,
            is_applied: self.is_applied,
        }
    }
}

impl<const N: usize> BytePatch<N> {
    /// A patch of `patch_bytes` at `address`, not applied, whose saved bytes
    /// are `N` zeros until it is applied.
    pub fn new(address: usize, patch_bytes: [u8; N]) -> (r: Self)
        ensures
            r@.address == address,
            r@.patch_bytes == patch_bytes@,
            r@.original_bytes == zeros(N as nat),
            !r@.is_applied,
    {
        let mut original_bytes: Vec<u8> = Vec::new();
        let mut i: usize = 0;
        while i < N
            invariant
                i <= N,
                original_bytes@ == zeros(i as nat),
            decreases N - i,
        {
            original_bytes.push(0);
            i += 1;
            assert(original_bytes@ =~= zeros(i as nat));
        }
        BytePatch { address, patch_bytes, original_bytes, is_applied: false }
    }

    /// Where the patch writes.
    pub fn address(&self) -> (r: usize)
        ensures
            r == self@.address,
    {
        self.address
    }

    /// Whether the patch is applied.
    pub fn is_applied(&self) -> (r: bool)
        ensures
            r == self@.is_applied,
    {
        self.is_applied
    }

    /// Applies the patch: unless it is applied already, reads and saves the `N`
    /// bytes at its address, then writes the patch bytes there. It counts as
    /// applied only if the write succeeded; the write's error is returned.
    pub fn apply<M: Memory>(&mut self, mem: &mut M) -> (r: Result<(), String>)
        ensures
            apply_step(*old(mem), *final(mem), old(self)@, final(self)@, r),
    {
        if self.is_applied {
            return Ok(());
        }
        let found = mem.read(self.address, N);
        self.original_bytes = found;
        let bytes = slice_to_vec(self.patch_bytes.as_slice());
        let r = mem.write(self.address, bytes);
        self.is_applied = r.is_ok();
        r
    }

    /// Reverts the patch: if it is applied, writes the saved bytes back. It stays
    /// applied if that write failed; the write's error is returned.
    pub fn revert<M: Memory>(&mut self, mem: &mut M) -> (r: Result<(), String>)
        ensures
            revert_step(*old(mem), *final(mem), old(self)@, final(self)@, r),
    {
        if !self.is_applied {
            return Ok(());
        }
        let bytes = self.original_bytes.clone();
        let r = mem.write(self.address, bytes);
        self.is_applied = r.is_err();
        r
    }
}

/// Reverting a patch that was just applied, when both writes succeed, puts
/// back exactly what memory held before it was applied: applying reads the
/// bytes it is about to overwrite, and reverting writes those bytes to the same
/// place.
pub proof fn lemma_apply_then_revert_restores_memory<M: Memory>(
    m0: M,
    m1: M,
    m2: M,
    s0: BytePatchView,
    s1: BytePatchView,
    s2: BytePatchView,
)
    requires
        !s0.is_applied,
        apply_step(m0, m1, s0, s1, Ok(())),
        revert_step(m1, m2, s1, s2, Ok(())),
    ensures
        m2.contents() == m0.contents(),
        s2 == s0.applied_with(s1.original_bytes, false),
{
    lemma_write_back_restores(m0.contents(), s0.address as int, s0.patch_bytes);
}

/// Reverting byte patches in the reverse of the order they were applied in,
/// when every write succeeds, restores memory, even where patches overlap: each
/// revert writes back what its patch overwrote, and the later patches are
/// already gone by then. Patch `i` goes from `before[i]` to `applied[i]` over
/// memory `ms[i]` to `ms[i + 1]`; then the `k`-th revert takes patch
/// `n - 1 - k` from `applied[n - 1 - k]` to `reverted[k]` over memory `ns[k]` to
/// `ns[k + 1]`, starting from `ns[0] == ms[n]`. This is the order in which
/// `revert_all` visits the patches, and the order in which each multi-part
/// patch reverts its parts.
pub proof fn lemma_reverse_order_revert_restores<M: Memory>(
    ms: Seq<M>,
    before: Seq<BytePatchView>,
    applied: Seq<BytePatchView>,
    ns: Seq<M>,
    reverted: Seq<BytePatchView>,
)
    requires
        before.len() == applied.len(),
        reverted.len() == before.len(),
        ms.len() == before.len() + 1,
        ns.len() == before.len() + 1,
        ns[0] == ms[before.len() as int],
        forall|i: int|
            0 <= i < before.len() ==> !(#[trigger] before[i]).is_applied && apply_step(
                ms[i],
                ms[i + 1],
                before[i],
                applied[i],
                Ok(()),
            ),
        forall|k: int|
            0 <= k < before.len() ==> #[trigger] revert_step(
                ns[k],
                ns[k + 1],
                applied[before.len() - 1 - k],
                reverted[k],
                Ok(()),
            ),
    ensures
        ns[before.len() as int].contents() == ms[0].contents(),
    decreases before.len(),
{
    let n = before.len() as int;
    if n > 0 {
        let ms1 = ms.subrange(1, n + 1);
        let ns1 = ns.subrange(0, n);
        let b1 = before.subrange(1, n);
        let a1 = applied.subrange(1, n);
        let r1 = reverted.subrange(0, n - 1);
        assert forall|i: int| 0 <= i < b1.len() implies !(#[trigger] b1[i]).is_applied && apply_step(
            ms1[i],
            ms1[i + 1],
            b1[i],
            a1[i],
            Ok(()),
        ) by {
            assert(b1[i] == before[i + 1]);
            assert(!before[i + 1].is_applied);
        }
        assert forall|k: int| 0 <= k < b1.len() implies #[trigger] revert_step(
            ns1[k],
            ns1[k + 1],
            a1[b1.len() - 1 - k],
            r1[k],
            Ok(()),
        ) by {
            assert(revert_step(ns[k], ns[k + 1], applied[n - 1 - k], reverted[k], Ok(())));
        }
        lemma_reverse_order_revert_restores(ms1, b1, a1, ns1, r1);
        assert(!before[0].is_applied);
        assert(apply_step(ms[0], ms[1], before[0], applied[0], Ok(())));
        let last = n - 1;
        assert(revert_step(
            ns[last],
            ns[last + 1],
            applied[before.len() - 1 - last],
            reverted[last],
            Ok(()),
        ));
        assert(ns1[n - 1] == ns[last]);
        lemma_write_back_restores(ms[0].contents(), before[0].address as int, before[0].patch_bytes);
    }
}

} // verus!
