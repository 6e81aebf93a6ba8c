//! The interface every game patch implements.

use vstd::prelude::*;
use crate::framework::memory::Memory;

verus! {

/// What names a patch: its display name and its configuration key.
pub trait PatchInfo {
    /// The display name, as text. A patch type states it; left out, it is some
    /// text about which nothing is known.
    open spec fn spec_name() -> Seq<char> where Self: Sized {
        arbitrary()
    }

    /// The configuration key, as text; `None` means the patch is always enabled.
    /// A patch type states it; left out, nothing is known of it.
    open spec fn spec_config_key(&self) -> Option<Seq<char>> {
        arbitrary()
    }

    /// Display name of the patch.
    fn name() -> (r: &'static str) where Self: Sized
        ensures
            r@ == Self::spec_name(),
    ;

    /// Key under which the configuration enables or disables the patch; `None`
    /// means the patch is always enabled.
    fn config_key(&self) -> (r: Option<&'static str>)
        ensures
            match r {
                Some(k) => self.spec_config_key() == Some(k@),
                None => self.spec_config_key() is None,
            },
    ;
}

/// A patch of the running game: something that can be applied and reverted.
///
/// Game patches implement it; the patch manager drives them. The memory of the
/// game is reached only through `mem` (see `framework::memory`). Each
/// implementation says, through `apply_answers` and `revert_answers`, which
/// answers applying and reverting it may give from its current state, and what
/// they do to memory; the manager's contracts are stated over these.
pub trait Patch<M: Memory>: PatchInfo {
    /// Whether `apply` on this patch may answer `r` and take memory `before` to
    /// `after`. A patch type states it; left out, nothing is known of it.
    open spec fn apply_answers(&self, before: M, after: M, r: Result<(), String>) -> bool {
        arbitrary()
    }

    /// Whether `revert` on this patch may answer `r` and take memory `before` to
    /// `after`. A patch type states it; left out, nothing is known of it.
    open spec fn revert_answers(&self, before: M, after: M, r: Result<(), String>) -> bool {
        arbitrary()
    }

    /// Applies the patch.
    fn apply(&mut self, mem: &mut M) -> (r: Result<(), String>)
        ensures
            old(self).apply_answers(*old(mem), *final(mem), r),
    ;

    /// Reverts the patch.
    fn revert(&mut self, mem: &mut M) -> (r: Result<(), String>)
        ensures
            old(self).revert_answers(*old(mem), *final(mem), r),
    ;
}

} // verus!
