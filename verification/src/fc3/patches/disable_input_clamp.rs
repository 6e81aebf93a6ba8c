//! The game limits camera delta movement and clamps any movement beyond that
//! limit. Turning the condition that checks the limit into an unconditional
//! `jmp` skips the clamp.

use vstd::prelude::*;
use crate::framework::byte_patch::{apply_step, revert_step, BytePatch, BytePatchView, zeros, apply_answer, revert_answer};
use crate::framework::memory::Memory;
use crate::framework::patch::{Patch, PatchInfo};

verus! {

/// Turns the `jbe` that guards the clamp into a `jmp`.
pub struct DisableInputClamp {
    byte_patch_clamp: BytePatch<1>,
}

impl DisableInputClamp {
    /// The state of the one byte patch.
    pub closed spec fn byte_patch_clamp(&self) -> BytePatchView {
        self.byte_patch_clamp@
    }

    /// The patch at the address that its signature resolved to.
    pub fn init(clamp_input_condition: Result<usize, String>) -> (r: Result<Self, String>)
        ensures
            clamp_input_condition is Err ==> r == Err::<Self, String>(clamp_input_condition->Err_0),
            clamp_input_condition matches Ok(a) ==> r matches Ok(p) && p.byte_patch_clamp()
                == (BytePatchView {
                address: a,
                patch_bytes: seq![0xEBu8],
                original_bytes: zeros(1),
                is_applied: false,
            }),
    {
        let target_address = match clamp_input_condition {
            Ok(a) => a,
            Err(e) => return Err(e),
        };
        let patch_bytes: [u8; 1] = [0xEB];
        assert(patch_bytes@ =~= seq![0xEBu8]);
        Ok(DisableInputClamp { byte_patch_clamp: BytePatch::new(target_address, patch_bytes) })
    }
}

impl PatchInfo for DisableInputClamp {
    open spec fn spec_name() -> Seq<char> {
        "Disable Input Clamp"@
    }

    open spec fn spec_config_key(&self) -> Option<Seq<char>> {
        Some("disable_input_clamp"@)
    }

    fn name() -> (r: &'static str) {
        "Disable Input Clamp"
    }

    fn config_key(&self) -> (r: Option<&'static str>) {
        Some("disable_input_clamp")
    }
}

impl<M: Memory> Patch<M> for DisableInputClamp {
    /// `apply` writes the patch bytes and answers what that write answered
    /// (`Ok`, touching nothing, if applied).
    open spec fn apply_answers(&self, before: M, after: M, r: Result<(), String>) -> bool {
        apply_answer(before, after, self.byte_patch_clamp(), r)
    }

    /// `revert` answers what writing back the saved bytes answered (`Ok` if not
    /// applied).
    open spec fn revert_answers(&self, before: M, after: M, r: Result<(), String>) -> bool {
        revert_answer(before, after, self.byte_patch_clamp(), r)
    }

    fn apply(&mut self, mem: &mut M) -> (r: Result<(), String>)
        ensures
            apply_step(*old(mem), *final(mem), old(self).byte_patch_clamp(), final(self).byte_patch_clamp(), r),
    {
        self.byte_patch_clamp.apply(mem)
    }

    fn revert(&mut self, mem: &mut M) -> (r: Result<(), String>)
        ensures
            revert_step(*old(mem), *final(mem), old(self).byte_patch_clamp(), final(self).byte_patch_clamp(), r),
    {
        self.byte_patch_clamp.revert(mem)
    }
}

} // verus!
