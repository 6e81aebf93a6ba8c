//! Like Unity, the game has logic for disabling mouse smoothing. Patching its
//! condition into an unconditional `jmp` makes the camera target always apply
//! directly, without lerping.

use vstd::prelude::*;
use crate::framework::byte_patch::{apply_step, revert_step, BytePatchNt, BytePatchView, zeros, apply_answer, revert_answer};
use crate::framework::memory::Memory;
use crate::framework::patch::{Patch, PatchInfo};

verus! {

/// Turns the `jnz` that guards the smoothing into a `jmp`.
pub struct DisableCameraSmoothing {
    byte_patch: BytePatchNt<1>,
}

impl DisableCameraSmoothing {
    /// The state of the one byte patch.
    pub closed spec fn byte_patch(&self) -> BytePatchView {
        self.byte_patch@
    }

    /// The patch at the address of the camera-smoothing jump, if the signature
    /// was found.
    pub fn init(jump_camera_smoothing: Option<usize>) -> (r: Result<Self, String>)
        ensures
            jump_camera_smoothing is None ==> (r matches Err(e) && e@
                == "failed to get JUMP_CAMERA_SMOOTHING signature"@),
            jump_camera_smoothing matches Some(a) ==> r matches Ok(p) && p.byte_patch()
                == (BytePatchView {
                address: a,
                patch_bytes: seq![0xEBu8],
                original_bytes: zeros(1),
                is_applied: false,
            }),
    {
        match jump_camera_smoothing {
            Some(target_address) => {
                let patch_bytes: [u8; 1] = [0xEB];
                let byte_patch = BytePatchNt::new(target_address, patch_bytes);
                assert(patch_bytes@ =~= seq![0xEBu8]);
                Ok(DisableCameraSmoothing { byte_patch })
            },
            None => Err(String::from_str("failed to get JUMP_CAMERA_SMOOTHING signature")),
        }
    }
}

impl PatchInfo for DisableCameraSmoothing {
    open spec fn spec_name() -> Seq<char> {
        "Disable Mouse Smoothing"@
    }

    open spec fn spec_config_key(&self) -> Option<Seq<char>> {
        Some("disable_camera_smoothing"@)
    }

    fn name() -> (r: &'static str) {
        "Disable Mouse Smoothing"
    }

    fn config_key(&self) -> (r: Option<&'static str>) {
        Some("disable_camera_smoothing")
    }
}

impl<M: Memory> Patch<M> for DisableCameraSmoothing {
    /// `apply` writes the patch bytes and answers what that write answered
    /// (`Ok`, touching nothing, if applied).
    open spec fn apply_answers(&self, before: M, after: M, r: Result<(), String>) -> bool {
        apply_answer(before, after, self.byte_patch(), r)
    }

    /// `revert` answers what writing back the saved bytes answered (`Ok` if not
    /// applied).
    open spec fn revert_answers(&self, before: M, after: M, r: Result<(), String>) -> bool {
        revert_answer(before, after, self.byte_patch(), r)
    }

    fn apply(&mut self, mem: &mut M) -> (r: Result<(), String>)
        ensures
            apply_step(*old(mem), *final(mem), old(self).byte_patch(), final(self).byte_patch(), r),
    {
        self.byte_patch.apply(mem)
    }

    fn revert(&mut self, mem: &mut M) -> (r: Result<(), String>)
        ensures
            revert_step(*old(mem), *final(mem), old(self).byte_patch(), final(self).byte_patch(), r),
    {
        self.byte_patch.revert(mem)
    }
}

} // verus!
