//! Zeroing the registers that hold the smoothing factors of the x-axis (`xmm3`)
//! and the y-axis (`xmm7`) disables mouse smoothing. Gamepad input takes another
//! path, with smoothing of its own, and is not affected.

use vstd::prelude::*;
use crate::framework::byte_patch::{apply_step, revert_step, BytePatch, BytePatchView, zeros, apply_answer, revert_answer};
use crate::framework::memory::Memory;
use crate::framework::patch::{Patch, PatchInfo};

verus! {

/// Replaces the loads of the smoothing factors by `pxor xmm3, xmm3`,
/// `pxor xmm7, xmm7` and a `nop`.
pub struct DisableCameraSmoothing {
    byte_patch: BytePatch<9>,
}

impl DisableCameraSmoothing {
    /// The state of the one byte patch.
    pub closed spec fn byte_patch(&self) -> BytePatchView {
        self.byte_patch@
    }

    /// The patch at the address that its signature resolved to.
    pub fn init(load_camera_smoothing_factors: Result<usize, String>) -> (r: Result<Self, String>)
        ensures
            load_camera_smoothing_factors is Err ==> r == Err::<Self, String>(load_camera_smoothing_factors->Err_0),
            load_camera_smoothing_factors matches Ok(a) ==> r matches Ok(p) && p.byte_patch()
                == (BytePatchView {
                address: a,
                patch_bytes: seq![0x66u8, 0x0F, 0xEF, 0xDB, 0x66, 0x0F, 0xEF, 0xFF, 0x90],
                original_bytes: zeros(9),
                is_applied: false,
            }),
    {
        let target_address = match load_camera_smoothing_factors {
            Ok(a) => a,
            Err(e) => return Err(e),
        };
        let patch_bytes: [u8; 9] = [0x66, 0x0F, 0xEF, 0xDB, 0x66, 0x0F, 0xEF, 0xFF, 0x90];
        assert(patch_bytes@ =~= seq![0x66u8, 0x0F, 0xEF, 0xDB, 0x66, 0x0F, 0xEF, 0xFF, 0x90]);
        Ok(DisableCameraSmoothing { byte_patch: BytePatch::new(target_address, patch_bytes) })
    }
}

impl PatchInfo for DisableCameraSmoothing {
    open spec fn spec_name() -> Seq<char> {
        "Disable Mouse Smoothing"@
    }

    open spec fn spec_config_key(&self) -> Option<Seq<char>> {
        Some("disable_camera_smoothing"@)
    }

    fn name() -> (r: &'static str) {
        "Disable Mouse Smoothing"
    }

    fn config_key(&self) -> (r: Option<&'static str>) {
        Some("disable_camera_smoothing")
    }
}

impl<M: Memory> Patch<M> for DisableCameraSmoothing {
    /// `apply` writes the patch bytes and answers what that write answered
    /// (`Ok`, touching nothing, if applied).
    open spec fn apply_answers(&self, before: M, after: M, r: Result<(), String>) -> bool {
        apply_answer(before, after, self.byte_patch(), r)
    }

    /// `revert` answers what writing back the saved bytes answered (`Ok` if not
    /// applied).
    open spec fn revert_answers(&self, before: M, after: M, r: Result<(), String>) -> bool {
        revert_answer(before, after, self.byte_patch(), r)
    }

    fn apply(&mut self, mem: &mut M) -> (r: Result<(), String>)
        ensures
            apply_step(*old(mem), *final(mem), old(self).byte_patch(), final(self).byte_patch(), r),
    {
        self.byte_patch.apply(mem)
    }

    fn revert(&mut self, mem: &mut M) -> (r: Result<(), String>)
        ensures
            revert_step(*old(mem), *final(mem), old(self).byte_patch(), final(self).byte_patch(), r),
    {
        self.byte_patch.revert(mem)
    }
}

} // verus!
