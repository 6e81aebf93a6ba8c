//! The game uses factors 200 (x-axis) and 105 (y-axis) for the camera speed.
//! Loading the y-axis factor for the x-axis too gives a uniform 1:1 speed.

use vstd::prelude::*;
use crate::framework::byte_patch::{apply_step, revert_step, BytePatch, BytePatchView, zeros, apply_answer, revert_answer};
use crate::framework::memory::Memory;
use crate::framework::patch::{Patch, PatchInfo};

verus! {

/// Makes the x-axis load read the 105 constant: `movss xmm1, [rip + 0x0129C14C]`.
pub struct UniformCameraSpeed {
    byte_patch: BytePatch<8>,
}

impl UniformCameraSpeed {
    /// The state of the one byte patch.
    pub closed spec fn byte_patch(&self) -> BytePatchView {
        self.byte_patch@
    }

    /// The patch at the address that its signature resolved to.
    pub fn init(load_x_axis_factor: Result<usize, String>) -> (r: Result<Self, String>)
        ensures
            load_x_axis_factor is Err ==> r == Err::<Self, String>(load_x_axis_factor->Err_0),
            load_x_axis_factor matches Ok(a) ==> r matches Ok(p) && p.byte_patch()
                == (BytePatchView {
                address: a,
                patch_bytes: seq![0xF3u8, 0x0F, 0x10, 0x0D, 0x4C, 0xC1, 0x29, 0x01],
                original_bytes: zeros(8),
                is_applied: false,
            }),
    {
        let target_address = match load_x_axis_factor {
            Ok(a) => a,
            Err(e) => return Err(e),
        };
        let patch_bytes: [u8; 8] = [0xF3, 0x0F, 0x10, 0x0D, 0x4C, 0xC1, 0x29, 0x01];
        assert(patch_bytes@ =~= seq![0xF3u8, 0x0F, 0x10, 0x0D, 0x4C, 0xC1, 0x29, 0x01]);
        Ok(UniformCameraSpeed { byte_patch: BytePatch::new(target_address, patch_bytes) })
    }
}

impl PatchInfo for UniformCameraSpeed {
    open spec fn spec_name() -> Seq<char> {
        "Uniform Camera Speed"@
    }

    open spec fn spec_config_key(&self) -> Option<Seq<char>> {
        Some("uniform_camera_speed"@)
    }

    fn name() -> (r: &'static str) {
        "Uniform Camera Speed"
    }

    fn config_key(&self) -> (r: Option<&'static str>) {
        Some("uniform_camera_speed")
    }
}

impl<M: Memory> Patch<M> for UniformCameraSpeed {
    /// `apply` writes the patch bytes and answers what that write answered
    /// (`Ok`, touching nothing, if applied).
    open spec fn apply_answers(&self, before: M, after: M, r: Result<(), String>) -> bool {
        apply_answer(before, after, self.byte_patch(), r)
    }

    /// `revert` answers what writing back the saved bytes answered (`Ok` if not
    /// applied).
    open spec fn revert_answers(&self, before: M, after: M, r: Result<(), String>) -> bool {
        revert_answer(before, after, self.byte_patch(), r)
    }

    fn apply(&mut self, mem: &mut M) -> (r: Result<(), String>)
        ensures
            apply_step(*old(mem), *final(mem), old(self).byte_patch(), final(self).byte_patch(), r),
    {
        self.byte_patch.apply(mem)
    }

    fn revert(&mut self, mem: &mut M) -> (r: Result<(), String>)
        ensures
            revert_step(*old(mem), *final(mem), old(self).byte_patch(), final(self).byte_patch(), r),
    {
        self.byte_patch.revert(mem)
    }
}

} // verus!
