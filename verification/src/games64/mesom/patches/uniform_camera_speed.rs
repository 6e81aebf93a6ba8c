//! The game uses factors 200 (x-axis) and 105 (y-axis) for the camera speed.
//! The x-axis load is rewritten to read the y-axis constant: both loads use
//! `rip`-relative addressing, and the y-axis load sits 8 bytes after the x-axis
//! load, so the x-axis load must use the y-axis displacement plus 8.

use vstd::prelude::*;
use vstd::string::StringExecFns;
use crate::framework::byte_patch::{apply_step, revert_step, BytePatch, BytePatchView, zeros, apply_answer, revert_answer};
use crate::framework::memory::{is_le_i32, Memory};
use crate::framework::patch::{Patch, PatchInfo};
use crate::framework::utils::{displacement_of, extract_displacement, i32_to_le_bytes, Inst};

verus! {

/// Rewrites the x-axis factor load as `movss xmm1, [rip + d]`, `d` pointing at
/// the y-axis constant.
pub struct UniformCameraSpeed {
    byte_patch: BytePatch<8>,
}

/// The eight bytes of `movss xmm1, [rip + d]`.
pub open spec fn load_xmm1_bytes(b: Seq<u8>, d: int) -> bool {
    &&& b.len() == 8
    &&& b.subrange(0, 4) == seq![0xF3u8, 0x0F, 0x10, 0x0D]
    &&& is_le_i32(b.subrange(4, 8), d as i32)
}

impl UniformCameraSpeed {
    /// The state of the one byte patch.
    pub closed spec fn byte_patch(&self) -> BytePatchView {
        self.byte_patch@
    }

    /// The patch from the address of the x-axis load (as its signature resolved
    /// it) and the decoded instruction 8 bytes further, the y-axis load. Errors,
    /// in order: the signature's; no instruction; an instruction other than
    /// `movss`; an instruction without a displacement.
    pub fn init(load_x_axis_factor: Result<usize, String>, load_y_inst: Option<Inst>) -> (r: Result<
        Self,
        String,
    >)
        requires
            load_y_inst matches Some(i) ==> (displacement_of(i.bytes@) matches Some(d) ==> d + 8
                <= i32::MAX),
            load_x_axis_factor matches Ok(x) ==> (load_y_inst matches Some(i) ==> i.address == x
                + 8),
        ensures
            load_x_axis_factor is Err ==> r == Err::<Self, String>(load_x_axis_factor->Err_0),
            load_x_axis_factor matches Ok(x) ==> match load_y_inst {
                None => r matches Err(e) && e@ == "failed to disassemble y-factor instruction"@,
                Some(i) => if i.mnemonic@ != "movss"@ {
                    r matches Err(e) && e@ == "unexpected mnemonic: "@ + i.mnemonic@
                } else {
                    match displacement_of(i.bytes@) {
                        None => r matches Err(e) && e@ == "failed to extract displacement"@,
                        Some(d) => r matches Ok(p) && p.byte_patch().address == x
                            && load_xmm1_bytes(p.byte_patch().patch_bytes, d + 8)
                            && p.byte_patch().original_bytes == zeros(8)
                            && !p.byte_patch().is_applied,
                    }
                },
            },
    {
        let load_x_addr = match load_x_axis_factor {
            Ok(a) => a,
            Err(e) => return Err(e),
        };
        let load_y_inst = match load_y_inst {
            Some(i) => i,
            None => return Err(String::from_str("failed to disassemble y-factor instruction")),
        };
        let movss = String::from_str("movss");
        if load_y_inst.mnemonic != movss {
            let mut e = String::from_str("unexpected mnemonic: ");
            e.append(load_y_inst.mnemonic.as_str());
            return Err(e);
        }
        let y_displacement = match extract_displacement(&load_y_inst) {
            Some(d) => d as i32,
            None => return Err(String::from_str("failed to extract displacement")),
        };
        let x_displacement = y_displacement + 0x8;
        let b = i32_to_le_bytes(x_displacement);
        let patch_bytes: [u8; 8] = [0xF3, 0x0F, 0x10, 0x0D, b[0], b[1], b[2], b[3]];
        assert(patch_bytes@.subrange(0, 4) =~= seq![0xF3u8, 0x0F, 0x10, 0x0D]);
        assert(patch_bytes@.subrange(4, 8) =~= b@);
        Ok(UniformCameraSpeed { byte_patch: BytePatch::new(load_x_addr, patch_bytes) })
    }
}

impl PatchInfo for UniformCameraSpeed {
    open spec fn spec_name() -> Seq<char> {
        "Uniform Camera Speed"@
    }

    open spec fn spec_config_key(&self) -> Option<Seq<char>> {
        Some("uniform_camera_speed"@)
    }

    fn name() -> (r: &'static str) {
        "Uniform Camera Speed"
    }

    fn config_key(&self) -> (r: Option<&'static str>) {
        Some("uniform_camera_speed")
    }
}

impl<M: Memory> Patch<M> for UniformCameraSpeed {
    /// `apply` writes the patch bytes and answers what that write answered
    /// (`Ok`, touching nothing, if applied).
    open spec fn apply_answers(&self, before: M, after: M, r: Result<(), String>) -> bool {
        apply_answer(before, after, self.byte_patch(), r)
    }

    /// `revert` answers what writing back the saved bytes answered (`Ok` if not
    /// applied).
    open spec fn revert_answers(&self, before: M, after: M, r: Result<(), String>) -> bool {
        revert_answer(before, after, self.byte_patch(), r)
    }

    fn apply(&mut self, mem: &mut M) -> (r: Result<(), String>)
        ensures
            apply_step(*old(mem), *final(mem), old(self).byte_patch(), final(self).byte_patch(), r),
    {
        self.byte_patch.apply(mem)
    }

    fn revert(&mut self, mem: &mut M) -> (r: Result<(), String>)
        ensures
            revert_step(*old(mem), *final(mem), old(self).byte_patch(), final(self).byte_patch(), r),
    {
        self.byte_patch.revert(mem)
    }
}

} // verus!
