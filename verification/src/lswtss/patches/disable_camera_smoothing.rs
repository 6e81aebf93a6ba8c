//! Camera smoothing has two paths: when mounted, the game loads a decay rate;
//! when roaming, it falls back to smoothing under a condition. Loading zero as
//! the decay rate and jumping over the fallback disables both.

use vstd::prelude::*;
use crate::framework::byte_patch::{apply_step, revert_step, then_step, BytePatch, BytePatchView, zeros, apply_answer, revert_answer};
use crate::framework::memory::Memory;
use crate::framework::patch::{Patch, PatchInfo};

verus! {

/// Zeroes the mounted decay rate (`pxor xmm0, xmm0` and `nop`s in place of its
/// load) and turns the roaming fallback's `jb` into a `jmp`.
pub struct DisableCameraSmoothing {
    byte_patch_mounted: BytePatch<8>,
    byte_patch_roaming: BytePatch<1>,
}

impl DisableCameraSmoothing {
    /// The state of the mounted-path byte patch.
    pub closed spec fn byte_patch_mounted(&self) -> BytePatchView {
        self.byte_patch_mounted@
    }

    /// The state of the roaming-path byte patch.
    pub closed spec fn byte_patch_roaming(&self) -> BytePatchView {
        self.byte_patch_roaming@
    }

    /// The patch at the addresses that the two signatures resolved to; the first
    /// failed resolution, in that order, is the error.
    pub fn init(
        load_decay_rate_mounted: Result<usize, String>,
        smoothing_fallback_cond_roaming: Result<usize, String>,
    ) -> (r: Result<Self, String>)
        ensures
            load_decay_rate_mounted is Err ==> r == Err::<Self, String>(
                load_decay_rate_mounted->Err_0,
            ),
            load_decay_rate_mounted is Ok && smoothing_fallback_cond_roaming is Err ==> r == Err::<
                Self,
                String,
            >(smoothing_fallback_cond_roaming->Err_0),
            load_decay_rate_mounted matches Ok(m) ==> (smoothing_fallback_cond_roaming matches Ok(
                c,
            ) ==> (r matches Ok(p) && p.byte_patch_mounted() == (BytePatchView {
                address: m,
                patch_bytes: seq![0x66u8, 0x0F, 0xEF, 0xC0, 0x90, 0x90, 0x90, 0x90],
                original_bytes: zeros(8),
                is_applied: false,
            }) && p.byte_patch_roaming() == (BytePatchView {
                address: c,
                patch_bytes: seq![0xEBu8],
                original_bytes: zeros(1),
                is_applied: false,
            }))),
    {
        let target_address_mounted_1 = match load_decay_rate_mounted {
            Ok(a) => a,
            Err(e) => return Err(e),
        };
        let target_address_roaming = match smoothing_fallback_cond_roaming {
            Ok(a) => a,
            Err(e) => return Err(e),
        };
        let patch_bytes_mounted_1: [u8; 8] = [0x66, 0x0F, 0xEF, 0xC0, 0x90, 0x90, 0x90, 0x90];
        let patch_bytes_roaming: [u8; 1] = [0xEB];
        assert(patch_bytes_mounted_1@ =~= seq![0x66u8, 0x0F, 0xEF, 0xC0, 0x90, 0x90, 0x90, 0x90]);
        assert(patch_bytes_roaming@ =~= seq![0xEBu8]);
        Ok(
            DisableCameraSmoothing {
                byte_patch_mounted: BytePatch::new(target_address_mounted_1, patch_bytes_mounted_1),
                byte_patch_roaming: BytePatch::new(target_address_roaming, patch_bytes_roaming),
            },
        )
    }
}

impl PatchInfo for DisableCameraSmoothing {
    open spec fn spec_name() -> Seq<char> {
        "Disable Camera Smoothing"@
    }

    open spec fn spec_config_key(&self) -> Option<Seq<char>> {
        Some("disable_camera_smoothing"@)
    }

    fn name() -> (r: &'static str) {
        "Disable Camera Smoothing"
    }

    fn config_key(&self) -> (r: Option<&'static str>) {
        Some("disable_camera_smoothing")
    }
}

impl<M: Memory> Patch<M> for DisableCameraSmoothing {
    /// `apply` writes the patch's parts in order, up to the first failure, and
    /// answers what the last write answered.
    open spec fn apply_answers(&self, before: M, after: M, r: Result<(), String>) -> bool {
        exists|r1: Result<(), String>, m1: M|
            #[trigger] apply_answer(before, m1, self.byte_patch_mounted(), r1) && then_step(
                r1,
                r,
                after == m1,
                apply_answer(m1, after, self.byte_patch_roaming(), r),
            )
    }

    /// `revert` writes back the saved bytes of the parts in reverse order, up to
    /// the first failure, and answers what the last write answered.
    open spec fn revert_answers(&self, before: M, after: M, r: Result<(), String>) -> bool {
        exists|r1: Result<(), String>, m1: M|
            #[trigger] revert_answer(before, m1, self.byte_patch_roaming(), r1) && then_step(
                r1,
                r,
                after == m1,
                revert_answer(m1, after, self.byte_patch_mounted(), r),
            )
    }

    /// Applies the mounted patch, then, if that worked, the roaming one.
    fn apply(&mut self, mem: &mut M) -> (r: Result<(), String>)
        ensures
            exists|r1: Result<(), String>, m1: M|
                #[trigger] apply_step(
                    *old(mem),
                    m1,
                    old(self).byte_patch_mounted(),
                    final(self).byte_patch_mounted(),
                    r1,
                ) && then_step(
                    r1,
                    r,
                    final(self).byte_patch_roaming() == old(self).byte_patch_roaming() && *final(mem) == m1,
                    apply_step(
                        m1,
                        *final(mem),
                        old(self).byte_patch_roaming(),
                        final(self).byte_patch_roaming(),
                        r,
                    ),
                ),
    {
        let ghost s_mounted = self.byte_patch_mounted();
        let ghost s_roaming = self.byte_patch_roaming();
        let ghost mem0 = *mem;
        let r1 = self.byte_patch_mounted.apply(mem);
        let ghost mem1 = *mem;
        if r1.is_err() {
            proof {
                assert(apply_step(mem0, mem1, s_mounted, self.byte_patch_mounted(), r1));
                assert(apply_answer(mem0, mem1, s_mounted, r1));
            }
            return r1;
        }
        let r = self.byte_patch_roaming.apply(mem);
        proof {
            let mem2 = *mem;
            assert(apply_step(mem0, mem1, s_mounted, self.byte_patch_mounted(), r1));
            assert(apply_answer(mem0, mem1, s_mounted, r1));
            assert(apply_step(mem1, mem2, s_roaming, self.byte_patch_roaming(), r));
            assert(apply_answer(mem1, mem2, s_roaming, r));
        }
        r
    }

    /// Reverts the roaming patch, then, if that worked, the mounted one.
    fn revert(&mut self, mem: &mut M) -> (r: Result<(), String>)
        ensures
            exists|r1: Result<(), String>, m1: M|
                #[trigger] revert_step(
                    *old(mem),
                    m1,
                    old(self).byte_patch_roaming(),
                    final(self).byte_patch_roaming(),
                    r1,
                ) && then_step(
                    r1,
                    r,
                    final(self).byte_patch_mounted() == old(self).byte_patch_mounted() && *final(mem) == m1,
                    revert_step(
                        m1,
                        *final(mem),
                        old(self).byte_patch_mounted(),
                        final(self).byte_patch_mounted(),
                        r,
                    ),
                ),
    {
        let ghost s_roaming = self.byte_patch_roaming();
        let ghost s_mounted = self.byte_patch_mounted();
        let ghost mem0 = *mem;
        let r1 = self.byte_patch_roaming.revert(mem);
        let ghost mem1 = *mem;
        if r1.is_err() {
            proof {
                assert(revert_step(mem0, mem1, s_roaming, self.byte_patch_roaming(), r1));
                assert(revert_answer(mem0, mem1, s_roaming, r1));
            }
            return r1;
        }
        let r = self.byte_patch_mounted.revert(mem);
        proof {
            let mem2 = *mem;
            assert(revert_step(mem0, mem1, s_roaming, self.byte_patch_roaming(), r1));
            assert(revert_answer(mem0, mem1, s_roaming, r1));
            assert(revert_step(mem1, mem2, s_mounted, self.byte_patch_mounted(), r));
            assert(revert_answer(mem1, mem2, s_mounted, r));
        }
        r
    }
}

} // verus!
