//! The game limits the x and y turn factors and ignores movement inside a
//! dead zone. Removing the two limiting stores and the dead-zone jump passes raw
//! mouse movement through.

use vstd::prelude::*;
use crate::framework::byte_patch::{apply_step, revert_step, then_step, BytePatch, BytePatchView, zeros, apply_answer, revert_answer};
use crate::framework::memory::Memory;
use crate::framework::patch::{Patch, PatchInfo};

verus! {

/// `nop`s over the x-limit store, the y-limit store and the dead-zone jump.
pub struct DisableMouseAccel {
    byte_patch_x_limit: BytePatch<8>,
    byte_patch_y_limit: BytePatch<8>,
    byte_patch_deadzone: BytePatch<6>,
}

/// A byte patch at `address` of `bytes`, not applied yet.
pub open spec fn fresh(address: usize, bytes: Seq<u8>) -> BytePatchView {
    BytePatchView { address, patch_bytes: bytes, original_bytes: zeros(bytes.len()), is_applied: false }
}

impl DisableMouseAccel {
    /// The state of the x-limit byte patch.
    pub closed spec fn byte_patch_x_limit(&self) -> BytePatchView {
        self.byte_patch_x_limit@
    }

    /// The state of the y-limit byte patch.
    pub closed spec fn byte_patch_y_limit(&self) -> BytePatchView {
        self.byte_patch_y_limit@
    }

    /// The state of the dead-zone byte patch.
    pub closed spec fn byte_patch_deadzone(&self) -> BytePatchView {
        self.byte_patch_deadzone@
    }

    /// The patch from the addresses the three signatures resolved to: the limit
    /// stores lie `0x41` bytes past their anchors; the dead-zone jump is where its
    /// signature points. The first failed resolution, in that order, is the
    /// error.
    pub fn init(
        limit_x_factor_anchor: Result<usize, String>,
        limit_y_factor_anchor: Result<usize, String>,
        input_deadzone_cond: Result<usize, String>,
    ) -> (r: Result<Self, String>)
        requires
            limit_x_factor_anchor matches Ok(a) ==> a + 0x41 <= usize::MAX,
            limit_y_factor_anchor matches Ok(a) ==> a + 0x41 <= usize::MAX,
        ensures
            limit_x_factor_anchor is Err ==> r == Err::<Self, String>(limit_x_factor_anchor->Err_0),
            limit_x_factor_anchor is Ok && limit_y_factor_anchor is Err ==> r == Err::<Self, String>(
                limit_y_factor_anchor->Err_0,
            ),
            limit_x_factor_anchor is Ok && limit_y_factor_anchor is Ok && input_deadzone_cond is Err
                ==> r == Err::<Self, String>(input_deadzone_cond->Err_0),
            limit_x_factor_anchor matches Ok(x) ==> (limit_y_factor_anchor matches Ok(y) ==> (
            input_deadzone_cond matches Ok(d) ==> (r matches Ok(p) && p.byte_patch_x_limit()
                == fresh((x + 0x41) as usize, Seq::new(8, |i: int| 0x90u8)) && p.byte_patch_y_limit()
                == fresh((y + 0x41) as usize, Seq::new(8, |i: int| 0x90u8))
                && p.byte_patch_deadzone() == fresh(d, Seq::new(6, |i: int| 0x90u8))))),
    {
        let target_x_factor = match limit_x_factor_anchor {
            Ok(a) => a + 0x41,
            Err(e) => return Err(e),
        };
        let target_y_factor = match limit_y_factor_anchor {
            Ok(a) => a + 0x41,
            Err(e) => return Err(e),
        };
        let target_deadzone = match input_deadzone_cond {
            Ok(a) => a,
            Err(e) => return Err(e),
        };
        let patch_bytes_factors: [u8; 8] = [0x90, 0x90, 0x90, 0x90, 0x90, 0x90, 0x90, 0x90];
        let patch_bytes_deadzone: [u8; 6] = [0x90, 0x90, 0x90, 0x90, 0x90, 0x90];
        assert(patch_bytes_factors@ =~= Seq::new(8, |i: int| 0x90u8));
        assert(patch_bytes_deadzone@ =~= Seq::new(6, |i: int| 0x90u8));
        Ok(
            DisableMouseAccel {
                byte_patch_x_limit: BytePatch::new(target_x_factor, patch_bytes_factors),
                byte_patch_y_limit: BytePatch::new(target_y_factor, patch_bytes_factors),
                byte_patch_deadzone: BytePatch::new(target_deadzone, patch_bytes_deadzone),
            },
        )
    }
}

impl PatchInfo for DisableMouseAccel {
    open spec fn spec_name() -> Seq<char> {
        "Disable Input Clamp"@
    }

    open spec fn spec_config_key(&self) -> Option<Seq<char>> {
        Some("disable_input_clamp"@)
    }

    fn name() -> (r: &'static str) {
        "Disable Input Clamp"
    }

    fn config_key(&self) -> (r: Option<&'static str>) {
        Some("disable_input_clamp")
    }
}

impl<M: Memory> Patch<M> for DisableMouseAccel {
    /// `apply` writes the patch's parts in order, up to the first failure, and
    /// answers what the last write answered.
    open spec fn apply_answers(&self, before: M, after: M, r: Result<(), String>) -> bool {
        exists|r1: Result<(), String>, m1: M|
            #[trigger] apply_answer(before, m1, self.byte_patch_x_limit(), r1) && then_step(
                r1,
                r,
                after == m1,
                exists|r2: Result<(), String>, m2: M|
                    #[trigger] apply_answer(m1, m2, self.byte_patch_y_limit(), r2) && then_step(
                        r2,
                        r,
                        after == m2,
                        apply_answer(m2, after, self.byte_patch_deadzone(), r),
                    ),
            )
    }

    /// `revert` writes back the saved bytes of the parts in reverse order, up to
    /// the first failure, and answers what the last write answered.
    open spec fn revert_answers(&self, before: M, after: M, r: Result<(), String>) -> bool {
        exists|r1: Result<(), String>, m1: M|
            #[trigger] revert_answer(before, m1, self.byte_patch_deadzone(), r1) && then_step(
                r1,
                r,
                after == m1,
                exists|r2: Result<(), String>, m2: M|
                    #[trigger] revert_answer(m1, m2, self.byte_patch_y_limit(), r2) && then_step(
                        r2,
                        r,
                        after == m2,
                        revert_answer(m2, after, self.byte_patch_x_limit(), r),
                    ),
            )
    }

    /// Applies the x-limit, y-limit and dead-zone patches in that order, stopping
    /// at the first failure.
    fn apply(&mut self, mem: &mut M) -> (r: Result<(), String>)
        ensures
            exists|r1: Result<(), String>, m1: M|
                #[trigger] apply_step(
                    *old(mem),
                    m1,
                    old(self).byte_patch_x_limit(),
                    final(self).byte_patch_x_limit(),
                    r1,
                ) && then_step(
                    r1,
                    r,
                    final(self).byte_patch_y_limit() == old(self).byte_patch_y_limit() && final(self).byte_patch_deadzone() == old(self).byte_patch_deadzone() && *final(mem) == m1,
                    exists|r2: Result<(), String>, m2: M|
                        #[trigger] apply_step(
                            m1,
                            m2,
                            old(self).byte_patch_y_limit(),
                            final(self).byte_patch_y_limit(),
                            r2,
                        ) && then_step(
                            r2,
                            r,
                            final(self).byte_patch_deadzone() == old(self).byte_patch_deadzone() && *final(mem) == m2,
                            apply_step(
                                m2,
                                *final(mem),
                                old(self).byte_patch_deadzone(),
                                final(self).byte_patch_deadzone(),
                                r,
                            ),
                        ),
                ),
    {
        let ghost s_x_limit = self.byte_patch_x_limit();
        let ghost s_y_limit = self.byte_patch_y_limit();
        let ghost s_deadzone = self.byte_patch_deadzone();
        let ghost mem0 = *mem;
        let r1 = self.byte_patch_x_limit.apply(mem);
        let ghost mem1 = *mem;
        if r1.is_err() {
            proof {
                assert(apply_step(mem0, mem1, s_x_limit, self.byte_patch_x_limit(), r1));
                assert(apply_answer(mem0, mem1, s_x_limit, r1));
            }
            return r1;
        }
        let r2 = self.byte_patch_y_limit.apply(mem);
        let ghost mem2 = *mem;
        if r2.is_err() {
            proof {
                assert(apply_step(mem0, mem1, s_x_limit, self.byte_patch_x_limit(), r1));
                assert(apply_answer(mem0, mem1, s_x_limit, r1));
                assert(apply_step(mem1, mem2, s_y_limit, self.byte_patch_y_limit(), r2));
                assert(apply_answer(mem1, mem2, s_y_limit, r2));
            }
            return r2;
        }
        let r = self.byte_patch_deadzone.apply(mem);
        proof {
            let mem3 = *mem;
            assert(apply_step(mem0, mem1, s_x_limit, self.byte_patch_x_limit(), r1));
            assert(apply_answer(mem0, mem1, s_x_limit, r1));
            assert(apply_step(mem1, mem2, s_y_limit, self.byte_patch_y_limit(), r2));
            assert(apply_answer(mem1, mem2, s_y_limit, r2));
            assert(apply_step(mem2, mem3, s_deadzone, self.byte_patch_deadzone(), r));
            assert(apply_answer(mem2, mem3, s_deadzone, r));
        }
        r
    }

    /// Reverts the dead-zone, y-limit and x-limit patches in that order, stopping
    /// at the first failure.
    fn revert(&mut self, mem: &mut M) -> (r: Result<(), String>)
        ensures
            exists|r1: Result<(), String>, m1: M|
                #[trigger] revert_step(
                    *old(mem),
                    m1,
                    old(self).byte_patch_deadzone(),
                    final(self).byte_patch_deadzone(),
                    r1,
                ) && then_step(
                    r1,
                    r,
                    final(self).byte_patch_y_limit() == old(self).byte_patch_y_limit() && final(self).byte_patch_x_limit() == old(self).byte_patch_x_limit() && *final(mem) == m1,
                    exists|r2: Result<(), String>, m2: M|
                        #[trigger] revert_step(
                            m1,
                            m2,
                            old(self).byte_patch_y_limit(),
                            final(self).byte_patch_y_limit(),
                            r2,
                        ) && then_step(
                            r2,
                            r,
                            final(self).byte_patch_x_limit() == old(self).byte_patch_x_limit() && *final(mem) == m2,
                            revert_step(
                                m2,
                                *final(mem),
                                old(self).byte_patch_x_limit(),
                                final(self).byte_patch_x_limit(),
                                r,
                            ),
                        ),
                ),
    {
        let ghost s_deadzone = self.byte_patch_deadzone();
        let ghost s_y_limit = self.byte_patch_y_limit();
        let ghost s_x_limit = self.byte_patch_x_limit();
        let ghost mem0 = *mem;
        let r1 = self.byte_patch_deadzone.revert(mem);
        let ghost mem1 = *mem;
        if r1.is_err() {
            proof {
                assert(revert_step(mem0, mem1, s_deadzone, self.byte_patch_deadzone(), r1));
                assert(revert_answer(mem0, mem1, s_deadzone, r1));
            }
            return r1;
        }
        let r2 = self.byte_patch_y_limit.revert(mem);
        let ghost mem2 = *mem;
        if r2.is_err() {
            proof {
                assert(revert_step(mem0, mem1, s_deadzone, self.byte_patch_deadzone(), r1));
                assert(revert_answer(mem0, mem1, s_deadzone, r1));
                assert(revert_step(mem1, mem2, s_y_limit, self.byte_patch_y_limit(), r2));
                assert(revert_answer(mem1, mem2, s_y_limit, r2));
            }
            return r2;
        }
        let r = self.byte_patch_x_limit.revert(mem);
        proof {
            let mem3 = *mem;
            assert(revert_step(mem0, mem1, s_deadzone, self.byte_patch_deadzone(), r1));
            assert(revert_answer(mem0, mem1, s_deadzone, r1));
            assert(revert_step(mem1, mem2, s_y_limit, self.byte_patch_y_limit(), r2));
            assert(revert_answer(mem1, mem2, s_y_limit, r2));
            assert(revert_step(mem2, mem3, s_x_limit, self.byte_patch_x_limit(), r));
            assert(revert_answer(mem2, mem3, s_x_limit, r));
        }
        r
    }
}

} // verus!
