//! Even the lowest in-game sensitivity is too high for modern high-DPI mice.
//! Three places where the game multiplies the turn input by the frame time get a
//! `jmp` to a hook that also multiplies by a small factor and jumps back. The
//! hooks live with the caller; what is decided here is what is written where and
//! where each hook returns to.

use vstd::prelude::*;
use crate::framework::byte_patch::{apply_step, revert_step, then_step, BytePatch, BytePatchView, zeros, apply_answer, revert_answer};
use crate::framework::memory::Memory;
use crate::framework::patch::{Patch, PatchInfo};
use crate::framework::utils::{as_isize, get_jump_rel32, i32_to_le_bytes, is_jmp_patch};

verus! {

/// Bytes replaced at the roaming detour site.
pub const DISPLACEMENT_SIZE_ROAMING: usize = 0x14;

/// Bytes replaced at each aiming detour site.
pub const DISPLACEMENT_SIZE_AIMING: usize = 0x6;

/// The detour sites, as the signatures resolved them.
pub struct Targets {
    pub roaming: Result<usize, String>,
    pub aiming_x: Result<usize, String>,
    pub aiming_y: Result<usize, String>,
}

/// The addresses of the three hooks.
pub struct Hooks {
    pub roaming: usize,
    pub aiming_x: usize,
    pub aiming_y: usize,
}

/// A `jmp rel32` from `site` reaches `hook` without leaving the signed address
/// range, and the `size` bytes from `site` on are addresses.
pub open spec fn detour_fits(site: usize, hook: usize, size: usize) -> bool {
    &&& as_isize(site) + 5 <= isize::MAX
    &&& isize::MIN <= as_isize(hook) - (as_isize(site) + 5) <= isize::MAX
    &&& site + size <= usize::MAX
}

/// Every resolved detour site fits its hook.
pub open spec fn detours_fit(sites: Targets, hooks: Hooks) -> bool {
    &&& sites.roaming matches Ok(s) ==> detour_fits(s, hooks.roaming, DISPLACEMENT_SIZE_ROAMING)
    &&& sites.aiming_x matches Ok(s) ==> detour_fits(s, hooks.aiming_x, DISPLACEMENT_SIZE_AIMING)
    &&& sites.aiming_y matches Ok(s) ==> detour_fits(s, hooks.aiming_y, DISPLACEMENT_SIZE_AIMING)
}

/// A detour at `site` to `hook` over `size` bytes, not applied yet.
pub open spec fn fresh_detour(p: BytePatchView, site: usize, hook: usize, size: usize) -> bool {
    &&& p.address == site
    &&& p.patch_bytes.len() == size
    &&& is_jmp_patch(p.patch_bytes, site, hook)
    &&& p.original_bytes == zeros(size as nat)
    &&& !p.is_applied
}

/// Detours at the roaming site and at the two aiming sites.
pub struct MouseSensitivityFix {
    byte_patch_roaming: BytePatch<DISPLACEMENT_SIZE_ROAMING>,
    byte_patch_aiming_x: BytePatch<DISPLACEMENT_SIZE_AIMING>,
    byte_patch_aiming_y: BytePatch<DISPLACEMENT_SIZE_AIMING>,
}

fn detour_roaming(site: usize, hook: usize) -> (r: [u8; DISPLACEMENT_SIZE_ROAMING])
    requires
        detour_fits(site, hook, DISPLACEMENT_SIZE_ROAMING),
    ensures
        is_jmp_patch(r@, site, hook),
{
    let b = i32_to_le_bytes(get_jump_rel32(site, hook));
    let r: [u8; DISPLACEMENT_SIZE_ROAMING] = [
        0xE9, b[0], b[1], b[2], b[3],
        0x90, 0x90, 0x90, 0x90, 0x90,
        0x90, 0x90, 0x90, 0x90, 0x90,
        0x90, 0x90, 0x90, 0x90, 0x90,
    ];
    assert(r@.subrange(1, 5) =~= b@);
    r
}

fn detour_aiming(site: usize, hook: usize) -> (r: [u8; DISPLACEMENT_SIZE_AIMING])
    requires
        detour_fits(site, hook, DISPLACEMENT_SIZE_AIMING),
    ensures
        is_jmp_patch(r@, site, hook),
{
    let b = i32_to_le_bytes(get_jump_rel32(site, hook));
    let r: [u8; DISPLACEMENT_SIZE_AIMING] = [0xE9, b[0], b[1], b[2], b[3], 0x90];
    assert(r@.subrange(1, 5) =~= b@);
    r
}

impl MouseSensitivityFix {
    /// The state of the roaming detour.
    pub closed spec fn byte_patch_roaming(&self) -> BytePatchView {
        self.byte_patch_roaming@
    }

    /// The state of the horizontal aiming detour.
    pub closed spec fn byte_patch_aiming_x(&self) -> BytePatchView {
        self.byte_patch_aiming_x@
    }

    /// The state of the vertical aiming detour.
    pub closed spec fn byte_patch_aiming_y(&self) -> BytePatchView {
        self.byte_patch_aiming_y@
    }

    /// The detours from the resolved sites to the hooks; the first failed
    /// resolution, in the order roaming, horizontal aiming, vertical aiming, is
    /// the error.
    pub fn init(sites: Targets, hooks: Hooks) -> (r: Result<Self, String>)
        requires
            detours_fit(sites, hooks),
        ensures
            sites.roaming is Err ==> r == Err::<Self, String>(sites.roaming->Err_0),
            sites.roaming is Ok && sites.aiming_x is Err ==> r == Err::<Self, String>(
                sites.aiming_x->Err_0,
            ),
            sites.roaming is Ok && sites.aiming_x is Ok && sites.aiming_y is Err ==> r == Err::<
                Self,
                String,
            >(sites.aiming_y->Err_0),
            sites.roaming matches Ok(s0) ==> (sites.aiming_x matches Ok(s1) ==> (
            sites.aiming_y matches Ok(s2) ==> (r matches Ok(p) && fresh_detour(
                p.byte_patch_roaming(),
                s0,
                hooks.roaming,
                DISPLACEMENT_SIZE_ROAMING,
            ) && fresh_detour(p.byte_patch_aiming_x(), s1, hooks.aiming_x, DISPLACEMENT_SIZE_AIMING)
                && fresh_detour(
                p.byte_patch_aiming_y(),
                s2,
                hooks.aiming_y,
                DISPLACEMENT_SIZE_AIMING,
            )))),
    {
        let target_addr_roaming = match sites.roaming {
            Ok(a) => a,
            Err(e) => return Err(e),
        };
        let target_addr_aiming_x = match sites.aiming_x {
            Ok(a) => a,
            Err(e) => return Err(e),
        };
        let target_addr_aiming_y = match sites.aiming_y {
            Ok(a) => a,
            Err(e) => return Err(e),
        };
        let patch_bytes_detour_roaming = detour_roaming(target_addr_roaming, hooks.roaming);
        let patch_bytes_detour_aiming_x = detour_aiming(target_addr_aiming_x, hooks.aiming_x);
        let patch_bytes_detour_aiming_y = detour_aiming(target_addr_aiming_y, hooks.aiming_y);
        Ok(
            MouseSensitivityFix {
                byte_patch_roaming: BytePatch::new(target_addr_roaming, patch_bytes_detour_roaming),
                byte_patch_aiming_x: BytePatch::new(target_addr_aiming_x, patch_bytes_detour_aiming_x),
                byte_patch_aiming_y: BytePatch::new(target_addr_aiming_y, patch_bytes_detour_aiming_y),
            },
        )
    }

    /// Where the hooks jump back to: right after the bytes each detour replaces,
    /// for the roaming, horizontal and vertical aiming sites.
    pub fn return_addresses(&self) -> (r: (usize, usize, usize))
        requires
            self.byte_patch_roaming().address + DISPLACEMENT_SIZE_ROAMING <= usize::MAX,
            self.byte_patch_aiming_x().address + DISPLACEMENT_SIZE_AIMING <= usize::MAX,
            self.byte_patch_aiming_y().address + DISPLACEMENT_SIZE_AIMING <= usize::MAX,
        ensures
            r.0 == self.byte_patch_roaming().address + DISPLACEMENT_SIZE_ROAMING,
            r.1 == self.byte_patch_aiming_x().address + DISPLACEMENT_SIZE_AIMING,
            r.2 == self.byte_patch_aiming_y().address + DISPLACEMENT_SIZE_AIMING,
    {
        (
            self.byte_patch_roaming.address() + DISPLACEMENT_SIZE_ROAMING,
            self.byte_patch_aiming_x.address() + DISPLACEMENT_SIZE_AIMING,
            self.byte_patch_aiming_y.address() + DISPLACEMENT_SIZE_AIMING,
        )
    }
}

impl PatchInfo for MouseSensitivityFix {
    open spec fn spec_name() -> Seq<char> {
        "Mouse Sensitivity Fix"@
    }

    open spec fn spec_config_key(&self) -> Option<Seq<char>> {
        Some("mouse_sensitivity_fix"@)
    }

    fn name() -> (r: &'static str) {
        "Mouse Sensitivity Fix"
    }

    fn config_key(&self) -> (r: Option<&'static str>) {
        Some("mouse_sensitivity_fix")
    }
}

impl<M: Memory> Patch<M> for MouseSensitivityFix {
    /// `apply` writes the patch's parts in order, up to the first failure, and
    /// answers what the last write answered.
    open spec fn apply_answers(&self, before: M, after: M, r: Result<(), String>) -> bool {
        exists|r1: Result<(), String>, m1: M|
            #[trigger] apply_answer(before, m1, self.byte_patch_roaming(), r1) && then_step(
                r1,
                r,
                after == m1,
                exists|r2: Result<(), String>, m2: M|
                    #[trigger] apply_answer(m1, m2, self.byte_patch_aiming_x(), r2) && then_step(
                        r2,
                        r,
                        after == m2,
                        apply_answer(m2, after, self.byte_patch_aiming_y(), r),
                    ),
            )
    }

    /// `revert` writes back the saved bytes of the parts in reverse order, up to
    /// the first failure, and answers what the last write answered.
    open spec fn revert_answers(&self, before: M, after: M, r: Result<(), String>) -> bool {
        exists|r1: Result<(), String>, m1: M|
            #[trigger] revert_answer(before, m1, self.byte_patch_aiming_y(), r1) && then_step(
                r1,
                r,
                after == m1,
                exists|r2: Result<(), String>, m2: M|
                    #[trigger] revert_answer(m1, m2, self.byte_patch_aiming_x(), r2) && then_step(
                        r2,
                        r,
                        after == m2,
                        revert_answer(m2, after, self.byte_patch_roaming(), r),
                    ),
            )
    }

    /// Applies the roaming, horizontal and vertical aiming detours in that order,
    /// stopping at the first failure.
    fn apply(&mut self, mem: &mut M) -> (r: Result<(), String>)
        ensures
            exists|r1: Result<(), String>, m1: M|
                #[trigger] apply_step(
                    *old(mem),
                    m1,
                    old(self).byte_patch_roaming(),
                    final(self).byte_patch_roaming(),
                    r1,
                ) && then_step(
                    r1,
                    r,
                    final(self).byte_patch_aiming_x() == old(self).byte_patch_aiming_x() && final(self).byte_patch_aiming_y() == old(self).byte_patch_aiming_y() && *final(mem) == m1,
                    exists|r2: Result<(), String>, m2: M|
                        #[trigger] apply_step(
                            m1,
                            m2,
                            old(self).byte_patch_aiming_x(),
                            final(self).byte_patch_aiming_x(),
                            r2,
                        ) && then_step(
                            r2,
                            r,
                            final(self).byte_patch_aiming_y() == old(self).byte_patch_aiming_y() && *final(mem) == m2,
                            apply_step(
                                m2,
                                *final(mem),
                                old(self).byte_patch_aiming_y(),
                                final(self).byte_patch_aiming_y(),
                                r,
                            ),
                        ),
                ),
    {
        let ghost s_roaming = self.byte_patch_roaming();
        let ghost s_aiming_x = self.byte_patch_aiming_x();
        let ghost s_aiming_y = self.byte_patch_aiming_y();
        let ghost mem0 = *mem;
        let r1 = self.byte_patch_roaming.apply(mem);
        let ghost mem1 = *mem;
        if r1.is_err() {
            proof {
                assert(apply_step(mem0, mem1, s_roaming, self.byte_patch_roaming(), r1));
                assert(apply_answer(mem0, mem1, s_roaming, r1));
            }
            return r1;
        }
        let r2 = self.byte_patch_aiming_x.apply(mem);
        let ghost mem2 = *mem;
        if r2.is_err() {
            proof {
                assert(apply_step(mem0, mem1, s_roaming, self.byte_patch_roaming(), r1));
                assert(apply_answer(mem0, mem1, s_roaming, r1));
                assert(apply_step(mem1, mem2, s_aiming_x, self.byte_patch_aiming_x(), r2));
                assert(apply_answer(mem1, mem2, s_aiming_x, r2));
            }
            return r2;
        }
        let r = self.byte_patch_aiming_y.apply(mem);
        proof {
            let mem3 = *mem;
            assert(apply_step(mem0, mem1, s_roaming, self.byte_patch_roaming(), r1));
            assert(apply_answer(mem0, mem1, s_roaming, r1));
            assert(apply_step(mem1, mem2, s_aiming_x, self.byte_patch_aiming_x(), r2));
            assert(apply_answer(mem1, mem2, s_aiming_x, r2));
            assert(apply_step(mem2, mem3, s_aiming_y, self.byte_patch_aiming_y(), r));
            assert(apply_answer(mem2, mem3, s_aiming_y, r));
        }
        r
    }

    /// Reverts the vertical aiming, horizontal aiming and roaming detours in that
    /// order, stopping at the first failure.
    fn revert(&mut self, mem: &mut M) -> (r: Result<(), String>)
        ensures
            exists|r1: Result<(), String>, m1: M|
                #[trigger] revert_step(
                    *old(mem),
                    m1,
                    old(self).byte_patch_aiming_y(),
                    final(self).byte_patch_aiming_y(),
                    r1,
                ) && then_step(
                    r1,
                    r,
                    final(self).byte_patch_aiming_x() == old(self).byte_patch_aiming_x() && final(self).byte_patch_roaming() == old(self).byte_patch_roaming() && *final(mem) == m1,
                    exists|r2: Result<(), String>, m2: M|
                        #[trigger] revert_step(
                            m1,
                            m2,
                            old(self).byte_patch_aiming_x(),
                            final(self).byte_patch_aiming_x(),
                            r2,
                        ) && then_step(
                            r2,
                            r,
                            final(self).byte_patch_roaming() == old(self).byte_patch_roaming() && *final(mem) == m2,
                            revert_step(
                                m2,
                                *final(mem),
                                old(self).byte_patch_roaming(),
                                final(self).byte_patch_roaming(),
                                r,
                            ),
                        ),
                ),
    {
        let ghost s_aiming_y = self.byte_patch_aiming_y();
        let ghost s_aiming_x = self.byte_patch_aiming_x();
        let ghost s_roaming = self.byte_patch_roaming();
        let ghost mem0 = *mem;
        let r1 = self.byte_patch_aiming_y.revert(mem);
        let ghost mem1 = *mem;
        if r1.is_err() {
            proof {
                assert(revert_step(mem0, mem1, s_aiming_y, self.byte_patch_aiming_y(), r1));
                assert(revert_answer(mem0, mem1, s_aiming_y, r1));
            }
            return r1;
        }
        let r2 = self.byte_patch_aiming_x.revert(mem);
        let ghost mem2 = *mem;
        if r2.is_err() {
            proof {
                assert(revert_step(mem0, mem1, s_aiming_y, self.byte_patch_aiming_y(), r1));
                assert(revert_answer(mem0, mem1, s_aiming_y, r1));
                assert(revert_step(mem1, mem2, s_aiming_x, self.byte_patch_aiming_x(), r2));
                assert(revert_answer(mem1, mem2, s_aiming_x, r2));
            }
            return r2;
        }
        let r = self.byte_patch_roaming.revert(mem);
        proof {
            let mem3 = *mem;
            assert(revert_step(mem0, mem1, s_aiming_y, self.byte_patch_aiming_y(), r1));
            assert(revert_answer(mem0, mem1, s_aiming_y, r1));
            assert(revert_step(mem1, mem2, s_aiming_x, self.byte_patch_aiming_x(), r2));
            assert(revert_answer(mem1, mem2, s_aiming_x, r2));
            assert(revert_step(mem2, mem3, s_roaming, self.byte_patch_roaming(), r));
            assert(revert_answer(mem2, mem3, s_roaming, r));
        }
        r
    }
}

} // verus!
