//! The mouse sensitivity is kept constant whatever the frame rate: the function
//! that computes the axis movement is hooked, and the hook multiplies the
//! movement by a factor inversely proportional to the frame time, with the
//! sensitivity at 60 FPS as the reference. The hook routine, which reads the
//! frame time from the game's root clock, lives with the caller; what is decided
//! here is which function is hooked, where the root clock is, and what installing
//! and removing the hook report.

use vstd::prelude::*;
use vstd::string::StringExecFns;
use crate::framework::hook::{hook_failure_text, installs_anywhere, uninstalls_anywhere, Hook, Trampoline};
use crate::framework::memory::Memory;
use crate::framework::patch::{Patch, PatchInfo};
use crate::framework::utils::{relative_target, resolve_relative_target, Inst};

verus! {

/// An instruction found by a signature, whose relative target can be resolved.
pub open spec fn resolvable(found: Result<Option<Inst>, String>) -> bool {
    found matches Ok(Some(i)) ==> i.address + i.bytes@.len() <= usize::MAX
}

/// What resolving the target of the instruction found by a signature gives,
/// errors by their text: the signature's error; `failed to disassemble` if there
/// was no instruction there; `missing` if it has no target; the target
/// otherwise.
pub open spec fn resolved(found: Result<Option<Inst>, String>, missing: Seq<char>) -> Result<
    usize,
    Seq<char>,
> {
    match found {
        Err(e) => Err(e@),
        Ok(None) => Err("failed to disassemble"@),
        Ok(Some(i)) => match relative_target(i.address, i.bytes@) {
            Some(t) => Ok(t),
            None => Err(missing),
        },
    }
}

/// The function to hook and the address of the root clock, errors by their
/// text: see `hook_targets`.
pub open spec fn targets_of(
    get_axis_movement_call: Result<Option<Inst>, String>,
    root_clock_access: Result<Option<Inst>, String>,
) -> Result<(usize, usize), Seq<char>> {
    match resolved(get_axis_movement_call, "failed to extract call target"@) {
        Err(m) => Err(m),
        Ok(target) => match resolved(root_clock_access, "failed to extract root clock address"@) {
            Err(m) => Err(m),
            Ok(clock) => Ok((target, clock)),
        },
    }
}

fn resolve_found(found: Result<Option<Inst>, String>, missing: &str) -> (r: Result<usize, String>)
    requires
        resolvable(found),
    ensures
        match resolved(found, missing@) {
            Ok(t) => r == Ok::<usize, String>(t),
            Err(m) => r matches Err(e) && e@ == m,
        },
{
    proof {
        reveal_strlit("failed to disassemble");
    }
    match found {
        Err(e) => Err(e),
        Ok(None) => Err(String::from_str("failed to disassemble")),
        Ok(Some(inst)) => match resolve_relative_target(&inst) {
            Some(t) => Ok(t),
            None => Err(String::from_str(missing)),
        },
    }
}

/// The function to hook and the address of the root clock: the targets of the
/// call found by the `GET_AXIS_MOVEMENT_CALL` signature and of the access found
/// by the `ROOT_CLOCK_ACCESS` signature, each given as the decoded instruction
/// (`None` if it could not be decoded) or the signature's error. The first
/// failure, in that order, is the error: the signature's, `failed to
/// disassemble`, `failed to extract call target` or `failed to extract root
/// clock address`.
pub fn hook_targets(
    get_axis_movement_call: Result<Option<Inst>, String>,
    root_clock_access: Result<Option<Inst>, String>,
) -> (r: Result<(usize, usize), String>)
    requires
        resolvable(get_axis_movement_call),
        resolvable(root_clock_access),
    ensures
        match targets_of(get_axis_movement_call, root_clock_access) {
            Ok(t) => r == Ok::<(usize, usize), String>(t),
            Err(m) => r matches Err(e) && e@ == m,
        },
{
    proof {
        reveal_strlit("failed to extract call target");
        reveal_strlit("failed to extract root clock address");
    }
    let target = match resolve_found(get_axis_movement_call, "failed to extract call target") {
        Ok(t) => t,
        Err(e) => return Err(e),
    };
    let clock = match resolve_found(root_clock_access, "failed to extract root clock address") {
        Ok(c) => c,
        Err(e) => return Err(e),
    };
    Ok((target, clock))
}

/// The hook on the axis-movement function, with the root clock's address and
/// the means to install and remove the hook.
pub struct MouseSensitivityFix<I, U> where
    I: Fn(usize) -> Option<Trampoline>,
    U: Fn(usize, Trampoline) -> Option<()>,
 {
    hook: Hook,
    root_clock_address: usize,
    install: I,
    uninstall: U,
}

impl<I, U> MouseSensitivityFix<I, U> where
    I: Fn(usize) -> Option<Trampoline>,
    U: Fn(usize, Trampoline) -> Option<()>,
 {
    #[verifier::type_invariant]
    spec fn callable(self) -> bool {
        installs_anywhere(&self.install) && uninstalls_anywhere(&self.uninstall)
    }

    /// The hook.
    pub closed spec fn hook(&self) -> Hook {
        self.hook
    }

    /// The address of the root clock.
    pub closed spec fn clock(&self) -> usize {
        self.root_clock_address
    }

    /// The installer the patch was built with.
    pub closed spec fn installer(&self) -> I {
        self.install
    }

    /// The uninstaller the patch was built with.
    pub closed spec fn uninstaller(&self) -> U {
        self.uninstall
    }

    /// The patch on the function and root clock that `hook_targets` finds, not
    /// installed; its error otherwise.
    pub fn init(
        get_axis_movement_call: Result<Option<Inst>, String>,
        root_clock_access: Result<Option<Inst>, String>,
        install: I,
        uninstall: U,
    ) -> (r: Result<Self, String>)
        requires
            resolvable(get_axis_movement_call),
            resolvable(root_clock_access),
            installs_anywhere(&install),
            uninstalls_anywhere(&uninstall),
        ensures
            match targets_of(get_axis_movement_call, root_clock_access) {
                Ok((target, clock)) => r matches Ok(p) && p.hook().target() == target
                    && p.hook().installed() is None && p.clock() == clock && p.installer() == install,
                Err(m) => r matches Err(e) && e@ == m,
            },
    {
        match hook_targets(get_axis_movement_call, root_clock_access) {
            Ok((target, clock)) => Ok(
                MouseSensitivityFix {
                    hook: Hook::new(target),
                    root_clock_address: clock,
                    install,
                    uninstall,
                },
            ),
            Err(e) => Err(e),
        }
    }

    /// The address of the root clock, from which the hook routine reads the frame
    /// time.
    pub fn root_clock_address(&self) -> (r: usize)
        ensures
            r == self.clock(),
    {
        self.root_clock_address
    }

    /// The trampoline of the installed hook, which runs the original function.
    pub fn trampoline(&self) -> (r: Option<Trampoline>)
        ensures
            r == self.hook().installed(),
    {
        self.hook.trampoline()
    }
}

impl<I, U> PatchInfo for MouseSensitivityFix<I, U> where
    I: Fn(usize) -> Option<Trampoline>,
    U: Fn(usize, Trampoline) -> Option<()>,
 {
    open spec fn spec_name() -> Seq<char> {
        "Mouse Sensitivity Fix"@
    }

    open spec fn spec_config_key(&self) -> Option<Seq<char>> {
        Some("mouse_sensitivity_fix"@)
    }

    fn name() -> (r: &'static str) {
        "Mouse Sensitivity Fix"
    }

    fn config_key(&self) -> (r: Option<&'static str>) {
        Some("mouse_sensitivity_fix")
    }
}

impl<M: Memory, I, U> Patch<M> for MouseSensitivityFix<I, U> where
    I: Fn(usize) -> Option<Trampoline>,
    U: Fn(usize, Trampoline) -> Option<()>,
 {
    /// `apply` succeeds exactly when the installer hooks the target, and fails with
    /// `failed to hook function at 0x..` otherwise; memory is left to the
    /// installer.
    open spec fn apply_answers(&self, before: M, after: M, r: Result<(), String>) -> bool {
        &&& after == before
        &&& r is Ok ==> exists|t: Trampoline|
            #[trigger] self.installer().ensures((self.hook().target(),), Some(t))
        &&& r is Err ==> self.installer().ensures((self.hook().target(),), None::<Trampoline>)
            && r->Err_0@ == hook_failure_text(self.hook().target())
    }

    /// `revert` always succeeds, after handing an installed hook to the
    /// uninstaller; memory is left to the uninstaller.
    open spec fn revert_answers(&self, before: M, after: M, r: Result<(), String>) -> bool {
        &&& after == before
        &&& r is Ok
        &&& self.hook().installed() matches Some(t) ==> exists|answer: Option<()>|
            #[trigger] self.uninstaller().ensures((self.hook().target(), t), answer)
    }

    /// Installs the hook (again, if it is installed); fails with `failed to hook
    /// function at 0x..` if that does not work.
    fn apply(&mut self, mem: &mut M) -> (r: Result<(), String>)
        ensures
            final(self).hook().target() == old(self).hook().target(),
            final(self).clock() == old(self).clock(),
            r is Ok ==> exists|t: Trampoline|
                old(self).installer().ensures((old(self).hook().target(),), Some(t))
                    && final(self).hook().installed() == Some(t),
            r is Err ==> old(self).installer().ensures(
                (old(self).hook().target(),),
                None::<Trampoline>,
            ) && final(self).hook().installed() == old(self).hook().installed()
                && r->Err_0@ == hook_failure_text(old(self).hook().target()),
    {
        proof {
            use_type_invariant(&*self);
        }
        let mut hook = self.hook;
        let r = hook.apply_detour(&self.install);
        assert(old(self).installer() == self.install);
        self.hook = hook;
        r
    }

    /// Removes the hook if it is installed; always succeeds.
    fn revert(&mut self, mem: &mut M) -> (r: Result<(), String>)
        ensures
            r is Ok,
            final(self).hook().target() == old(self).hook().target(),
            final(self).hook().installed() is None,
            old(self).hook().installed() matches Some(t) ==> exists|answer: Option<()>|
                old(self).uninstaller().ensures((old(self).hook().target(), t), answer),
    {
        proof {
            use_type_invariant(&*self);
        }
        let mut hook = self.hook;
        let r = hook.revert_detour(&self.uninstall);
        assert(old(self).uninstaller() == self.uninstall);
        self.hook = hook;
        r
    }
}

} // verus!
