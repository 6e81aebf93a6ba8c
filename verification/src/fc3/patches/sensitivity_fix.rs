//! The sensitivity fix hooks the code right after the instruction that loads the
//! sensitivity; the hook multiplies the loaded value by a factor and jumps back
//! through the trampoline. The hook routine itself lives with the caller, who
//! hands over how to install and remove it; what is decided here is where the
//! hook goes and what installing and removing it report.

use vstd::prelude::*;
use crate::framework::hook::{hook_failure_text, installs_anywhere, uninstalls_anywhere, Hook, Trampoline};
use crate::framework::memory::Memory;
use crate::framework::patch::{Patch, PatchInfo};

verus! {

/// Where the hook is installed: right after the 5-byte instruction that the
/// `LOAD_SENSITIVITY` signature finds.
pub fn hook_target(load_sensitivity: Result<usize, String>) -> (r: Result<usize, String>)
    requires
        load_sensitivity matches Ok(a) ==> a + 5 <= usize::MAX,
    ensures
        load_sensitivity matches Ok(a) ==> r == Ok::<usize, String>((a + 5) as usize),
        load_sensitivity is Err ==> r == load_sensitivity,
{
    match load_sensitivity {
        Ok(a) => Ok(a + 5),
        Err(e) => Err(e),
    }
}

/// The hook on the sensitivity load, with the means to install and remove it.
pub struct SensitivityFix<I, U> where
    I: Fn(usize) -> Option<Trampoline>,
    U: Fn(usize, Trampoline) -> Option<()>,
 {
    hook: Hook,
    install: I,
    uninstall: U,
}

impl<I, U> SensitivityFix<I, U> where
    I: Fn(usize) -> Option<Trampoline>,
    U: Fn(usize, Trampoline) -> Option<()>,
 {
    #[verifier::type_invariant]
    spec fn callable(self) -> bool {
        installs_anywhere(&self.install) && uninstalls_anywhere(&self.uninstall)
    }

    /// The hook.
    pub closed spec fn hook(&self) -> Hook {
        self.hook
    }

    /// The installer the patch was built with.
    pub closed spec fn installer(&self) -> I {
        self.install
    }

    /// The uninstaller the patch was built with.
    pub closed spec fn uninstaller(&self) -> U {
        self.uninstall
    }

    /// The patch with its hook right after the sensitivity load that the
    /// signature resolved to (see `hook_target`), not installed; the
    /// signature's error otherwise.
    pub fn init(load_sensitivity: Result<usize, String>, install: I, uninstall: U) -> (r: Result<
        Self,
        String,
    >)
        requires
            load_sensitivity matches Ok(a) ==> a + 5 <= usize::MAX,
            installs_anywhere(&install),
            uninstalls_anywhere(&uninstall),
        ensures
            load_sensitivity is Err ==> r == Err::<Self, String>(load_sensitivity->Err_0),
            load_sensitivity matches Ok(a) ==> r matches Ok(p) && p.hook().target() == a + 5
                && p.hook().installed() is None && p.installer() == install,
    {
        let target_address = match hook_target(load_sensitivity) {
            Ok(t) => t,
            Err(e) => return Err(e),
        };
        Ok(SensitivityFix { hook: Hook::new(target_address), install, uninstall })
    }

    /// The trampoline of the installed hook, through which the hook routine
    /// jumps back.
    pub fn trampoline(&self) -> (r: Option<Trampoline>)
        ensures
            r == self.hook().installed(),
    {
        self.hook.trampoline()
    }
}

impl<I, U> PatchInfo for SensitivityFix<I, U> where
    I: Fn(usize) -> Option<Trampoline>,
    U: Fn(usize, Trampoline) -> Option<()>,
 {
    open spec fn spec_name() -> Seq<char> {
        "Sensitivity Fix"@
    }

    open spec fn spec_config_key(&self) -> Option<Seq<char>> {
        Some("sensitivity_fix"@)
    }

    fn name() -> (r: &'static str) {
        "Sensitivity Fix"
    }

    fn config_key(&self) -> (r: Option<&'static str>) {
        Some("sensitivity_fix")
    }
}

impl<M: Memory, I, U> Patch<M> for SensitivityFix<I, U> where
    I: Fn(usize) -> Option<Trampoline>,
    U: Fn(usize, Trampoline) -> Option<()>,
 {
    /// `apply` succeeds exactly when the installer hooks the target, and fails with
    /// `failed to hook function at 0x..` otherwise; memory is left to the
    /// installer.
    open spec fn apply_answers(&self, before: M, after: M, r: Result<(), String>) -> bool {
        &&& after == before
        &&& r is Ok ==> exists|t: Trampoline|
            #[trigger] self.installer().ensures((self.hook().target(),), Some(t))
        &&& r is Err ==> self.installer().ensures((self.hook().target(),), None::<Trampoline>)
            && r->Err_0@ == hook_failure_text(self.hook().target())
    }

    /// `revert` always succeeds, after handing an installed hook to the
    /// uninstaller; memory is left to the uninstaller.
    open spec fn revert_answers(&self, before: M, after: M, r: Result<(), String>) -> bool {
        &&& after == before
        &&& r is Ok
        &&& self.hook().installed() matches Some(t) ==> exists|answer: Option<()>|
            #[trigger] self.uninstaller().ensures((self.hook().target(), t), answer)
    }

    /// Installs the hook (again, if it is installed); fails with `failed to hook
    /// function at 0x..` if that does not work.
    fn apply(&mut self, mem: &mut M) -> (r: Result<(), String>)
        ensures
            final(self).hook().target() == old(self).hook().target(),
            r is Ok ==> exists|t: Trampoline|
                old(self).installer().ensures((old(self).hook().target(),), Some(t))
                    && final(self).hook().installed() == Some(t),
            r is Err ==> old(self).installer().ensures(
                (old(self).hook().target(),),
                None::<Trampoline>,
            ) && final(self).hook().installed() == old(self).hook().installed()
                && r->Err_0@ == hook_failure_text(old(self).hook().target()),
    {
        proof {
            use_type_invariant(&*self);
        }
        let mut hook = self.hook;
        let r = hook.apply_detour(&self.install);
        assert(old(self).installer() == self.install);
        self.hook = hook;
        r
    }

    /// Removes the hook if it is installed; always succeeds.
    fn revert(&mut self, mem: &mut M) -> (r: Result<(), String>)
        ensures
            r is Ok,
            final(self).hook().target() == old(self).hook().target(),
            final(self).hook().installed() is None,
            old(self).hook().installed() matches Some(t) ==> exists|answer: Option<()>|
                old(self).uninstaller().ensures((old(self).hook().target(), t), answer),
    {
        proof {
            use_type_invariant(&*self);
        }
        let mut hook = self.hook;
        let r = hook.revert_detour(&self.uninstall);
        assert(old(self).uninstaller() == self.uninstall);
        self.hook = hook;
        r
    }
}

} // verus!
