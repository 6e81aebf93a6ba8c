//! Code hooks: a jump written over the start of a function, with the displaced
//! instructions kept in a trampoline.
//!
//! Installing and removing a hook rewrites code of the running process, so the
//! library does neither itself: whoever drives a hook hands it `install(target)`,
//! which hooks the code at `target` and gives the trampoline (or `None` if it
//! could not), and `uninstall(target, trampoline)`, which restores the code and
//! says whether that worked. The library keeps track of what is installed.

use vstd::prelude::*;
use vstd::string::StringExecFns;
use crate::framework::fmt::{append_digits, digits};

verus! {

/// The trampoline of an installed hook: the relocated original instructions,
/// followed by a jump back.
#[derive(Clone, Copy)]
pub struct Trampoline {
    /// Where the trampoline starts; calling it runs the original function.
    pub address: usize,
    /// How many bytes the hook displaced.
    pub size: usize,
}

/// A hook of the code at a fixed address and the trampoline it installed, if it
/// is installed.
#[derive(Clone, Copy)]
pub struct Hook {
    target_address: usize,
    trampoline: Option<Trampoline>,
}

/// `install` may be called on any address.
pub open spec fn installs_anywhere<I: Fn(usize) -> Option<Trampoline>>(install: &I) -> bool {
    forall|target: usize| #[trigger] install.requires((target,))
}

/// `uninstall` may be called on any address and trampoline.
pub open spec fn uninstalls_anywhere<U: Fn(usize, Trampoline) -> Option<()>>(uninstall: &U) -> bool {
    forall|target: usize, t: Trampoline| #[trigger] uninstall.requires((target, t))
}

/// The text of a failed hook installation at `target`: `failed to hook function
/// at 0x` and the address in lower-case hexadecimal.
pub open spec fn hook_failure_text(target: usize) -> Seq<char> {
    "failed to hook function at 0x"@ + digits(target as nat, 16, false)
}

impl Hook {
    /// The address whose code the hook replaces.
    pub closed spec fn target(&self) -> usize {
        self.target_address
    }

    /// The trampoline of the installed hook; `None` when it is not installed.
    pub closed spec fn installed(&self) -> Option<Trampoline> {
        self.trampoline
    }

    /// A hook of the code at `target_address`, not installed.
    pub fn new(target_address: usize) -> (r: Self)
        ensures
            r.target() == target_address,
            r.installed() is None,
    {
        Hook { target_address, trampoline: None }
    }

    /// The address whose code the hook replaces.
    pub fn target_address(&self) -> (r: usize)
        ensures
            r == self.target(),
    {
        self.target_address
    }

    /// The trampoline of the installed hook, if it is installed.
    pub fn trampoline(&self) -> (r: Option<Trampoline>)
        ensures
            r == self.installed(),
    {
        self.trampoline
    }

    /// Hooks the target with `install`, whether or not a hook is installed
    /// already, and keeps the new trampoline. Returns whether `install`
    /// succeeded; if it did not, nothing changes.
    pub fn install<I: Fn(usize) -> Option<Trampoline>>(&mut self, install: &I) -> (r: bool)
        requires
            install.requires((old(self).target(),)),
        ensures
            final(self).target() == old(self).target(),
            r ==> exists|t: Trampoline|
                install.ensures((old(self).target(),), Some(t)) && final(self).installed() == Some(t),
            !r ==> install.ensures((old(self).target(),), None::<Trampoline>)
                && final(self).installed() == old(self).installed(),
    {
        match install(self.target_address) {
            Some(t) => {
                self.trampoline = Some(t);
                true
            },
            None => false,
        }
    }

    /// Removes the hook, if it is installed, with `uninstall`, and forgets its
    /// trampoline whatever `uninstall` answers. Returns that answer; `Some(())`
    /// when nothing was installed.
    pub fn uninstall<U: Fn(usize, Trampoline) -> Option<()>>(&mut self, uninstall: &U) -> (r: Option<
        (),
    >)
        requires
            old(self).installed() matches Some(t) ==> uninstall.requires((old(self).target(), t)),
        ensures
            final(self).target() == old(self).target(),
            final(self).installed() is None,
            old(self).installed() is None ==> r == Some(()),
            old(self).installed() matches Some(t) ==> uninstall.ensures((old(self).target(), t), r),
    {
        match self.trampoline.take() {
            Some(t) => uninstall(self.target_address, t),
            None => Some(()),
        }
    }

    /// Hooks the target with `install`; fails with `failed to hook function at
    /// 0x..` (the target in hexadecimal) if `install` does.
    pub fn apply_detour<I: Fn(usize) -> Option<Trampoline>>(&mut self, install: &I) -> (r: Result<
        (),
        String,
    >)
        requires
            install.requires((old(self).target(),)),
        ensures
            final(self).target() == old(self).target(),
            r is Ok ==> exists|t: Trampoline|
                install.ensures((old(self).target(),), Some(t)) && final(self).installed() == Some(t),
            r is Err ==> install.ensures((old(self).target(),), None::<Trampoline>)
                && final(self).installed() == old(self).installed()
                && r->Err_0@ == hook_failure_text(old(self).target()),
    {
        if self.install(install) {
            Ok(())
        } else {
            let mut e = String::from_str("failed to hook function at 0x");
            append_digits(&mut e, self.target_address as u64, 16, false);
            Err(e)
        }
    }

    /// Removes the hook, if it is installed, with `uninstall`, ignoring its
    /// answer.
    pub fn revert_detour<U: Fn(usize, Trampoline) -> Option<()>>(&mut self, uninstall: &U) -> (r:
        Result<(), String>)
        requires
            old(self).installed() matches Some(t) ==> uninstall.requires((old(self).target(), t)),
        ensures
            r is Ok,
            final(self).target() == old(self).target(),
            final(self).installed() is None,
            old(self).installed() matches Some(t) ==> exists|answer: Option<()>|
                uninstall.ensures((old(self).target(), t), answer),
    {
        let _ = self.uninstall(uninstall);
        Ok(())
    }
}

} // verus!
