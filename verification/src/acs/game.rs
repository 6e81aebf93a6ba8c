//! Switching the game's integrity checks off and on again.

use vstd::prelude::*;
use crate::acs::sdk::integrity::IntegrityHook;
use crate::framework::hook::{installs_anywhere, uninstalls_anywhere, Trampoline};

verus! {

/// Installs the `CreateThread` hook with `install` (unless it is installed),
/// then terminates the running integrity threads with `terminate`. Fails with
/// the first error; succeeds whether or not a thread was terminated.
pub fn disable_integrity_checks<I, T>(hook: &mut IntegrityHook, install: &I, terminate: &T) -> (r: Result<
    (),
    String,
>) where I: Fn(usize) -> Option<Trampoline>, T: Fn() -> Result<bool, String>
    requires
        installs_anywhere(install),
        terminate.requires(()),
    ensures
        final(hook).hook().target() == old(hook).hook().target(),
        old(hook).hook().installed() is Some ==> final(hook).hook() == old(hook).hook(),
        old(hook).hook().installed() is None ==> install.ensures(
            (old(hook).hook().target(),),
            final(hook).hook().installed(),
        ),
        final(hook).hook().installed() is None ==> (r matches Err(e) && e@
            == "failed to hook CreateThread"@),
        final(hook).hook().installed() is Some ==> exists|t: Result<bool, String>|
            #[trigger] terminate.ensures((), t) && match t {
                Err(e) => r == Err::<(), String>(e),
                Ok(_) => r is Ok,
            },
{
    match hook.apply(install) {
        Ok(()) => {},
        Err(e) => return Err(e),
    }
    let terminated = terminate();
    assert(terminate.ensures((), terminated));
    match terminated {
        Ok(_) => Ok(()),
        Err(e) => Err(e),
    }
}

/// Removes the `CreateThread` hook with `uninstall`, if it is installed.
pub fn cleanup_integrity_checks<U>(hook: &mut IntegrityHook, uninstall: &U) -> (r: Result<(), String>) where
    U: Fn(usize, Trampoline) -> Option<()>,
    requires
        uninstalls_anywhere(uninstall),
    ensures
        final(hook).hook().target() == old(hook).hook().target(),
        final(hook).hook().installed() is None,
        old(hook).hook().installed() is None ==> r is Ok,
        old(hook).hook().installed() matches Some(t) ==> exists|answer: Option<()>|
            uninstall.ensures((old(hook).hook().target(), t), answer) && (answer is Some <==> r is Ok),
        r is Err ==> r->Err_0@ == "failed to unhook CreateThread"@,
{
    hook.cleanup(uninstall)
}

} // verus!
