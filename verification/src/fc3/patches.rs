//! The Far Cry 3 patches and their registration.

pub mod disable_input_clamp;
pub mod sensitivity_fix;

use vstd::prelude::*;
use crate::framework::memory::Memory;
use crate::framework::manager::{added_if, fresh_entry, PatchManager};
use crate::framework::hook::{installs_anywhere, uninstalls_anywhere, Trampoline};

verus! {

/// Registers the Far Cry 3 patches: the input-clamp patch, at the address its
/// signature resolved to, then the sensitivity fix, hooked right after the
/// sensitivity load its signature resolved to, with the caller's means to install
/// and remove the hook. Reports each registration, in that order.
pub fn register_all<M, I, U>(
    manager: &mut PatchManager<M>,
    clamp_input_condition: Result<usize, String>,
    load_sensitivity: Result<usize, String>,
    install: I,
    uninstall: U,
) -> (r: Vec<Result<(), String>>) where
    M: Memory,
    I: Fn(usize) -> Option<Trampoline> + 'static,
    U: Fn(usize, Trampoline) -> Option<()> + 'static,
    requires
        load_sensitivity matches Ok(a) ==> a + 5 <= usize::MAX,
        installs_anywhere(&install),
        uninstalls_anywhere(&uninstall),
    ensures
        r@.len() == 2,
        r@[0] is Ok <==> clamp_input_condition is Ok,
        r@[1] is Ok <==> load_sensitivity is Ok,
        clamp_input_condition is Err ==> r@[0] == Err::<(), String>(clamp_input_condition->Err_0),
        load_sensitivity is Err ==> r@[1] == Err::<(), String>(load_sensitivity->Err_0),
        final(manager)@ == old(manager)@ + added_if(
            clamp_input_condition is Ok,
            fresh_entry("Disable Input Clamp"@, Some("disable_input_clamp"@)),
        ) + added_if(
            load_sensitivity is Ok,
            fresh_entry("Sensitivity Fix"@, Some("sensitivity_fix"@)),
        ),
{
    let mut r = Vec::new();
    r.push(
        manager.register::<disable_input_clamp::DisableInputClamp>(
            disable_input_clamp::DisableInputClamp::init(clamp_input_condition),
        ),
    );
    r.push(
        manager.register::<sensitivity_fix::SensitivityFix<I, U>>(
            sensitivity_fix::SensitivityFix::init(load_sensitivity, install, uninstall),
        ),
    );
    r
}

} // verus!
