//! The Unity patches and their registration.

pub mod disable_camera_smoothing;
pub mod mouse_sensitivity_fix;

use vstd::prelude::*;
use crate::framework::hook::{installs_anywhere, uninstalls_anywhere, Trampoline};
use crate::framework::memory::Memory;
use crate::framework::manager::{added_if, fresh_entry, PatchManager};
use crate::framework::utils::Inst;
use mouse_sensitivity_fix::{resolvable, targets_of};

verus! {

/// Registers the Unity patches: the camera-smoothing patch, at the address its
/// signature resolved to, then the mouse-sensitivity fix, on the function and
/// root clock found from the two instructions its signatures point at, with the
/// caller's means to install and remove the hook. Reports each registration, in
/// that order.
pub fn register_all<M, I, U>(
    manager: &mut PatchManager<M>,
    jump_camera_smoothing: Result<usize, String>,
    get_axis_movement_call: Result<Option<Inst>, String>,
    root_clock_access: Result<Option<Inst>, String>,
    install: I,
    uninstall: U,
) -> (r: Vec<Result<(), String>>) where
    M: Memory,
    I: Fn(usize) -> Option<Trampoline> + 'static,
    U: Fn(usize, Trampoline) -> Option<()> + 'static,
    requires
        resolvable(get_axis_movement_call),
        resolvable(root_clock_access),
        installs_anywhere(&install),
        uninstalls_anywhere(&uninstall),
    ensures
        r@.len() == 2,
        r@[0] is Ok <==> jump_camera_smoothing is Ok,
        jump_camera_smoothing is Err ==> r@[0] == Err::<(), String>(jump_camera_smoothing->Err_0),
        match targets_of(get_axis_movement_call, root_clock_access) {
            Ok(_) => r@[1] is Ok,
            Err(m) => r@[1] matches Err(e) && e@ == m,
        },
        final(manager)@ == old(manager)@ + added_if(
            r@[0] is Ok,
            fresh_entry("Disable Mouse Smoothing"@, Some("disable_camera_smoothing"@)),
        ) + added_if(
            r@[1] is Ok,
            fresh_entry("Mouse Sensitivity Fix"@, Some("mouse_sensitivity_fix"@)),
        ),
{
    let mut r = Vec::new();
    r.push(
        manager.register::<disable_camera_smoothing::DisableCameraSmoothing>(
            disable_camera_smoothing::DisableCameraSmoothing::init(jump_camera_smoothing),
        ),
    );
    r.push(
        manager.register::<mouse_sensitivity_fix::MouseSensitivityFix<I, U>>(
            mouse_sensitivity_fix::MouseSensitivityFix::init(
                get_axis_movement_call,
                root_clock_access,
                install,
                uninstall,
            ),
        ),
    );
    r
}

} // verus!
