//! The State of Decay patches and their registration.

pub mod disable_input_clamp;
pub mod mouse_sensitivity_fix;

use vstd::prelude::*;
use crate::framework::memory::Memory;
use crate::framework::manager::{added_if, fresh_entry, PatchManager};
use mouse_sensitivity_fix::{Hooks, Targets};

verus! {

/// Registers the State of Decay patches: the input-clamp patch, at the addresses
/// its three signatures resolved to, then the mouse sensitivity fix, from the
/// addresses of its three detour sites and of the three hooks. Reports each
/// registration, in that order.
pub fn register_all<M>(
    manager: &mut PatchManager<M>,
    limit_x_factor_anchor: Result<usize, String>,
    limit_y_factor_anchor: Result<usize, String>,
    input_deadzone_cond: Result<usize, String>,
    detour_sites: Targets,
    hooks: Hooks,
) -> (r: Vec<Result<(), String>>) where
    M: Memory,
    requires
        limit_x_factor_anchor matches Ok(a) ==> a + 0x41 <= usize::MAX,
        limit_y_factor_anchor matches Ok(a) ==> a + 0x41 <= usize::MAX,
        mouse_sensitivity_fix::detours_fit(detour_sites, hooks),
    ensures
        r@.len() == 2,
        r@[0] is Ok <==> (limit_x_factor_anchor is Ok && limit_y_factor_anchor is Ok
            && input_deadzone_cond is Ok),
        r@[1] is Ok <==> (detour_sites.roaming is Ok && detour_sites.aiming_x is Ok
            && detour_sites.aiming_y is Ok),
        limit_x_factor_anchor is Err ==> r@[0] == Err::<(), String>(limit_x_factor_anchor->Err_0),
        limit_x_factor_anchor is Ok && limit_y_factor_anchor is Err ==> r@[0] == Err::<(), String>(
            limit_y_factor_anchor->Err_0,
        ),
        limit_x_factor_anchor is Ok && limit_y_factor_anchor is Ok && input_deadzone_cond is Err
            ==> r@[0] == Err::<(), String>(input_deadzone_cond->Err_0),
        detour_sites.roaming is Err ==> r@[1] == Err::<(), String>(detour_sites.roaming->Err_0),
        detour_sites.roaming is Ok && detour_sites.aiming_x is Err ==> r@[1] == Err::<(), String>(
            detour_sites.aiming_x->Err_0,
        ),
        detour_sites.roaming is Ok && detour_sites.aiming_x is Ok && detour_sites.aiming_y is Err
            ==> r@[1] == Err::<(), String>(detour_sites.aiming_y->Err_0),
        final(manager)@ == old(manager)@ + added_if(
            r@[0] is Ok,
            fresh_entry("Disable Input Clamp"@, Some("disable_input_clamp"@)),
        ) + added_if(
            r@[1] is Ok,
            fresh_entry("Mouse Sensitivity Fix"@, Some("mouse_sensitivity_fix"@)),
        ),
{
    let mut r = Vec::new();
    r.push(
        manager.register::<disable_input_clamp::DisableMouseAccel>(
            disable_input_clamp::DisableMouseAccel::init(
                limit_x_factor_anchor,
                limit_y_factor_anchor,
                input_deadzone_cond,
            ),
        ),
    );
    r.push(
        manager.register::<mouse_sensitivity_fix::MouseSensitivityFix>(
            mouse_sensitivity_fix::MouseSensitivityFix::init(detour_sites, hooks),
        ),
    );
    r
}

} // verus!
