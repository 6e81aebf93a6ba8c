//! The Shadow of Mordor patches and their registration.

pub mod disable_camera_smoothing;
pub mod uniform_camera_speed;

use vstd::prelude::*;
use crate::framework::manager::{added_if, fresh_entry, PatchManager};
use crate::framework::memory::Memory;
use crate::framework::patch::Patch;

verus! {

/// Registers the Shadow of Mordor patches: camera smoothing and uniform camera
/// speed, at the addresses their signatures resolved to, then the mouse
/// sensitivity fix, built by the caller. Reports each registration, in that
/// order.
pub fn register_all<M, S>(
    manager: &mut PatchManager<M>,
    load_camera_smoothing_factor: Result<usize, String>,
    load_x_axis_factor: Result<usize, String>,
    mouse_sensitivity_fix: Result<S, String>,
) -> (r: Vec<Result<(), String>>) where
    M: Memory,
    S: Patch<M> + 'static,
    ensures
        r@.len() == 3,
        r@[0] is Ok <==> load_camera_smoothing_factor is Ok,
        r@[1] is Ok <==> load_x_axis_factor is Ok,
        r@[2] is Ok <==> mouse_sensitivity_fix is Ok,
        load_camera_smoothing_factor is Err ==> r@[0] == Err::<(), String>(
            load_camera_smoothing_factor->Err_0,
        ),
        load_x_axis_factor is Err ==> r@[1] == Err::<(), String>(load_x_axis_factor->Err_0),
        mouse_sensitivity_fix is Err ==> r@[2] == Err::<(), String>(mouse_sensitivity_fix->Err_0),
        final(manager)@ == old(manager)@ + added_if(
            load_camera_smoothing_factor is Ok,
            fresh_entry("Disable Mouse Smoothing"@, Some("disable_camera_smoothing"@)),
        ) + added_if(
            load_x_axis_factor is Ok,
            fresh_entry("Uniform Camera Speed"@, Some("uniform_camera_speed"@)),
        ) + added_if(
            mouse_sensitivity_fix is Ok,
            fresh_entry(S::spec_name(), mouse_sensitivity_fix->Ok_0.spec_config_key()),
        ),
{
    let mut r = Vec::new();
    r.push(
        manager.register::<disable_camera_smoothing::DisableCameraSmoothing>(
            disable_camera_smoothing::DisableCameraSmoothing::init(load_camera_smoothing_factor),
        ),
    );
    r.push(
        manager.register::<uniform_camera_speed::UniformCameraSpeed>(
            uniform_camera_speed::UniformCameraSpeed::init(load_x_axis_factor),
        ),
    );
    r.push(manager.register::<S>(mouse_sensitivity_fix));
    r
}

} // verus!
