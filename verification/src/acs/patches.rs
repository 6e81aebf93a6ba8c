//! The Syndicate patches and their registration.

pub mod disable_camera_smoothing;

use vstd::prelude::*;
use crate::framework::memory::Memory;
use crate::framework::manager::{added_if, fresh_entry, PatchManager};

verus! {

/// Registers the Syndicate patches, given the address that the camera-smoothing
/// signature resolved to (`None` if it was not found); reports each
/// registration.
pub fn register_all<M>(manager: &mut PatchManager<M>, jump_camera_smoothing: Option<usize>) -> (r: Vec<
    Result<(), String>,
>) where M: Memory
    ensures
        r@.len() == 1,
        r@[0] is Ok <==> jump_camera_smoothing is Some,
        jump_camera_smoothing is None ==> (r@[0] matches Err(e) && e@
            == "failed to get JUMP_CAMERA_SMOOTHING signature"@),
        final(manager)@ == old(manager)@ + added_if(
            jump_camera_smoothing is Some,
            fresh_entry("Disable Mouse Smoothing"@, Some("disable_camera_smoothing"@)),
        ),
{
    let mut r = Vec::new();
    r.push(
        manager.register::<disable_camera_smoothing::DisableCameraSmoothing>(
            disable_camera_smoothing::DisableCameraSmoothing::init(jump_camera_smoothing),
        ),
    );
    r
}

} // verus!
