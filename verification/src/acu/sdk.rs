//! What the Unity patches know of the game, and getting it ready to be patched.

use vstd::prelude::*;
use crate::acu::game::integrity::IntegrityHook;
use crate::framework::hook::{uninstalls_anywhere, Trampoline};
use crate::framework::utils::{check_game_version, VersionError};

verus! {

/// Link timestamps of the supported game binaries.
pub const GAME_BINARY_TIMESTAMPS: [u32; 2] = [0x54DB5826, 0x69945EEF];

/// What getting the game ready found: whether its version is a supported one
/// (see `check_game_version`), how disabling the integrity checks went, and how
/// removing the game's hook on `NtProtectVirtualMemory` went. None of them stops
/// the patches; each is worth a warning.
pub struct Readiness {
    pub version: Result<u32, VersionError>,
    pub integrity: Result<(), String>,
    pub prot_memory: Result<(), String>,
}

/// Checks the version of the game, whose binary has link timestamp
/// `current_timestamp` (`None` if it could not be read), then disables the
/// integrity checks with `initialize`, then removes the game's hook on
/// `NtProtectVirtualMemory` with `unhook_prot_memory`; reports all three.
pub fn wait_until_ready<F, P>(current_timestamp: Option<u32>, initialize: &F, unhook_prot_memory: &P) -> (r:
    Readiness) where F: Fn() -> Result<(), String>, P: Fn() -> Result<(), String>
    requires
        initialize.requires(()),
        unhook_prot_memory.requires(()),
    ensures
        current_timestamp is None ==> r.version matches Err(VersionError::TimestampUnavailable),
        current_timestamp matches Some(t) ==> (r.version is Ok <==> GAME_BINARY_TIMESTAMPS@.contains(
            t,
        )),
        r.version matches Ok(v) ==> current_timestamp == Some(v),
        current_timestamp matches Some(t) ==> (!GAME_BINARY_TIMESTAMPS@.contains(t) ==> (
        r.version matches Err(VersionError::TimestampMismatch { got, expected }) && got == t
            && expected@ == GAME_BINARY_TIMESTAMPS@)),
        initialize.ensures((), r.integrity),
        unhook_prot_memory.ensures((), r.prot_memory),
{
    let expected = GAME_BINARY_TIMESTAMPS;
    let version = check_game_version(&expected, current_timestamp);
    let integrity = initialize();
    let prot_memory = unhook_prot_memory();
    Readiness { version, integrity, prot_memory }
}

/// Removes the integrity hook with `uninstall`, if it is installed; always
/// succeeds.
pub fn cleanup<U>(hook: &mut IntegrityHook, uninstall: &U) -> (r: Result<(), String>) where
    U: Fn(usize, Trampoline) -> Option<()>,
    requires
        uninstalls_anywhere(uninstall),
    ensures
        r is Ok,
        final(hook).hook().target() == old(hook).hook().target(),
        final(hook).hook().installed() is None,
        old(hook).hook().installed() matches Some(t) ==> exists|answer: Option<()>|
            uninstall.ensures((old(hook).hook().target(), t), answer),
{
    hook.cleanup(uninstall)
}

} // verus!
