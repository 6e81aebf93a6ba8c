//! What the Syndicate patches know of the game.

pub mod integrity;

use vstd::prelude::*;
use crate::framework::hook::{uninstalls_anywhere, Trampoline};
use crate::framework::utils::{check_game_version, VersionError};
use integrity::IntegrityHook;

verus! {

/// Link timestamp of the supported game binary.
pub const GAME_BINARY_TIMESTAMP: u32 = 0x6932E389;

/// What getting the game ready found: whether its version is the supported one
/// (see `check_game_version`), and how disabling the integrity checks went.
/// Neither stops the patches; both are worth a warning.
pub struct Readiness {
    pub version: Result<u32, VersionError>,
    pub integrity: Result<(), String>,
}

/// Checks the version of the game, whose binary has link timestamp
/// `current_timestamp` (`None` if it could not be read), then disables the
/// integrity checks with `initialize`; reports both.
pub fn wait_until_ready<F>(current_timestamp: Option<u32>, initialize: &F) -> (r: Readiness) where
    F: Fn() -> Result<(), String>,
    requires
        initialize.requires(()),
    ensures
        current_timestamp is None ==> r.version matches Err(VersionError::TimestampUnavailable),
        current_timestamp matches Some(t) ==> (r.version is Ok <==> t == GAME_BINARY_TIMESTAMP),
        r.version matches Ok(v) ==> current_timestamp == Some(v),
        current_timestamp matches Some(t) ==> (t != GAME_BINARY_TIMESTAMP ==> (r.version matches Err(
            VersionError::TimestampMismatch { got, expected },
        ) && got == t && expected@ == seq![GAME_BINARY_TIMESTAMP])),
        initialize.ensures((), r.integrity),
{
    let expected: [u32; 1] = [GAME_BINARY_TIMESTAMP];
    let version = check_game_version(&expected, current_timestamp);
    proof {
        assert(expected@ =~= seq![GAME_BINARY_TIMESTAMP]);
        if let Some(t) = current_timestamp {
            assert(expected@.contains(t) <==> t == GAME_BINARY_TIMESTAMP) by {
                if t == GAME_BINARY_TIMESTAMP {
                    assert(expected@[0] == t);
                }
            }
        }
    }
    let integrity = initialize();
    Readiness { version, integrity }
}

/// Removes the integrity hook with `uninstall`, if it is installed.
pub fn cleanup<U>(hook: &mut IntegrityHook, uninstall: &U) -> (r: Result<(), String>) where
    U: Fn(usize, Trampoline) -> Option<()>,
    requires
        uninstalls_anywhere(uninstall),
    ensures
        final(hook).hook().target() == old(hook).hook().target(),
        final(hook).hook().installed() is None,
        old(hook).hook().installed() is None ==> r is Ok,
        old(hook).hook().installed() matches Some(t) ==> exists|answer: Option<()>|
            uninstall.ensures((old(hook).hook().target(), t), answer) && (answer is Some <==> r is Ok),
        r is Err ==> r->Err_0@ == "failed to unhook CreateThread"@,
{
    hook.cleanup(uninstall)
}

} // verus!
