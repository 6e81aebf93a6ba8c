//! The game's own structures, as far as the patches use them.

pub mod integrity;

use vstd::prelude::*;
use crate::framework::hook::{installs_anywhere, uninstalls_anywhere, Trampoline};
use crate::framework::memory::{le_value, lemma_le_value8, mem_read, Memory};
use integrity::IntegrityHook;

verus! {

/// The game's player camera component; only its address is used.
pub struct ACUPlayerCameraComponent;

/// Where the game keeps its pointer to the camera manager.
pub const CAMERA_MANAGER_ADDRESS: u64 = 0x14521AAD0;

/// `a + k` on 64-bit addresses, wrapping around.
pub open spec fn offset(a: u64, k: u64) -> u64 {
    ((a + k) % 0x1_0000_0000_0000_0000) as u64
}

/// Whether the camera is available in memory `m`: the camera manager pointer is
/// not null, the camera component array it holds at `0x40` has a non-zero size
/// (the 16-bit value at `0x4A`), and the first word of that array is not null.
pub open spec fn camera_available_in(m: spec_fn(int) -> u8) -> bool {
    let manager = le_value(mem_read(m, CAMERA_MANAGER_ADDRESS as usize as int, 8)) as u64;
    &&& manager != 0
    &&& le_value(mem_read(m, offset(manager, 0x4A) as usize as int, 2)) != 0
    &&& le_value(mem_read(m, offset(manager, 0x40) as usize as int, 8)) != 0
}

fn u64_from_le(b: &Vec<u8>) -> (r: u64)
    requires
        b@.len() == 8,
    ensures
        r == le_value(b@),
{
    proof {
        lemma_le_value8(b@);
    }
    b[0] as u64 + 0x100 * b[1] as u64 + 0x1_0000 * b[2] as u64 + 0x100_0000 * b[3] as u64
        + 0x1_0000_0000 * b[4] as u64 + 0x100_0000_0000 * b[5] as u64 + 0x1_0000_0000_0000
        * b[6] as u64 + 0x100_0000_0000_0000 * b[7] as u64
}

/// Whether the player camera component exists, read from the game's memory
/// through `mem`: the camera manager pointer, the size of its camera component
/// array and the first entry of that array must all be non-zero.
pub fn is_camera_available<M: Memory>(mem: &M) -> (r: bool)
    ensures
        r == camera_available_in(mem.contents()),
{
    let manager = mem.read(CAMERA_MANAGER_ADDRESS as usize, 8);
    let m = u64_from_le(&manager);
    if m == 0 {
        return false;
    }
    let size = mem.read(m.wrapping_add(0x4A) as usize, 2);
    proof {
        let s = size@;
        assert(le_value(s) == s[0] + 256 * le_value(s.drop_first()));
        assert(le_value(s.drop_first()) == s[1] + 256 * le_value(s.drop_first().drop_first()));
        assert(le_value(s.drop_first().drop_first()) == 0);
    }
    if size[0] == 0 && size[1] == 0 {
        return false;
    }
    let first = mem.read(m.wrapping_add(0x40) as usize, 8);
    u64_from_le(&first) != 0
}

/// Installs the `CreateThread` hook with `install`, then terminates the running
/// integrity threads with `terminate`. Fails with the first error.
pub fn disable_integrity_checks<I, T>(hook: &mut IntegrityHook, install: &I, terminate: &T) -> (r: Result<
    (),
    String,
>) where I: Fn(usize) -> Option<Trampoline>, T: Fn() -> Result<(), String>
    requires
        installs_anywhere(install),
        terminate.requires(()),
    ensures
        final(hook).hook().target() == old(hook).hook().target(),
        ({
            ||| install.ensures((old(hook).hook().target(),), None::<Trampoline>)
                && final(hook).hook().installed() == old(hook).hook().installed() && (r matches Err(
                e,
            ) && e@ == "failed to hook CreateThread"@)
            ||| exists|t: Trampoline|
                install.ensures((old(hook).hook().target(),), Some(t))
                    && final(hook).hook().installed() == Some(t) && #[trigger] terminate.ensures(
                    (),
                    r,
                )
        }),
{
    match hook.apply(install) {
        Ok(()) => {},
        Err(e) => return Err(e),
    }
    terminate()
}

/// Removes the `CreateThread` hook with `uninstall`, if it is installed;
/// always succeeds.
pub fn cleanup_integrity_checks<U>(hook: &mut IntegrityHook, uninstall: &U) -> (r: Result<(), String>) where
    U: Fn(usize, Trampoline) -> Option<()>,
    requires
        uninstalls_anywhere(uninstall),
    ensures
        r is Ok,
        final(hook).hook().target() == old(hook).hook().target(),
        final(hook).hook().installed() is None,
        old(hook).hook().installed() matches Some(t) ==> exists|answer: Option<()>|
            uninstall.ensures((old(hook).hook().target(), t), answer),
{
    hook.cleanup(uninstall)
}

} // verus!
