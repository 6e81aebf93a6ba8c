//! What the Shadow of War patches know of the game.

use vstd::prelude::*;

verus! {

/// Link timestamps of the supported game binaries.
pub const GAME_BINARY_TIMESTAMPS: [u32; 1] = [0x5B7F5782];

} // verus!
