//! The configuration of the Syndicate patches.

use vstd::prelude::*;

verus! {

/// Whether to show a console and whether to suppress the integrity warning.
pub struct Config {
    pub show_console: bool,
    pub suppress_integrity_warning: bool,
}

impl Default for Config {
    /// No console and no suppressed warning.
    fn default() -> (r: Config)
        ensures
            !r.show_console,
            !r.suppress_integrity_warning,
    {
        Config { show_console: false, suppress_integrity_warning: false }
    }
}

} // verus!
