//! The configuration of the Shadow of War patches: console, unloading and which
//! patches are enabled.

use vstd::prelude::*;
use crate::framework::config::{keys_distinct, patch_enabled_among, patch_enabled_in};

verus! {

/// The configuration read from the configuration file.
///
/// `patches` lists patch keys with their on/off setting; it is well formed when
/// each key occurs at most once, as in the table the file holds.
pub struct Config {
    pub show_console: bool,
    pub allow_unloading: bool,
    pub patches: Vec<(String, bool)>,
}

impl Config {
    /// No patch key occurs twice.
    pub open spec fn well_formed(&self) -> bool {
        keys_distinct(self.patches@)
    }

    /// Whether the patch with configuration key `name` is enabled: its setting if
    /// the configuration has one, else enabled.
    pub fn patch_enabled(&self, name: &str) -> (r: bool)
        requires
            self.well_formed(),
        ensures
            r == patch_enabled_in(self.patches@, name@),
            forall|k: int|
                0 <= k < self.patches@.len() && #[trigger] self.patches@[k].0@ == name@ ==> r
                    == self.patches@[k].1,
            (forall|k: int| 0 <= k < self.patches@.len() ==> #[trigger] self.patches@[k].0@ != name@)
                ==> r,
    {
        patch_enabled_among(&self.patches, name)
    }
}

impl Default for Config {
    /// The configuration used when no file can be read: no console, no unloading
    /// and no patch settings.
    fn default() -> (r: Config)
        ensures
            !r.show_console,
            !r.allow_unloading,
            r.patches@ == Seq::<(String, bool)>::empty(),
    {
        Config {
            show_console: false,
            allow_unloading: false,
            patches: Vec::new(),
        }
    }
}

} // verus!
