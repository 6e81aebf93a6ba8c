//! The user's configuration: console, unloading, log level and which patches are
//! enabled.

use vstd::prelude::*;
use vstd::string::StringExecFns;

verus! {

/// The configuration read from the configuration file.
///
/// `patches` lists patch keys with their on/off setting; it is well formed when
/// each key occurs at most once, as in the table the file holds.
pub struct Config {
    pub show_console: bool,
    pub allow_unloading: bool,
    pub log_level: String,
    pub patches: Vec<(String, bool)>,
}

/// The setting that `entries` give for `name`: that of the first entry with that
/// key, if any.
pub open spec fn patch_setting(entries: Seq<(String, bool)>, name: Seq<char>) -> Option<bool>
    decreases entries.len(),
{
    if entries.len() == 0 {
        None
    } else if entries[0].0@ == name {
        Some(entries[0].1)
    } else {
        patch_setting(entries.drop_first(), name)
    }
}

/// Whether `entries` enable the patch `name`: patches that the configuration does
/// not mention are enabled.
pub open spec fn patch_enabled_in(entries: Seq<(String, bool)>, name: Seq<char>) -> bool {
    match patch_setting(entries, name) {
        Some(on) => on,
        None => true,
    }
}

/// A patch that no entry names is enabled.
pub proof fn lemma_unlisted_patch_enabled(entries: Seq<(String, bool)>, name: Seq<char>)
    requires
        forall|i: int| 0 <= i < entries.len() ==> #[trigger] entries[i].0@ != name,
    ensures
        patch_enabled_in(entries, name),
    decreases entries.len(),
{
    if entries.len() > 0 {
        assert(entries[0].0@ != name);
        assert forall|i: int| 0 <= i < entries.drop_first().len() implies #[trigger] entries.drop_first()[
            i].0@ != name by {
            assert(entries.drop_first()[i] == entries[i + 1]);
        }
        lemma_unlisted_patch_enabled(entries.drop_first(), name);
    }
}

/// When the keys are distinct, a patch named by an entry is enabled exactly if
/// that entry says so.
pub proof fn lemma_listed_patch_setting(entries: Seq<(String, bool)>, k: int)
    requires
        0 <= k < entries.len(),
        forall|i: int, j: int| 0 <= i < j < entries.len() ==> entries[i].0@ != entries[j].0@,
    ensures
        patch_enabled_in(entries, entries[k].0@) == entries[k].1,
    decreases k,
{
    if k > 0 {
        let rest = entries.drop_first();
        assert(entries[0].0@ != entries[k].0@);
        assert(rest[k - 1] == entries[k]);
        assert forall|i: int, j: int| 0 <= i < j < rest.len() implies rest[i].0@ != rest[j].0@ by {
            assert(rest[i] == entries[i + 1]);
            assert(rest[j] == entries[j + 1]);
        }
        lemma_listed_patch_setting(rest, k - 1);
    }
}

/// No key occurs twice among `entries`.
pub open spec fn keys_distinct(entries: Seq<(String, bool)>) -> bool {
    forall|i: int, j: int| 0 <= i < j < entries.len() ==> entries[i].0@ != entries[j].0@
}

/// Read as a table, well-formed `entries` give a key's setting, and enable keys
/// they do not hold.
pub proof fn lemma_setting_as_table(entries: Seq<(String, bool)>, name: Seq<char>)
    requires
        keys_distinct(entries),
    ensures
        forall|k: int|
            0 <= k < entries.len() && #[trigger] entries[k].0@ == name ==> patch_enabled_in(
                entries,
                name,
            ) == entries[k].1,
        (forall|k: int| 0 <= k < entries.len() ==> #[trigger] entries[k].0@ != name)
            ==> patch_enabled_in(entries, name),
{
    assert forall|k: int|
        0 <= k < entries.len() && #[trigger] entries[k].0@ == name implies patch_enabled_in(
            entries,
            name,
        ) == entries[k].1 by {
        lemma_listed_patch_setting(entries, k);
    }
    if forall|k: int| 0 <= k < entries.len() ==> #[trigger] entries[k].0@ != name {
        lemma_unlisted_patch_enabled(entries, name);
    }
}

/// The log level of a configuration file that does not name one.
pub fn default_log_level() -> (r: String)
    ensures
        r@ == "info"@,
{
    String::from_str("info")
}

/// Whether the patch with configuration key `name` is enabled by the settings
/// `patches`: its setting if they have one, else enabled.
pub fn patch_enabled_among(patches: &Vec<(String, bool)>, name: &str) -> (r: bool)
    requires
        keys_distinct(patches@),
    ensures
        r == patch_enabled_in(patches@, name@),
        forall|k: int|
            0 <= k < patches@.len() && #[trigger] patches@[k].0@ == name@ ==> r == patches@[k].1,
        (forall|k: int| 0 <= k < patches@.len() ==> #[trigger] patches@[k].0@ != name@) ==> r,
{
    let key = String::from_str(name);
    let n = patches.len();
    let mut i: usize = 0;
    assert(patches@.subrange(0, n as int) =~= patches@);
    while i < n
        invariant
            n == patches@.len(),
            i <= n,
            key@ == name@,
            keys_distinct(patches@),
            patch_setting(patches@, name@) == patch_setting(
                patches@.subrange(i as int, n as int),
                name@,
            ),
        decreases n - i,
    {
        let ghost rest = patches@.subrange(i as int, n as int);
        assert(rest.drop_first() =~= patches@.subrange(i + 1, n as int));
        if patches[i].0 == key {
            proof {
                lemma_setting_as_table(patches@, name@);
            }
            return patches[i].1;
        }
        i += 1;
    }
    assert(patches@.subrange(n as int, n as int).len() == 0);
    proof {
        lemma_setting_as_table(patches@, name@);
    }
    true
}

impl Config {
    /// No patch key occurs twice.
    pub open spec fn well_formed(&self) -> bool {
        keys_distinct(self.patches@)
    }

    /// Whether the patch with configuration key `name` is enabled: its setting if
    /// the configuration has one, else enabled.
    pub fn patch_enabled(&self, name: &str) -> (r: bool)
        requires
            self.well_formed(),
        ensures
            r == patch_enabled_in(self.patches@, name@),
            forall|k: int|
                0 <= k < self.patches@.len() && #[trigger] self.patches@[k].0@ == name@ ==> r
                    == self.patches@[k].1,
            (forall|k: int| 0 <= k < self.patches@.len() ==> #[trigger] self.patches@[k].0@ != name@)
                ==> r,
    {
        patch_enabled_among(&self.patches, name)
    }
}

impl Default for Config {
    /// The configuration used when no file can be read: no console, no unloading,
    /// an empty log level and no patch settings.
    fn default() -> (r: Config)
        ensures
            !r.show_console,
            !r.allow_unloading,
            r.log_level@ == Seq::<char>::empty(),
            r.patches@ == Seq::<(String, bool)>::empty(),
    {
        Config {
            show_console: false,
            allow_unloading: false,
            log_level: String::new(),
            patches: Vec::new(),
        }
    }
}

} // verus!
