//! Spotting the game's main integrity-check thread.
//!
//! That thread immediately jumps into the protected `.UBX0` section. A thread is
//! taken for it when its first instruction is a `jmp` or `call` whose target
//! lies inside that section. Verdicts are kept per start address.

use vstd::prelude::*;
use std::collections::HashMap;
use core::ops::Range;
use vstd::string::StringExecFns;
use crate::framework::hook::{installs_anywhere, uninstalls_anywhere, Hook, Trampoline};
use crate::framework::platform::{own_threads, Thread};
use crate::framework::utils::{
    eq_lowercase, lemma_displacement_forms, lemma_jmp_call_any_case, lowercase_is, relative_target,
    resolve_relative_target, spells_call, spells_jmp, twos_complement32, Inst,
};

verus! {

broadcast use vstd::std_specs::hash::group_hash_axioms;

/// The verdict on a thread whose first instruction is `inst`, given the range of
/// the protected section: `false` unless it is a `jmp` or `call`; for those,
/// whether their target lies in the section, or `None` if it has no target.
pub open spec fn thread_verdict(section: Range<usize>, inst: Inst) -> Option<bool> {
    if !lowercase_is(inst.mnemonic@, "jmp"@) && !lowercase_is(inst.mnemonic@, "call"@) {
        Some(false)
    } else {
        match relative_target(inst.address, inst.bytes@) {
            Some(t) => Some(section.start <= t < section.end),
            None => None,
        }
    }
}

/// What analyzing the thread starting at `start` does to the verdicts reached so
/// far: a verdict reached before is given again; otherwise, with the protected
/// section and the thread's first instruction both known, the verdict is
/// `thread_verdict`, and is kept if there is one; without them there is none.
/// Gives the verdict and the verdicts after.
pub open spec fn analyze_step(
    verdicts: Map<usize, bool>,
    start: usize,
    section: Option<Range<usize>>,
    inst: Option<Inst>,
) -> (Option<bool>, Map<usize, bool>) {
    if verdicts.contains_key(start) {
        (Some(verdicts[start]), verdicts)
    } else {
        match (section, inst) {
            (Some(s), Some(i)) => {
                let v = thread_verdict(s, i);
                (
                    v,
                    match v {
                        Some(b) => verdicts.insert(start, b),
                        None => verdicts,
                    },
                )
            },
            _ => (None, verdicts),
        }
    }
}

/// Once a verdict on a start address is reached, analyzing that address again
/// gives the same verdict and changes nothing, whatever section and instruction
/// come with it.
pub proof fn lemma_verdict_is_kept(
    verdicts: Map<usize, bool>,
    start: usize,
    section: Option<Range<usize>>,
    inst: Option<Inst>,
    later_section: Option<Range<usize>>,
    later_inst: Option<Inst>,
)
    requires
        analyze_step(verdicts, start, section, inst).0 is Some,
    ensures
        analyze_step(analyze_step(verdicts, start, section, inst).1, start, later_section, later_inst)
            == analyze_step(verdicts, start, section, inst),
{
}

/// A thread that no verdict was reached on yet, whose first instruction is a
/// `call` or `jmp` (in any case) with a 32-bit displacement (`E8` or `E9` and
/// four bytes), is the integrity thread exactly when the instruction's target,
/// its end plus the signed displacement, lies in the protected section; the
/// verdict is kept. A first instruction whose mnemonic is neither word is an
/// ordinary thread.
pub proof fn lemma_call_or_jmp_into_section(
    verdicts: Map<usize, bool>,
    start: usize,
    section: Range<usize>,
    inst: Inst,
)
    requires
        !verdicts.contains_key(start),
    ensures
        ({
            let b = inst.bytes@;
            let t = inst.address + 5 + twos_complement32(b[1], b[2], b[3], b[4]);
            let inside = section.start <= t < section.end;
            (spells_call(inst.mnemonic@) || spells_jmp(inst.mnemonic@)) && b.len() == 5 && (b[0]
                == 0xE8 || b[0] == 0xE9) && 0 <= t <= usize::MAX ==> analyze_step(
                verdicts,
                start,
                Some(section),
                Some(inst),
            ) == (Some(inside), verdicts.insert(start, inside))
        }),
        inst.mnemonic@.len() != 3 && inst.mnemonic@.len() != 4 ==> analyze_step(
            verdicts,
            start,
            Some(section),
            Some(inst),
        ) == (Some(false), verdicts.insert(start, false)),
{
    lemma_jmp_call_any_case(inst.mnemonic@);
    lemma_displacement_forms(inst.bytes@, inst.address);
}

/// The verdicts reached so far, by thread start address.
pub struct ThreadVerdicts {
    verdicts: HashMap<usize, bool>,
}

impl View for ThreadVerdicts {
    type V = Map<usize, bool>;

    closed spec fn view(&self) -> Map<usize, bool> {
        self.verdicts@
    }
}

impl ThreadVerdicts {
    /// No verdicts yet.
    pub fn new() -> (r: Self)
        ensures
            r@ == Map::<usize, bool>::empty(),
    {
        ThreadVerdicts { verdicts: HashMap::new() }
    }

    /// Whether the thread starting at `start_address` is the integrity thread.
    /// A verdict reached before is given again. Otherwise, with the range of the
    /// protected section (`None` if it was not found) and the first instruction of
    /// the thread (`None` if it could not be decoded), the verdict is
    /// `thread_verdict`, and is kept if there is one.
    pub fn analyze_thread_start(
        &mut self,
        start_address: usize,
        section: Option<Range<usize>>,
        inst: Option<Inst>,
    ) -> (r: Option<bool>)
        requires
            inst matches Some(i) ==> i.address + i.bytes@.len() <= usize::MAX,
        ensures
            (r, final(self)@) == analyze_step(old(self)@, start_address, section, inst),
    {
        if let Some(verdict) = self.verdicts.get(&start_address) {
            return Some(*verdict);
        }
        let section_range = match section {
            Some(s) => s,
            None => return None,
        };
        let inst = match inst {
            Some(i) => i,
            None => return None,
        };
        if !eq_lowercase(inst.mnemonic.as_str(), "jmp") && !eq_lowercase(inst.mnemonic.as_str(), "call") {
            self.verdicts.insert(start_address, false);
            return Some(false);
        }
        let target_addr = match resolve_relative_target(&inst) {
            Some(t) => t,
            None => return None,
        };
        let in_range = section_range.start <= target_addr && target_addr < section_range.end;
        self.verdicts.insert(start_address, in_range);
        Some(in_range)
    }
}

/// Checks every thread of process `process_id` among `threads`, in order, with
/// `check_thread`, which terminates the thread if it is the integrity thread and
/// tells whether it did. Returns whether at least one thread was terminated, and
/// each checked thread with its outcome.
pub fn terminate_integrity_checks<C>(process_id: u32, threads: &[Thread], check_thread: &C) -> (r: (
    bool,
    Vec<(u32, Result<bool, String>)>,
)) where C: Fn(u32) -> Result<bool, String>
    requires
        forall|tid: u32| #[trigger] check_thread.requires((tid,)),
    ensures
        r.1@.len() == own_threads(threads@, process_id).len(),
        forall|k: int|
            0 <= k < r.1@.len() ==> #[trigger] r.1@[k].0 == own_threads(threads@, process_id)[k]
                && check_thread.ensures((r.1@[k].0,), r.1@[k].1),
        r.0 == exists|k: int| 0 <= k < r.1@.len() && #[trigger] r.1@[k].1 == Ok::<bool, String>(true),
{
    let mut terminated_any = false;
    let mut checked: Vec<(u32, Result<bool, String>)> = Vec::new();
    let n = threads.len();
    let mut i: usize = 0;
    while i < n
        invariant
            n == threads@.len(),
            i <= n,
            forall|tid: u32| #[trigger] check_thread.requires((tid,)),
            checked@.len() == own_threads(threads@.subrange(0, i as int), process_id).len(),
            forall|k: int|
                0 <= k < checked@.len() ==> #[trigger] checked@[k].0 == own_threads(
                    threads@.subrange(0, i as int),
                    process_id,
                )[k] && check_thread.ensures((checked@[k].0,), checked@[k].1),
            terminated_any == exists|k: int|
                0 <= k < checked@.len() && #[trigger] checked@[k].1 == Ok::<bool, String>(true),
        decreases n - i,
    {
        let ghost prefix = threads@.subrange(0, i as int);
        let ghost next = threads@.subrange(0, i + 1);
        assert(next.drop_last() =~= prefix);
        let ghost before = checked@;
        if threads[i].owner_pid == process_id {
            let tid = threads[i].tid;
            let outcome = check_thread(tid);
            let terminated = match &outcome {
                Ok(true) => true,
                _ => false,
            };
            checked.push((tid, outcome));
            if terminated {
                terminated_any = true;
            }
            assert(terminated_any == exists|k: int|
                0 <= k < checked@.len() && #[trigger] checked@[k].1 == Ok::<bool, String>(true)) by {
                if terminated {
                    assert(checked@[before.len() as int].1 == Ok::<bool, String>(true));
                }
                assert forall|k: int| 0 <= k < before.len() implies checked@[k] == before[k] by {}
            }
        }
        i += 1;
    }
    assert(threads@.subrange(0, n as int) =~= threads@);
    (terminated_any, checked)
}

/// The hook on `CreateThread` that keeps new integrity threads from starting.
pub struct IntegrityHook {
    hook: Hook,
}

impl IntegrityHook {
    /// The hook.
    pub closed spec fn hook(&self) -> Hook {
        self.hook
    }

    /// The hook on the `CreateThread` function at `create_thread_address`, not
    /// installed.
    pub fn new(create_thread_address: usize) -> (r: Self)
        ensures
            r.hook().target() == create_thread_address,
            r.hook().installed() is None,
    {
        IntegrityHook { hook: Hook::new(create_thread_address) }
    }

    /// The trampoline of the installed hook, which runs the original
    /// `CreateThread`.
    pub fn trampoline(&self) -> (r: Option<Trampoline>)
        ensures
            r == self.hook().installed(),
    {
        self.hook.trampoline()
    }

    /// Installs the hook with `install`, unless it is installed; fails with
    /// `failed to hook CreateThread` if `install` does.
    pub fn apply<I: Fn(usize) -> Option<Trampoline>>(&mut self, install: &I) -> (r: Result<(), String>)
        requires
            installs_anywhere(install),
        ensures
            final(self).hook().target() == old(self).hook().target(),
            old(self).hook().installed() is Some ==> r is Ok && final(self).hook() == old(self).hook(),
            old(self).hook().installed() is None && r is Ok ==> exists|t: Trampoline|
                install.ensures((old(self).hook().target(),), Some(t))
                    && final(self).hook().installed() == Some(t),
            old(self).hook().installed() is None && r is Err ==> install.ensures(
                (old(self).hook().target(),),
                None::<Trampoline>,
            ) && final(self).hook().installed() is None && r->Err_0@ == "failed to hook CreateThread"@,
    {
        if self.hook.trampoline().is_some() {
            return Ok(());
        }
        if self.hook.install(install) {
            Ok(())
        } else {
            Err(String::from_str("failed to hook CreateThread"))
        }
    }

    /// Removes the hook with `uninstall`, if it is installed, and forgets it
    /// either way; fails with `failed to unhook CreateThread` if `uninstall` does.
    pub fn cleanup<U: Fn(usize, Trampoline) -> Option<()>>(&mut self, uninstall: &U) -> (r: Result<
        (),
        String,
    >)
        requires
            uninstalls_anywhere(uninstall),
        ensures
            final(self).hook().target() == old(self).hook().target(),
            final(self).hook().installed() is None,
            old(self).hook().installed() is None ==> r is Ok,
            old(self).hook().installed() matches Some(t) ==> exists|answer: Option<()>|
                uninstall.ensures((old(self).hook().target(), t), answer) && (answer is Some <==> r is Ok),
            r is Err ==> r->Err_0@ == "failed to unhook CreateThread"@,
    {
        match self.hook.uninstall(uninstall) {
            Some(()) => Ok(()),
            None => Err(String::from_str("failed to unhook CreateThread")),
        }
    }
}

/// Installs the `CreateThread` hook with `install` (unless it is installed),
/// then terminates the running integrity threads with `terminate`, which tells
/// whether it terminated one; if it did not, waits with `wait_for_thread`, which
/// tells whether the hook stopped a new integrity thread in time. Fails with the
/// first error: the hook's, the termination's, or `failed to wait for integrity
/// check thread`.
pub fn initialize<I, T, F>(hook: &mut IntegrityHook, install: &I, terminate: &T, wait_for_thread: &F) -> (r:
    Result<(), String>) where
    I: Fn(usize) -> Option<Trampoline>,
    T: Fn() -> Result<bool, String>,
    F: Fn() -> bool,
    requires
        installs_anywhere(install),
        terminate.requires(()),
        wait_for_thread.requires(()),
    ensures
        final(hook).hook().target() == old(hook).hook().target(),
        old(hook).hook().installed() is Some ==> final(hook).hook() == old(hook).hook(),
        old(hook).hook().installed() is None ==> install.ensures(
            (old(hook).hook().target(),),
            final(hook).hook().installed(),
        ),
        final(hook).hook().installed() is None ==> (r matches Err(e) && e@
            == "failed to hook CreateThread"@),
        final(hook).hook().installed() is Some ==> exists|t: Result<bool, String>|
            #[trigger] terminate.ensures((), t) && match t {
                Err(e) => r == Err::<(), String>(e),
                Ok(true) => r is Ok,
                Ok(false) => exists|found: bool|
                    #[trigger] wait_for_thread.ensures((), found) && if found {
                        r is Ok
                    } else {
                        r matches Err(e) && e@ == "failed to wait for integrity check thread"@
                    },
            },
{
    proof {
        reveal_strlit("failed to wait for integrity check thread");
    }
    match hook.apply(install) {
        Ok(()) => {},
        Err(e) => return Err(e),
    }
    let terminated = terminate();
    assert(terminate.ensures((), terminated));
    match terminated {
        Ok(true) => Ok(()),
        Ok(false) => {
            let found = wait_for_thread();
            assert(wait_for_thread.ensures((), found));
            if found {
                Ok(())
            } else {
                Err(String::from_str("failed to wait for integrity check thread"))
            }
        },
        Err(e) => Err(e),
    }
}

} // verus!
