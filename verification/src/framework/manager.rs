//! The patch manager: keeps the registered patches and applies or reverts them
//! all, honouring the configuration.

use vstd::prelude::*;
use crate::framework::config::{patch_enabled_in, Config};
use crate::framework::memory::Memory;
use crate::framework::patch::Patch;

verus! {

broadcast use vstd::seq::group_seq_axioms;

/// What happened to one patch in `apply_all` or `revert_all`.
pub enum PatchOutcome {
    /// The configuration disables the patch; it was left alone.
    Disabled,
    /// The patch was applied before; it was left alone.
    AlreadyApplied,
    /// The patch was applied now.
    Applied,
    /// The patch was not applied; there was nothing to revert.
    NotApplied,
    /// The patch was reverted now.
    Reverted,
    /// Applying or reverting the patch failed with this error.
    Failed(String),
}

/// The outcome for one patch, with the patch's name.
pub struct PatchReport {
    pub name: &'static str,
    pub outcome: PatchOutcome,
}

#[verifier::reject_recursive_types(M)]
struct ManagedPatch<M> where
    M: Memory,
 {
    patch: Box<dyn Patch<M>>,
    name: &'static str,
    config_key: Option<&'static str>,
    is_applied: bool,
}

/// The registered patches, in registration order.
#[verifier::reject_recursive_types(M)]
pub struct PatchManager<M> where
    M: Memory,
 {
    patches: Vec<ManagedPatch<M>>,
}

/// What the manager knows of one registered patch.
pub struct PatchEntry {
    pub name: Seq<char>,
    pub config_key: Option<Seq<char>>,
    pub is_applied: bool,
}

/// The entry of a patch just registered under `name` and `key`: not applied.
pub open spec fn fresh_entry(name: Seq<char>, key: Option<Seq<char>>) -> PatchEntry {
    PatchEntry { name, config_key: key, is_applied: false }
}

/// `e` if `ok`, else nothing: what one registration adds to the entries.
pub open spec fn added_if(ok: bool, e: PatchEntry) -> Seq<PatchEntry> {
    if ok {
        seq![e]
    } else {
        Seq::empty()
    }
}

/// Whether `config` enables a patch with configuration key `key`.
pub open spec fn enabled_by(config: Config, key: Option<Seq<char>>) -> bool {
    match key {
        Some(k) => patch_enabled_in(config.patches@, k),
        None => true,
    }
}

/// The outcomes that `apply_all` may report for a patch in state `e`: disabled
/// patches are skipped, applied ones are left alone, the others are applied or
/// fail.
pub open spec fn apply_outcome_allowed(e: PatchEntry, config: Config, outcome: PatchOutcome) -> bool {
    if !enabled_by(config, e.config_key) {
        outcome is Disabled
    } else if e.is_applied {
        outcome is AlreadyApplied
    } else {
        outcome is Applied || outcome is Failed
    }
}

/// The state of a patch in state `e` after `apply_all` reported `outcome` for it.
pub open spec fn after_apply(e: PatchEntry, outcome: PatchOutcome) -> PatchEntry {
    PatchEntry { is_applied: e.is_applied || outcome is Applied, ..e }
}

/// The outcomes that `revert_all` may report for a patch in state `e`.
pub open spec fn revert_outcome_allowed(e: PatchEntry, outcome: PatchOutcome) -> bool {
    if e.is_applied {
        outcome is Reverted || outcome is Failed
    } else {
        outcome is NotApplied
    }
}

/// The state of a patch in state `e` after `revert_all` reported `outcome` for it.
pub open spec fn after_revert(e: PatchEntry, outcome: PatchOutcome) -> PatchEntry {
    PatchEntry { is_applied: e.is_applied && !(outcome is Reverted), ..e }
}

impl<M> ManagedPatch<M> where
    M: Memory,
 {
    fn new(patch: Box<dyn Patch<M>>, name: &'static str, config_key: Option<&'static str>) -> (r: Self)
        ensures
            r.name == name,
            r.config_key == config_key,
            !r.is_applied,
    {
        ManagedPatch { patch, name, config_key, is_applied: false }
    }
}

/// The `k`-th report of `revert_all` over entries `before`, which became `after`,
/// is right: it names the `k`-th patch from the end and reports what happened to
/// it.
pub open spec fn revert_report_ok(
    before: Seq<PatchEntry>,
    after: Seq<PatchEntry>,
    report: Seq<PatchReport>,
    k: int,
) -> bool {
    let i = before.len() - 1 - k;
    &&& report[k].name@ == before[i].name
    &&& revert_outcome_allowed(before[i], report[k].outcome)
    &&& after[i] == after_revert(before[i], report[k].outcome)
}

spec fn entry_of<M>(m: ManagedPatch<M>) -> PatchEntry where
    M: Memory,
 {
    PatchEntry {
        name: m.name@,
        config_key: match m.config_key {
            Some(k) => Some(k@),
            None => None,
        },
        is_applied: m.is_applied,
    }
}

impl<M> View for PatchManager<M> where
    M: Memory,
 {
    type V = Seq<PatchEntry>;

    closed spec fn view(&self) -> Seq<PatchEntry> {
        self.patches@.map_values(|m: ManagedPatch<M>| entry_of(m))
    }
}

impl<M> PatchManager<M> where
    M: Memory,
 {
    /// Whether applying the `i`-th patch as it now is may answer `r` and take
    /// memory `before` to `after` (see `Patch::apply_answers`).
    pub closed spec fn apply_answers_at(&self, i: int, before: M, after: M, r: Result<(), String>) -> bool {
        self.patches@[i].patch.apply_answers(before, after, r)
    }

    /// Whether reverting the `i`-th patch as it now is may answer `r` and take
    /// memory `before` to `after` (see `Patch::revert_answers`).
    pub closed spec fn revert_answers_at(&self, i: int, before: M, after: M, r: Result<(), String>) -> bool {
        self.patches@[i].patch.revert_answers(before, after, r)
    }

    /// The `i`-th report of `apply_all` from `self` carries what applying its
    /// patch did over memory `ms[i]`, leaving `ms[i + 1]`: the patch was applied
    /// and answered `Ok` for `Applied` and the error of `Failed`; for the other
    /// outcomes memory was left alone.
    pub open spec fn apply_memory_ok(&self, report: Seq<PatchReport>, ms: Seq<M>, i: int) -> bool {
        &&& report[i].outcome is Applied ==> self.apply_answers_at(i, ms[i], ms[i + 1], Ok(()))
        &&& report[i].outcome matches PatchOutcome::Failed(e) ==> self.apply_answers_at(
            i,
            ms[i],
            ms[i + 1],
            Err(e),
        )
        &&& !(report[i].outcome is Applied || report[i].outcome is Failed) ==> ms[i + 1] == ms[i]
    }

    /// The `i`-th patch of `self` is the very patch that `other` holds there, in
    /// the same state.
    pub closed spec fn same_patch_at(&self, other: &Self, i: int) -> bool {
        self.patches@[i].patch == other.patches@[i].patch
    }

    /// The `k`-th report of `revert_all` from `self`, which became `after`,
    /// carries what reverting its patch did over memory `ms[k]`, leaving
    /// `ms[k + 1]`: the patch `k`-th from the end was reverted and answered `Ok`
    /// for `Reverted` and the error of `Failed`; a patch reported `NotApplied`
    /// was left as it was, and so was memory.
    pub open spec fn revert_answer_ok(
        &self,
        after: &Self,
        report: Seq<PatchReport>,
        k: int,
        ms: Seq<M>,
    ) -> bool {
        let i = self@.len() - 1 - k;
        &&& report[k].outcome is Reverted ==> self.revert_answers_at(i, ms[k], ms[k + 1], Ok(()))
        &&& report[k].outcome matches PatchOutcome::Failed(e) ==> self.revert_answers_at(
            i,
            ms[k],
            ms[k + 1],
            Err(e),
        )
        &&& report[k].outcome is NotApplied ==> after.same_patch_at(self, i) && ms[k + 1] == ms[k]
    }

    /// A manager with no patches.
    pub fn new() -> (r: Self)
        ensures
            r@ == Seq::<PatchEntry>::empty(),
    {
        let r = PatchManager { patches: Vec::new() };
        assert(r@ =~= Seq::<PatchEntry>::empty());
        r
    }

    /// Registers the patch that `init` produced, unapplied, after the others,
    /// under the patch type's name and its configuration key. A failed `init`
    /// registers nothing and its error is handed back.
    pub fn register<P>(&mut self, init: Result<P, String>) -> (r: Result<(), String>) where
        P: Patch<M> + 'static,
        ensures
            init is Ok ==> {
                &&& r is Ok
                &&& final(self)@ == old(self)@.push(
                    fresh_entry(P::spec_name(), init->Ok_0.spec_config_key()),
                )
                &&& forall|j: int|
                    0 <= j < old(self)@.len() ==> #[trigger] final(self).same_patch_at(
                        &*old(self),
                        j,
                    )
            },
            init is Err ==> r == Err::<(), String>(init->Err_0) && final(self)@ == old(self)@,
    {
        match init {
            Ok(patch) => {
                let name = P::name();
                let config_key = patch.config_key();
                let ghost patch_key = patch.spec_config_key();
                let managed = ManagedPatch::new(Box::new(patch), name, config_key);
                let ghost before = self@;
                let ghost before_patches = self.patches@;
                self.patches.push(managed);
                assert forall|j: int| 0 <= j < before.len() implies #[trigger] self@[j] == before[j] by {
                    assert(self.patches@[j] == before_patches[j]);
                }
                assert(self@ =~= before.push(fresh_entry(P::spec_name(), patch_key)));
                Ok(())
            },
            Err(e) => Err(e),
        }
    }

    /// Applies, in registration order, every patch that the configuration enables
    /// and that is not applied yet; reports what happened to each patch, in
    /// registration order. Memory goes through the states `ms`, one step per
    /// patch (see `apply_memory_ok`).
    pub fn apply_all(&mut self, config: &Config, mem: &mut M) -> (r: Vec<PatchReport>)
        requires
            config.well_formed(),
        ensures
            final(self)@.len() == old(self)@.len(),
            r@.len() == old(self)@.len(),
            forall|i: int|
                0 <= i < old(self)@.len() ==> {
                    &&& #[trigger] r@[i].name@ == old(self)@[i].name
                    &&& apply_outcome_allowed(old(self)@[i], *config, r@[i].outcome)
                    &&& final(self)@[i] == after_apply(old(self)@[i], r@[i].outcome)
                    &&& !(r@[i].outcome is Applied || r@[i].outcome is Failed)
                        ==> final(self).same_patch_at(&*old(self), i)
                },
            exists|ms: Seq<M>|
                {
                    &&& ms.len() == old(self)@.len() + 1
                    &&& ms[0] == *old(mem)
                    &&& ms.last() == *final(mem)
                    &&& forall|i: int|
                        0 <= i < old(self)@.len() ==> #[trigger] old(self).apply_memory_ok(
                            r@,
                            ms,
                            i,
                        )
                },
    {
        let n = self.patches.len();
        let mut report: Vec<PatchReport> = Vec::new();
        let ghost mut ms: Seq<M> = seq![*mem];
        let mut i: usize = 0;
        while i < n
            invariant
                n == old(self)@.len(),
                self@.len() == n,
                report@.len() == i,
                i <= n,
                config.well_formed(),
                ms.len() == i + 1,
                ms[0] == *old(mem),
                ms[i as int] == *mem,
                forall|j: int|
                    0 <= j < i ==> {
                        &&& #[trigger] report@[j].name@ == old(self)@[j].name
                        &&& apply_outcome_allowed(old(self)@[j], *config, report@[j].outcome)
                        &&& self@[j] == after_apply(old(self)@[j], report@[j].outcome)
                        &&& !(report@[j].outcome is Applied || report@[j].outcome is Failed)
                            ==> self.same_patch_at(&*old(self), j)
                    },
                forall|j: int| 0 <= j < i ==> #[trigger] old(self).apply_memory_ok(report@, ms, j),
                forall|j: int| i <= j < n ==> #[trigger] self@[j] == old(self)@[j],
                forall|j: int| i <= j < n ==> #[trigger] self.same_patch_at(&*old(self), j),
            decreases n - i,
        {
            let ghost before = self@;
            let ghost before_patches = self.patches@;
            let ghost mem_before = *mem;
            assert(before[i as int] == entry_of(before_patches[i as int]));
            assert(before[i as int] == old(self)@[i as int]);
            let enabled = match self.patches[i].config_key {
                Some(key) => config.patch_enabled(key),
                None => true,
            };
            let name = self.patches[i].name;
            assert(self.same_patch_at(&*old(self), i as int));
            let ghost s0 = *self;
            let outcome = if !enabled {
                PatchOutcome::Disabled
            } else if self.patches[i].is_applied {
                PatchOutcome::AlreadyApplied
            } else {
                let answer = self.patches[i].patch.apply(mem);
                assert(old(self).apply_answers_at(i as int, mem_before, *mem, answer));
                match answer {
                    Ok(u) => {
                        assert(u == ());
                        assert(answer == Ok::<(), String>(()));
                        self.patches[i].is_applied = true;
                        PatchOutcome::Applied
                    },
                    Err(e) => PatchOutcome::Failed(e),
                }
            };
            proof {
                assert forall|j: int| 0 <= j < n && j != i implies #[trigger] self@[j] == before[j]
                    && self.patches@[j] == before_patches[j] by {
                    assert(self.patches@[j] == before_patches[j]);
                }
                assert forall|j: int| i < j < n implies #[trigger] self.same_patch_at(
                    &*old(self),
                    j,
                ) by {
                    assert(s0.same_patch_at(&*old(self), j));
                    assert(self.patches@[j] == before_patches[j]);
                }
                assert forall|j: int|
                    0 <= j < i && !(report@[j].outcome is Applied || report@[j].outcome is Failed)
                        implies #[trigger] self.same_patch_at(&*old(self), j) by {
                    assert(report@[j].name@ == old(self)@[j].name);
                    assert(s0.same_patch_at(&*old(self), j));
                    assert(self.patches@[j] == before_patches[j]);
                }
                if !(outcome is Applied || outcome is Failed) {
                    assert(self.patches@[i as int] == before_patches[i as int]);
                    assert(self.same_patch_at(&*old(self), i as int));
                }
            }
            assert(enabled == enabled_by(*config, before[i as int].config_key));
            assert(self.patches@[i as int].name == before_patches[i as int].name);
            assert(self.patches@[i as int].config_key == before_patches[i as int].config_key);
            assert(self@[i as int] == after_apply(old(self)@[i as int], outcome));
            let ghost before_report = report@;
            let ghost before_ms = ms;
            let rep = PatchReport { name, outcome };
            report.push(rep);
            proof {
                ms = ms.push(*mem);
            }
            assert(report@[i as int].name@ == old(self)@[i as int].name);
            assert(apply_outcome_allowed(old(self)@[i as int], *config, report@[i as int].outcome));
            assert(old(self).apply_memory_ok(report@, ms, i as int));
            assert forall|j: int| 0 <= j < i + 1 implies #[trigger] old(self).apply_memory_ok(
                report@,
                ms,
                j,
            ) by {
                if j < i {
                    assert(report@[j] == before_report[j]);
                    assert(ms[j] == before_ms[j]);
                    assert(ms[j + 1] == before_ms[j + 1]);
                    assert(old(self).apply_memory_ok(before_report, before_ms, j));
                }
            }
            assert forall|j: int| 0 <= j < i + 1 implies {
                &&& #[trigger] report@[j].name@ == old(self)@[j].name
                &&& apply_outcome_allowed(old(self)@[j], *config, report@[j].outcome)
                &&& self@[j] == after_apply(old(self)@[j], report@[j].outcome)
                &&& !(report@[j].outcome is Applied || report@[j].outcome is Failed)
                    ==> self.same_patch_at(&*old(self), j)
            } by {
                if j < i {
                    assert(report@[j] == before_report[j]);
                    assert(before_report[j].name@ == old(self)@[j].name);
                }
            }
            i += 1;
        }
        assert(ms.last() == *mem);
        report
    }

    /// Reverts every applied patch, in reverse registration order; reports what
    /// happened to each patch in the order the patches were visited, so the
    /// `k`-th report is that of the `k`-th patch from the end. Memory goes
    /// through the states `ms`, one step per patch (see `revert_answer_ok`).
    pub fn revert_all(&mut self, mem: &mut M) -> (r: Vec<PatchReport>)
        ensures
            final(self)@.len() == old(self)@.len(),
            r@.len() == old(self)@.len(),
            forall|k: int|
                0 <= k < old(self)@.len() ==> #[trigger] revert_report_ok(
                    old(self)@,
                    final(self)@,
                    r@,
                    k,
                ),
            exists|ms: Seq<M>|
                {
                    &&& ms.len() == old(self)@.len() + 1
                    &&& ms[0] == *old(mem)
                    &&& ms.last() == *final(mem)
                    &&& forall|k: int|
                        0 <= k < old(self)@.len() ==> #[trigger] old(self).revert_answer_ok(
                            &*final(self),
                            r@,
                            k,
                            ms,
                        )
                },
    {
        let n = self.patches.len();
        let mut report: Vec<PatchReport> = Vec::new();
        let ghost mut ms: Seq<M> = seq![*mem];
        let mut k: usize = 0;
        while k < n
            invariant
                n == old(self)@.len(),
                self@.len() == n,
                report@.len() == k,
                k <= n,
                ms.len() == k + 1,
                ms[0] == *old(mem),
                ms[k as int] == *mem,
                forall|m: int| 0 <= m < k ==> #[trigger] revert_report_ok(old(self)@, self@, report@, m),
                forall|m: int|
                    0 <= m < k ==> #[trigger] old(self).revert_answer_ok(&*self, report@, m, ms),
                forall|j: int| 0 <= j < n - k ==> #[trigger] self@[j] == old(self)@[j],
                forall|j: int| 0 <= j < n - k ==> #[trigger] self.same_patch_at(&*old(self), j),
            decreases n - k,
        {
            let i = n - 1 - k;
            let ghost before = self@;
            let ghost before_patches = self.patches@;
            let ghost mem_before = *mem;
            assert(before[i as int] == entry_of(before_patches[i as int]));
            assert(before[i as int] == old(self)@[i as int]);
            let name = self.patches[i].name;
            assert(self.same_patch_at(&*old(self), i as int));
            let ghost s0 = *self;
            let outcome = if !self.patches[i].is_applied {
                PatchOutcome::NotApplied
            } else {
                let answer = self.patches[i].patch.revert(mem);
                assert(old(self).revert_answers_at(i as int, mem_before, *mem, answer));
                match answer {
                    Ok(u) => {
                        assert(u == ());
                        assert(answer == Ok::<(), String>(()));
                        self.patches[i].is_applied = false;
                        PatchOutcome::Reverted
                    },
                    Err(e) => PatchOutcome::Failed(e),
                }
            };
            proof {
                assert forall|j: int| 0 <= j < n && j != i implies #[trigger] self@[j] == before[j]
                    && self.patches@[j] == before_patches[j] by {
                    assert(self.patches@[j] == before_patches[j]);
                }
                assert forall|j: int| 0 <= j < i implies #[trigger] self.same_patch_at(
                    &*old(self),
                    j,
                ) by {
                    assert(s0.same_patch_at(&*old(self), j));
                    assert(self.patches@[j] == before_patches[j]);
                }
                if outcome is NotApplied {
                    assert(self.patches@[i as int] == before_patches[i as int]);
                    assert(self.same_patch_at(&*old(self), i as int));
                }
            }
            assert(self.patches@[i as int].name == before_patches[i as int].name);
            assert(self.patches@[i as int].config_key == before_patches[i as int].config_key);
            assert(self@[i as int] == after_revert(old(self)@[i as int], outcome));
            let ghost before_report = report@;
            let ghost before_ms = ms;
            report.push(PatchReport { name, outcome });
            proof {
                ms = ms.push(*mem);
            }
            assert forall|m: int| 0 <= m < k + 1 implies #[trigger] revert_report_ok(
                old(self)@,
                self@,
                report@,
                m,
            ) by {
                if m < k {
                    assert(report@[m] == before_report[m]);
                    assert(revert_report_ok(old(self)@, before, before_report, m));
                    assert(self@[n - 1 - m] == before[n - 1 - m]);
                } else {
                    assert(m == k);
                    assert(n - 1 - m == i);
                    assert(report@[m].outcome == outcome);
                }
            }
            assert forall|m: int| 0 <= m < k + 1 implies #[trigger] old(self).revert_answer_ok(
                &*self,
                report@,
                m,
                ms,
            ) by {
                if m < k {
                    assert(report@[m] == before_report[m]);
                    assert(ms[m] == before_ms[m]);
                    assert(ms[m + 1] == before_ms[m + 1]);
                    assert(old(self).revert_answer_ok(&s0, before_report, m, before_ms));
                    assert(self.patches@[n - 1 - m] == before_patches[n - 1 - m]);
                } else {
                    assert(report@[m].outcome == outcome);
                    assert(n - 1 - m == i);
                    assert(ms[m] == mem_before);
                }
            }
            k += 1;
        }
        assert(ms.last() == *mem);
        report
    }
}


/// Applying all patches a second time, with the same configuration, applies
/// nothing new and fails nowhere for a patch whose first application did not
/// fail: it is skipped as disabled or as already applied, and stays as it was.
pub proof fn lemma_apply_all_twice(e: PatchEntry, config: Config, first: PatchOutcome, second: PatchOutcome)
    requires
        apply_outcome_allowed(e, config, first),
        apply_outcome_allowed(after_apply(e, first), config, second),
        !(first is Failed),
    ensures
        second is Disabled || second is AlreadyApplied,
        after_apply(after_apply(e, first), second) == after_apply(e, first),
{
}

/// A patch that the configuration disables is never applied by `apply_all`: it
/// is reported disabled and keeps its state.
pub proof fn lemma_disabled_patch_untouched(e: PatchEntry, config: Config, outcome: PatchOutcome)
    requires
        apply_outcome_allowed(e, config, outcome),
        !enabled_by(config, e.config_key),
    ensures
        outcome is Disabled,
        after_apply(e, outcome) == e,
{
}

/// Reverting what `apply_all` applied, when the revert succeeds, brings the
/// patch back to the state it had before: `revert_all` undoes `apply_all`.
pub proof fn lemma_revert_all_undoes_apply_all(
    e: PatchEntry,
    config: Config,
    applied: PatchOutcome,
    reverted: PatchOutcome,
)
    requires
        !e.is_applied,
        apply_outcome_allowed(e, config, applied),
        revert_outcome_allowed(after_apply(e, applied), reverted),
        !(reverted is Failed),
    ensures
        after_revert(after_apply(e, applied), reverted) == e,
        applied is Applied ==> reverted is Reverted,
{
}

/// After `revert_all`, a patch is still applied only if reverting it failed.
pub proof fn lemma_revert_all_leaves_only_failures(e: PatchEntry, outcome: PatchOutcome)
    requires
        revert_outcome_allowed(e, outcome),
    ensures
        after_revert(e, outcome).is_applied ==> outcome is Failed,
{
}

} // verus!
