use std::cell::RefCell;

use game_patches::framework::config::Config;
use game_patches::framework::manager::{PatchManager, PatchOutcome};
use game_patches::framework::memory::MemoryImage;
use game_patches::framework::patch::{Patch, PatchInfo};

/// A patch that records what was done to it and fails on demand.
struct Probe {
    key: Option<&'static str>,
    log: &'static RefCell<Vec<String>>,
    label: &'static str,
    fail_apply: bool,
    fail_revert: bool,
}

impl PatchInfo for Probe {
    fn name() -> &'static str {
        "Probe"
    }

    fn config_key(&self) -> Option<&'static str> {
        self.key
    }
}

impl Patch<MemoryImage> for Probe {
    fn apply(&mut self, _mem: &mut MemoryImage) -> Result<(), String> {
        self.log.borrow_mut().push(format!("apply {}", self.label));
        if self.fail_apply {
            Err(format!("cannot apply {}", self.label))
        } else {
            Ok(())
        }
    }

    fn revert(&mut self, _mem: &mut MemoryImage) -> Result<(), String> {
        self.log.borrow_mut().push(format!("revert {}", self.label));
        if self.fail_revert {
            Err(format!("cannot revert {}", self.label))
        } else {
            Ok(())
        }
    }
}

fn leak_log() -> &'static RefCell<Vec<String>> {
    Box::leak(Box::new(RefCell::new(Vec::new())))
}

fn probe(log: &'static RefCell<Vec<String>>, label: &'static str, key: Option<&'static str>) -> Probe {
    Probe { key, log, label, fail_apply: false, fail_revert: false }
}

fn memory() -> MemoryImage {
    MemoryImage::new(0, vec![0u8; 16])
}

fn config_with(entries: &[(&str, bool)]) -> Config {
    let mut config = Config::default();
    config.patches = entries.iter().map(|(k, v)| (k.to_string(), *v)).collect();
    config
}

fn is(outcome: &PatchOutcome, expected: &str) -> bool {
    match outcome {
        PatchOutcome::Disabled => expected == "disabled",
        PatchOutcome::AlreadyApplied => expected == "already",
        PatchOutcome::Applied => expected == "applied",
        PatchOutcome::NotApplied => expected == "not-applied",
        PatchOutcome::Reverted => expected == "reverted",
        PatchOutcome::Failed(e) => expected == e,
    }
}

#[test]
fn register_keeps_successful_inits_only() {
    let log = leak_log();
    let mut mem = memory();
    let mut manager = PatchManager::new();
    assert_eq!(manager.register::<Probe>(Ok(probe(log, "a", None))), Ok(()));
    assert_eq!(
        manager.register::<Probe>(Err("signature not found".to_string())),
        Err("signature not found".to_string())
    );
    let report = manager.apply_all(&Config::default(), &mut mem);
    assert_eq!(report.len(), 1);
    assert_eq!(report[0].name, "Probe");
}

#[test]
fn apply_all_honours_configuration_and_order() {
    let log = leak_log();
    let mut mem = memory();
    let mut manager = PatchManager::new();
    manager.register::<Probe>(Ok(probe(log, "a", Some("first")))).unwrap();
    manager.register::<Probe>(Ok(probe(log, "b", Some("second")))).unwrap();
    manager.register::<Probe>(Ok(probe(log, "c", None))).unwrap();
    let config = config_with(&[("second", false), ("first", true)]);
    let report = manager.apply_all(&config, &mut mem);
    assert!(is(&report[0].outcome, "applied"));
    assert!(is(&report[1].outcome, "disabled"));
    assert!(is(&report[2].outcome, "applied"));
    assert_eq!(*log.borrow(), vec!["apply a".to_string(), "apply c".to_string()]);
}

#[test]
fn apply_all_twice_applies_nothing_new() {
    let log = leak_log();
    let mut mem = memory();
    let mut manager = PatchManager::new();
    manager.register::<Probe>(Ok(probe(log, "a", None))).unwrap();
    manager.register::<Probe>(Ok(probe(log, "b", Some("off")))).unwrap();
    let config = config_with(&[("off", false)]);
    manager.apply_all(&config, &mut mem);
    let second = manager.apply_all(&config, &mut mem);
    assert!(is(&second[0].outcome, "already"));
    assert!(is(&second[1].outcome, "disabled"));
    assert_eq!(*log.borrow(), vec!["apply a".to_string()]);
}

#[test]
fn apply_all_retries_failed_patches() {
    let log = leak_log();
    let mut mem = memory();
    let mut manager = PatchManager::new();
    let mut failing = probe(log, "x", None);
    failing.fail_apply = true;
    manager.register::<Probe>(Ok(failing)).unwrap();
    let first = manager.apply_all(&Config::default(), &mut mem);
    assert!(is(&first[0].outcome, "cannot apply x"));
    let second = manager.apply_all(&Config::default(), &mut mem);
    assert!(is(&second[0].outcome, "cannot apply x"));
    let revert = manager.revert_all(&mut mem);
    assert!(is(&revert[0].outcome, "not-applied"));
}

#[test]
fn revert_all_goes_in_reverse_order() {
    let log = leak_log();
    let mut mem = memory();
    let mut manager = PatchManager::new();
    manager.register::<Probe>(Ok(probe(log, "a", None))).unwrap();
    manager.register::<Probe>(Ok(probe(log, "b", Some("off")))).unwrap();
    manager.register::<Probe>(Ok(probe(log, "c", None))).unwrap();
    manager.apply_all(&config_with(&[("off", false)]), &mut mem);
    log.borrow_mut().clear();
    let report = manager.revert_all(&mut mem);
    assert_eq!(report.len(), 3);
    assert!(is(&report[0].outcome, "reverted"));
    assert!(is(&report[1].outcome, "not-applied"));
    assert!(is(&report[2].outcome, "reverted"));
    assert_eq!(*log.borrow(), vec!["revert c".to_string(), "revert a".to_string()]);
}

#[test]
fn revert_all_undoes_apply_all() {
    let log = leak_log();
    let mut mem = memory();
    let mut manager = PatchManager::new();
    manager.register::<Probe>(Ok(probe(log, "a", None))).unwrap();
    manager.apply_all(&Config::default(), &mut mem);
    manager.revert_all(&mut mem);
    let again = manager.apply_all(&Config::default(), &mut mem);
    assert!(is(&again[0].outcome, "applied"));
}

#[test]
fn failed_revert_keeps_patch_applied() {
    let log = leak_log();
    let mut mem = memory();
    let mut manager = PatchManager::new();
    let mut sticky = probe(log, "s", None);
    sticky.fail_revert = true;
    manager.register::<Probe>(Ok(sticky)).unwrap();
    manager.apply_all(&Config::default(), &mut mem);
    let report = manager.revert_all(&mut mem);
    assert!(is(&report[0].outcome, "cannot revert s"));
    let again = manager.apply_all(&Config::default(), &mut mem);
    assert!(is(&again[0].outcome, "already"));
}
