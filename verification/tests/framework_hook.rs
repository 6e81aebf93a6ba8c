use std::cell::RefCell;

use game_patches::framework::hook::{Hook, Trampoline};

#[test]
fn new_hook_is_not_installed() {
    let hook = Hook::new(0x1234);
    assert_eq!(hook.target_address(), 0x1234);
    assert!(hook.trampoline().is_none());
}

#[test]
fn install_keeps_the_trampoline() {
    let calls = RefCell::new(Vec::new());
    let install = |target: usize| {
        calls.borrow_mut().push(target);
        Some(Trampoline { address: 0x9000, size: 7 })
    };
    let mut hook = Hook::new(0x1234);
    assert!(hook.install(&install));
    let t = hook.trampoline().unwrap();
    assert_eq!((t.address, t.size), (0x9000, 7));
    assert_eq!(*calls.borrow(), vec![0x1234]);
}

#[test]
fn failed_install_changes_nothing() {
    let mut hook = Hook::new(0x10);
    assert!(!hook.install(&|_target: usize| None));
    assert!(hook.trampoline().is_none());
    assert!(hook.install(&|_target: usize| Some(Trampoline { address: 1, size: 2 })));
    assert!(!hook.install(&|_target: usize| None));
    assert_eq!(hook.trampoline().map(|t| t.address), Some(1));
}

#[test]
fn uninstall_forgets_the_trampoline() {
    let removed = RefCell::new(Vec::new());
    let uninstall = |target: usize, t: Trampoline| {
        removed.borrow_mut().push((target, t.address));
        None
    };
    let mut hook = Hook::new(0x10);
    assert_eq!(hook.uninstall(&uninstall), Some(()));
    assert!(removed.borrow().is_empty());
    hook.install(&|_target: usize| Some(Trampoline { address: 0x20, size: 5 }));
    assert_eq!(hook.uninstall(&uninstall), None);
    assert!(hook.trampoline().is_none());
    assert_eq!(*removed.borrow(), vec![(0x10, 0x20)]);
}

#[test]
fn detour_errors() {
    let mut hook = Hook::new(0x7FF6_1234_ABCD);
    assert_eq!(
        hook.apply_detour(&|_target: usize| None),
        Err("failed to hook function at 0x7ff61234abcd".to_string())
    );
    assert_eq!(hook.apply_detour(&|t: usize| Some(Trampoline { address: t, size: 5 })), Ok(()));
    assert_eq!(hook.revert_detour(&|_target: usize, _t: Trampoline| None), Ok(()));
    assert!(hook.trampoline().is_none());
}
