use std::cell::RefCell;

use game_patches::acs::game::{
    cleanup_integrity_checks as acs_cleanup_checks, disable_integrity_checks as acs_disable,
};
use game_patches::acs::sdk::integrity::{initialize, IntegrityHook as AcsIntegrityHook};
use game_patches::acs::sdk::{cleanup as acs_sdk_cleanup, wait_until_ready as acs_wait_until_ready};
use game_patches::acu::game::integrity::IntegrityHook as AcuIntegrityHook;
use game_patches::acu::game::is_camera_available;
use game_patches::framework::memory::Memory;
use game_patches::acu::game::{
    cleanup_integrity_checks as acu_cleanup_checks, disable_integrity_checks as acu_disable,
};
use game_patches::acu::sdk::{cleanup as acu_sdk_cleanup, wait_until_ready as acu_wait_until_ready};
use game_patches::framework::hook::Trampoline;
use game_patches::framework::utils::VersionError;

use game_patches::acs::sdk::integrity::{terminate_integrity_checks as acs_terminate, ThreadVerdicts};
use game_patches::acs::sdk::GAME_BINARY_TIMESTAMP;
use game_patches::acu::game::integrity::{
    analyze_thread_start, jump_target_address, terminate_integrity_checks as acu_terminate,
};
use game_patches::acu::sdk::GAME_BINARY_TIMESTAMPS;
use game_patches::framework::platform::Thread;
use game_patches::framework::utils::{check_game_version, Inst};

fn inst(address: usize, bytes: &[u8], mnemonic: &str) -> Inst {
    Inst { address, bytes: bytes.to_vec(), mnemonic: mnemonic.to_string(), op_str: String::new() }
}

#[test]
fn acs_jump_into_section_is_integrity_thread() {
    let mut verdicts = ThreadVerdicts::new();
    let jmp = inst(0x1000, &[0xE9, 0xFB, 0x0F, 0, 0], "jmp");
    assert_eq!(verdicts.analyze_thread_start(0x1000, Some(0x2000..0x3000), Some(jmp)), Some(true));
    let call = inst(0x1100, &[0xE8, 0x00, 0x00, 0x10, 0], "CALL");
    assert_eq!(verdicts.analyze_thread_start(0x1100, Some(0x2000..0x3000), Some(call)), Some(false));
}

#[test]
fn acs_section_end_is_exclusive() {
    let mut verdicts = ThreadVerdicts::new();
    let jmp = inst(0x1000, &[0xE9, 0xFB, 0x0F, 0, 0], "jmp");
    assert_eq!(verdicts.analyze_thread_start(1, Some(0x1000..0x2000), Some(jmp)), Some(false));
}

#[test]
fn acs_other_instructions_are_not_integrity_threads() {
    let mut verdicts = ThreadVerdicts::new();
    let push = inst(0x1000, &[0x55], "push");
    assert_eq!(verdicts.analyze_thread_start(0x1000, Some(0..usize::MAX), Some(push)), Some(false));
}

#[test]
fn acs_verdicts_are_remembered() {
    let mut verdicts = ThreadVerdicts::new();
    let jmp = inst(0x1000, &[0xE9, 0xFB, 0x0F, 0, 0], "jmp");
    assert_eq!(verdicts.analyze_thread_start(0x1000, Some(0x2000..0x3000), Some(jmp)), Some(true));
    assert_eq!(verdicts.analyze_thread_start(0x1000, None, None), Some(true));
    let push = inst(0x1000, &[0x55], "push");
    assert_eq!(verdicts.analyze_thread_start(0x1000, Some(0..1), Some(push)), Some(true));
}

#[test]
fn acs_undecided_threads_are_not_remembered() {
    let mut verdicts = ThreadVerdicts::new();
    let indirect = inst(0x1000, &[0xFF, 0x25, 0, 0, 0, 0], "jmp");
    assert_eq!(verdicts.analyze_thread_start(0x1000, Some(0x2000..0x3000), Some(indirect)), None);
    assert_eq!(verdicts.analyze_thread_start(0x1000, None, None), None);
    let jmp = inst(0x1000, &[0xE9, 0xFB, 0x0F, 0, 0], "jmp");
    assert_eq!(verdicts.analyze_thread_start(0x1000, Some(0x3000..0x4000), Some(jmp)), Some(false));
}

#[test]
fn acs_terminates_own_threads_in_order() {
    let seen = RefCell::new(Vec::new());
    let threads = [
        Thread { tid: 4, owner_pid: 10 },
        Thread { tid: 5, owner_pid: 11 },
        Thread { tid: 7, owner_pid: 10 },
        Thread { tid: 8, owner_pid: 10 },
    ];
    let check = |tid: u32| -> Result<bool, String> {
        seen.borrow_mut().push(tid);
        match tid {
            7 => Ok(true),
            8 => Err("failed to open thread".to_string()),
            _ => Ok(false),
        }
    };
    let (terminated, checked) = acs_terminate(10, &threads, &check);
    assert!(terminated);
    assert_eq!(*seen.borrow(), vec![4, 7, 8]);
    assert_eq!(
        checked,
        vec![(4, Ok(false)), (7, Ok(true)), (8, Err("failed to open thread".to_string()))]
    );
}

#[test]
fn acs_nothing_terminated() {
    let threads = [Thread { tid: 4, owner_pid: 10 }, Thread { tid: 5, owner_pid: 12 }];
    let (terminated, checked) = acs_terminate(12, &threads, &|_tid: u32| Ok(false));
    assert!(!terminated);
    assert_eq!(checked, vec![(5, Ok(false))]);
    let (none, empty) = acs_terminate(99, &threads, &|_tid: u32| Ok(true));
    assert!(!none);
    assert!(empty.is_empty());
}

#[test]
fn acs_timestamp_is_supported() {
    assert!(check_game_version(&[GAME_BINARY_TIMESTAMP], Some(0x6932_E389)).is_ok());
}

#[test]
fn acu_jump_targets() {
    assert_eq!(jump_target_address(&inst(0x1000, &[0xE9, 0xFB, 0x0F, 0, 0], "jmp")), Some(0x2000));
    assert_eq!(jump_target_address(&inst(0x1000, &[0xEB, 0x10], "jmp")), Some(0x1012));
    assert_eq!(jump_target_address(&inst(0x10, &[0xEB, 0x80], "jmp")), None);
    assert_eq!(jump_target_address(&inst(0x1000, &[0xE8, 0, 0, 0, 0], "call")), None);
}

#[test]
fn acu_verdicts() {
    let jmp = inst(0x1000, &[0xE9, 0xFB, 0x0F, 0, 0], "JMP");
    assert_eq!(analyze_thread_start(Some((0x2000, 0x3000)), Some(jmp)), Some(true));
    let to_end = inst(0x1000, &[0xE9, 0xFB, 0x0F, 0, 0], "jmp");
    assert_eq!(analyze_thread_start(Some((0x1000, 0x2000)), Some(to_end)), Some(true));
    let outside = inst(0x1000, &[0xE9, 0xFB, 0x0F, 0, 0], "jmp");
    assert_eq!(analyze_thread_start(Some((0x1000, 0x1FFF)), Some(outside)), Some(false));
    let call = inst(0x1000, &[0xE8, 0xFB, 0x0F, 0, 0], "call");
    assert_eq!(analyze_thread_start(Some((0x2000, 0x3000)), Some(call)), Some(false));
    let indirect = inst(0x1000, &[0xFF, 0x25, 0, 0, 0, 0], "jmp");
    assert_eq!(analyze_thread_start(Some((0, 0x3000)), Some(indirect)), None);
    let any = inst(0x1000, &[0xE9, 0xFB, 0x0F, 0, 0], "jmp");
    assert_eq!(analyze_thread_start(None, Some(any)), None);
    assert_eq!(analyze_thread_start(Some((0, 1)), None), None);
}

#[test]
fn acu_checks_own_threads() {
    let threads = [
        Thread { tid: 1, owner_pid: 3 },
        Thread { tid: 2, owner_pid: 4 },
        Thread { tid: 6, owner_pid: 3 },
    ];
    let checked = acu_terminate(3, &threads, &|tid: u32| Ok(tid == 6));
    assert_eq!(checked, vec![(1, Ok(false)), (6, Ok(true))]);
}

#[test]
fn acu_timestamps_are_supported() {
    assert!(check_game_version(&GAME_BINARY_TIMESTAMPS, Some(0x54DB_5826)).is_ok());
    assert!(check_game_version(&GAME_BINARY_TIMESTAMPS, Some(0x6994_5EEF)).is_ok());
    assert!(check_game_version(&GAME_BINARY_TIMESTAMPS, Some(0x6994_5EF0)).is_err());
}

fn tramp(address: usize) -> Trampoline {
    Trampoline { address, size: 5 }
}

#[test]
fn acs_integrity_hook_installs_once() {
    let installs = RefCell::new(0);
    let install = |target: usize| {
        *installs.borrow_mut() += 1;
        Some(tramp(target + 1))
    };
    let mut hook = AcsIntegrityHook::new(0x7000);
    assert_eq!(hook.apply(&install), Ok(()));
    assert_eq!(hook.apply(&install), Ok(()));
    assert_eq!(*installs.borrow(), 1);
    assert_eq!(hook.trampoline().map(|t| t.address), Some(0x7001));
    assert_eq!(hook.cleanup(&|_a: usize, _t: Trampoline| None), Err("failed to unhook CreateThread".to_string()));
    assert!(hook.trampoline().is_none());
    assert_eq!(hook.cleanup(&|_a: usize, _t: Trampoline| None), Ok(()));
    assert_eq!(hook.apply(&|_a: usize| None), Err("failed to hook CreateThread".to_string()));
}

#[test]
fn acs_initialize_outcomes() {
    let ok_install = |a: usize| Some(tramp(a));
    let mut hook = AcsIntegrityHook::new(0x7000);
    let waited = RefCell::new(false);
    let wait = || {
        *waited.borrow_mut() = true;
        true
    };
    assert_eq!(initialize(&mut hook, &ok_install, &|| Ok(true), &wait), Ok(()));
    assert!(!*waited.borrow());
    assert_eq!(initialize(&mut hook, &ok_install, &|| Ok(false), &wait), Ok(()));
    assert!(*waited.borrow());
    assert_eq!(
        initialize(&mut hook, &ok_install, &|| Ok(false), &|| false),
        Err("failed to wait for integrity check thread".to_string())
    );
    assert_eq!(
        initialize(&mut hook, &ok_install, &|| Err("failed to enumerate threads".to_string()), &|| true),
        Err("failed to enumerate threads".to_string())
    );
    let mut fresh = AcsIntegrityHook::new(0x7000);
    assert_eq!(
        initialize(&mut fresh, &|_a: usize| None, &|| Ok(true), &|| true),
        Err("failed to hook CreateThread".to_string())
    );
}

#[test]
fn acs_disable_and_cleanup() {
    let mut hook = AcsIntegrityHook::new(0x10);
    assert_eq!(acs_disable(&mut hook, &|a: usize| Some(tramp(a)), &|| Ok(false)), Ok(()));
    assert!(hook.trampoline().is_some());
    assert_eq!(acs_cleanup_checks(&mut hook, &|_a: usize, _t: Trampoline| Some(())), Ok(()));
    assert!(hook.trampoline().is_none());
    assert_eq!(
        acs_disable(&mut hook, &|a: usize| Some(tramp(a)), &|| Err("x".to_string())),
        Err("x".to_string())
    );
    assert_eq!(acs_sdk_cleanup(&mut hook, &|_a: usize, _t: Trampoline| None), Err("failed to unhook CreateThread".to_string()));
}

#[test]
fn acs_readiness() {
    let ready = acs_wait_until_ready(Some(0x6932_E389), &|| Ok(()));
    assert!(matches!(ready.version, Ok(0x6932_E389)));
    assert_eq!(ready.integrity, Ok(()));
    let late = acs_wait_until_ready(Some(1), &|| Err("failed to hook CreateThread".to_string()));
    assert_eq!(late.version.err().map(|e| e.message()), Some("timestamp mismatch (got 0x1, expected one of [6932e389])".to_string()));
    assert_eq!(late.integrity, Err("failed to hook CreateThread".to_string()));
}

#[test]
fn acu_integrity_hook_reinstalls() {
    let installs = RefCell::new(0);
    let install = |target: usize| {
        *installs.borrow_mut() += 1;
        Some(tramp(target + *installs.borrow()))
    };
    let mut hook = AcuIntegrityHook::new(0x7000);
    assert_eq!(hook.apply(&install), Ok(()));
    assert_eq!(hook.apply(&install), Ok(()));
    assert_eq!(*installs.borrow(), 2);
    assert_eq!(hook.trampoline().map(|t| t.address), Some(0x7002));
    assert_eq!(hook.apply(&|_a: usize| None), Err("failed to hook CreateThread".to_string()));
    assert_eq!(hook.trampoline().map(|t| t.address), Some(0x7002));
    assert_eq!(hook.cleanup(&|_a: usize, _t: Trampoline| None), Ok(()));
    assert!(hook.trampoline().is_none());
}

#[test]
fn acu_disable_cleanup_and_readiness() {
    let mut hook = AcuIntegrityHook::new(0x10);
    assert_eq!(acu_disable(&mut hook, &|a: usize| Some(tramp(a)), &|| Ok(())), Ok(()));
    assert_eq!(
        acu_disable(&mut hook, &|_a: usize| None, &|| Ok(())),
        Err("failed to hook CreateThread".to_string())
    );
    assert_eq!(
        acu_disable(&mut hook, &|a: usize| Some(tramp(a)), &|| Err("failed to enumerate threads".to_string())),
        Err("failed to enumerate threads".to_string())
    );
    assert_eq!(acu_cleanup_checks(&mut hook, &|_a: usize, _t: Trampoline| None), Ok(()));
    assert_eq!(acu_sdk_cleanup(&mut hook, &|_a: usize, _t: Trampoline| None), Ok(()));
    let ready = acu_wait_until_ready(None, &|| Ok(()), &|| Err("failed to unhook".to_string()));
    assert!(matches!(ready.version, Err(VersionError::TimestampUnavailable)));
    assert_eq!(ready.integrity, Ok(()));
    assert_eq!(ready.prot_memory, Err("failed to unhook".to_string()));
    let known = acu_wait_until_ready(Some(0x6994_5EEF), &|| Ok(()), &|| Ok(()));
    assert!(matches!(known.version, Ok(0x6994_5EEF)));
}

fn camera_memory(manager: u64, size: u16, first: u64) -> Vec<(usize, Vec<u8>)> {
    vec![
        (0x1_4521_AAD0, manager.to_le_bytes().to_vec()),
        ((manager + 0x4A) as usize, size.to_le_bytes().to_vec()),
        ((manager + 0x40) as usize, first.to_le_bytes().to_vec()),
    ]
}

/// Memory that holds a few blocks of bytes; every other byte is zero, and
/// nothing can be written.
struct Blocks(Vec<(usize, Vec<u8>)>);

impl Memory for Blocks {
    fn read(&self, address: usize, len: usize) -> Vec<u8> {
        (0..len)
            .map(|i| {
                let x = address + i;
                self.0
                    .iter()
                    .find_map(|(at, bytes)| if x >= *at && x < at + bytes.len() { Some(bytes[x - at]) } else { None })
                    .unwrap_or(0)
            })
            .collect()
    }

    fn write(&mut self, _address: usize, _bytes: Vec<u8>) -> Result<(), String> {
        Err("read-only".to_string())
    }
}

fn camera_available(cells: Vec<(usize, Vec<u8>)>) -> bool {
    is_camera_available(&Blocks(cells))
}

#[test]
fn acu_camera_availability() {
    assert!(camera_available(camera_memory(0x2000_0000, 1, 0x3000_0000)));
    assert!(!camera_available(camera_memory(0, 1, 0x3000_0000)));
    assert!(!camera_available(camera_memory(0x2000_0000, 0, 0x3000_0000)));
    assert!(!camera_available(camera_memory(0x2000_0000, 3, 0)));
}
