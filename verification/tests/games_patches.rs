use game_patches::framework::config::Config;
use game_patches::framework::manager::{PatchManager, PatchOutcome};
use game_patches::framework::memory::MemoryImage;
use game_patches::framework::patch::{Patch, PatchInfo};
use game_patches::framework::utils::Inst;

use game_patches::acs::patches::disable_camera_smoothing::DisableCameraSmoothing as AcsSmoothing;
use game_patches::acu::patches::disable_camera_smoothing::DisableCameraSmoothing as AcuSmoothing;
use game_patches::build_support::{replace, resource_strings};
use game_patches::fc3::patches::disable_input_clamp::DisableInputClamp;
use game_patches::fc3::patches::sensitivity_fix::{hook_target, SensitivityFix as Fc3SensitivityFix};
use game_patches::acu::patches::mouse_sensitivity_fix::{hook_targets, MouseSensitivityFix as AcuMouseFix};
use game_patches::framework::hook::Trampoline;
use game_patches::games64::mesom::patches::uniform_camera_speed::UniformCameraSpeed as Mesom64Speed;
use game_patches::lswtss::patches::disable_camera_smoothing::DisableCameraSmoothing as LswtssSmoothing;
use game_patches::mesom::patches::disable_camera_smoothing::DisableCameraSmoothing as MesomSmoothing;
use game_patches::mesom::patches::uniform_camera_speed::UniformCameraSpeed as MesomSpeed;
use game_patches::mesow::config::Config as MesowConfig;
use game_patches::mesow::patches::disable_camera_smoothing::DisableCameraSmoothing as MesowSmoothing;
use game_patches::sodyose::patches::disable_input_clamp::DisableMouseAccel;
use game_patches::sodyose::patches::mouse_sensitivity_fix::{Hooks, MouseSensitivityFix, Targets};

fn blank() -> MemoryImage {
    MemoryImage::new(0, vec![0xCCu8; 0x200])
}

/// A hook patch built outside the library; it touches no memory.
struct Hook;

impl PatchInfo for Hook {
    fn name() -> &'static str {
        "Mouse Sensitivity Fix"
    }

    fn config_key(&self) -> Option<&'static str> {
        Some("mouse_sensitivity_fix")
    }
}

impl Patch<MemoryImage> for Hook {
    fn apply(&mut self, _mem: &mut MemoryImage) -> Result<(), String> {
        Ok(())
    }

    fn revert(&mut self, _mem: &mut MemoryImage) -> Result<(), String> {
        Ok(())
    }
}

fn config() -> Config {
    Config { show_console: false, allow_unloading: true, log_level: String::new(), patches: Vec::new() }
}

#[test]
fn acs_camera_smoothing_patch() {
    assert_eq!(
        AcsSmoothing::init(None).err(),
        Some("failed to get JUMP_CAMERA_SMOOTHING signature".to_string())
    );
    let mut mem = blank();
    let mut p = AcsSmoothing::init(Some(0x10)).ok().unwrap();
    assert_eq!(AcsSmoothing::name(), "Disable Mouse Smoothing");
    assert_eq!(p.config_key(), Some("disable_camera_smoothing"));
    assert_eq!(p.apply(&mut mem), Ok(()));
    assert_eq!(mem.bytes()[0x0F..0x12], [0xCC, 0xEB, 0xCC]);
    assert_eq!(p.revert(&mut mem), Ok(()));
    assert_eq!(*mem.bytes(), vec![0xCCu8; 0x200]);
}

#[test]
fn acs_registration() {
    let mut mem = blank();
    let mut manager = PatchManager::new();
    let missing = game_patches::acs::patches::register_all(&mut manager, None);
    assert!(missing[0].is_err());
    let found = game_patches::acs::patches::register_all(&mut manager, Some(0x20));
    assert_eq!(found, vec![Ok(())]);
    let reports = manager.apply_all(&config(), &mut mem);
    assert_eq!(reports.len(), 1);
    assert!(matches!(reports[0].outcome, PatchOutcome::Applied));
    assert_eq!(mem.bytes()[0x20], 0xEB);
}

#[test]
fn acu_camera_smoothing_patch() {
    assert_eq!(
        AcuSmoothing::init(Err("no signature".to_string())).err(),
        Some("no signature".to_string())
    );
    let mut mem = blank();
    let mut p = AcuSmoothing::init(Ok(0x30)).ok().unwrap();
    p.apply(&mut mem).unwrap();
    assert_eq!(mem.bytes()[0x2F..0x33], [0xCC, 0x90, 0x90, 0xCC]);
}

fn call_inst() -> Inst {
    Inst { address: 0x100, bytes: vec![0xE8, 0xFB, 0x0F, 0, 0], mnemonic: "call".to_string(), op_str: String::new() }
}

fn clock_inst() -> Inst {
    Inst {
        address: 0x200,
        bytes: vec![0x48, 0x8B, 0x05, 0x10, 0, 0, 0],
        mnemonic: "mov".to_string(),
        op_str: String::new(),
    }
}

#[test]
fn acu_registration_with_hook() {
    let mut mem = blank();
    let mut manager = PatchManager::new();
    let r = game_patches::acu::patches::register_all(
        &mut manager,
        Ok(0x40),
        Ok(Some(call_inst())),
        Ok(Some(clock_inst())),
        |target: usize| Some(Trampoline { address: target + 0x10, size: 5 }),
        |_target: usize, _t: Trampoline| Some(()),
    );
    assert_eq!(r, vec![Ok(()), Ok(())]);
    let mut disabled = config();
    disabled.patches.push(("mouse_sensitivity_fix".to_string(), false));
    let reports = manager.apply_all(&disabled, &mut mem);
    assert_eq!(reports[0].name, "Disable Mouse Smoothing");
    assert!(matches!(reports[0].outcome, PatchOutcome::Applied));
    assert_eq!(reports[1].name, "Mouse Sensitivity Fix");
    assert!(matches!(reports[1].outcome, PatchOutcome::Disabled));
    let failed = game_patches::acu::patches::register_all(
        &mut manager,
        Err("a".to_string()),
        Ok(None),
        Err("b".to_string()),
        |_target: usize| None,
        |_target: usize, _t: Trampoline| None,
    );
    assert_eq!(failed, vec![Err("a".to_string()), Err("failed to disassemble".to_string())]);
}

#[test]
fn acu_mouse_sensitivity_targets() {
    assert_eq!(hook_targets(Ok(Some(call_inst())), Ok(Some(clock_inst()))), Ok((0x1100, 0x217)));
    assert_eq!(hook_targets(Err("sig".to_string()), Ok(None)), Err("sig".to_string()));
    assert_eq!(
        hook_targets(Ok(Some(call_inst())), Ok(None)),
        Err("failed to disassemble".to_string())
    );
    let mut no_target = call_inst();
    no_target.bytes = vec![0xFF, 0x15, 0, 0, 0, 0];
    assert_eq!(
        hook_targets(Ok(Some(no_target)), Ok(Some(clock_inst()))),
        Err("failed to extract call target".to_string())
    );
    let mut no_clock = clock_inst();
    no_clock.bytes = vec![0x48, 0x8B, 0x04, 0x24];
    assert_eq!(
        hook_targets(Ok(Some(call_inst())), Ok(Some(no_clock))),
        Err("failed to extract root clock address".to_string())
    );
}

#[test]
fn acu_mouse_sensitivity_hook() {
    let mut mem = blank();
    let mut p = AcuMouseFix::init(
        Ok(Some(call_inst())),
        Ok(Some(clock_inst())),
        |target: usize| Some(Trampoline { address: target + 0x10, size: 5 }),
        |target: usize, t: Trampoline| {
            assert_eq!(t.address, target + 0x10);
            Some(())
        },
    )
    .ok()
    .unwrap();
    assert_eq!(p.root_clock_address(), 0x217);
    assert!(p.trampoline().is_none());
    assert_eq!(AcuMouseFix::<fn(usize) -> Option<Trampoline>, fn(usize, Trampoline) -> Option<()>>::name(), "Mouse Sensitivity Fix");
    assert_eq!(p.config_key(), Some("mouse_sensitivity_fix"));
    assert_eq!(p.apply(&mut mem), Ok(()));
    assert_eq!(p.trampoline().map(|t| t.address), Some(0x1110));
    assert_eq!(p.revert(&mut mem), Ok(()));
    assert!(p.trampoline().is_none());
    let mut failing = AcuMouseFix::init(
        Ok(Some(call_inst())),
        Ok(Some(clock_inst())),
        |_target: usize| None,
        |_target: usize, _t: Trampoline| None,
    )
    .ok()
    .unwrap();
    assert_eq!(failing.apply(&mut mem), Err("failed to hook function at 0x1100".to_string()));
    assert_eq!(failing.revert(&mut mem), Ok(()));
}

#[test]
fn fc3_input_clamp_and_hook_target() {
    assert_eq!(hook_target(Ok(0x1000)), Ok(0x1005));
    assert_eq!(hook_target(Err("x".to_string())), Err("x".to_string()));
    let mut mem = blank();
    let mut p = DisableInputClamp::init(Ok(0x50)).ok().unwrap();
    assert_eq!(DisableInputClamp::name(), "Disable Input Clamp");
    assert_eq!(p.config_key(), Some("disable_input_clamp"));
    p.apply(&mut mem).unwrap();
    assert_eq!(mem.bytes()[0x50], 0xEB);
    let mut manager = PatchManager::new();
    let r = game_patches::fc3::patches::register_all(
        &mut manager,
        Ok(0x60),
        Ok(0xABC0),
        |_target: usize| None,
        |_target: usize, _t: Trampoline| Some(()),
    );
    assert_eq!(r, vec![Ok(()), Ok(())]);
    let reports = manager.apply_all(&config(), &mut mem);
    assert_eq!(reports.len(), 2);
    assert_eq!(mem.bytes()[0x60], 0xEB);
    assert_eq!(reports[1].name, "Sensitivity Fix");
    match &reports[1].outcome {
        PatchOutcome::Failed(e) => assert_eq!(e, "failed to hook function at 0xabc5"),
        _ => panic!("the hook should have failed"),
    }
}

#[test]
fn fc3_sensitivity_hook() {
    let mut mem = blank();
    assert_eq!(
        Fc3SensitivityFix::init(Err("sig".to_string()), |_t: usize| None, |_t: usize, _x: Trampoline| None)
            .err(),
        Some("sig".to_string())
    );
    let mut p = Fc3SensitivityFix::init(
        Ok(0x4000),
        |target: usize| Some(Trampoline { address: target * 2, size: 6 }),
        |_target: usize, _t: Trampoline| None,
    )
    .ok()
    .unwrap();
    assert_eq!(p.config_key(), Some("sensitivity_fix"));
    assert_eq!(p.apply(&mut mem), Ok(()));
    assert_eq!(p.trampoline().map(|t| (t.address, t.size)), Some((0x800A, 6)));
    assert_eq!(p.revert(&mut mem), Ok(()));
    assert!(p.trampoline().is_none());
}

#[test]
fn lswtss_camera_smoothing_patch() {
    assert_eq!(
        LswtssSmoothing::init(Err("first".to_string()), Err("second".to_string())).err(),
        Some("first".to_string())
    );
    assert_eq!(
        LswtssSmoothing::init(Ok(0), Err("second".to_string())).err(),
        Some("second".to_string())
    );
    let mut mem = blank();
    let mut p = LswtssSmoothing::init(Ok(0x10), Ok(0x30)).ok().unwrap();
    p.apply(&mut mem).unwrap();
    assert_eq!(mem.bytes()[0x10..0x18], [0x66, 0x0F, 0xEF, 0xC0, 0x90, 0x90, 0x90, 0x90]);
    assert_eq!(mem.bytes()[0x30], 0xEB);
    p.revert(&mut mem).unwrap();
    assert_eq!(*mem.bytes(), vec![0xCCu8; 0x200]);
}

#[test]
fn mesom_patches() {
    let mut mem = blank();
    let mut smoothing = MesomSmoothing::init(Ok(0x10)).ok().unwrap();
    smoothing.apply(&mut mem).unwrap();
    assert_eq!(mem.bytes()[0x10..0x1A], [0x66, 0x0F, 0xEF, 0xE4, 0x90, 0x90, 0x90, 0x90, 0x90, 0x90]);
    let mut speed = MesomSpeed::init(Ok(0x40)).ok().unwrap();
    assert_eq!(MesomSpeed::name(), "Uniform Camera Speed");
    assert_eq!(speed.config_key(), Some("uniform_camera_speed"));
    speed.apply(&mut mem).unwrap();
    assert_eq!(mem.bytes()[0x40..0x48], [0xF3, 0x0F, 0x10, 0x0D, 0x4C, 0xC1, 0x29, 0x01]);
    assert!(MesomSpeed::init(Err("e".to_string())).is_err());
}

#[test]
fn mesom_registration() {
    let mut mem = blank();
    let mut manager = PatchManager::new();
    let r = game_patches::mesom::patches::register_all(
        &mut manager,
        Ok(0x10),
        Err("no speed".to_string()),
        Ok(Hook),
    );
    assert_eq!(r, vec![Ok(()), Err("no speed".to_string()), Ok(())]);
    let reports = manager.apply_all(&config(), &mut mem);
    assert_eq!(reports.len(), 2);
    let reverted = manager.revert_all(&mut mem);
    assert_eq!(reverted.len(), 2);
    assert_eq!(*mem.bytes(), vec![0xCCu8; 0x200]);
}

#[test]
fn games64_uniform_camera_speed() {
    let movss = |bytes: &[u8], mnemonic: &str| Inst {
        address: 0x48,
        bytes: bytes.to_vec(),
        mnemonic: mnemonic.to_string(),
        op_str: String::new(),
    };
    assert_eq!(Mesom64Speed::init(Err("sig".to_string()), None).err(), Some("sig".to_string()));
    assert_eq!(
        Mesom64Speed::init(Ok(0x40), None).err(),
        Some("failed to disassemble y-factor instruction".to_string())
    );
    assert_eq!(
        Mesom64Speed::init(Ok(0x40), Some(movss(&[0xF3, 0x0F, 0x59, 0x05, 0, 0, 0, 0], "mulss")))
            .err(),
        Some("unexpected mnemonic: mulss".to_string())
    );
    assert_eq!(
        Mesom64Speed::init(Ok(0x40), Some(movss(&[0xF3, 0x0F, 0x10, 0xC1], "movss"))).err(),
        Some("failed to extract displacement".to_string())
    );
    let mut mem = blank();
    let mut p = Mesom64Speed::init(
        Ok(0x40),
        Some(movss(&[0xF3, 0x0F, 0x10, 0x05, 0x10, 0x00, 0x00, 0x00], "movss")),
    )
    .ok()
    .unwrap();
    p.apply(&mut mem).unwrap();
    assert_eq!(mem.bytes()[0x40..0x48], [0xF3, 0x0F, 0x10, 0x0D, 0x18, 0x00, 0x00, 0x00]);
}

#[test]
fn mesow_config_and_patch() {
    let d = MesowConfig::default();
    assert!(!d.show_console && !d.allow_unloading && d.patches.is_empty());
    assert!(d.patch_enabled("disable_camera_smoothing"));
    let c = MesowConfig {
        show_console: true,
        allow_unloading: false,
        patches: vec![("disable_camera_smoothing".to_string(), false)],
    };
    assert!(!c.patch_enabled("disable_camera_smoothing"));
    assert!(c.patch_enabled("other"));
    let mut mem = blank();
    let mut p = MesowSmoothing::init(Ok(0x70)).ok().unwrap();
    p.apply(&mut mem).unwrap();
    assert_eq!(mem.bytes()[0x70..0x79], [0x66, 0x0F, 0xEF, 0xDB, 0x66, 0x0F, 0xEF, 0xFF, 0x90]);
}

#[test]
fn sodyose_mouse_accel_patch() {
    assert_eq!(
        DisableMouseAccel::init(Ok(0), Err("y".to_string()), Err("d".to_string())).err(),
        Some("y".to_string())
    );
    assert_eq!(DisableMouseAccel::init(Ok(0), Ok(0), Err("d".to_string())).err(), Some("d".to_string()));
    let mut mem = blank();
    let mut p = DisableMouseAccel::init(Ok(0x10), Ok(0x60), Ok(0x150)).ok().unwrap();
    p.apply(&mut mem).unwrap();
    assert_eq!(mem.bytes()[0x51..0x59], [0x90; 8]);
    assert_eq!(mem.bytes()[0x50], 0xCC);
    assert_eq!(mem.bytes()[0xA1..0xA9], [0x90; 8]);
    assert_eq!(mem.bytes()[0x150..0x156], [0x90; 6]);
    assert_eq!(mem.bytes()[0x156], 0xCC);
    p.revert(&mut mem).unwrap();
    assert_eq!(*mem.bytes(), vec![0xCCu8; 0x200]);
}

#[test]
fn sodyose_mouse_sensitivity_detours() {
    let hooks = Hooks { roaming: 0x1000, aiming_x: 0x1100, aiming_y: 0x1200 };
    let failed = MouseSensitivityFix::init(
        Targets { roaming: Ok(0), aiming_x: Err("x".to_string()), aiming_y: Err("y".to_string()) },
        Hooks { roaming: 0x1000, aiming_x: 0x1100, aiming_y: 0x1200 },
    );
    assert_eq!(failed.err(), Some("x".to_string()));
    let mut mem = blank();
    let mut p = MouseSensitivityFix::init(
        Targets { roaming: Ok(0x10), aiming_x: Ok(0x40), aiming_y: Ok(0x80) },
        hooks,
    )
    .ok()
    .unwrap();
    assert_eq!(p.return_addresses(), (0x24, 0x46, 0x86));
    p.apply(&mut mem).unwrap();
    let rel_roaming = (0x1000i32 - 0x15).to_le_bytes();
    assert_eq!(mem.bytes()[0x10], 0xE9);
    assert_eq!(mem.bytes()[0x11..0x15], rel_roaming);
    assert_eq!(mem.bytes()[0x15..0x24], [0x90; 15]);
    let rel_x = (0x1100i32 - 0x45).to_le_bytes();
    assert_eq!(mem.bytes()[0x40..0x46], [0xE9, rel_x[0], rel_x[1], rel_x[2], rel_x[3], 0x90]);
    let rel_y = (0x1200i32 - 0x85).to_le_bytes();
    assert_eq!(mem.bytes()[0x80..0x86], [0xE9, rel_y[0], rel_y[1], rel_y[2], rel_y[3], 0x90]);
    p.revert(&mut mem).unwrap();
    assert_eq!(*mem.bytes(), vec![0xCCu8; 0x200]);
}

#[test]
fn sodyose_registration() {
    let mut mem = blank();
    let mut manager = PatchManager::new();
    let r = game_patches::sodyose::patches::register_all(
        &mut manager,
        Ok(0x10),
        Ok(0x60),
        Err("no dead zone".to_string()),
        Targets { roaming: Ok(0x10), aiming_x: Ok(0x40), aiming_y: Ok(0x80) },
        Hooks { roaming: 0x1000, aiming_x: 0x1100, aiming_y: 0x1200 },
    );
    assert_eq!(r, vec![Err("no dead zone".to_string()), Ok(())]);
    let reports = manager.apply_all(&config(), &mut mem);
    assert_eq!(reports.len(), 1);
    assert_eq!(reports[0].name, "Mouse Sensitivity Fix");
}

#[test]
fn build_support_strings() {
    assert_eq!(replace("a-b-c", '-', "_"), "a_b_c");
    assert_eq!(replace("x:y", ':', ", "), "x, y");
    let r = resource_strings("acu-patches", Some("ACU fixes"), Some("Alice:Bob"));
    assert_eq!(r.original_filename, "acu_patches.asi");
    assert_eq!(r.internal_name, "acu_patches.asi");
    assert_eq!(r.file_description, "ACU fixes");
    assert_eq!(r.product_name, "acu-patches");
    assert_eq!(r.company_name, Some("Alice, Bob".to_string()));
    let bare = resource_strings("mesom-patches", None, Some(""));
    assert_eq!(bare.file_description, "mesom-patches");
    assert_eq!(bare.company_name, None);
    assert_eq!(resource_strings("x", None, None).company_name, None);
}
