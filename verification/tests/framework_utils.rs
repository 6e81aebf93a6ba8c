use game_patches::framework::utils::{
    check_game_version, create_jmp_patch_far, create_jmp_patch_near, eq_lowercase,
    extract_displacement, get_jump_rel32, i32_to_le_bytes, resolve_relative_target,
    u64_to_le_bytes, Inst, VersionError,
};

fn inst(address: usize, bytes: &[u8], mnemonic: &str) -> Inst {
    Inst { address, bytes: bytes.to_vec(), mnemonic: mnemonic.to_string(), op_str: String::new() }
}

#[test]
fn jump_rel32_forward_and_backward() {
    assert_eq!(get_jump_rel32(0x1000, 0x2000), 0xFFB);
    assert_eq!(get_jump_rel32(0x2000, 0x1000), -0x1005);
    assert_eq!(get_jump_rel32(0x1000, 0x1005), 0);
}

#[test]
fn near_jump_patch_layout() {
    let patch: [u8; 7] = create_jmp_patch_near(0x1000, 0x2000);
    assert_eq!(patch, [0xE9, 0xFB, 0x0F, 0x00, 0x00, 0x90, 0x90]);
    let exact: [u8; 5] = create_jmp_patch_near(0x2000, 0x1000);
    assert_eq!(exact, [0xE9, 0xFB, 0xEF, 0xFF, 0xFF]);
}

#[test]
fn far_jump_patch_layout() {
    let patch: [u8; 16] = create_jmp_patch_far(0x1122_3344);
    assert_eq!(
        patch,
        [0xFF, 0x25, 0, 0, 0, 0, 0x44, 0x33, 0x22, 0x11, 0, 0, 0, 0, 0x90, 0x90]
    );
}

#[test]
fn little_endian_bytes() {
    assert_eq!(i32_to_le_bytes(-2), [0xFE, 0xFF, 0xFF, 0xFF]);
    assert_eq!(i32_to_le_bytes(0x0102_0304), [4, 3, 2, 1]);
    assert_eq!(u64_to_le_bytes(0x0102_0304_0506_0708), [8, 7, 6, 5, 4, 3, 2, 1]);
}

#[test]
fn displacement_of_each_form() {
    assert_eq!(extract_displacement(&inst(0, &[0xE8, 0x10, 0, 0, 0], "call")), Some(16));
    assert_eq!(extract_displacement(&inst(0, &[0xE9, 0xF0, 0xFF, 0xFF, 0xFF], "jmp")), Some(-16));
    assert_eq!(extract_displacement(&inst(0, &[0xEB, 0xFE], "jmp")), Some(-2));
    assert_eq!(extract_displacement(&inst(0, &[0xEB, 0x7F], "jmp")), Some(127));
    assert_eq!(extract_displacement(&inst(0, &[0x0F, 0x84, 0x00, 0x01, 0, 0], "je")), Some(256));
    assert_eq!(
        extract_displacement(&inst(0, &[0x48, 0x8B, 0x05, 0x78, 0x56, 0x34, 0x12], "mov")),
        Some(0x1234_5678)
    );
    assert_eq!(
        extract_displacement(&inst(0, &[0xF3, 0x0F, 0x10, 0x0D, 0x08, 0, 0, 0], "movss")),
        Some(8)
    );
}

#[test]
fn no_displacement_for_other_instructions() {
    assert_eq!(extract_displacement(&inst(0, &[0x90], "nop")), None);
    assert_eq!(extract_displacement(&inst(0, &[0x48, 0x8B, 0x04, 0, 0, 0, 0], "mov")), None);
    assert_eq!(extract_displacement(&inst(0, &[0x0F, 0x90, 0, 0, 0, 0], "seto")), None);
    assert_eq!(extract_displacement(&inst(0, &[0xE8, 0, 0, 0], "call")), None);
}

#[test]
fn relative_target_resolution() {
    assert_eq!(resolve_relative_target(&inst(0x1000, &[0xE9, 0xFB, 0x0F, 0, 0], "jmp")), Some(0x2000));
    assert_eq!(resolve_relative_target(&inst(0x1000, &[0xEB, 0xFE], "jmp")), Some(0x1000));
    assert_eq!(resolve_relative_target(&inst(0x10, &[0xEB, 0x80], "jmp")), None);
    assert_eq!(resolve_relative_target(&inst(0x10, &[0xC3], "ret")), None);
}

#[test]
fn near_patch_resolves_back_to_destination() {
    let patch: [u8; 6] = create_jmp_patch_near(0x40_1000, 0x7FF0_0000);
    assert_eq!(resolve_relative_target(&inst(0x40_1000, &patch[..5], "jmp")), Some(0x7FF0_0000));
}

#[test]
fn lowercase_comparison() {
    assert!(eq_lowercase("JMP", "jmp"));
    assert!(eq_lowercase("Call", "call"));
    assert!(eq_lowercase("jmp", "jmp"));
    assert!(!eq_lowercase("jmpq", "jmp"));
    assert!(!eq_lowercase("call", "jmp"));
}

#[test]
fn game_version_accepted() {
    let expected = [0x54DB_5826u32, 0x6994_5EEF];
    assert!(matches!(check_game_version(&expected, Some(0x6994_5EEF)), Ok(0x6994_5EEF)));
}

#[test]
fn game_version_mismatch_message() {
    let expected = [0x54DB_5826u32, 0x6994_5EEF];
    let err = match check_game_version(&expected, Some(0x1234_ABCD)) {
        Err(e) => e,
        Ok(_) => panic!("unexpected match"),
    };
    assert!(matches!(&err, VersionError::TimestampMismatch { got: 0x1234_ABCD, .. }));
    assert_eq!(
        err.message(),
        "timestamp mismatch (got 0x1234ABCD, expected one of [54db5826, 69945eef])"
    );
}

#[test]
fn game_version_unavailable_message() {
    let err = match check_game_version(&[0x5B7F_5782], None) {
        Err(e) => e,
        Ok(_) => panic!("unexpected match"),
    };
    assert!(matches!(err, VersionError::TimestampUnavailable));
    assert_eq!(err.message(), "failed to retrieve timestamp");
}

#[test]
fn game_version_single_expected() {
    let err = match check_game_version(&[0x5B7F_5782], Some(0)) {
        Err(e) => e,
        Ok(_) => panic!("unexpected match"),
    };
    assert_eq!(err.message(), "timestamp mismatch (got 0x0, expected one of [5b7f5782])");
}
