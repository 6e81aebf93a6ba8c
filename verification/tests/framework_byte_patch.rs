use game_patches::framework::memory::{Memory, MemoryImage};
use game_patches::framework::BytePatch;

fn image(bytes: Vec<u8>) -> MemoryImage {
    MemoryImage::new(0, bytes)
}

#[test]
fn byte_patch_apply_writes_patch_bytes() {
    let mut mem = image((0u8..16).collect());
    let mut patch = BytePatch::new(4, [0x90u8, 0x90, 0xEB]);
    assert!(!patch.is_applied());
    assert_eq!(patch.apply(&mut mem), Ok(()));
    assert!(patch.is_applied());
    assert_eq!(mem.bytes()[3..8], [3, 0x90, 0x90, 0xEB, 7]);
}

#[test]
fn byte_patch_revert_restores_memory() {
    let original: Vec<u8> = (0u8..16).collect();
    let mut mem = image(original.clone());
    let mut patch = BytePatch::new(2, [0xAAu8, 0xBB]);
    patch.apply(&mut mem).unwrap();
    assert_ne!(*mem.bytes(), original);
    assert_eq!(patch.revert(&mut mem), Ok(()));
    assert!(!patch.is_applied());
    assert_eq!(*mem.bytes(), original);
}

#[test]
fn byte_patch_apply_twice_writes_once() {
    let mut mem = image(vec![1u8; 8]);
    let mut patch = BytePatch::new(0, [7u8]);
    patch.apply(&mut mem).unwrap();
    mem.write(0, vec![9]).unwrap();
    assert_eq!(patch.apply(&mut mem), Ok(()));
    assert_eq!(mem.bytes()[0], 9);
    patch.revert(&mut mem).unwrap();
    assert_eq!(mem.bytes()[0], 1);
}

#[test]
fn byte_patch_revert_unapplied_does_nothing() {
    let mut mem = image(vec![5u8; 4]);
    let mut patch = BytePatch::new(1, [0u8, 0]);
    assert_eq!(patch.revert(&mut mem), Ok(()));
    assert_eq!(*mem.bytes(), vec![5u8; 4]);
}

#[test]
fn byte_patch_failed_write_is_not_applied() {
    let mut mem = MemoryImage::new(0x2000, vec![0u8; 4]);
    let mut patch = BytePatch::new(0x1000, [0x90u8]);
    assert_eq!(patch.apply(&mut mem), Err("address out of range".to_string()));
    assert!(!patch.is_applied());
    assert_eq!(patch.address(), 0x1000);
    assert_eq!(*mem.bytes(), vec![0u8; 4]);
}

#[test]
fn byte_patch_failed_revert_stays_applied() {
    let mut ok = image(vec![0u8; 4]);
    let mut patch = BytePatch::new(0, [1u8, 2]);
    patch.apply(&mut ok).unwrap();
    let mut elsewhere = MemoryImage::new(0x100, vec![0u8; 4]);
    assert_eq!(patch.revert(&mut elsewhere), Err("address out of range".to_string()));
    assert!(patch.is_applied());
    assert_eq!(patch.revert(&mut ok), Ok(()));
    assert_eq!(*ok.bytes(), vec![0u8; 4]);
}

#[test]
fn byte_patch_saves_bytes_found_before_writing() {
    let mut mem = image(vec![0x11u8, 0x22, 0x33, 0x44]);
    let mut patch = BytePatch::new(1, [0xEEu8, 0xFF]);
    patch.apply(&mut mem).unwrap();
    assert_eq!(*mem.bytes(), vec![0x11, 0xEE, 0xFF, 0x44]);
    patch.revert(&mut mem).unwrap();
    assert_eq!(*mem.bytes(), vec![0x11, 0x22, 0x33, 0x44]);
}

#[test]
fn overlapping_patches_reverted_in_reverse_order_restore_memory() {
    let original: Vec<u8> = (0u8..16).collect();
    let mut mem = image(original.clone());
    let mut first = BytePatch::new(2, [0xAAu8, 0xAA, 0xAA]);
    let mut second = BytePatch::new(3, [0xBBu8, 0xBB]);
    first.apply(&mut mem).unwrap();
    second.apply(&mut mem).unwrap();
    assert_eq!(mem.bytes()[2..5], [0xAA, 0xBB, 0xBB]);
    second.revert(&mut mem).unwrap();
    first.revert(&mut mem).unwrap();
    assert_eq!(*mem.bytes(), original);
}

#[test]
fn overlapping_patches_reverted_in_apply_order_leave_traces() {
    let original: Vec<u8> = (0u8..16).collect();
    let mut mem = image(original.clone());
    let mut first = BytePatch::new(2, [0xAAu8, 0xAA, 0xAA]);
    let mut second = BytePatch::new(3, [0xBBu8, 0xBB]);
    first.apply(&mut mem).unwrap();
    second.apply(&mut mem).unwrap();
    first.revert(&mut mem).unwrap();
    second.revert(&mut mem).unwrap();
    assert_eq!(mem.bytes()[2..5], [2, 0xAA, 0xAA]);
}

#[test]
fn memory_image_reads_outside_block_as_zero() {
    let mem = MemoryImage::new(0x10, vec![1u8, 2, 3]);
    assert_eq!(mem.read(0x0E, 6), vec![0, 0, 1, 2, 3, 0]);
    assert_eq!(mem.base(), 0x10);
}

#[test]
fn memory_image_refuses_writes_past_block() {
    let mut mem = MemoryImage::new(0x10, vec![1u8, 2, 3]);
    assert_eq!(mem.write(0x12, vec![9, 9]), Err("address out of range".to_string()));
    assert_eq!(mem.write(0x0F, vec![9]), Err("address out of range".to_string()));
    assert_eq!(mem.write(0x11, vec![8, 9]), Ok(()));
    assert_eq!(*mem.bytes(), vec![1, 8, 9]);
}
