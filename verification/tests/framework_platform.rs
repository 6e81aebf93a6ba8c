use game_patches::framework::memory::{Memory, MemoryImage};
use game_patches::framework::platform::{find_section_address_range, get_time_date_stamp, unhook_prot_memory};

fn put_u16(img: &mut [u8], off: usize, v: u16) {
    img[off..off + 2].copy_from_slice(&v.to_le_bytes());
}

fn put_u32(img: &mut [u8], off: usize, v: u32) {
    img[off..off + 4].copy_from_slice(&v.to_le_bytes());
}

fn put_section(img: &mut [u8], at: usize, name: &[u8], va: u32, size: u32) {
    img[at..at + name.len()].copy_from_slice(name);
    put_u32(img, at + 8, size);
    put_u32(img, at + 12, va);
}

/// A header image with NT headers at 0x80, an optional header of 0xF0 bytes and
/// the sections `.text` and `.UBX0`.
fn image() -> Vec<u8> {
    let mut img = vec![0u8; 0x200];
    put_u16(&mut img, 0, 0x5A4D);
    put_u32(&mut img, 0x3C, 0x80);
    put_u32(&mut img, 0x80, 0x4550);
    put_u16(&mut img, 0x86, 2);
    put_u32(&mut img, 0x88, 0x54DB_5826);
    put_u16(&mut img, 0x94, 0xF0);
    put_section(&mut img, 0x188, b".text", 0x1000, 0x5000);
    put_section(&mut img, 0x1B0, b".UBX0", 0x9000, 0x2345);
    img
}

#[test]
fn timestamp_from_file_header() {
    assert_eq!(get_time_date_stamp(&image()), Some(0x54DB_5826));
}

#[test]
fn timestamp_needs_valid_signatures() {
    let mut bad_dos = image();
    bad_dos[0] = 0;
    assert_eq!(get_time_date_stamp(&bad_dos), None);
    let mut bad_nt = image();
    bad_nt[0x81] = b'X';
    assert_eq!(get_time_date_stamp(&bad_nt), None);
    assert_eq!(get_time_date_stamp(&image()[..0x3F]), None);
    assert_eq!(get_time_date_stamp(&image()[..0x90]), None);
}

#[test]
fn section_range_found() {
    let img = image();
    assert_eq!(find_section_address_range(&img, 0x40_0000, ".UBX0"), Some(0x40_9000..0x40_B345));
    assert_eq!(find_section_address_range(&img, 0x40_0000, ".text"), Some(0x40_1000..0x40_6000));
}

#[test]
fn section_range_missing() {
    let img = image();
    assert_eq!(find_section_address_range(&img, 0x40_0000, ".data"), None);
    assert_eq!(find_section_address_range(&img, 0x40_0000, ".UBX"), None);
    let mut bad = image();
    bad[1] = 0;
    assert_eq!(find_section_address_range(&bad, 0x40_0000, ".text"), None);
}

#[test]
fn section_table_cut_short() {
    let img = image();
    let short = &img[..0x1C0];
    assert_eq!(find_section_address_range(short, 0, ".text"), Some(0x1000..0x6000));
    assert_eq!(find_section_address_range(short, 0, ".UBX0"), None);
}

#[test]
fn section_name_compared_on_eight_bytes() {
    let mut img = image();
    put_section(&mut img, 0x1B0, b".textbss", 0x7000, 0x10);
    assert_eq!(find_section_address_range(&img, 0, ".textbss_more"), Some(0x7000..0x7010));
}

#[test]
fn prot_memory_stub_restored() {
    let mut bytes = vec![0u8; 0x40];
    bytes[0x14] = 0x4F;
    let mut mem = MemoryImage::new(0, bytes);
    assert_eq!(unhook_prot_memory(&mut mem, 0x10, 0x30), Ok(()));
    assert_eq!(mem.bytes()[0x30..0x35], [0x4C, 0x8B, 0xD1, 0xB8, 0x4E]);
    mem.write(0x14, vec![0]).unwrap();
    assert_eq!(unhook_prot_memory(&mut mem, 0x10, 0x30), Ok(()));
    assert_eq!(mem.bytes()[0x34], 0xFF);
}

#[test]
fn prot_memory_write_failure_reported() {
    let mut mem = MemoryImage::new(0, vec![0x50u8; 0x20]);
    assert_eq!(unhook_prot_memory(&mut mem, 0, 0x30), Err("address out of range".to_string()));
    assert_eq!(*mem.bytes(), vec![0x50u8; 0x20]);
}
