use game_patches::framework::fmt::{append_digits, append_fill, append_padded_decimal, digit_count};
use game_patches::framework::logger::{Level, LevelFilter, Logger};

#[test]
fn enabled_up_to_max_level() {
    let logger = Logger { max_level: LevelFilter::Info, ansi_support: false };
    assert!(logger.enabled(Level::Error));
    assert!(logger.enabled(Level::Warn));
    assert!(logger.enabled(Level::Info));
    assert!(!logger.enabled(Level::Debug));
    assert!(!logger.enabled(Level::Trace));
    let off = Logger { max_level: LevelFilter::Off, ansi_support: false };
    assert!(!off.enabled(Level::Error));
    let all = Logger { max_level: LevelFilter::Trace, ansi_support: true };
    assert!(all.enabled(Level::Trace));
}

#[test]
fn plain_record_line() {
    let logger = Logger { max_level: LevelFilter::Debug, ansi_support: false };
    assert_eq!(
        logger.format_record("   1.005s", Level::Info, "acu_patches", "hello"),
        Some("   1.005s INFO acu_patches: hello".to_string())
    );
    assert_eq!(
        logger.format_record("   0.000s", Level::Error, "t", "boom"),
        Some("   0.000sERROR t: boom".to_string())
    );
    assert_eq!(logger.format_record("   0.000s", Level::Trace, "t", "hidden"), None);
}

#[test]
fn coloured_record_line() {
    let logger = Logger { max_level: LevelFilter::Trace, ansi_support: true };
    assert_eq!(
        logger.format_record("   2.010s", Level::Warn, "mesom", "careful"),
        Some("\x1b[2m   2.010s\x1b[0m \x1b[33m WARN\x1b[0m \x1b[2mmesom:\x1b[0m careful".to_string())
    );
    assert_eq!(
        logger.format_record("x", Level::Debug, "a", "b"),
        Some("\x1b[2mx\x1b[0m \x1b[34mDEBUG\x1b[0m \x1b[2ma:\x1b[0m b".to_string())
    );
}

#[test]
fn elapsed_timestamp_layout() {
    assert_eq!(Logger::elapsed_timestamp(1, 5), "   1.005s");
    assert_eq!(Logger::elapsed_timestamp(0, 0), "   0.000s");
    assert_eq!(Logger::elapsed_timestamp(12345, 999), "12345.999s");
    assert_eq!(Logger::elapsed_timestamp(42, 120), "  42.120s");
}

#[test]
fn digits_and_padding() {
    let mut s = String::from("x");
    append_digits(&mut s, 255, 16, true);
    assert_eq!(s, "xFF");
    append_digits(&mut s, 0, 10, false);
    assert_eq!(s, "xFF0");
    let mut h = String::new();
    append_digits(&mut h, 0x54DB_5826, 16, false);
    assert_eq!(h, "54db5826");
    assert_eq!(digit_count(0, 10), 1);
    assert_eq!(digit_count(1000, 10), 4);
    assert_eq!(digit_count(0xFFFF, 16), 4);
    let mut p = String::new();
    append_padded_decimal(&mut p, 7, 3, "0");
    assert_eq!(p, "007");
    let mut q = String::new();
    append_padded_decimal(&mut q, 12345, 3, "0");
    assert_eq!(q, "12345");
    let mut f = String::from("a");
    append_fill(&mut f, "-", 3);
    assert_eq!(f, "a---");
}
