use game_patches::framework::config::{default_log_level, Config};
use game_patches::framework::ext::ResultLogExt;

fn config_with(entries: &[(&str, bool)]) -> Config {
    Config {
        show_console: false,
        allow_unloading: false,
        log_level: "info".to_string(),
        patches: entries.iter().map(|(k, v)| (k.to_string(), *v)).collect(),
    }
}

#[test]
fn unlisted_patch_is_enabled() {
    let config = config_with(&[("other", false)]);
    assert!(config.patch_enabled("disable_camera_smoothing"));
}

#[test]
fn listed_patch_follows_its_setting() {
    let config = config_with(&[("disable_camera_smoothing", false), ("uniform_camera_speed", true)]);
    assert!(!config.patch_enabled("disable_camera_smoothing"));
    assert!(config.patch_enabled("uniform_camera_speed"));
}

#[test]
fn default_config_is_empty() {
    let config = Config::default();
    assert!(!config.show_console);
    assert!(!config.allow_unloading);
    assert_eq!(config.log_level, "");
    assert!(config.patches.is_empty());
    assert!(config.patch_enabled("anything"));
}

#[test]
fn default_log_level_is_info() {
    assert_eq!(default_log_level(), "info");
}

#[test]
fn warn_and_continue_keeps_values_and_drops_errors() {
    let ok: Result<u32, String> = Ok(7);
    let err: Result<u32, String> = Err("boom".to_string());
    assert_eq!(ok.warn_and_continue("context"), Some(7));
    assert_eq!(err.warn_and_continue("context"), None);
}

#[test]
fn mesow_config_patch_enabled() {
    let config = game_patches::mesow::config::Config {
        show_console: true,
        allow_unloading: false,
        patches: vec![("disable_camera_smoothing".to_string(), false)],
    };
    assert!(!config.patch_enabled("disable_camera_smoothing"));
    assert!(config.patch_enabled("mouse_sensitivity_fix"));
    let default = game_patches::mesow::config::Config::default();
    assert!(!default.show_console && !default.allow_unloading && default.patches.is_empty());
}

#[test]
fn acs_config_default() {
    let config = game_patches::acs::config::Config::default();
    assert!(!config.show_console);
    assert!(!config.suppress_integrity_warning);
}
