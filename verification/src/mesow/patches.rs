//! The Shadow of War patches.

pub mod disable_camera_smoothing;
