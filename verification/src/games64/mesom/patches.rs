//! The revised Shadow of Mordor patches.

pub mod uniform_camera_speed;
