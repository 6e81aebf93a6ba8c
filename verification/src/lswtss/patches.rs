//! The Skywalker Saga patches.

pub mod disable_camera_smoothing;
