//! Far Cry 3 (with the Blood Dragon patches, which share its engine).

pub mod patches;
