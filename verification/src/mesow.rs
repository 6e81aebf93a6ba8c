//! Middle-earth: Shadow of War.

pub mod config;
pub mod patches;
pub mod sdk;
