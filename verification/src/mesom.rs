//! Middle-earth: Shadow of Mordor.

pub mod patches;
