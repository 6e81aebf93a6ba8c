//! Middle-earth: Shadow of Mordor, later revision.

pub mod patches;
