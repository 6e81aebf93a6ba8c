//! Assassin's Creed Unity.

pub mod game;
pub mod patches;
pub mod sdk;
