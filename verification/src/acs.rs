//! Assassin's Creed Syndicate.

pub mod config;
pub mod game;
pub mod patches;
pub mod sdk;
