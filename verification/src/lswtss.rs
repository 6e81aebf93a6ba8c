//! Lego Star Wars: The Skywalker Saga.

pub mod patches;
