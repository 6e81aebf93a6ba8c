//! State of Decay: Year-One Survival Edition.

pub mod patches;
