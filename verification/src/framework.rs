//! The engine shared by every game: patches, the patch manager, configuration and
//! the byte-level helpers.

pub mod byte_patch;
pub mod config;
pub mod ext;
pub mod fmt;
pub mod hook;
pub mod logger;
pub mod manager;
pub mod memory;
pub mod patch;
pub mod platform;
pub mod utils;

pub use byte_patch::{BytePatch, BytePatchNt};
pub use config::Config;
pub use manager::PatchManager;
pub use patch::{Patch, PatchInfo};
pub use memory::{Memory, MemoryImage};
