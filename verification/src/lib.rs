//! Quality-of-life patches for several PC games: the patch engine shared by all
//! games (byte patches, the patch manager, configuration, instruction decoding,
//! executable-header parsing, log formatting) and, per game, the patches and the
//! rules that decide what they write.

pub mod acs;
pub mod acu;
pub mod build_support;
pub mod fc3;
pub mod framework;
pub mod games64;
pub mod lswtss;
pub mod mesom;
pub mod mesow;
pub mod sodyose;
