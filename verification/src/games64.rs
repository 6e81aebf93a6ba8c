//! Later revisions of the 64-bit game patches.

pub mod mesom;
