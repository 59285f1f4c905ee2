//! Incremental file-metadata cache and progress rules for long-running
//! external tools, with machine-checked contracts.

pub mod archive;
pub mod cache;
pub mod checksum;
pub mod dict;
pub mod flags;
pub mod launch;
pub mod patches;
pub mod platform;
pub mod progress;
pub mod remote;
pub mod setup;
pub mod store;
pub mod sync;
pub mod text;
pub mod versions;
