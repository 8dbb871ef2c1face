//! Bootstrap of a fresh Python virtual environment: a filename-keyed wheel
//! cache, replication of unpacked package trees, console-script entry points
//! and the launcher scripts generated for them.
//!
//! The library decides; the caller touches the disk and the network. Each
//! component that needs outside work is a step function from a state and the
//! outcome of the last requested operation to the next state and the next
//! operation to perform.

pub mod entry_points;
pub mod install;
pub mod launcher;
pub mod mirror;
pub mod paths;
pub mod replicate;
pub mod text;
pub mod wheel_cache;
