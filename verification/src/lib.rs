//! A minimal process-isolation library: a typed driver for the cgroup v2
//! control-file protocols, and a sandbox planner that derives namespace
//! flag sets, cgroup membership writes, and root-filesystem assembly steps
//! from a sandbox configuration.
//!
//! Everything here is pure: parsers turn control-file text into values,
//! formatters and planners turn values into the exact text and operation
//! sequences to be issued. Performing the resulting reads, writes, mounts
//! and process spawns is left to an unverified shell around the library.

pub mod cgroup;
pub mod izolibox;
pub mod strutil;
