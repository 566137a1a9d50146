//! A mirror engine that keeps a local directory tree and a remote object
//! store consistent: the decisions of the reconciliation sweep, the
//! interpretation of live file-system events, the registry of mirrored paths
//! and the flags that keep the two from running against each other.

pub mod paths;
pub mod plan;
pub mod registry;
pub mod coordinator;
pub mod watcher;
pub mod sweep;
pub mod config;
