//! Settings of the engine: the mirrored root, the log level, the interval
//! between passes, and the remote store.

use vstd::prelude::*;

verus! {

/// Milliseconds between two reconciliation passes unless configured.
pub const DEFAULT_INTERVAL_MS: u64 = 180000;

/// Settings of an S3-compatible store.
pub struct S3Options {
    pub bucket_name: String,
    pub access_key_id: String,
    pub secret_access_key: String,
    pub region: Option<String>,
    pub endpoint: Option<String>,
    /// Compare sizes only; never modification times.
    pub size_only: bool,
    pub checksum: bool,
    /// Keep a copy under the trash prefix of every object removed.
    pub move_to_trash: bool,
}

/// The remote store to mirror against.
pub enum BackendOptions {
    S3(S3Options),
}

impl BackendOptions {
    /// Whether conflicts are decided by size alone.
    pub fn size_only(&self) -> (r: bool)
        ensures
            r == match self {
                BackendOptions::S3(o) => o.size_only,
            },
    {
        match self {
            BackendOptions::S3(o) => o.size_only,
        }
    }

    /// Whether removed objects are first copied to the trash.
    pub fn move_to_trash(&self) -> (r: bool)
        ensures
            r == match self {
                BackendOptions::S3(o) => o.move_to_trash,
            },
    {
        match self {
            BackendOptions::S3(o) => o.move_to_trash,
        }
    }
}

/// All settings.
pub struct Config {
    /// The mirrored root.
    pub path: String,
    /// The log level.
    pub log: String,
    /// Milliseconds between two passes.
    pub interval: u64,
    pub backend: BackendOptions,
}

/// The interval between passes unless configured.
pub fn default_interval() -> (r: u64)
    ensures
        r == DEFAULT_INTERVAL_MS,
{
    DEFAULT_INTERVAL_MS
}

/// The log level unless configured.
pub fn default_log_level() -> (r: String)
    ensures
        r@ == seq!['i', 'n', 'f', 'o'],
{
    let r = String::from_str("info");
    proof {
        reveal_strlit("info");
    }
    assert(r@ =~= seq!['i', 'n', 'f', 'o']);
    r
}

} // verus!
