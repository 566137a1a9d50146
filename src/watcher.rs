//! Live propagation: what each file-system event asks of the remote store
//! and, once that succeeded, of the registry.
//!
//! The watcher turns an event into a `Propagation`; the caller carries it out
//! against the remote store and, only where that succeeded, hands it to
//! `commit`, which updates the registry and says whether to persist it.

use vstd::prelude::*;
use dashmap::DashSet;
use crate::registry::{empty_set, set_contains, set_insert, set_remove, set_contents, Cache};

verus! {

/// A file-system event, its paths already turned into keys.
#[derive(Debug, PartialEq, Eq)]
pub enum FsEvent {
    /// Something was created; `is_file` tells whether it is a regular file.
    Create { path: String, is_file: bool },
    /// Something was removed.
    Remove { path: String },
    /// The content of a file changed; a write may still be going on.
    ModifyData { path: String },
    /// A file opened for writing was closed; `exists` tells whether it is
    /// still a regular file.
    CloseWrite { path: String, exists: bool },
    /// Something was renamed from one path to another.
    Rename { from: String, to: String },
    /// Any other event.
    Other,
}

/// What an event asks of the remote store.
#[derive(Debug, PartialEq, Eq)]
pub enum Propagation {
    /// Upload the file, then track it.
    Upload(String),
    /// Upload the file again; it is synced already.
    Reupload(String),
    /// Remove the object, then stop tracking it.
    Remove(String),
    /// Rename the object, then track it under its new key only.
    Rename { from: String, to: String },
    /// Nothing to do.
    Ignore,
}

/// The watcher's own state: the synced files whose write is in progress.
pub struct Watcher {
    pending: DashSet<String>,
}

impl View for Watcher {
    type V = Set<Seq<char>>;

    closed spec fn view(&self) -> Set<Seq<char>> {
        set_contents(self.pending)
    }
}

/// The propagation for an event and the pending writes after it, given the
/// synced keys, the pending writes before it, and whether the coordinator
/// lets the watcher act (if not, the event is dropped).
pub open spec fn interpretation(
    event: FsEvent,
    synced: Set<Seq<char>>,
    pending: Set<Seq<char>>,
    may_propagate: bool,
) -> (Propagation, Set<Seq<char>>) {
    if !may_propagate {
        (Propagation::Ignore, pending)
    } else {
        match event {
            FsEvent::Create { path, is_file } => if is_file {
                (Propagation::Upload(path), pending)
            } else {
                (Propagation::Ignore, pending)
            },
            FsEvent::Remove { path } => (Propagation::Remove(path), pending),
            FsEvent::ModifyData { path } => if synced.contains(path@) {
                (Propagation::Ignore, pending.insert(path@))
            } else {
                (Propagation::Ignore, pending)
            },
            FsEvent::CloseWrite { path, exists } => if pending.contains(path@) && exists {
                (Propagation::Reupload(path), pending.remove(path@))
            } else {
                (Propagation::Ignore, pending.remove(path@))
            },
            FsEvent::Rename { from, to } => if synced.contains(from@) {
                (Propagation::Rename { from, to }, pending)
            } else {
                (Propagation::Upload(to), pending)
            },
            FsEvent::Other => (Propagation::Ignore, pending),
        }
    }
}

/// The synced keys after a propagation succeeded, and whether the registry
/// must be persisted: after every upload, removal or rename of a file, not
/// after a re-upload of content that is synced already.
pub open spec fn committed(synced: Set<Seq<char>>, p: Propagation) -> (Set<Seq<char>>, bool) {
    match p {
        Propagation::Upload(path) => (synced.insert(path@), true),
        Propagation::Reupload(_) => (synced, false),
        Propagation::Remove(path) => (synced.remove(path@), true),
        Propagation::Rename { from, to } => (synced.remove(from@).insert(to@), true),
        Propagation::Ignore => (synced, false),
    }
}

impl Watcher {
    /// A watcher with no write in progress.
    pub fn new() -> (r: Watcher)
        ensures
            r@ == Set::<Seq<char>>::empty(),
    {
        Watcher { pending: empty_set() }
    }

    /// Whether a write to `path` is in progress.
    pub fn is_pending(&self, path: &str) -> (r: bool)
        ensures
            r == self@.contains(path@),
    {
        set_contains(&self.pending, path)
    }

    /// Interprets one event.
    pub fn interpret(&mut self, event: FsEvent, registry: &Cache, may_propagate: bool) -> (r: Propagation)
        ensures
            (r, final(self)@) == interpretation(event, registry@, old(self)@, may_propagate),
    {
        if !may_propagate {
            return Propagation::Ignore;
        }
        match event {
            FsEvent::Create { path, is_file } => {
                if is_file {
                    Propagation::Upload(path)
                } else {
                    Propagation::Ignore
                }
            },
            FsEvent::Remove { path } => Propagation::Remove(path),
            FsEvent::ModifyData { path } => {
                if registry.contains(path.as_str()) {
                    set_insert(&mut self.pending, path);
                }
                Propagation::Ignore
            },
            FsEvent::CloseWrite { path, exists } => {
                let was_pending = set_remove(&mut self.pending, path.as_str()).is_some();
                if was_pending && exists {
                    Propagation::Reupload(path)
                } else {
                    Propagation::Ignore
                }
            },
            FsEvent::Rename { from, to } => {
                if registry.contains(from.as_str()) {
                    Propagation::Rename { from, to }
                } else {
                    Propagation::Upload(to)
                }
            },
            FsEvent::Other => Propagation::Ignore,
        }
    }
}

/// Records in the registry a propagation that succeeded; true where the
/// registry must then be persisted.
pub fn commit(registry: &mut Cache, p: &Propagation) -> (persist: bool)
    ensures
        (final(registry)@, persist) == committed(old(registry)@, *p),
{
    match p {
        Propagation::Upload(path) => {
            registry.insert(path.clone());
            true
        },
        Propagation::Reupload(_) => false,
        Propagation::Remove(path) => {
            registry.remove(path.as_str());
            true
        },
        Propagation::Rename { from, to } => {
            registry.remove(from.as_str());
            registry.insert(to.clone());
            true
        },
        Propagation::Ignore => false,
    }
}

/// A new regular file, created while the watcher may act, is uploaded once;
/// once that succeeded it is synced, and the registry is persisted once.
pub proof fn lemma_create_uploads_once(
    path: String,
    synced: Set<Seq<char>>,
    pending: Set<Seq<char>>,
)
    requires
        !synced.contains(path@),
    ensures
        interpretation(FsEvent::Create { path, is_file: true }, synced, pending, true)
            == (Propagation::Upload(path), pending),
        committed(synced, Propagation::Upload(path)) == (synced.insert(path@), true),
{
}

/// A synced path renamed while the watcher may act is renamed remotely
/// once; once that succeeded the registry holds the new key instead of the
/// old one, and is persisted once.
pub proof fn lemma_rename_tracked(
    from: String,
    to: String,
    synced: Set<Seq<char>>,
    pending: Set<Seq<char>>,
)
    requires
        synced.contains(from@),
    ensures
        interpretation(FsEvent::Rename { from, to }, synced, pending, true)
            == (Propagation::Rename { from, to }, pending),
        committed(synced, Propagation::Rename { from, to }) == (synced.remove(from@).insert(to@), true),
{
}

/// A path renamed while the watcher may act, from a path that is not synced
/// (a save through a temporary file), is uploaded under its new key; once
/// that succeeded the new key is synced and the registry persisted, whether
/// or not it was synced before.
pub proof fn lemma_rename_unsynced_uploads(
    from: String,
    to: String,
    synced: Set<Seq<char>>,
    pending: Set<Seq<char>>,
)
    requires
        !synced.contains(from@),
    ensures
        interpretation(FsEvent::Rename { from, to }, synced, pending, true) == (Propagation::Upload(to), pending),
        committed(synced, Propagation::Upload(to)) == (synced.insert(to@), true),
{
}

/// While the coordinator forbids acting, every event is dropped and nothing
/// changes.
pub proof fn lemma_gate_drops(event: FsEvent, synced: Set<Seq<char>>, pending: Set<Seq<char>>)
    ensures
        interpretation(event, synced, pending, false) == (Propagation::Ignore, pending),
        committed(synced, Propagation::Ignore) == (synced, false),
{
}

} // verus!
