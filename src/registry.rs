//! The registry of mirrored paths: the keys that are expected to exist alike
//! on both sides as of the last completed pass or propagation.
//!
//! It is kept in a concurrent set and persisted as a JSON array of strings.

use vstd::prelude::*;
use dashmap::DashSet;
use crate::paths::views;

verus! {

#[verifier::external_type_specification]
#[verifier::external_body]
#[verifier::reject_recursive_types(K)]
#[verifier::reject_recursive_types(S)]
pub struct ExDashSet<K, S>(DashSet<K, S>);

/// The keys that a set of strings holds.
pub uninterp spec fn set_contents(s: DashSet<String>) -> Set<Seq<char>>;

/// Relies on `DashSet::new`: a set that holds nothing.
#[verifier::external_body]
pub(crate) fn empty_set() -> (r: DashSet<String>)
    ensures
        set_contents(r) == Set::<Seq<char>>::empty(),
{
    DashSet::new()
}

/// Relies on `DashSet::insert`: the key is added, and the result tells
/// whether it was missing before.
#[verifier::external_body]
pub(crate) fn set_insert(s: &mut DashSet<String>, key: String) -> (r: bool)
    ensures
        r == !set_contents(*old(s)).contains(key@),
        set_contents(*final(s)) == set_contents(*old(s)).insert(key@),
{
    s.insert(key)
}

/// Relies on `DashSet::remove`: the key is taken out, and handed back if it
/// was there.
#[verifier::external_body]
pub(crate) fn set_remove(s: &mut DashSet<String>, key: &str) -> (r: Option<String>)
    ensures
        r is Some <==> set_contents(*old(s)).contains(key@),
        r matches Some(k) ==> k@ == key@,
        set_contents(*final(s)) == set_contents(*old(s)).remove(key@),
{
    s.remove(key)
}

/// Relies on `DashSet::contains`: whether the key is in the set.
#[verifier::external_body]
pub(crate) fn set_contains(s: &DashSet<String>, key: &str) -> (r: bool)
    ensures
        r == set_contents(*s).contains(key@),
{
    s.contains(key)
}

/// Relies on `DashSet::iter`: every key of the set once, in an order that
/// the set's hashing decides.
#[verifier::external_body]
fn set_keys(s: &DashSet<String>) -> (r: Vec<String>)
    ensures
        views(r@).to_set() == set_contents(*s),
        views(r@).no_duplicates(),
{
    s.iter().map(|k| k.key().clone()).collect()
}

/// The JSON text of an array of strings.
pub uninterp spec fn json_of_strings(v: Seq<Seq<char>>) -> Seq<char>;

/// Relies on `serde_json::to_string` on a `Vec<String>`: the JSON array of
/// the strings, in order. Strings and sequences serialize without error, and
/// the `Vec<u8>` that `to_string` writes into never fails a write, so the
/// result is always there.
#[verifier::external_body]
fn strings_to_json(v: &Vec<String>) -> (r: Option<String>)
    ensures
        r is Some,
        r matches Some(j) ==> j@ == json_of_strings(views(v@)),
{
    serde_json::to_string(v).ok()
}

/// The strings of a JSON array of strings, read from bytes; `None` for bytes
/// that are not such an array.
pub uninterp spec fn strings_of_json(b: Seq<u8>) -> Option<Seq<Seq<char>>>;

/// Relies on `serde_json::from_slice` into a `Vec<String>`: the strings of
/// the array, in order, or `None` where the bytes are not such an array.
#[verifier::external_body]
fn strings_from_json(b: &[u8]) -> (r: Option<Vec<String>>)
    ensures
        r is None <==> strings_of_json(b@) is None,
        r matches Some(v) ==> strings_of_json(b@) == Some(views(v@)),
{
    serde_json::from_slice::<Vec<String>>(b).ok()
}

/// Why a persisted registry could not be read.
#[derive(Debug, PartialEq, Eq)]
pub enum CacheError {
    /// The persisted bytes are not a JSON array of strings.
    Corrupt,
}

/// The registry of mirrored keys, shared by live propagation and the
/// reconciliation pass.
pub struct Cache {
    paths: DashSet<String>,
}

impl View for Cache {
    type V = Set<Seq<char>>;

    closed spec fn view(&self) -> Set<Seq<char>> {
        set_contents(self.paths)
    }
}

impl Cache {
    /// A registry that tracks nothing.
    pub fn new() -> (r: Cache)
        ensures
            r@ == Set::<Seq<char>>::empty(),
    {
        Cache { paths: empty_set() }
    }

    /// A registry that tracks exactly the given keys.
    pub fn from_paths(keys: Vec<String>) -> (r: Cache)
        ensures
            r@ == views(keys@).to_set(),
    {
        let mut r = Cache::new();
        let mut i: usize = 0;
        while i < keys.len()
            invariant
                i <= keys@.len(),
                r@ == views(keys@.subrange(0, i as int)).to_set(),
            decreases keys@.len() - i,
        {
            let ghost before = views(keys@.subrange(0, i as int));
            let ghost after = views(keys@.subrange(0, i + 1));
            assert(after =~= before.push(keys@[i as int]@));
            proof {
                before.lemma_push_to_set_commute(keys@[i as int]@);
            }
            r.insert(keys[i].clone());
            i = i + 1;
        }
        assert(keys@.subrange(0, keys@.len() as int) =~= keys@);
        r
    }

    /// The registry that persisted `bytes` hold; empty bytes (a file that is
    /// missing or was never written) hold an empty registry.
    pub fn load(bytes: &[u8]) -> (r: Result<Cache, CacheError>)
        ensures
            bytes@.len() == 0 ==> (r matches Ok(reg) && reg@ == Set::<Seq<char>>::empty()),
            bytes@.len() > 0 ==> match strings_of_json(bytes@) {
                Some(v) => (r matches Ok(reg) && reg@ == v.to_set()),
                None => r matches Err(CacheError::Corrupt),
            },
    {
        if bytes.len() == 0 {
            return Ok(Cache::new());
        }
        match strings_from_json(bytes) {
            Some(v) => Ok(Cache::from_paths(v)),
            None => Err(CacheError::Corrupt),
        }
    }

    /// Whether `key` is synced.
    pub fn contains(&self, key: &str) -> (r: bool)
        ensures
            r == self@.contains(key@),
    {
        set_contains(&self.paths, key)
    }

    /// Marks `key` as synced; true if it was not before.
    pub fn insert(&mut self, key: String) -> (r: bool)
        ensures
            r == !old(self)@.contains(key@),
            final(self)@ == old(self)@.insert(key@),
    {
        set_insert(&mut self.paths, key)
    }

    /// Marks `key` as no longer synced; true if it was.
    pub fn remove(&mut self, key: &str) -> (r: bool)
        ensures
            r == old(self)@.contains(key@),
            final(self)@ == old(self)@.remove(key@),
    {
        set_remove(&mut self.paths, key).is_some()
    }

    /// Every synced key once, in no particular order.
    pub fn paths(&self) -> (r: Vec<String>)
        ensures
            views(r@).to_set() == self@,
            views(r@).no_duplicates(),
    {
        set_keys(&self.paths)
    }

    /// The JSON array that persists a snapshot of the registry: every synced
    /// key once, in some order.
    pub fn to_json(&self) -> (r: String)
        ensures
            exists|s: Seq<Seq<char>>|
                s.to_set() == self@ && s.no_duplicates() && r@ == #[trigger] json_of_strings(s),
    {
        let keys = self.paths();
        let json = strings_to_json(&keys);
        json.unwrap()
    }
}

} // verus!
