//! The decisions of a reconciliation pass: what to do with each object that
//! the remote store lists, given what the local tree holds under its key.

use vstd::prelude::*;
use crate::paths::starts_with;

verus! {

/// What a pass does for one listed object; each names the key of the object.
#[derive(Debug, PartialEq, Eq)]
pub enum Operation {
    /// Fetch the remote content and overwrite the local file.
    Write(String),
    /// Create an empty local file, with no transfer.
    WriteEmpty(String),
    /// Push the local content, which wins the conflict.
    Upload(String),
    /// Both sides already agree: no transfer.
    Checked(String),
}

impl Operation {
    /// The key that the operation is about.
    pub open spec fn target(self) -> String {
        match self {
            Operation::Write(p) => p,
            Operation::WriteEmpty(p) => p,
            Operation::Upload(p) => p,
            Operation::Checked(p) => p,
        }
    }

    /// Whether the operation moves content over the network.
    pub open spec fn transfers(self) -> bool {
        self is Write || self is Upload
    }

    /// The key that the operation is about.
    pub fn path(&self) -> (r: String)
        ensures
            r == self.target(),
    {
        match self {
            Operation::Write(p) => p.clone(),
            Operation::WriteEmpty(p) => p.clone(),
            Operation::Upload(p) => p.clone(),
            Operation::Checked(p) => p.clone(),
        }
    }
}

/// An object as the remote store lists it.
pub struct RemoteObject {
    pub key: String,
    /// Size in bytes.
    pub size: u64,
    /// Last modification, as an RFC 3339 timestamp.
    pub last_modified: String,
}

impl Clone for RemoteObject {
    fn clone(&self) -> (r: Self)
        ensures
            r == *self,
    {
        RemoteObject { key: self.key.clone(), size: self.size, last_modified: self.last_modified.clone() }
    }
}

/// What the local tree holds under a key.
#[derive(Debug, PartialEq, Eq)]
pub struct LocalEntry {
    pub exists: bool,
    /// Size in bytes; 0 for an absent file.
    pub size: u64,
    /// Last modification in nanoseconds since the Unix epoch, where known.
    pub modified: Option<i128>,
}

impl LocalEntry {
    /// An absent file has size 0 and no modification time.
    pub open spec fn wf(self) -> bool {
        !self.exists ==> self.size == 0 && self.modified is None
    }

    /// The entry of a file that does not exist.
    pub fn absent() -> (r: LocalEntry)
        ensures
            r.wf(),
            !r.exists,
    {
        LocalEntry { exists: false, size: 0, modified: None }
    }
}

/// A listed object together with the local entry under its key.
pub struct Observation {
    pub remote: RemoteObject,
    pub local: LocalEntry,
}

/// Why a pass could not decide.
#[derive(Debug, PartialEq, Eq)]
pub enum PlanError {
    /// The listing gave this key a modification time that is not RFC 3339.
    InvalidTimestamp(String),
}

/// The instant that an RFC 3339 timestamp names, in nanoseconds since the
/// Unix epoch; `None` for text that is not such a timestamp.
pub uninterp spec fn rfc3339_instant(s: Seq<char>) -> Option<i128>;

/// Relies on `time::OffsetDateTime::parse` with the `Rfc3339` description,
/// read out with `unix_timestamp_nanos`: the parsed instant, or `None` where
/// parsing fails.
#[verifier::external_body]
fn parse_rfc3339(s: &str) -> (r: Option<i128>)
    ensures
        r == rfc3339_instant(s@),
{
    match time::OffsetDateTime::parse(s, &time::format_description::well_known::Rfc3339) {
        Ok(t) => Some(t.unix_timestamp_nanos()),
        Err(_) => None,
    }
}

/// Whether the decision for an object needs the remote modification time:
/// only where the sizes differ, the remote side is not empty, times are
/// compared at all and the local time is known.
pub open spec fn needs_remote_time(remote_size: u64, local: LocalEntry, size_only: bool) -> bool {
    local.size != remote_size && remote_size != 0 && !size_only && local.modified is Some
}

/// The conflict rule for differing sizes: local content wins where the
/// remote object is empty or the local file is strictly newer.
pub open spec fn prefers_local(remote_size: u64, local: LocalEntry, size_only: bool, remote_time: i128) -> bool {
    remote_size == 0 || (!size_only && (local.modified matches Some(t) && t > remote_time))
}

/// The operation for the object under `key`, given the remote modification
/// time as parsed (`None`: it was not a timestamp).
pub open spec fn decision(
    key: String,
    remote_size: u64,
    local: LocalEntry,
    size_only: bool,
    remote_time: Option<i128>,
) -> Result<Operation, PlanError> {
    if local.size == remote_size {
        if remote_size == 0 && !local.exists {
            Ok(Operation::WriteEmpty(key))
        } else {
            Ok(Operation::Checked(key))
        }
    } else if needs_remote_time(remote_size, local, size_only) && remote_time is None {
        Err(PlanError::InvalidTimestamp(key))
    } else if prefers_local(remote_size, local, size_only, remote_time.unwrap_or(0)) {
        Ok(Operation::Upload(key))
    } else {
        Ok(Operation::Write(key))
    }
}

/// The operation for one observed object.
pub open spec fn object_plan(o: Observation, size_only: bool) -> Result<Operation, PlanError> {
    decision(o.remote.key, o.remote.size, o.local, size_only, rfc3339_instant(o.remote.last_modified@))
}

/// The operation for the object under `key`, given its remote size and its
/// remote modification time as parsed.
pub fn decide_operation(
    key: &String,
    remote_size: u64,
    local: &LocalEntry,
    size_only: bool,
    remote_time: Option<i128>,
) -> (r: Result<Operation, PlanError>)
    ensures
        r == decision(*key, remote_size, *local, size_only, remote_time),
{
    let key = key.clone();
    if local.size == remote_size {
        if remote_size == 0 && !local.exists {
            Ok(Operation::WriteEmpty(key))
        } else {
            Ok(Operation::Checked(key))
        }
    } else if remote_size == 0 {
        Ok(Operation::Upload(key))
    } else if size_only {
        Ok(Operation::Write(key))
    } else {
        match local.modified {
            None => Ok(Operation::Write(key)),
            Some(t) => match remote_time {
                None => Err(PlanError::InvalidTimestamp(key)),
                Some(rt) => {
                    if t > rt {
                        Ok(Operation::Upload(key))
                    } else {
                        Ok(Operation::Write(key))
                    }
                },
            },
        }
    }
}

/// The operation for one observed object; the remote timestamp is parsed
/// only where the decision needs it.
pub fn plan_object(o: &Observation, size_only: bool) -> (r: Result<Operation, PlanError>)
    ensures
        r == object_plan(*o, size_only),
{
    let remote_time = if needs_remote_time_exec(o.remote.size, &o.local, size_only) {
        parse_rfc3339(o.remote.last_modified.as_str())
    } else {
        None
    };
    decide_operation(&o.remote.key, o.remote.size, &o.local, size_only, remote_time)
}

fn needs_remote_time_exec(remote_size: u64, local: &LocalEntry, size_only: bool) -> (r: bool)
    ensures
        r == needs_remote_time(remote_size, *local, size_only),
{
    local.size != remote_size && remote_size != 0 && !size_only && local.modified.is_some()
}

/// The reserved prefix of soft-deleted keys.
pub open spec fn trash_prefix() -> Seq<char> {
    seq!['.', 't', 'r', 'a', 's', 'h', '/']
}

/// Whether a key lies under the trash prefix.
pub open spec fn in_trash(key: Seq<char>) -> bool {
    trash_prefix().len() <= key.len() && key.subrange(0, trash_prefix().len() as int) == trash_prefix()
}

/// Whether a key lies under the trash prefix.
pub fn is_trash_key(key: &str) -> (r: bool)
    ensures
        r == in_trash(key@),
{
    let prefix = ".trash/";
    proof {
        reveal_strlit(".trash/");
    }
    assert(prefix@ =~= trash_prefix());
    starts_with(key, prefix)
}

/// The key under which a soft-deleted object is kept.
pub fn trash_key(key: &str) -> (r: String)
    ensures
        r@ == trash_prefix() + key@,
        in_trash(r@),
{
    let mut r = String::from_str(".trash/");
    proof {
        reveal_strlit(".trash/");
    }
    assert(r@ =~= trash_prefix());
    r.append(key);
    assert(r@.subrange(0, trash_prefix().len() as int) =~= trash_prefix());
    r
}

/// The objects of a listing that lie outside the trash, in listing order.
pub open spec fn visible(listing: Seq<RemoteObject>) -> Seq<RemoteObject>
    decreases listing.len(),
{
    if listing.len() == 0 {
        Seq::empty()
    } else if in_trash(listing.last().key@) {
        visible(listing.drop_last())
    } else {
        visible(listing.drop_last()).push(listing.last())
    }
}

/// The objects of a listing that a pass considers: all but those under the
/// trash prefix, in listing order.
pub fn visible_objects(listing: &Vec<RemoteObject>) -> (r: Vec<RemoteObject>)
    ensures
        r@ == visible(listing@),
{
    let mut r: Vec<RemoteObject> = Vec::new();
    let mut i: usize = 0;
    while i < listing.len()
        invariant
            i <= listing@.len(),
            r@ == visible(listing@.subrange(0, i as int)),
        decreases listing@.len() - i,
    {
        let ghost next = listing@.subrange(0, i + 1);
        assert(next.drop_last() =~= listing@.subrange(0, i as int));
        assert(next.last() == listing@[i as int]);
        if !is_trash_key(listing[i].key.as_str()) {
            r.push(listing[i].clone());
        }
        i = i + 1;
    }
    assert(listing@.subrange(0, listing@.len() as int) =~= listing@);
    r
}

/// The operations of a pass over the observed objects, one for each in the
/// same order; it fails on the first object that cannot be decided.
pub fn plan_sync(observed: &Vec<Observation>, size_only: bool) -> (r: Result<Vec<Operation>, PlanError>)
    ensures
        r is Ok <==> (forall|i: int| 0 <= i < observed@.len() ==> (#[trigger] object_plan(observed@[i], size_only)) is Ok),
        r matches Ok(ops) ==> ops@.len() == observed@.len() && forall|i: int|
            0 <= i < observed@.len() ==> Ok::<Operation, PlanError>(ops@[i]) == #[trigger] object_plan(observed@[i], size_only),
        r matches Err(e) ==> exists|i: int|
            0 <= i < observed@.len() && object_plan(observed@[i], size_only) == Err::<Operation, PlanError>(e)
                && forall|j: int| 0 <= j < i ==> (#[trigger] object_plan(observed@[j], size_only)) is Ok,
{
    let mut ops: Vec<Operation> = Vec::new();
    let mut i: usize = 0;
    while i < observed.len()
        invariant
            i <= observed@.len(),
            ops@.len() == i,
            forall|j: int| 0 <= j < i ==> Ok::<Operation, PlanError>(ops@[j]) == #[trigger] object_plan(observed@[j], size_only),
        decreases observed@.len() - i,
    {
        match plan_object(&observed[i], size_only) {
            Ok(op) => ops.push(op),
            Err(e) => {
                assert(forall|j: int| 0 <= j < i ==> (#[trigger] object_plan(observed@[j], size_only)) is Ok);
                return Err(e);
            },
        }
        i = i + 1;
    }
    Ok(ops)
}

/// Equal non-zero sizes on both sides: the object is checked, and nothing is
/// transferred.
pub proof fn lemma_equal_sizes_checked(
    key: String,
    remote_size: u64,
    local: LocalEntry,
    size_only: bool,
    remote_time: Option<i128>,
)
    requires
        local.size == remote_size,
        remote_size > 0,
    ensures
        decision(key, remote_size, local, size_only, remote_time) == Ok::<Operation, PlanError>(Operation::Checked(key)),
        !Operation::Checked(key).transfers(),
{
}

/// An empty remote object with no local file becomes an empty local file,
/// with no download.
pub proof fn lemma_empty_remote_absent_local(
    key: String,
    local: LocalEntry,
    size_only: bool,
    remote_time: Option<i128>,
)
    requires
        local.wf(),
        !local.exists,
    ensures
        decision(key, 0, local, size_only, remote_time) == Ok::<Operation, PlanError>(Operation::WriteEmpty(key)),
        !Operation::WriteEmpty(key).transfers(),
{
}

/// Differing sizes and a local file strictly newer than the remote object:
/// the local content is uploaded.
pub proof fn lemma_newer_local_uploads(
    key: String,
    remote_size: u64,
    local: LocalEntry,
    remote_time: i128,
)
    requires
        local.size != remote_size,
        local.modified matches Some(t) && t > remote_time,
    ensures
        decision(key, remote_size, local, false, Some(remote_time)) == Ok::<Operation, PlanError>(Operation::Upload(key)),
{
}

/// Differing sizes, a non-empty remote object, and a local file that is not
/// newer or not there: the remote content is written locally. Equal times
/// go to the remote side.
pub proof fn lemma_older_or_absent_local_writes(
    key: String,
    remote_size: u64,
    local: LocalEntry,
    size_only: bool,
    remote_time: i128,
)
    requires
        local.wf(),
        local.size != remote_size,
        remote_size != 0,
        !local.exists || (local.modified matches Some(t) && t <= remote_time),
    ensures
        decision(key, remote_size, local, size_only, Some(remote_time)) == Ok::<Operation, PlanError>(Operation::Write(key)),
{
}

/// `after` is what a pass leaves of `before` once `op` has been carried out:
/// a write gives the local file the remote size, an upload gives the remote
/// object the local size, and a check changes neither size.
pub open spec fn settled(before: Observation, op: Operation, after: Observation) -> bool {
    &&& after.remote.key == before.remote.key
    &&& match op {
        Operation::Write(_) => after.remote.size == before.remote.size && after.local.exists
            && after.local.size == before.remote.size,
        Operation::WriteEmpty(_) => after.remote.size == before.remote.size && after.local.exists
            && after.local.size == 0,
        Operation::Upload(_) => after.remote.size == before.local.size && after.local.exists
            == before.local.exists && after.local.size == before.local.size,
        Operation::Checked(_) => after.remote.size == before.remote.size && after.local.exists
            == before.local.exists && after.local.size == before.local.size,
    }
}

/// A second pass right after a first one, with no change in between, finds
/// every object checked.
pub proof fn lemma_second_pass_checked(
    first: Seq<Observation>,
    ops: Seq<Operation>,
    second: Seq<Observation>,
    size_only: bool,
)
    requires
        forall|i: int| 0 <= i < first.len() ==> (#[trigger] first[i]).local.wf(),
        ops.len() == first.len(),
        forall|i: int| 0 <= i < first.len() ==> Ok::<Operation, PlanError>(ops[i]) == #[trigger] object_plan(first[i], size_only),
        second.len() == first.len(),
        forall|i: int| 0 <= i < first.len() ==> #[trigger] settled(first[i], ops[i], second[i]),
    ensures
        forall|i: int| 0 <= i < second.len() ==> #[trigger] object_plan(second[i], size_only)
            == Ok::<Operation, PlanError>(Operation::Checked(second[i].remote.key)),
{
    assert forall|i: int| 0 <= i < second.len() implies #[trigger] object_plan(second[i], size_only)
        == Ok::<Operation, PlanError>(Operation::Checked(second[i].remote.key)) by {
        assert(settled(first[i], ops[i], second[i]));
        assert(Ok::<Operation, PlanError>(ops[i]) == object_plan(first[i], size_only));
    }
}

} // verus!
