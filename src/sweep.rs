//! The end of a reconciliation pass: local files that the remote listing did
//! not show. One that was synced before was deleted upstream and goes; one
//! that never was is new and is uploaded.

use vstd::prelude::*;
use crate::plan::{object_plan, settled, Observation, Operation, PlanError};
use crate::registry::Cache;

verus! {

/// What happens to a local file that the pass did not see remotely.
#[derive(Debug, PartialEq, Eq)]
pub enum OrphanAction {
    /// Synced before and gone upstream: delete the local file.
    DeleteLocal(String),
    /// Local content never synced: upload it.
    UploadNew(String),
}

/// The keys that a pass's operations are about.
pub open spec fn seen_keys(ops: Seq<Operation>) -> Set<Seq<char>> {
    Set::new(|k: Seq<char>| exists|i: int| 0 <= i < ops.len() && (#[trigger] ops[i]).target()@ == k)
}

/// The action for each local key that was not seen, in order.
pub open spec fn orphan_plan(keys: Seq<String>, seen: Set<Seq<char>>, synced: Set<Seq<char>>) -> Seq<OrphanAction>
    decreases keys.len(),
{
    if keys.len() == 0 {
        Seq::empty()
    } else {
        let before = orphan_plan(keys.drop_last(), seen, synced);
        let k = keys.last();
        if seen.contains(k@) {
            before
        } else if synced.contains(k@) {
            before.push(OrphanAction::DeleteLocal(k))
        } else {
            before.push(OrphanAction::UploadNew(k))
        }
    }
}

/// The synced keys once an orphan action succeeded.
pub open spec fn after_orphan(synced: Set<Seq<char>>, a: OrphanAction) -> Set<Seq<char>> {
    match a {
        OrphanAction::DeleteLocal(k) => synced.remove(k@),
        OrphanAction::UploadNew(k) => synced.insert(k@),
    }
}

impl Operation {
    /// Whether the operation is about `key`.
    pub fn is_about(&self, key: &String) -> (r: bool)
        ensures
            r == (self.target()@ == key@),
    {
        match self {
            Operation::Write(p) => *p == *key,
            Operation::WriteEmpty(p) => *p == *key,
            Operation::Upload(p) => *p == *key,
            Operation::Checked(p) => *p == *key,
        }
    }
}

/// Whether one of the operations is about `key`.
pub fn was_seen(ops: &Vec<Operation>, key: &String) -> (r: bool)
    ensures
        r == seen_keys(ops@).contains(key@),
{
    let mut i: usize = 0;
    while i < ops.len()
        invariant
            i <= ops@.len(),
            forall|j: int| 0 <= j < i ==> (#[trigger] ops@[j]).target()@ != key@,
        decreases ops@.len() - i,
    {
        if ops[i].is_about(key) {
            assert(ops@[i as int].target()@ == key@);
            return true;
        }
        i = i + 1;
    }
    false
}

/// The actions for the local files (given by key) that the pass's
/// operations did not cover.
pub fn plan_orphans(local_keys: &Vec<String>, ops: &Vec<Operation>, registry: &Cache) -> (r: Vec<OrphanAction>)
    ensures
        r@ == orphan_plan(local_keys@, seen_keys(ops@), registry@),
{
    let mut r: Vec<OrphanAction> = Vec::new();
    let mut i: usize = 0;
    while i < local_keys.len()
        invariant
            i <= local_keys@.len(),
            r@ == orphan_plan(local_keys@.subrange(0, i as int), seen_keys(ops@), registry@),
        decreases local_keys@.len() - i,
    {
        let ghost next = local_keys@.subrange(0, i + 1);
        assert(next.drop_last() =~= local_keys@.subrange(0, i as int));
        let k = &local_keys[i];
        if !was_seen(ops, k) {
            if registry.contains(k.as_str()) {
                r.push(OrphanAction::DeleteLocal(k.clone()));
            } else {
                r.push(OrphanAction::UploadNew(k.clone()));
            }
        }
        i = i + 1;
    }
    assert(local_keys@.subrange(0, local_keys@.len() as int) =~= local_keys@);
    r
}

/// Records in the registry an orphan action that succeeded: a deleted file
/// is no longer synced, an uploaded one is.
pub fn settle_orphan(registry: &mut Cache, a: &OrphanAction)
    ensures
        final(registry)@ == after_orphan(old(registry)@, *a),
{
    match a {
        OrphanAction::DeleteLocal(k) => {
            registry.remove(k.as_str());
        },
        OrphanAction::UploadNew(k) => {
            registry.insert(k.clone());
        },
    }
}

/// A local file that was synced before, and that the current listing did
/// not show, is deleted locally; once it is, it is no longer synced.
pub proof fn lemma_deletion_propagates(
    keys: Seq<String>,
    seen: Set<Seq<char>>,
    synced: Set<Seq<char>>,
    i: int,
)
    requires
        0 <= i < keys.len(),
        !seen.contains(keys[i]@),
        synced.contains(keys[i]@),
    ensures
        orphan_plan(keys, seen, synced).contains(OrphanAction::DeleteLocal(keys[i])),
        !after_orphan(synced, OrphanAction::DeleteLocal(keys[i])).contains(keys[i]@),
    decreases keys.len(),
{
    let plan = orphan_plan(keys, seen, synced);
    let before = orphan_plan(keys.drop_last(), seen, synced);
    if i == keys.len() - 1 {
        assert(plan == before.push(OrphanAction::DeleteLocal(keys[i])));
        assert(plan[before.len() as int] == OrphanAction::DeleteLocal(keys[i]));
    } else {
        assert(keys.drop_last()[i] == keys[i]);
        lemma_deletion_propagates(keys.drop_last(), seen, synced, i);
        let j = choose|j: int| 0 <= j < before.len() && before[j] == OrphanAction::DeleteLocal(keys[i]);
        assert(plan[j] == before[j]);
    }
}

/// Where the listing covered every local file, the sweep has nothing to do.
pub proof fn lemma_all_seen_no_orphans(keys: Seq<String>, seen: Set<Seq<char>>, synced: Set<Seq<char>>)
    requires
        forall|i: int| 0 <= i < keys.len() ==> seen.contains((#[trigger] keys[i])@),
    ensures
        orphan_plan(keys, seen, synced).len() == 0,
    decreases keys.len(),
{
    if keys.len() > 0 {
        let rest = keys.drop_last();
        assert forall|i: int| 0 <= i < rest.len() implies seen.contains((#[trigger] rest[i])@) by {
            assert(rest[i] == keys[i]);
        }
        lemma_all_seen_no_orphans(rest, seen, synced);
        assert(seen.contains(keys[keys.len() - 1]@));
    }
}

/// Records in the registry an object that the listing showed, before its
/// operation runs: existing remotely means it is meant to be synced. True
/// where the key was not synced before.
pub fn record_listed(registry: &mut Cache, op: &Operation) -> (r: bool)
    ensures
        final(registry)@ == old(registry)@.insert(op.target()@),
        r == !old(registry)@.contains(op.target()@),
{
    registry.insert(op.path())
}

/// The synced keys once the orphan actions succeeded, one after another.
pub open spec fn after_orphans(synced: Set<Seq<char>>, actions: Seq<OrphanAction>) -> Set<Seq<char>>
    decreases actions.len(),
{
    if actions.len() == 0 {
        synced
    } else {
        after_orphan(after_orphans(synced, actions.drop_last()), actions.last())
    }
}

/// The keys that the orphan actions upload.
pub open spec fn uploaded_keys(actions: Seq<OrphanAction>) -> Set<Seq<char>>
    decreases actions.len(),
{
    if actions.len() == 0 {
        Set::empty()
    } else {
        let before = uploaded_keys(actions.drop_last());
        match actions.last() {
            OrphanAction::UploadNew(k) => before.insert(k@),
            OrphanAction::DeleteLocal(_) => before,
        }
    }
}

/// Every deletion is of a key that was synced and not seen; every upload is
/// of a key that was not synced.
pub open spec fn orphans_consistent(actions: Seq<OrphanAction>, seen: Set<Seq<char>>, synced: Set<Seq<char>>) -> bool {
    forall|j: int| 0 <= j < actions.len() ==> match #[trigger] actions[j] {
        OrphanAction::DeleteLocal(k) => synced.contains(k@) && !seen.contains(k@),
        OrphanAction::UploadNew(k) => !synced.contains(k@),
    }
}

proof fn lemma_orphan_plan_consistent(keys: Seq<String>, seen: Set<Seq<char>>, synced: Set<Seq<char>>)
    ensures
        orphans_consistent(orphan_plan(keys, seen, synced), seen, synced),
    decreases keys.len(),
{
    if keys.len() > 0 {
        lemma_orphan_plan_consistent(keys.drop_last(), seen, synced);
    }
}

proof fn lemma_after_orphans_keeps(
    r: Set<Seq<char>>,
    actions: Seq<OrphanAction>,
    seen: Set<Seq<char>>,
    synced: Set<Seq<char>>,
)
    requires
        orphans_consistent(actions, seen, synced),
        seen.subset_of(r),
    ensures
        seen.subset_of(after_orphans(r, actions)),
        uploaded_keys(actions).subset_of(after_orphans(r, actions)),
        uploaded_keys(actions).disjoint(synced),
    decreases actions.len(),
{
    if actions.len() > 0 {
        let prev = actions.drop_last();
        assert forall|j: int| 0 <= j < prev.len() implies match #[trigger] prev[j] {
            OrphanAction::DeleteLocal(k) => synced.contains(k@) && !seen.contains(k@),
            OrphanAction::UploadNew(k) => !synced.contains(k@),
        } by {
            assert(prev[j] == actions[j]);
        }
        lemma_after_orphans_keeps(r, prev, seen, synced);
        assert(actions.last() == actions[actions.len() - 1]);
    }
}

/// A first pass leaves synced every key that its listing showed and every
/// local file that it uploaded: the registry, after every listed key was
/// recorded, goes through the sweep's actions without losing any of them.
pub proof fn lemma_first_pass_registry(
    local_keys: Seq<String>,
    ops: Seq<Operation>,
    recorded: Set<Seq<char>>,
)
    requires
        seen_keys(ops).subset_of(recorded),
    ensures
        ({
            let plan = orphan_plan(local_keys, seen_keys(ops), recorded);
            &&& seen_keys(ops).subset_of(after_orphans(recorded, plan))
            &&& uploaded_keys(plan).subset_of(after_orphans(recorded, plan))
        }),
{
    let plan = orphan_plan(local_keys, seen_keys(ops), recorded);
    lemma_orphan_plan_consistent(local_keys, seen_keys(ops), recorded);
    lemma_after_orphans_keeps(recorded, plan, seen_keys(ops), recorded);
}

/// A second pass with no change since the first does nothing: where the
/// second listing shows what the first pass left behind, the registry holds
/// every listed key and the local tree holds only listed files, every
/// operation is a check, the sweep has no action, and recording the listed
/// keys leaves the registry as it was.
pub proof fn lemma_second_pass_idle(
    first: Seq<Observation>,
    first_ops: Seq<Operation>,
    second: Seq<Observation>,
    second_ops: Seq<Operation>,
    local_keys: Seq<String>,
    synced: Set<Seq<char>>,
    size_only: bool,
)
    requires
        forall|i: int| 0 <= i < first.len() ==> (#[trigger] first[i]).local.wf(),
        first_ops.len() == first.len(),
        forall|i: int| 0 <= i < first.len() ==> Ok::<Operation, PlanError>(first_ops[i]) == #[trigger] object_plan(first[i], size_only),
        second.len() == first.len(),
        forall|i: int| 0 <= i < first.len() ==> #[trigger] settled(first[i], first_ops[i], second[i]),
        second_ops.len() == second.len(),
        forall|i: int| 0 <= i < second.len() ==> Ok::<Operation, PlanError>(second_ops[i]) == #[trigger] object_plan(second[i], size_only),
        forall|i: int| 0 <= i < second.len() ==> synced.contains((#[trigger] second[i]).remote.key@),
        forall|k: int| 0 <= k < local_keys.len() ==> exists|i: int| 0 <= i < second.len()
            && (#[trigger] local_keys[k])@ == (#[trigger] second[i]).remote.key@,
    ensures
        forall|i: int| 0 <= i < second.len() ==> #[trigger] second_ops[i] == Operation::Checked(second[i].remote.key),
        forall|i: int| 0 <= i < second.len() ==> !(#[trigger] second_ops[i]).transfers(),
        orphan_plan(local_keys, seen_keys(second_ops), synced).len() == 0,
        forall|i: int| 0 <= i < second.len() ==> synced.insert((#[trigger] second_ops[i]).target()@) == synced,
{
    assert forall|i: int| 0 <= i < second.len() implies #[trigger] second_ops[i] == Operation::Checked(second[i].remote.key) by {
        assert(settled(first[i], first_ops[i], second[i]));
        assert(Ok::<Operation, PlanError>(first_ops[i]) == object_plan(first[i], size_only));
        assert(Ok::<Operation, PlanError>(second_ops[i]) == object_plan(second[i], size_only));
    }
    assert forall|i: int| 0 <= i < second.len() implies synced.insert((#[trigger] second_ops[i]).target()@) == synced by {
        assert(synced.contains(second[i].remote.key@));
        assert(synced.insert(second[i].remote.key@) =~= synced);
    }
    assert forall|k: int| 0 <= k < local_keys.len() implies seen_keys(second_ops).contains((#[trigger] local_keys[k])@) by {
        let i = choose|i: int| 0 <= i < second.len() && local_keys[k]@ == (#[trigger] second[i]).remote.key@;
        assert(second_ops[i].target() == second[i].remote.key);
    }
    lemma_all_seen_no_orphans(local_keys, seen_keys(second_ops), synced);
}

} // verus!
