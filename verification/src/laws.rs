//! Properties of the store that relate several operations, each proved
//! over the same state functions the operations' contracts use.

use vstd::prelude::*;

use crate::store::{patched, StoreView, UserView};
use crate::MAX_TIMESTAMP;

verus! {

/// Creation hands out a fresh id: no stored record already carries the id
/// the next created record will receive, and that record leaves creation
/// with its two timestamps equal.
pub proof fn lemma_create_fresh(s: StoreView, name: Seq<char>, email: Seq<char>, now: int)
    requires
        s.wf(),
    ensures
        !s.has_id(s.next_id),
        s.after_insert(name, email, now).users.last().id == s.next_id,
        s.after_insert(name, email, now).users.last().created_at == s.after_insert(
            name,
            email,
            now,
        ).users.last().updated_at,
{
}

/// After a record with a previously free email is created, that email is
/// taken — so a second creation with the same email reports a uniqueness
/// violation and leaves the store unchanged, the first record included.
pub proof fn lemma_create_conflict(s: StoreView, name: Seq<char>, email: Seq<char>, now: int)
    requires
        s.wf(),
        !s.email_taken(email),
    ensures
        s.after_insert(name, email, now).email_taken(email),
        forall|i: int|
            0 <= i < s.users.len() ==> #[trigger] s.after_insert(name, email, now).users[i]
                == s.users[i],
{
    let s1 = s.after_insert(name, email, now);
    assert(s1.users[s.users.len() as int].email == email);
}

/// An id no record was ever assigned — any id at or above the next free
/// one — is not found.
pub proof fn lemma_unassigned_id_not_found(s: StoreView, id: int)
    requires
        s.wf(),
        id >= s.next_id,
    ensures
        !s.has_id(id),
{
}

/// An update with an empty body still refreshes the modification
/// timestamp, and leaves the id, the name, the email and the creation
/// timestamp untouched.
pub proof fn lemma_update_empty_body(u: UserView, now: int)
    ensures
        patched(u, Option::None, Option::None, now).id == u.id,
        patched(u, Option::None, Option::None, now).name == u.name,
        patched(u, Option::None, Option::None, now).email == u.email,
        patched(u, Option::None, Option::None, now).created_at == u.created_at,
        patched(u, Option::None, Option::None, now).updated_at == now,
{
}

/// An update that supplies only a name leaves the email unchanged, and one
/// that supplies only an email leaves the name unchanged.
pub proof fn lemma_update_partial(u: UserView, name: Seq<char>, email: Seq<char>, now: int)
    ensures
        patched(u, Option::Some(name), Option::None, now).name == name,
        patched(u, Option::Some(name), Option::None, now).email == u.email,
        patched(u, Option::None, Option::Some(email), now).email == email,
        patched(u, Option::None, Option::Some(email), now).name == u.name,
{
}

/// After a record is deleted its id is no longer found: a lookup reports
/// not-found, and so does a second deletion of the same id.
pub proof fn lemma_delete_then_get(s: StoreView, id: int)
    requires
        s.wf(),
        s.has_id(id),
    ensures
        !s.after_delete(id).has_id(id),
{
    let idx = s.idx_of(id);
    let s1 = s.after_delete(id);
    assert forall|k: int| 0 <= k < s1.users.len() implies (#[trigger] s1.users[k]).id != id by {
        if k < idx {
            assert(s1.users[k] == s.users[k]);
        } else {
            assert(s1.users[k] == s.users[k + 1]);
        }
    }
}

/// Creation with a free email preserves well-formedness and grows the
/// store by one record.
pub proof fn lemma_after_insert_wf(s: StoreView, name: Seq<char>, email: Seq<char>, now: int)
    requires
        s.wf(),
        s.next_id < i32::MAX as int,
        !s.email_taken(email),
        0 <= now <= MAX_TIMESTAMP as int,
    ensures
        s.after_insert(name, email, now).wf(),
        s.after_insert(name, email, now).users.len() == s.users.len() + 1,
{
}

/// Deletion of a present id preserves well-formedness and shrinks the
/// store by one record.
pub proof fn lemma_after_delete_wf(s: StoreView, id: int)
    requires
        s.wf(),
        s.has_id(id),
    ensures
        s.after_delete(id).wf(),
        s.after_delete(id).users.len() == s.users.len() - 1,
{
    let idx = s.idx_of(id);
    let s1 = s.after_delete(id);
    assert forall|k: int| 0 <= k < s1.users.len() implies #[trigger] s1.users[k] == (if k < idx {
        s.users[k]
    } else {
        s.users[k + 1]
    }) by {}
}

/// One step of a creation-and-deletion history.
pub enum StoreOp {
    Create { name: Seq<char>, email: Seq<char>, now: int },
    Delete { id: int },
}

/// Whether a step succeeds against this store: a creation needs a free
/// email, a free id and a renderable timestamp; a deletion needs a present
/// id.
pub open spec fn op_succeeds(s: StoreView, op: StoreOp) -> bool {
    match op {
        StoreOp::Create { name, email, now } => !s.email_taken(email) && s.next_id
            < i32::MAX as int && 0 <= now <= MAX_TIMESTAMP as int,
        StoreOp::Delete { id } => s.has_id(id),
    }
}

/// The store after one successful step.
pub open spec fn apply_op(s: StoreView, op: StoreOp) -> StoreView {
    match op {
        StoreOp::Create { name, email, now } => s.after_insert(name, email, now),
        StoreOp::Delete { id } => s.after_delete(id),
    }
}

/// The store after a history of successful steps, applied in order.
pub open spec fn apply_ops(s: StoreView, ops: Seq<StoreOp>) -> StoreView
    decreases ops.len(),
{
    if ops.len() == 0 {
        s
    } else {
        apply_ops(apply_op(s, ops[0]), ops.drop_first())
    }
}

/// Every step of the history succeeds in the store it is applied to.
pub open spec fn ops_succeed(s: StoreView, ops: Seq<StoreOp>) -> bool
    decreases ops.len(),
{
    ops.len() == 0 || (op_succeeds(s, ops[0]) && ops_succeed(apply_op(s, ops[0]), ops.drop_first()))
}

/// How many steps of the history are creations.
pub open spec fn create_count(ops: Seq<StoreOp>) -> int
    decreases ops.len(),
{
    if ops.len() == 0 {
        0
    } else {
        (if ops[0] is Create {
            1int
        } else {
            0int
        }) + create_count(ops.drop_first())
    }
}

/// How many steps of the history are deletions.
pub open spec fn delete_count(ops: Seq<StoreOp>) -> int
    decreases ops.len(),
{
    if ops.len() == 0 {
        0
    } else {
        (if ops[0] is Delete {
            1int
        } else {
            0int
        }) + delete_count(ops.drop_first())
    }
}

/// After any history of successful creations and deletions, the store is
/// still well formed and holds exactly as many records as it started with,
/// plus the creations, minus the deletions.
pub proof fn lemma_population_after_history(s: StoreView, ops: Seq<StoreOp>)
    requires
        s.wf(),
        ops_succeed(s, ops),
    ensures
        apply_ops(s, ops).wf(),
        apply_ops(s, ops).users.len() == s.users.len() + create_count(ops) - delete_count(ops),
    decreases ops.len(),
{
    if ops.len() > 0 {
        let s1 = apply_op(s, ops[0]);
        match ops[0] {
            StoreOp::Create { name, email, now } => {
                lemma_after_insert_wf(s, name, email, now);
            },
            StoreOp::Delete { id } => {
                lemma_after_delete_wf(s, id);
            },
        }
        lemma_population_after_history(s1, ops.drop_first());
    }
}

} // verus!
