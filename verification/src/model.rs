use vstd::prelude::*;

use crate::keys::{Digest, PublicKey};
use crate::txs::{
    spec_corner_count, ObjectTx, TxCreateObject, TxCreateOwner, TxModifyObject, TxRegister,
    TxTransferObject,
};
use crate::types::{HistoryAction, ObjectHistory, ObjectView, OwnerView, Ownership, TxResult};

verus! {

/// The state of the ledger, as the transactions see it.
pub struct LedgerView {
    /// Registered users, by public key, with their names.
    pub users: Map<PublicKey, Seq<char>>,
    /// Owners; an owner's id is its position.
    pub owners: Seq<OwnerView>,
    /// Land objects; an object's id is its position.
    pub objects: Seq<ObjectView>,
    /// For each owner, the ownership changes that concern it, oldest first.
    pub owner_objects: Seq<Seq<Ownership>>,
    /// For each object, the changes made to it, oldest first.
    pub object_history: Seq<Seq<ObjectHistory>>,
    /// The answers recorded for transactions, by transaction hash.
    pub results: Map<Digest, u8>,
}

/// Every object's owner is among the first `n_owners` owners.
pub open spec fn owners_exist(objects: Seq<ObjectView>, n_owners: nat) -> bool {
    forall|i: int| 0 <= i < objects.len() ==> (#[trigger] objects[i]).owner_id < n_owners
}

/// Replacing an object by one whose owner exists, with no owner removed,
/// keeps every object's owner existing.
pub proof fn lemma_owners_exist_update(objects: Seq<ObjectView>, n: nat, m: nat, i: int, o: ObjectView)
    requires
        owners_exist(objects, n),
        n <= m,
        0 <= i < objects.len(),
        o.owner_id < m,
    ensures
        owners_exist(objects.update(i, o), m),
{
    assert forall|j: int| 0 <= j < objects.len() implies (#[trigger] objects.update(i, o)[j]).owner_id < m by {
        if j != i {
            assert(objects[j].owner_id < n);
        }
    }
}

/// Adding an object whose owner exists, with no owner removed, keeps every
/// object's owner existing.
pub proof fn lemma_owners_exist_push(objects: Seq<ObjectView>, n: nat, m: nat, o: ObjectView)
    requires
        owners_exist(objects, n),
        n <= m,
        o.owner_id < m,
    ensures
        owners_exist(objects.push(o), m),
{
    assert forall|j: int| 0 <= j < objects.len() + 1 implies (#[trigger] objects.push(o)[j]).owner_id < m by {
        if j < objects.len() {
            assert(objects[j].owner_id < n);
        }
    }
}

/// Some flag is set: the new polygon meets some stored object.
pub open spec fn crosses_any(crossings: Seq<bool>) -> bool {
    exists|i: int| 0 <= i < crossings.len() && #[trigger] crossings[i]
}

impl LedgerView {
    pub open spec fn empty() -> LedgerView {
        LedgerView {
            users: Map::empty(),
            owners: Seq::empty(),
            objects: Seq::empty(),
            owner_objects: Seq::empty(),
            object_history: Seq::empty(),
            results: Map::empty(),
        }
    }

    /// Every owner has an ownership list, every object a history, and every
    /// object's owner exists.
    pub open spec fn wf(self) -> bool {
        &&& self.owner_objects.len() == self.owners.len()
        &&& self.object_history.len() == self.objects.len()
        &&& owners_exist(self.objects, self.owners.len())
    }

    pub open spec fn has_owner(self, id: u64) -> bool {
        id < self.owners.len()
    }

    pub open spec fn has_object(self, id: u64) -> bool {
        id < self.objects.len()
    }

    /// The same state with `code` recorded as the answer to transaction `h`.
    pub open spec fn answer(self, h: Digest, code: u8) -> LedgerView {
        LedgerView { results: self.results.insert(h, code), ..self }
    }

    /// `e` appended to the history of object `id`.
    pub open spec fn history_with(self, id: u64, e: ObjectHistory) -> Seq<Seq<ObjectHistory>> {
        self.object_history.update(id as int, self.object_history[id as int].push(e))
    }
}

/// Appends `o` to the ownership list of owner `id`.
pub open spec fn lists_with(lists: Seq<Seq<Ownership>>, id: u64, o: Ownership) -> Seq<Seq<Ownership>> {
    lists.update(id as int, lists[id as int].push(o))
}

pub open spec fn register_step(s: LedgerView, t: TxRegister) -> LedgerView {
    if s.users.contains_key(t.pub_key) {
        s.answer(t.hash, TxResult::RESULT_ALREADY_REGISTERED)
    } else {
        LedgerView { users: s.users.insert(t.pub_key, t.name@), ..s }
    }
}

pub open spec fn create_owner_step(s: LedgerView, t: TxCreateOwner) -> LedgerView {
    LedgerView {
        owners: s.owners.push(OwnerView { firstname: t.firstname@, lastname: t.lastname@ }),
        owner_objects: s.owner_objects.push(Seq::empty()),
        ..s
    }
}

pub open spec fn create_object_step(s: LedgerView, t: TxCreateObject, crossings: Seq<bool>, now: i64) -> LedgerView {
    if !s.has_owner(t.owner_id) {
        s.answer(t.hash, TxResult::RESULT_CREATE_WRONG_OWNER)
    } else if spec_corner_count(t.points.len() as nat) < 3 {
        s.answer(t.hash, TxResult::RESULT_WRONG_POINTS)
    } else if crosses_any(crossings) {
        s.answer(t.hash, TxResult::RESULT_WRONG_NEIGHBOURS)
    } else {
        let id = s.objects.len() as u64;
        let entry = ObjectHistory {
            action: HistoryAction::Create,
            old_owner: t.owner_id,
            new_owner: t.owner_id,
            timestamp: now,
            tx_hash: t.hash,
        };
        LedgerView {
            owner_objects: lists_with(s.owner_objects, t.owner_id, Ownership { object_id: id, is_owner: true }),
            object_history: s.object_history.push(seq![entry]),
            results: s.results.insert(t.hash, TxResult::RESULT_OK),
            objects: s.objects.push(
                ObjectView { title: t.title@, points: t.points@, owner_id: t.owner_id, deleted: false },
            ),
            ..s
        }
    }
}

pub open spec fn modify_object_step(s: LedgerView, t: TxModifyObject, now: i64) -> LedgerView {
    if !s.has_object(t.object_id) {
        s.answer(t.hash, TxResult::RESULT_MODIFY_WRONG_OBJECT)
    } else {
        let o = s.objects[t.object_id as int];
        let entry = ObjectHistory {
            action: HistoryAction::Modify,
            old_owner: o.owner_id,
            new_owner: o.owner_id,
            timestamp: now,
            tx_hash: t.hash,
        };
        LedgerView {
            object_history: s.history_with(t.object_id, entry),
            objects: s.objects.update(t.object_id as int, ObjectView { title: t.title@, points: t.points@, ..o }),
            ..s
        }
    }
}

pub open spec fn transfer_object_step(s: LedgerView, t: TxTransferObject, now: i64) -> LedgerView {
    if !s.has_object(t.object_id) {
        s.answer(t.hash, TxResult::RESULT_TRANSFER_WRONG_OBJECT)
    } else if !s.has_owner(t.owner_id) {
        s.answer(t.hash, TxResult::RESULT_TRANSFER_WRONG_OWNER)
    } else {
        let o = s.objects[t.object_id as int];
        let lost = lists_with(s.owner_objects, o.owner_id, Ownership { object_id: t.object_id, is_owner: false });
        let entry = ObjectHistory {
            action: HistoryAction::Transfer,
            old_owner: o.owner_id,
            new_owner: t.owner_id,
            timestamp: now,
            tx_hash: t.hash,
        };
        LedgerView {
            owner_objects: lists_with(lost, t.owner_id, Ownership { object_id: t.object_id, is_owner: true }),
            object_history: s.history_with(t.object_id, entry),
            objects: s.objects.update(t.object_id as int, ObjectView { owner_id: t.owner_id, ..o }),
            ..s
        }
    }
}

/// Sets or clears the removed mark of an object, recording `action` in its
/// history; a missing object is answered with `wrong`.
pub open spec fn mark_step(
    s: LedgerView,
    id: u64,
    deleted: bool,
    action: HistoryAction,
    hash: Digest,
    wrong: u8,
    now: i64,
) -> LedgerView {
    if !s.has_object(id) {
        s.answer(hash, wrong)
    } else {
        let o = s.objects[id as int];
        let entry = ObjectHistory {
            action,
            old_owner: o.owner_id,
            new_owner: o.owner_id,
            timestamp: now,
            tx_hash: hash,
        };
        LedgerView {
            object_history: s.history_with(id, entry),
            objects: s.objects.update(id as int, ObjectView { deleted, ..o }),
            ..s
        }
    }
}

/// The state after executing `tx` at time `now`, where `crossings[i]` tells
/// whether the polygon of a new object meets that of stored object `i`.
pub open spec fn step(s: LedgerView, tx: ObjectTx, crossings: Seq<bool>, now: i64) -> LedgerView {
    match tx {
        ObjectTx::Register(t) => register_step(s, t),
        ObjectTx::CreateOwner(t) => create_owner_step(s, t),
        ObjectTx::CreateObject(t) => create_object_step(s, t, crossings, now),
        ObjectTx::ModifyObject(t) => modify_object_step(s, t, now),
        ObjectTx::TransferObject(t) => transfer_object_step(s, t, now),
        ObjectTx::RemoveObject(t) => mark_step(
            s,
            t.object_id,
            true,
            HistoryAction::Remove,
            t.hash,
            TxResult::RESULT_REMOVE_WRONG_OBJECT,
            now,
        ),
        ObjectTx::RestoreObject(t) => mark_step(
            s,
            t.object_id,
            false,
            HistoryAction::Restore,
            t.hash,
            TxResult::RESULT_RESTORE_WRONG_OBJECT,
            now,
        ),
    }
}

/// The ids of the objects whose current owner is `owner`, in id order.
pub open spec fn owned_ids(objects: Seq<ObjectView>, owner: u64) -> Seq<u64>
    decreases objects.len(),
{
    if objects.len() == 0 {
        Seq::empty()
    } else {
        let rest = owned_ids(objects.drop_last(), owner);
        if objects.last().owner_id == owner {
            rest.push((objects.len() - 1) as u64)
        } else {
            rest
        }
    }
}

} // verus!
