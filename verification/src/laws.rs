use vstd::prelude::*;

use crate::keys::PublicKey;
use crate::model::{
    crosses_any, lemma_owners_exist_push, lemma_owners_exist_update, lists_with, owned_ids, step,
    LedgerView,
};
use crate::txs::{
    spec_corner_count, tx_hash, ObjectTx, TxCreateObject, TxCreateOwner, TxModifyObject, TxRegister,
    TxRemoveObject, TxRestoreObject, TxTransferObject,
};
use crate::types::{HistoryAction, ObjectHistory, ObjectView, Ownership, TxResult};

verus! {

/// `a` is an initial part of `b`.
pub open spec fn prefix<T>(a: Seq<T>, b: Seq<T>) -> bool {
    a.len() <= b.len() && b.take(a.len() as int) == a
}

/// Nothing recorded in `s` is lost or rewritten in `t`: users keep their
/// names, owners their names, and every ownership list and object history
/// of `s` is an initial part of the same list in `t`; no owner or object
/// disappears.
pub open spec fn extends(s: LedgerView, t: LedgerView) -> bool {
    &&& forall|k: PublicKey| #[trigger] s.users.contains_key(k) ==> t.users.contains_key(k) && t.users[k] == s.users[k]
    &&& s.owners.len() <= t.owners.len()
    &&& forall|i: int| 0 <= i < s.owners.len() ==> #[trigger] t.owners[i] == s.owners[i]
    &&& s.objects.len() <= t.objects.len()
    &&& forall|i: int| 0 <= i < s.owner_objects.len() ==> prefix(s.owner_objects[i], #[trigger] t.owner_objects[i])
    &&& forall|i: int| 0 <= i < s.object_history.len() ==> prefix(s.object_history[i], #[trigger] t.object_history[i])
}

proof fn lemma_push_prefix<T>(a: Seq<T>, x: T)
    ensures
        prefix(a, a.push(x)),
{
    assert(a.push(x).take(a.len() as int) =~= a);
}

proof fn lemma_prefix_refl<T>(a: Seq<T>)
    ensures
        prefix(a, a),
{
    assert(a.take(a.len() as int) =~= a);
}

proof fn lemma_lists_with_extends<T>(lists: Seq<Seq<T>>, id: int, x: T)
    requires
        0 <= id < lists.len(),
    ensures
        forall|i: int| 0 <= i < lists.len() ==> prefix(lists[i], #[trigger] lists.update(id, lists[id].push(x))[i]),
{
    assert forall|i: int| 0 <= i < lists.len() implies prefix(lists[i], #[trigger] lists.update(id, lists[id].push(x))[i]) by {
        if i == id {
            lemma_push_prefix(lists[id], x);
        } else {
            lemma_prefix_refl(lists[i]);
        }
    }
}

/// Every transaction keeps the ledger well formed.
pub proof fn law_step_keeps_wf(s: LedgerView, tx: ObjectTx, crossings: Seq<bool>, now: i64)
    requires
        s.wf(),
    ensures
        step(s, tx, crossings, now).wf(),
{
    let n = s.owners.len();
    if refusal(s, tx, crossings) is None {
        match tx {
            ObjectTx::CreateObject(c) => {
                let o = ObjectView { title: c.title@, points: c.points@, owner_id: c.owner_id, deleted: false };
                lemma_owners_exist_push(s.objects, n, n, o);
            },
            ObjectTx::ModifyObject(c) => {
                let o = s.objects[c.object_id as int];
                lemma_owners_exist_update(s.objects, n, n, c.object_id as int, ObjectView { title: c.title@, points: c.points@, ..o });
            },
            ObjectTx::TransferObject(c) => {
                let o = s.objects[c.object_id as int];
                lemma_owners_exist_update(s.objects, n, n, c.object_id as int, ObjectView { owner_id: c.owner_id, ..o });
            },
            ObjectTx::RemoveObject(c) => {
                let o = s.objects[c.object_id as int];
                lemma_owners_exist_update(s.objects, n, n, c.object_id as int, ObjectView { deleted: true, ..o });
            },
            ObjectTx::RestoreObject(c) => {
                let o = s.objects[c.object_id as int];
                lemma_owners_exist_update(s.objects, n, n, c.object_id as int, ObjectView { deleted: false, ..o });
            },
            _ => {},
        }
    }
}

/// The ledger only grows: no transaction removes or rewrites what is
/// recorded, whether it succeeds or is refused.
pub proof fn law_step_extends(s: LedgerView, tx: ObjectTx, crossings: Seq<bool>, now: i64)
    requires
        s.wf(),
    ensures
        extends(s, step(s, tx, crossings, now)),
{
    let t = step(s, tx, crossings, now);
    assert forall|i: int| 0 <= i < s.owner_objects.len() implies prefix(s.owner_objects[i], #[trigger] t.owner_objects[i]) by {
        if t.owner_objects[i] == s.owner_objects[i] {
            lemma_prefix_refl(s.owner_objects[i]);
        } else {
            match tx {
                ObjectTx::CreateObject(c) => {
                    lemma_lists_with_extends(s.owner_objects, c.owner_id as int, Ownership { object_id: s.objects.len() as u64, is_owner: true });
                },
                ObjectTx::TransferObject(c) => {
                    let o = s.objects[c.object_id as int];
                    let x = Ownership { object_id: c.object_id, is_owner: false };
                    let lost = lists_with(s.owner_objects, o.owner_id, x);
                    lemma_lists_with_extends(s.owner_objects, o.owner_id as int, x);
                    let y = Ownership { object_id: c.object_id, is_owner: true };
                    lemma_lists_with_extends(lost, c.owner_id as int, y);
                    assert(prefix(s.owner_objects[i], lost[i]));
                    assert(prefix(lost[i], t.owner_objects[i]));
                    assert(t.owner_objects[i].take(lost[i].len() as int).take(s.owner_objects[i].len() as int)
                        =~= t.owner_objects[i].take(s.owner_objects[i].len() as int));
                },
                ObjectTx::CreateOwner(c) => {
                    assert(t.owner_objects[i] == s.owner_objects[i]);
                },
                _ => {},
            }
        }
    }
    assert forall|i: int| 0 <= i < s.object_history.len() implies prefix(s.object_history[i], #[trigger] t.object_history[i]) by {
        if t.object_history[i] == s.object_history[i] {
            lemma_prefix_refl(s.object_history[i]);
        } else if i == tx_object(tx) {
            lemma_push_prefix(s.object_history[i], t.object_history[i].last());
            assert(t.object_history[i] =~= s.object_history[i].push(t.object_history[i].last()));
        } else {
            match tx {
                ObjectTx::CreateObject(c) => {
                    assert(t.object_history[i] == s.object_history[i]);
                },
                _ => {},
            }
        }
    }
}

/// The object that a transaction names, or -1 for one that names none.
pub open spec fn tx_object(tx: ObjectTx) -> int {
    match tx {
        ObjectTx::ModifyObject(t) => t.object_id as int,
        ObjectTx::TransferObject(t) => t.object_id as int,
        ObjectTx::RemoveObject(t) => t.object_id as int,
        ObjectTx::RestoreObject(t) => t.object_id as int,
        _ => -1,
    }
}

/// The answer with which `tx` is refused in state `s`, if it is refused.
pub open spec fn refusal(s: LedgerView, tx: ObjectTx, crossings: Seq<bool>) -> Option<u8> {
    match tx {
        ObjectTx::Register(t) => if s.users.contains_key(t.pub_key) {
            Some(TxResult::RESULT_ALREADY_REGISTERED)
        } else {
            None
        },
        ObjectTx::CreateOwner(_) => None,
        ObjectTx::CreateObject(t) => if !s.has_owner(t.owner_id) {
            Some(TxResult::RESULT_CREATE_WRONG_OWNER)
        } else if spec_corner_count(t.points.len() as nat) < 3 {
            Some(TxResult::RESULT_WRONG_POINTS)
        } else if crosses_any(crossings) {
            Some(TxResult::RESULT_WRONG_NEIGHBOURS)
        } else {
            None
        },
        ObjectTx::ModifyObject(t) => if !s.has_object(t.object_id) {
            Some(TxResult::RESULT_MODIFY_WRONG_OBJECT)
        } else {
            None
        },
        ObjectTx::TransferObject(t) => if !s.has_object(t.object_id) {
            Some(TxResult::RESULT_TRANSFER_WRONG_OBJECT)
        } else if !s.has_owner(t.owner_id) {
            Some(TxResult::RESULT_TRANSFER_WRONG_OWNER)
        } else {
            None
        },
        ObjectTx::RemoveObject(t) => if !s.has_object(t.object_id) {
            Some(TxResult::RESULT_REMOVE_WRONG_OBJECT)
        } else {
            None
        },
        ObjectTx::RestoreObject(t) => if !s.has_object(t.object_id) {
            Some(TxResult::RESULT_RESTORE_WRONG_OBJECT)
        } else {
            None
        },
    }
}

/// A refused transaction changes nothing but the answer recorded under its
/// hash. An accepted one records an answer only when it creates an object,
/// and then the answer is `RESULT_OK`.
pub proof fn law_answers(s: LedgerView, tx: ObjectTx, crossings: Seq<bool>, now: i64)
    ensures
        refusal(s, tx, crossings) matches Some(code) ==> step(s, tx, crossings, now) == s.answer(tx_hash(tx), code),
        refusal(s, tx, crossings) is None ==> step(s, tx, crossings, now).results == (if tx is CreateObject {
            s.results.insert(tx_hash(tx), TxResult::RESULT_OK)
        } else {
            s.results
        }),
{
}

/// Whether, by the last record about object `o` in an owner's list of
/// ownership changes, that owner holds `o`.
pub open spec fn holds(list: Seq<Ownership>, o: u64) -> bool
    decreases list.len(),
{
    if list.len() == 0 {
        false
    } else if list.last().object_id == o {
        list.last().is_owner
    } else {
        holds(list.drop_last(), o)
    }
}

/// The ownership lists agree with the objects: an owner holds an object by
/// its list exactly when it is the object's owner, and no list holds an
/// object that does not exist.
pub open spec fn ownership_consistent(s: LedgerView) -> bool {
    &&& forall|w: int, o: u64|
        0 <= w < s.owners.len() && o < s.objects.len() ==> (#[trigger] holds(s.owner_objects[w], o)
            <==> s.objects[o as int].owner_id == w)
    &&& forall|w: int, o: u64|
        0 <= w < s.owners.len() && o >= s.objects.len() ==> !#[trigger] holds(s.owner_objects[w], o)
}

proof fn lemma_holds_push(list: Seq<Ownership>, x: Ownership, o: u64)
    ensures
        holds(list.push(x), o) == (if x.object_id == o { x.is_owner } else { holds(list, o) }),
{
    assert(list.push(x).drop_last() =~= list);
}

proof fn lemma_holds_lists_with(lists: Seq<Seq<Ownership>>, id: u64, x: Ownership, w: int, o: u64)
    requires
        id < lists.len(),
        0 <= w < lists.len(),
    ensures
        holds(lists_with(lists, id, x)[w], o) == (if w == id && x.object_id == o {
            x.is_owner
        } else {
            holds(lists[w], o)
        }),
{
    lemma_holds_push(lists[id as int], x, o);
}

/// The empty ledger is well formed, and its lists agree with its objects.
pub proof fn law_empty_consistent()
    ensures
        LedgerView::empty().wf(),
        ownership_consistent(LedgerView::empty()),
        history_consistent(LedgerView::empty()),
{
}

/// Every transaction keeps the ownership lists in agreement with the objects.
pub proof fn law_step_keeps_ownership(s: LedgerView, tx: ObjectTx, crossings: Seq<bool>, now: i64)
    requires
        s.wf(),
        ownership_consistent(s),
        s.objects.len() < u64::MAX,
    ensures
        ownership_consistent(step(s, tx, crossings, now)),
{
    let t = step(s, tx, crossings, now);
    match tx {
        ObjectTx::CreateOwner(c) => {
            assert forall|w: int, o: u64| 0 <= w < t.owners.len() implies
                #[trigger] holds(t.owner_objects[w], o) == (if w < s.owners.len() { holds(s.owner_objects[w], o) } else { false }) by {
            }
            assert forall|w: int, o: u64| 0 <= w < t.owners.len() && o < t.objects.len() implies (#[trigger] holds(t.owner_objects[w], o)
                <==> t.objects[o as int].owner_id == w) by {
                assert(s.objects[o as int].owner_id < s.owners.len());
            }
        },
        ObjectTx::CreateObject(c) => {
            if refusal(s, tx, crossings) is None {
                let id = s.objects.len() as u64;
                let x = Ownership { object_id: id, is_owner: true };
                assert forall|w: int, o: u64| 0 <= w < t.owners.len() implies
                    #[trigger] holds(t.owner_objects[w], o) == (if w == c.owner_id && o == id { true } else { holds(s.owner_objects[w], o) }) by {
                    lemma_holds_lists_with(s.owner_objects, c.owner_id, x, w, o);
                }
                assert forall|w: int, o: u64| 0 <= w < t.owners.len() && o < t.objects.len() implies (#[trigger] holds(t.owner_objects[w], o)
                    <==> t.objects[o as int].owner_id == w) by {
                    if o < id {
                        assert(t.objects[o as int] == s.objects[o as int]);
                    }
                }
            }
        },
        ObjectTx::TransferObject(c) => {
            if refusal(s, tx, crossings) is None {
                let ob = s.objects[c.object_id as int];
                let x = Ownership { object_id: c.object_id, is_owner: false };
                let y = Ownership { object_id: c.object_id, is_owner: true };
                let lost = lists_with(s.owner_objects, ob.owner_id, x);
                assert(ob.owner_id < s.owners.len());
                assert forall|w: int, o: u64| 0 <= w < t.owners.len() implies
                    #[trigger] holds(t.owner_objects[w], o) == (if o == c.object_id {
                        if w == c.owner_id { true } else if w == ob.owner_id { false } else { holds(s.owner_objects[w], o) }
                    } else { holds(s.owner_objects[w], o) }) by {
                    lemma_holds_lists_with(s.owner_objects, ob.owner_id, x, w, o);
                    lemma_holds_lists_with(lost, c.owner_id, y, w, o);
                }
                assert forall|w: int, o: u64| 0 <= w < t.owners.len() && o < t.objects.len() implies (#[trigger] holds(t.owner_objects[w], o)
                    <==> t.objects[o as int].owner_id == w) by {
                    if o != c.object_id {
                        assert(t.objects[o as int] == s.objects[o as int]);
                        assert(holds(s.owner_objects[w], o) <==> s.objects[o as int].owner_id == w);
                    } else {
                        assert(holds(s.owner_objects[w], o) <==> s.objects[o as int].owner_id == w);
                    }
                }
            }
        },
        _ => {
            assert(t.owner_objects == s.owner_objects);
            assert forall|w: int, o: u64| 0 <= w < t.owners.len() && o < t.objects.len() implies (#[trigger] holds(t.owner_objects[w], o)
                <==> t.objects[o as int].owner_id == w) by {
                assert(t.objects[o as int].owner_id == s.objects[o as int].owner_id);
            }
        },
    }
}

/// Every object's history starts with its creation and ends with an entry
/// whose new owner is the object's current owner.
pub open spec fn history_consistent(s: LedgerView) -> bool {
    forall|o: int|
        0 <= o < s.objects.len() ==> {
            let h = #[trigger] s.object_history[o];
            &&& h.len() > 0
            &&& h[0].action == HistoryAction::Create
            &&& h.last().new_owner == s.objects[o].owner_id
        }
}

/// Every transaction keeps each object's history in agreement with the object.
pub proof fn law_step_keeps_history(s: LedgerView, tx: ObjectTx, crossings: Seq<bool>, now: i64)
    requires
        s.wf(),
        history_consistent(s),
    ensures
        history_consistent(step(s, tx, crossings, now)),
{
    let t = step(s, tx, crossings, now);
    assert forall|o: int| 0 <= o < t.objects.len() implies {
        let h = #[trigger] t.object_history[o];
        &&& h.len() > 0
        &&& h[0].action == HistoryAction::Create
        &&& h.last().new_owner == t.objects[o].owner_id
    } by {
        if o < s.objects.len() {
            let h0 = s.object_history[o];
            assert(h0.len() > 0);
            if t.object_history[o] != h0 {
                assert(t.object_history[o] == h0.push(t.object_history[o].last()));
            }
        }
    }
}

/// The entry that an accepted transaction on an existing object adds to the
/// object's history records the transaction's hash and the time of execution,
/// and nothing else is added to that history.
pub proof fn law_history_records(s: LedgerView, tx: ObjectTx, crossings: Seq<bool>, now: i64)
    requires
        s.wf(),
        refusal(s, tx, crossings) is None,
        0 <= tx_object(tx),
    ensures
        ({
            let h = step(s, tx, crossings, now).object_history[tx_object(tx)];
            &&& h.drop_last() == s.object_history[tx_object(tx)]
            &&& h.last().tx_hash == tx_hash(tx)
            &&& h.last().timestamp == now
        }),
{
    let h = step(s, tx, crossings, now).object_history[tx_object(tx)];
    assert(h.drop_last() =~= s.object_history[tx_object(tx)]);
}

/// Removing an object and then restoring it gives back the objects as they
/// were, when the object was not marked removed before. Users, owners,
/// ownership lists and answers are left as they were, the object's history
/// grows by a removal and then a restoration, and no other history changes.
pub proof fn law_remove_then_restore(
    s: LedgerView,
    r: TxRemoveObject,
    q: TxRestoreObject,
    c1: Seq<bool>,
    c2: Seq<bool>,
    now1: i64,
    now2: i64,
)
    requires
        s.wf(),
        r.object_id == q.object_id,
        s.has_object(r.object_id),
        !s.objects[r.object_id as int].deleted,
    ensures
        ({
            let s2 = step(step(s, ObjectTx::RemoveObject(r), c1, now1), ObjectTx::RestoreObject(q), c2, now2);
            let id = r.object_id as int;
            let h = s.object_history[id];
            &&& s2.objects == s.objects
            &&& s2.users == s.users
            &&& s2.owners == s.owners
            &&& s2.owner_objects == s.owner_objects
            &&& s2.results == s.results
            &&& s2.object_history.len() == s.object_history.len()
            &&& s2.object_history[id].len() == h.len() + 2
            &&& s2.object_history[id].take(h.len() as int) == h
            &&& s2.object_history[id][h.len() as int].action == HistoryAction::Remove
            &&& s2.object_history[id][h.len() as int + 1].action == HistoryAction::Restore
            &&& forall|o: int| 0 <= o < s.object_history.len() && o != id ==> #[trigger] s2.object_history[o] == s.object_history[o]
        }),
{
    let s1 = step(s, ObjectTx::RemoveObject(r), c1, now1);
    let s2 = step(s1, ObjectTx::RestoreObject(q), c2, now2);
    let id = r.object_id as int;
    let h = s.object_history[id];
    assert(s2.objects =~= s.objects);
    assert(s2.object_history[id].take(h.len() as int) =~= h);
}

/// An object is reported for an owner exactly when it exists and that owner
/// is its owner.
pub proof fn law_owned_ids(objects: Seq<ObjectView>, w: u64, o: u64)
    requires
        objects.len() <= u64::MAX,
    ensures
        owned_ids(objects, w).contains(o) <==> (o < objects.len() && objects[o as int].owner_id == w),
    decreases objects.len(),
{
    if objects.len() > 0 {
        let rest = objects.drop_last();
        law_owned_ids(rest, w, o);
        let r = owned_ids(rest, w);
        let n = (objects.len() - 1) as u64;
        if o < rest.len() {
            assert(rest[o as int] == objects[o as int]);
        }
        if objects.last().owner_id == w {
            let p = r.push(n);
            assert(owned_ids(objects, w) == p);
            if r.contains(o) {
                let k = choose|k: int| 0 <= k < r.len() && r[k] == o;
                assert(p[k] == o);
            }
            if o == n {
                assert(p[r.len() as int] == o);
            }
            if p.contains(o) {
                let k = choose|k: int| 0 <= k < p.len() && p[k] == o;
                if k < r.len() {
                    assert(r[k] == o);
                }
            }
        }
    }
}

/// The objects that `find_objects_for_owner` reports for an owner are
/// exactly those that the owner holds by its list of ownership changes.
pub proof fn law_owned_ids_match_lists(s: LedgerView, w: u64, o: u64)
    requires
        s.wf(),
        ownership_consistent(s),
        s.objects.len() <= u64::MAX,
        w < s.owners.len(),
    ensures
        owned_ids(s.objects, w).contains(o) <==> holds(s.owner_objects[w as int], o),
{
    law_owned_ids(s.objects, w, o);
    assert(holds(s.owner_objects[w as int], o) == (o < s.objects.len() && s.objects[o as int].owner_id == w));
}

/// A single set crossing flag, wherever it stands, counts as a crossing; with
/// no flag set there is none.
pub proof fn law_crossing_flags(c: Seq<bool>, i: int)
    ensures
        0 <= i < c.len() && c[i] ==> crosses_any(c),
        !crosses_any(c) ==> forall|j: int| 0 <= j < c.len() ==> !c[j],
{
}

/// A new object whose polygon crosses any stored object (flag `i` set) is
/// refused with `RESULT_WRONG_NEIGHBOURS`, and nothing but that answer changes,
/// whatever the other flags say.
pub proof fn law_crossing_refuses(s: LedgerView, t: TxCreateObject, c: Seq<bool>, i: int, now: i64)
    requires
        t.owner_id < s.owners.len(),
        t.points.len() >= 6,
        0 <= i < c.len(),
        c[i],
    ensures
        step(s, ObjectTx::CreateObject(t), c, now).results == s.results.insert(t.hash, TxResult::RESULT_WRONG_NEIGHBOURS),
        step(s, ObjectTx::CreateObject(t), c, now).objects == s.objects,
        step(s, ObjectTx::CreateObject(t), c, now).owner_objects == s.owner_objects,
        step(s, ObjectTx::CreateObject(t), c, now).object_history == s.object_history,
{
    assert(crosses_any(c));
}

/// An object for an existing owner, with at least three corners and no set
/// crossing flag, is stored under the next id with the given title and
/// polygon, not removed; the owner's ownership list gains it; its history is
/// one Create entry; the answer is `RESULT_OK`.
pub proof fn law_create_object_stores(s: LedgerView, t: TxCreateObject, c: Seq<bool>, now: i64)
    requires
        s.wf(),
        s.objects.len() <= u64::MAX,
        t.owner_id < s.owners.len(),
        t.points.len() >= 6,
        forall|j: int| 0 <= j < c.len() ==> !c[j],
    ensures
        ({
            let u = step(s, ObjectTx::CreateObject(t), c, now);
            let id = s.objects.len() as int;
            let w = t.owner_id as int;
            &&& u.objects.len() == id + 1
            &&& u.objects.take(id) == s.objects
            &&& u.objects[id].title == t.title@
            &&& u.objects[id].points == t.points@
            &&& u.objects[id].owner_id == t.owner_id
            &&& !u.objects[id].deleted
            &&& u.owners == s.owners
            &&& u.owner_objects.len() == s.owner_objects.len()
            &&& u.owner_objects[w] == s.owner_objects[w].push(Ownership { object_id: id as u64, is_owner: true })
            &&& forall|k: int| 0 <= k < s.owner_objects.len() && k != w ==> #[trigger] u.owner_objects[k] == s.owner_objects[k]
            &&& u.object_history.len() == id + 1
            &&& u.object_history.take(id) == s.object_history
            &&& u.object_history[id].len() == 1
            &&& u.object_history[id][0] == (ObjectHistory {
                action: HistoryAction::Create,
                old_owner: t.owner_id,
                new_owner: t.owner_id,
                timestamp: now,
                tx_hash: t.hash,
            })
            &&& u.results == s.results.insert(t.hash, TxResult::RESULT_OK)
            &&& u.users == s.users
        }),
{
    let u = step(s, ObjectTx::CreateObject(t), c, now);
    let id = s.objects.len() as int;
    assert(!crosses_any(c));
    assert(u.objects.take(id) =~= s.objects);
    assert(u.object_history.take(id) =~= s.object_history);
}

/// Creating an owner always adds exactly one owner, with the given names,
/// under the next id, with an empty ownership list; nothing else changes.
/// Two owners with the same names are two owners.
pub proof fn law_create_owner_appends(s: LedgerView, t: TxCreateOwner, c: Seq<bool>, now: i64)
    ensures
        ({
            let u = step(s, ObjectTx::CreateOwner(t), c, now);
            &&& u.owners.len() == s.owners.len() + 1
            &&& u.owners.take(s.owners.len() as int) == s.owners
            &&& u.owners[s.owners.len() as int].firstname == t.firstname@
            &&& u.owners[s.owners.len() as int].lastname == t.lastname@
            &&& u.owner_objects.len() == s.owner_objects.len() + 1
            &&& u.owner_objects.take(s.owner_objects.len() as int) == s.owner_objects
            &&& u.owner_objects[s.owner_objects.len() as int].len() == 0
            &&& u.objects == s.objects
            &&& u.object_history == s.object_history
            &&& u.users == s.users
            &&& u.results == s.results
        }),
{
    let u = step(s, ObjectTx::CreateOwner(t), c, now);
    assert(u.owners.take(s.owners.len() as int) =~= s.owners);
    assert(u.owner_objects.take(s.owner_objects.len() as int) =~= s.owner_objects);
}

/// An accepted transfer changes nothing of the object but its owner: title,
/// polygon and removed mark are kept, and no other object changes. The old
/// owner's list records the loss, then the new owner's list the gain; the
/// history entry goes from the object's owner before the transfer to the new
/// owner.
pub proof fn law_transfer_changes_only_owner(s: LedgerView, t: TxTransferObject, c: Seq<bool>, now: i64)
    requires
        s.wf(),
        t.object_id < s.objects.len(),
        t.owner_id < s.owners.len(),
    ensures
        ({
            let u = step(s, ObjectTx::TransferObject(t), c, now);
            let id = t.object_id as int;
            let o = s.objects[id];
            let a = o.owner_id as int;
            let b = t.owner_id as int;
            let lost = Ownership { object_id: t.object_id, is_owner: false };
            let got = Ownership { object_id: t.object_id, is_owner: true };
            &&& u.objects.len() == s.objects.len()
            &&& u.objects[id].owner_id == t.owner_id
            &&& u.objects[id].title == o.title
            &&& u.objects[id].points == o.points
            &&& u.objects[id].deleted == o.deleted
            &&& forall|k: int| 0 <= k < s.objects.len() && k != id ==> #[trigger] u.objects[k] == s.objects[k]
            &&& (a != b ==> u.owner_objects[a] == s.owner_objects[a].push(lost))
            &&& (a != b ==> u.owner_objects[b] == s.owner_objects[b].push(got))
            &&& (a == b ==> u.owner_objects[a] == s.owner_objects[a].push(lost).push(got))
            &&& forall|k: int| 0 <= k < s.owner_objects.len() && k != a && k != b ==> #[trigger] u.owner_objects[k] == s.owner_objects[k]
            &&& u.object_history[id] == s.object_history[id].push(ObjectHistory {
                action: HistoryAction::Transfer,
                old_owner: o.owner_id,
                new_owner: t.owner_id,
                timestamp: now,
                tx_hash: t.hash,
            })
            &&& u.owners == s.owners
            &&& u.results == s.results
        }),
{
    let o = s.objects[t.object_id as int];
    assert(o.owner_id < s.owners.len());
}

/// An accepted change of title and polygon keeps the object's owner and
/// removed mark, changes no other object, and records a Modify entry whose
/// old and new owner are both the object's owner.
pub proof fn law_modify_keeps_owner(s: LedgerView, t: TxModifyObject, c: Seq<bool>, now: i64)
    requires
        s.wf(),
        t.object_id < s.objects.len(),
    ensures
        ({
            let u = step(s, ObjectTx::ModifyObject(t), c, now);
            let id = t.object_id as int;
            let o = s.objects[id];
            &&& u.objects.len() == s.objects.len()
            &&& u.objects[id].title == t.title@
            &&& u.objects[id].points == t.points@
            &&& u.objects[id].owner_id == o.owner_id
            &&& u.objects[id].deleted == o.deleted
            &&& forall|k: int| 0 <= k < s.objects.len() && k != id ==> #[trigger] u.objects[k] == s.objects[k]
            &&& u.object_history[id] == s.object_history[id].push(ObjectHistory {
                action: HistoryAction::Modify,
                old_owner: o.owner_id,
                new_owner: o.owner_id,
                timestamp: now,
                tx_hash: t.hash,
            })
            &&& u.owner_objects == s.owner_objects
            &&& u.owners == s.owners
            &&& u.results == s.results
        }),
{
}

/// Removing an existing object marks it removed, whatever its mark was, and
/// restoring clears the mark; title, polygon and owner are kept, no other
/// object changes, and the history gains an entry whose old and new owner are
/// both the object's owner.
pub proof fn law_mark_sets_the_flag(s: LedgerView, r: TxRemoveObject, q: TxRestoreObject, c: Seq<bool>, now: i64)
    requires
        s.wf(),
        r.object_id < s.objects.len(),
        q.object_id < s.objects.len(),
    ensures
        ({
            let u = step(s, ObjectTx::RemoveObject(r), c, now);
            let id = r.object_id as int;
            let o = s.objects[id];
            &&& u.objects.len() == s.objects.len()
            &&& u.objects[id].deleted
            &&& u.objects[id].title == o.title
            &&& u.objects[id].points == o.points
            &&& u.objects[id].owner_id == o.owner_id
            &&& forall|k: int| 0 <= k < s.objects.len() && k != id ==> #[trigger] u.objects[k] == s.objects[k]
            &&& u.object_history[id] == s.object_history[id].push(ObjectHistory {
                action: HistoryAction::Remove,
                old_owner: o.owner_id,
                new_owner: o.owner_id,
                timestamp: now,
                tx_hash: r.hash,
            })
            &&& u.owner_objects == s.owner_objects
            &&& u.results == s.results
        }),
        ({
            let u = step(s, ObjectTx::RestoreObject(q), c, now);
            let id = q.object_id as int;
            let o = s.objects[id];
            &&& u.objects.len() == s.objects.len()
            &&& !u.objects[id].deleted
            &&& u.objects[id].title == o.title
            &&& u.objects[id].points == o.points
            &&& u.objects[id].owner_id == o.owner_id
            &&& forall|k: int| 0 <= k < s.objects.len() && k != id ==> #[trigger] u.objects[k] == s.objects[k]
            &&& u.object_history[id] == s.object_history[id].push(ObjectHistory {
                action: HistoryAction::Restore,
                old_owner: o.owner_id,
                new_owner: o.owner_id,
                timestamp: now,
                tx_hash: q.hash,
            })
            &&& u.owner_objects == s.owner_objects
            &&& u.results == s.results
        }),
{
}

/// The ids reported for an owner come in increasing order, so none twice.
pub proof fn law_owned_ids_increasing(objects: Seq<ObjectView>, w: u64, a: int, b: int)
    requires
        objects.len() <= u64::MAX,
        0 <= a < b < owned_ids(objects, w).len(),
    ensures
        owned_ids(objects, w)[a] < owned_ids(objects, w)[b],
        owned_ids(objects, w)[b] < objects.len(),
    decreases objects.len(),
{
    let rest = objects.drop_last();
    lemma_owned_ids_bounded(rest, w);
    if objects.last().owner_id == w && b == owned_ids(objects, w).len() - 1 {
        assert(owned_ids(rest, w)[a] < rest.len());
    } else {
        law_owned_ids_increasing(rest, w, a, b);
    }
}

proof fn lemma_owned_ids_bounded(objects: Seq<ObjectView>, w: u64)
    requires
        objects.len() <= u64::MAX,
    ensures
        forall|k: int| 0 <= k < owned_ids(objects, w).len() ==> #[trigger] owned_ids(objects, w)[k] < objects.len(),
    decreases objects.len(),
{
    if objects.len() > 0 {
        let rest = objects.drop_last();
        lemma_owned_ids_bounded(rest, w);
        let r = owned_ids(rest, w);
        assert forall|k: int| 0 <= k < owned_ids(objects, w).len() implies #[trigger] owned_ids(objects, w)[k] < objects.len() by {
            if k < r.len() {
                assert(owned_ids(objects, w)[k] == r[k]);
            }
        }
    }
}

/// Registering a key that is not yet registered binds it to the given name
/// and records no answer; registering a key again changes no user and answers
/// `RESULT_ALREADY_REGISTERED`.
pub proof fn law_register(s: LedgerView, t: TxRegister, c: Seq<bool>, now: i64)
    ensures
        ({
            let u = step(s, ObjectTx::Register(t), c, now);
            &&& !s.users.contains_key(t.pub_key) ==> u.users == s.users.insert(t.pub_key, t.name@) && u.results == s.results
            &&& s.users.contains_key(t.pub_key) ==> u.users == s.users && u.results == s.results.insert(t.hash, TxResult::RESULT_ALREADY_REGISTERED)
            &&& u.owners == s.owners && u.objects == s.objects
            &&& u.owner_objects == s.owner_objects && u.object_history == s.object_history
        }),
{
}

/// A new object is refused with `RESULT_CREATE_WRONG_OWNER` when its owner does
/// not exist, whatever its polygon; for an existing owner, fewer than six
/// coordinates (three corners) give `RESULT_WRONG_POINTS`, whatever the
/// crossing flags. Either way only the answer changes.
pub proof fn law_create_object_refusals(s: LedgerView, t: TxCreateObject, c: Seq<bool>, now: i64)
    ensures
        t.owner_id >= s.owners.len() ==> step(s, ObjectTx::CreateObject(t), c, now) == s.answer(t.hash, TxResult::RESULT_CREATE_WRONG_OWNER),
        t.owner_id < s.owners.len() && t.points.len() < 6 ==> step(s, ObjectTx::CreateObject(t), c, now) == s.answer(t.hash, TxResult::RESULT_WRONG_POINTS),
{
}

/// A transaction naming a missing object, or a transfer to a missing owner, is
/// refused with its own answer and changes nothing else; a missing object is
/// reported before a missing owner.
pub proof fn law_object_refusals(
    s: LedgerView,
    m: TxModifyObject,
    t: TxTransferObject,
    r: TxRemoveObject,
    q: TxRestoreObject,
    c: Seq<bool>,
    now: i64,
)
    ensures
        m.object_id >= s.objects.len() ==> step(s, ObjectTx::ModifyObject(m), c, now) == s.answer(m.hash, TxResult::RESULT_MODIFY_WRONG_OBJECT),
        t.object_id >= s.objects.len() ==> step(s, ObjectTx::TransferObject(t), c, now) == s.answer(t.hash, TxResult::RESULT_TRANSFER_WRONG_OBJECT),
        t.object_id < s.objects.len() && t.owner_id >= s.owners.len() ==> step(s, ObjectTx::TransferObject(t), c, now) == s.answer(t.hash, TxResult::RESULT_TRANSFER_WRONG_OWNER),
        r.object_id >= s.objects.len() ==> step(s, ObjectTx::RemoveObject(r), c, now) == s.answer(r.hash, TxResult::RESULT_REMOVE_WRONG_OBJECT),
        q.object_id >= s.objects.len() ==> step(s, ObjectTx::RestoreObject(q), c, now) == s.answer(q.hash, TxResult::RESULT_RESTORE_WRONG_OBJECT),
{
}

} // verus!
