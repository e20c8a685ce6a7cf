use vstd::prelude::*;

use crate::assoc::{
    assoc_find, assoc_put, assoc_view, keys_distinct, lemma_assoc_contains, lemma_assoc_index,
};
use crate::keys::{Digest, PublicKey};
use crate::model::{
    create_object_step, create_owner_step, crosses_any, lists_with, mark_step, modify_object_step,
    lemma_owners_exist_push, lemma_owners_exist_update, owned_ids, register_step, step, transfer_object_step, LedgerView,
};
use crate::txs::{
    corner_count, timestamp, ObjectTx, TxCreateObject, TxCreateOwner, TxModifyObject, TxRegister,
    TxTransferObject,
};
use crate::types::{
    HistoryAction, Object, ObjectHistory, ObjectView, Owner, OwnerView, Ownership, StorageError, TxResult, User,
};

verus! {

pub open spec fn owner_views(s: Seq<Owner>) -> Seq<OwnerView> {
    s.map_values(|o: Owner| o@)
}

pub open spec fn object_views(s: Seq<Object>) -> Seq<ObjectView> {
    s.map_values(|o: Object| o@)
}

pub open spec fn list_views<T>(s: Seq<Vec<T>>) -> Seq<Seq<T>> {
    s.map_values(|v: Vec<T>| v@)
}

/// Appends `x` to the list at position `i`.
pub fn push_at<T>(lists: &mut Vec<Vec<T>>, i: usize, x: T)
    requires
        i < old(lists).len(),
    ensures
        final(lists).len() == old(lists).len(),
        list_views(final(lists)@) == list_views(old(lists)@).update(i as int, old(lists)@[i as int]@.push(x)),
{
    lists[i].push(x);
    assert(list_views(lists@) =~= list_views(old(lists)@).update(i as int, old(lists)@[i as int]@.push(x)));
}

/// Whether some flag is set.
pub fn any_set(flags: &Vec<bool>) -> (r: bool)
    ensures
        r == crosses_any(flags@),
        r <==> exists|i: int| 0 <= i < flags.len() && flags@[i],
{
    let mut i: usize = 0;
    while i < flags.len()
        invariant
            i <= flags.len(),
            forall|j: int| 0 <= j < i ==> !(#[trigger] flags@[j]),
        decreases flags.len() - i,
    {
        if flags[i] {
            return true;
        }
        i = i + 1;
    }
    false
}

/// The ledger of land titles, held in memory.
pub struct ObjectsBlockchain {
    users: Vec<(PublicKey, User)>,
    owners: Vec<Owner>,
    objects: Vec<Object>,
    owner_objects: Vec<Vec<Ownership>>,
    object_history: Vec<Vec<ObjectHistory>>,
    results: Vec<(Digest, TxResult)>,
}

impl View for ObjectsBlockchain {
    type V = LedgerView;

    closed spec fn view(&self) -> LedgerView {
        LedgerView {
            users: assoc_view(self.users@),
            owners: owner_views(self.owners@),
            objects: object_views(self.objects@),
            owner_objects: list_views(self.owner_objects@),
            object_history: list_views(self.object_history@),
            results: assoc_view(self.results@),
        }
    }
}

impl ObjectsBlockchain {
    /// The ledger's invariant: no key is bound twice, and the state is well formed.
    pub closed spec fn wf(&self) -> bool {
        &&& keys_distinct(self.users@)
        &&& keys_distinct(self.results@)
        &&& self@.wf()
    }

    /// A well-formed ledger's state is well formed, and its owners and
    /// objects can be numbered by `u64`.
    pub proof fn lemma_view_wf(&self)
        requires
            self.wf(),
        ensures
            self@.wf(),
            self@.owners.len() <= u64::MAX,
            self@.objects.len() <= u64::MAX,
    {
        assert(self@.owners.len() == self.owners@.len());
        assert(self@.objects.len() == self.objects@.len());
        assert(self.owners@.len() == self.owners.len());
        assert(self.objects@.len() == self.objects.len());
    }

    /// An empty ledger.
    pub fn new() -> (b: ObjectsBlockchain)
        ensures
            b.wf(),
            b@.wf(),
            b@ == LedgerView::empty(),
    {
        let b = ObjectsBlockchain {
            users: Vec::new(),
            owners: Vec::new(),
            objects: Vec::new(),
            owner_objects: Vec::new(),
            object_history: Vec::new(),
            results: Vec::new(),
        };
        assert(b@.owners =~= Seq::<OwnerView>::empty());
        assert(b@.objects =~= Seq::<ObjectView>::empty());
        assert(b@.owner_objects =~= Seq::<Seq<Ownership>>::empty());
        assert(b@.object_history =~= Seq::<Seq<ObjectHistory>>::empty());
        b
    }

    /// Records `r` as the answer to transaction `h`.
    fn put_result(&mut self, h: Digest, r: TxResult)
        requires
            old(self).wf(),
        ensures
            final(self).wf(),
            final(self)@ == old(self)@.answer(h, r@),
    {
        assoc_put(&mut self.results, h, r);
    }

    fn register(&mut self, t: &TxRegister)
        requires
            old(self).wf(),
        ensures
            final(self).wf(),
            final(self)@ == register_step(old(self)@, *t),
    {
        proof {
            lemma_assoc_contains(self.users@, t.pub_key);
        }
        match assoc_find(&self.users, &t.pub_key) {
            Some(_) => {
                self.put_result(t.hash, TxResult::register_already_registered());
            },
            None => {
                let user = User::new(t.name.as_str());
                assoc_put(&mut self.users, t.pub_key, user);
            },
        }
    }

    fn create_owner(&mut self, t: &TxCreateOwner)
        requires
            old(self).wf(),
        ensures
            final(self).wf(),
            final(self)@ == create_owner_step(old(self)@, *t),
    {
        let owner = Owner::new(t.firstname.as_str(), t.lastname.as_str());
        self.owners.push(owner);
        self.owner_objects.push(Vec::new());
        assert(owner_views(self.owners@) =~= owner_views(old(self).owners@).push(
            OwnerView { firstname: t.firstname@, lastname: t.lastname@ },
        ));
        assert(list_views(self.owner_objects@) =~= list_views(old(self).owner_objects@).push(
            Seq::empty(),
        ));
    }

    fn create_object(&mut self, t: &TxCreateObject, crossings: &Vec<bool>, now: i64)
        requires
            old(self).wf(),
        ensures
            final(self).wf(),
            final(self)@ == create_object_step(old(self)@, *t, crossings@, now),
    {
        if !(t.owner_id < self.owners.len() as u64) {
            self.put_result(t.hash, TxResult::create_object_wrong_owner());
            return;
        }
        if corner_count(&t.points) < 3 {
            self.put_result(t.hash, TxResult::create_object_wrong_points());
            return;
        }
        if any_set(crossings) {
            self.put_result(t.hash, TxResult::create_object_cross_neighbours());
            return;
        }
        let ghost s0 = self@;
        let object_id = self.objects.len() as u64;
        let owner = t.owner_id as usize;
        push_at(&mut self.owner_objects, owner, Ownership::new(object_id, true));
        let entry = ObjectHistory::new(HistoryAction::Create, t.owner_id, t.owner_id, now, &t.hash);
        let mut history: Vec<ObjectHistory> = Vec::new();
        history.push(entry);
        assert(history@ =~= seq![entry]);
        self.object_history.push(history);
        assoc_put(&mut self.results, t.hash, TxResult::ok());
        self.objects.push(Object::new(t.title.as_str(), &t.points, t.owner_id, false));
        proof {
            let new_object = ObjectView { title: t.title@, points: t.points@, owner_id: t.owner_id, deleted: false };
            assert(object_views(self.objects@) =~= s0.objects.push(new_object));
            assert(list_views(self.object_history@) =~= s0.object_history.push(seq![entry]));
            assert(self@.owner_objects == lists_with(s0.owner_objects, t.owner_id, Ownership { object_id, is_owner: true }));
            lemma_owners_exist_push(s0.objects, s0.owners.len(), s0.owners.len(), new_object);
        }
    }

    fn modify_object(&mut self, t: &TxModifyObject, now: i64)
        requires
            old(self).wf(),
        ensures
            final(self).wf(),
            final(self)@ == modify_object_step(old(self)@, *t, now),
    {
        if !(t.object_id < self.objects.len() as u64) {
            self.put_result(t.hash, TxResult::modify_object_wrong_object());
            return;
        }
        let ghost s0 = self@;
        let id = t.object_id as usize;
        let owner_id = self.objects[id].owner_id;
        let deleted = self.objects[id].deleted;
        let entry = ObjectHistory::new(HistoryAction::Modify, owner_id, owner_id, now, &t.hash);
        push_at(&mut self.object_history, id, entry);
        let object = Object::new(t.title.as_str(), &t.points, owner_id, deleted);
        self.objects.set(id, object);
        proof {
            let o = s0.objects[id as int];
            assert(object_views(self.objects@) =~= s0.objects.update(
                id as int,
                ObjectView { title: t.title@, points: t.points@, ..o },
            ));
            lemma_owners_exist_update(s0.objects, s0.owners.len(), s0.owners.len(), id as int, ObjectView { title: t.title@, points: t.points@, ..o });
        }
    }

    fn transfer_object(&mut self, t: &TxTransferObject, now: i64)
        requires
            old(self).wf(),
        ensures
            final(self).wf(),
            final(self)@ == transfer_object_step(old(self)@, *t, now),
    {
        if !(t.object_id < self.objects.len() as u64) {
            self.put_result(t.hash, TxResult::transfer_object_wrong_object());
            return;
        }
        if !(t.owner_id < self.owners.len() as u64) {
            self.put_result(t.hash, TxResult::transfer_object_wrong_owner());
            return;
        }
        let ghost s0 = self@;
        let id = t.object_id as usize;
        let old_owner = self.objects[id].owner_id;
        proof {
            assert(s0.objects[id as int].owner_id < s0.owners.len());
        }
        push_at(&mut self.owner_objects, old_owner as usize, Ownership::new(t.object_id, false));
        let ghost lost = self@.owner_objects;
        push_at(&mut self.owner_objects, t.owner_id as usize, Ownership::new(t.object_id, true));
        let entry = ObjectHistory::new(HistoryAction::Transfer, old_owner, t.owner_id, now, &t.hash);
        push_at(&mut self.object_history, id, entry);
        let object = Object::new(self.objects[id].title.as_str(), &self.objects[id].points, t.owner_id, self.objects[id].deleted);
        self.objects.set(id, object);
        proof {
            let o = s0.objects[id as int];
            assert(lost == lists_with(s0.owner_objects, o.owner_id, Ownership { object_id: t.object_id, is_owner: false }));
            assert(object_views(self.objects@) =~= s0.objects.update(id as int, ObjectView { owner_id: t.owner_id, ..o }));
            lemma_owners_exist_update(s0.objects, s0.owners.len(), s0.owners.len(), id as int, ObjectView { owner_id: t.owner_id, ..o });
        }
    }

    fn mark_object(
        &mut self,
        id: u64,
        deleted: bool,
        action: HistoryAction,
        hash: &Digest,
        wrong: TxResult,
        now: i64,
    )
        requires
            old(self).wf(),
        ensures
            final(self).wf(),
            final(self)@ == mark_step(old(self)@, id, deleted, action, *hash, wrong@, now),
    {
        if !(id < self.objects.len() as u64) {
            self.put_result(*hash, wrong);
            return;
        }
        let ghost s0 = self@;
        let i = id as usize;
        let owner_id = self.objects[i].owner_id;
        let entry = ObjectHistory::new(action, owner_id, owner_id, now, hash);
        push_at(&mut self.object_history, i, entry);
        let object = Object::new(self.objects[i].title.as_str(), &self.objects[i].points, owner_id, deleted);
        self.objects.set(i, object);
        proof {
            let o = s0.objects[i as int];
            assert(object_views(self.objects@) =~= s0.objects.update(i as int, ObjectView { deleted, ..o }));
            lemma_owners_exist_update(s0.objects, s0.owners.len(), s0.owners.len(), i as int, ObjectView { deleted, ..o });
        }
    }

    /// Executes `tx` as of time `now`. `crossings` holds, for a transaction
    /// that creates an object, one flag per stored object (in id order) that
    /// tells whether the new polygon meets that object's polygon.
    pub fn execute_at(&mut self, tx: &ObjectTx, crossings: &Vec<bool>, now: i64) -> (r: Result<(), StorageError>)
        requires
            old(self).wf(),
            tx is CreateObject ==> crossings.len() == old(self)@.objects.len(),
        ensures
            final(self).wf(),
            final(self)@.wf(),
            final(self)@ == step(old(self)@, *tx, crossings@, now),
            r is Ok,
    {
        match tx {
            ObjectTx::Register(t) => self.register(t),
            ObjectTx::CreateOwner(t) => self.create_owner(t),
            ObjectTx::CreateObject(t) => self.create_object(t, crossings, now),
            ObjectTx::ModifyObject(t) => self.modify_object(t, now),
            ObjectTx::TransferObject(t) => self.transfer_object(t, now),
            ObjectTx::RemoveObject(t) => self.mark_object(
                t.object_id,
                true,
                HistoryAction::Remove,
                &t.hash,
                TxResult::remove_object_wrong_object(),
                now,
            ),
            ObjectTx::RestoreObject(t) => self.mark_object(
                t.object_id,
                false,
                HistoryAction::Restore,
                &t.hash,
                TxResult::restore_object_wrong_object(),
                now,
            ),
        }
        Ok(())
    }

    /// Executes `tx` as of the current time.
    pub fn execute(&mut self, tx: &ObjectTx, crossings: &Vec<bool>) -> (r: Result<(), StorageError>)
        requires
            old(self).wf(),
            tx is CreateObject ==> crossings.len() == old(self)@.objects.len(),
        ensures
            final(self).wf(),
            final(self)@.wf(),
            exists|now: i64| final(self)@ == step(old(self)@, *tx, crossings@, now),
            r is Ok,
    {
        let now = timestamp();
        self.execute_at(tx, crossings, now)
    }

    /// The user registered under `key`.
    pub fn user(&self, key: &PublicKey) -> (r: Option<&User>)
        requires
            self.wf(),
        ensures
            match r {
                Some(u) => self@.users.contains_key(*key) && u@ == self@.users[*key],
                None => !self@.users.contains_key(*key),
            },
    {
        proof {
            lemma_assoc_contains(self.users@, *key);
        }
        match assoc_find(&self.users, key) {
            Some(i) => {
                proof {
                    lemma_assoc_index(self.users@, i as int);
                }
                Some(&self.users[i].1)
            },
            None => None,
        }
    }

    /// The answer recorded for transaction `hash`.
    pub fn result(&self, hash: &Digest) -> (r: Option<TxResult>)
        requires
            self.wf(),
        ensures
            match r {
                Some(v) => self@.results.contains_key(*hash) && v@ == self@.results[*hash],
                None => !self@.results.contains_key(*hash),
            },
    {
        proof {
            lemma_assoc_contains(self.results@, *hash);
        }
        match assoc_find(&self.results, hash) {
            Some(i) => {
                proof {
                    lemma_assoc_index(self.results@, i as int);
                }
                Some(self.results[i].1)
            },
            None => None,
        }
    }

    /// The owner with id `id`.
    pub fn owner(&self, id: u64) -> (r: Option<&Owner>)
        ensures
            match r {
                Some(o) => self@.has_owner(id) && o@ == self@.owners[id as int],
                None => !self@.has_owner(id),
            },
    {
        if id < self.owners.len() as u64 {
            Some(&self.owners[id as usize])
        } else {
            None
        }
    }

    /// The object with id `id`.
    pub fn object(&self, id: u64) -> (r: Option<&Object>)
        ensures
            match r {
                Some(o) => self@.has_object(id) && o@ == self@.objects[id as int],
                None => !self@.has_object(id),
            },
    {
        if id < self.objects.len() as u64 {
            Some(&self.objects[id as usize])
        } else {
            None
        }
    }

    /// The number of owners.
    pub fn owners_len(&self) -> (n: u64)
        ensures
            n == self@.owners.len(),
    {
        self.owners.len() as u64
    }

    /// The number of objects.
    pub fn objects_len(&self) -> (n: u64)
        ensures
            n == self@.objects.len(),
    {
        self.objects.len() as u64
    }

    /// The history of object `id`, oldest first; empty for a missing object.
    pub fn object_history(&self, id: u64) -> (h: &[ObjectHistory])
        requires
            self.wf(),
        ensures
            h@ == (if self@.has_object(id) { self@.object_history[id as int] } else { Seq::empty() }),
    {
        if id < self.object_history.len() as u64 {
            self.object_history[id as usize].as_slice()
        } else {
            &[]
        }
    }

    /// The ownership changes of owner `id`, oldest first; empty for a missing owner.
    pub fn owner_objects(&self, id: u64) -> (l: &[Ownership])
        requires
            self.wf(),
        ensures
            l@ == (if self@.has_owner(id) { self@.owner_objects[id as int] } else { Seq::empty() }),
    {
        if id < self.owner_objects.len() as u64 {
            self.owner_objects[id as usize].as_slice()
        } else {
            &[]
        }
    }

    /// The ids of the objects that `owner_id` currently owns, in id order.
    pub fn find_objects_for_owner(&self, owner_id: u64) -> (ids: Vec<u64>)
        ensures
            ids@ == owned_ids(self@.objects, owner_id),
    {
        let ghost objs = self@.objects;
        let mut ids: Vec<u64> = Vec::new();
        let mut i: usize = 0;
        while i < self.objects.len()
            invariant
                i <= self.objects.len(),
                objs == self@.objects,
                objs.len() == self.objects.len(),
                ids@ == owned_ids(objs.take(i as int), owner_id),
            decreases self.objects.len() - i,
        {
            assert(objs.take(i + 1).drop_last() =~= objs.take(i as int));
            assert(objs[i as int].owner_id == self.objects[i as int].owner_id);
            if self.objects[i].owner_id == owner_id {
                ids.push(i as u64);
            }
            i = i + 1;
        }
        assert(objs.take(objs.len() as int) =~= objs);
        ids
    }
}

} // verus!
