use vstd::prelude::*;

use crate::keys::Digest;

verus! {

/// A registered user of the ledger.
pub struct User {
    pub name: String,
}

impl View for User {
    type V = Seq<char>;

    open spec fn view(&self) -> Seq<char> {
        self.name@
    }
}

impl User {
    pub fn new(name: &str) -> (u: User)
        ensures
            u@ == name@,
    {
        User { name: name.to_owned() }
    }

    pub fn name(&self) -> (r: &str)
        ensures
            r@ == self.name@,
    {
        self.name.as_str()
    }
}

/// A person who can hold land titles.
pub struct Owner {
    pub firstname: String,
    pub lastname: String,
}

/// What the ledger knows of an owner.
pub struct OwnerView {
    pub firstname: Seq<char>,
    pub lastname: Seq<char>,
}

impl View for Owner {
    type V = OwnerView;

    open spec fn view(&self) -> OwnerView {
        OwnerView { firstname: self.firstname@, lastname: self.lastname@ }
    }
}

impl Owner {
    pub fn new(firstname: &str, lastname: &str) -> (o: Owner)
        ensures
            o@ == (OwnerView { firstname: firstname@, lastname: lastname@ }),
    {
        Owner { firstname: firstname.to_owned(), lastname: lastname.to_owned() }
    }

    pub fn firstname(&self) -> (r: &str)
        ensures
            r@ == self.firstname@,
    {
        self.firstname.as_str()
    }

    pub fn lastname(&self) -> (r: &str)
        ensures
            r@ == self.lastname@,
    {
        self.lastname.as_str()
    }
}

/// A land object: a titled polygon. Each coordinate of the polygon is held
/// as the IEEE-754 bit pattern of the `f64` it stands for, two coordinates
/// (x, then y) per corner.
pub struct Object {
    pub title: String,
    pub points: Vec<u64>,
    pub owner_id: u64,
    pub deleted: bool,
}

/// What the ledger knows of a land object.
pub struct ObjectView {
    pub title: Seq<char>,
    pub points: Seq<u64>,
    pub owner_id: u64,
    pub deleted: bool,
}

impl View for Object {
    type V = ObjectView;

    open spec fn view(&self) -> ObjectView {
        ObjectView {
            title: self.title@,
            points: self.points@,
            owner_id: self.owner_id,
            deleted: self.deleted,
        }
    }
}

impl Object {
    pub fn new(title: &str, points: &Vec<u64>, owner_id: u64, deleted: bool) -> (o: Object)
        ensures
            o@ == (ObjectView { title: title@, points: points@, owner_id, deleted }),
    {
        Object { title: title.to_owned(), points: points.clone(), owner_id, deleted }
    }

    pub fn title(&self) -> (r: &str)
        ensures
            r@ == self.title@,
    {
        self.title.as_str()
    }

    pub fn points(&self) -> (r: &Vec<u64>)
        ensures
            r@ == self.points@,
    {
        &self.points
    }

    pub fn owner_id(&self) -> (r: u64)
        ensures
            r == self.owner_id,
    {
        self.owner_id
    }

    pub fn deleted(&self) -> (r: bool)
        ensures
            r == self.deleted,
    {
        self.deleted
    }
}

/// One entry of an owner's list of ownership changes: the owner got
/// (`is_owner`) or lost (`!is_owner`) the object `object_id`.
#[derive(Clone, Copy, Debug)]
pub struct Ownership {
    pub object_id: u64,
    pub is_owner: bool,
}

impl Ownership {
    pub fn new(object_id: u64, is_owner: bool) -> (o: Ownership)
        ensures
            o == (Ownership { object_id, is_owner }),
    {
        Ownership { object_id, is_owner }
    }
}

/// The kind of change that an object's history entry records.
#[derive(Clone, Copy, Debug, PartialEq, Eq, Structural)]
pub enum HistoryAction {
    Create,
    Modify,
    Transfer,
    Remove,
    Restore,
}

/// One entry of an object's history.
#[derive(Clone, Copy, Debug)]
pub struct ObjectHistory {
    pub action: HistoryAction,
    pub old_owner: u64,
    pub new_owner: u64,
    pub timestamp: i64,
    pub tx_hash: Digest,
}

impl ObjectHistory {
    pub fn new(action: HistoryAction, old_owner: u64, new_owner: u64, timestamp: i64, tx_hash: &Digest) -> (h: ObjectHistory)
        ensures
            h == (ObjectHistory { action, old_owner, new_owner, timestamp, tx_hash: *tx_hash }),
    {
        ObjectHistory { action, old_owner, new_owner, timestamp, tx_hash: *tx_hash }
    }
}

/// The answer recorded for a transaction, by its code.
#[derive(Clone, Copy, Debug)]
pub struct TxResult {
    pub result: u8,
}

impl View for TxResult {
    type V = u8;

    open spec fn view(&self) -> u8 {
        self.result
    }
}

impl TxResult {
    pub const RESULT_OK: u8 = 0;
    pub const RESULT_ALREADY_REGISTERED: u8 = 1;
    pub const RESULT_CREATE_WRONG_OWNER: u8 = 2;
    pub const RESULT_WRONG_POINTS: u8 = 3;
    pub const RESULT_WRONG_NEIGHBOURS: u8 = 4;
    pub const RESULT_MODIFY_WRONG_OBJECT: u8 = 5;
    pub const RESULT_TRANSFER_WRONG_OWNER: u8 = 6;
    pub const RESULT_TRANSFER_WRONG_OBJECT: u8 = 7;
    pub const RESULT_REMOVE_WRONG_OBJECT: u8 = 8;
    pub const RESULT_RESTORE_WRONG_OBJECT: u8 = 9;

    pub fn new(result: u8) -> (r: TxResult)
        ensures
            r@ == result,
    {
        TxResult { result }
    }

    pub fn result(&self) -> (r: u8)
        ensures
            r == self@,
    {
        self.result
    }

    pub fn ok() -> (r: TxResult)
        ensures
            r@ == Self::RESULT_OK,
    {
        TxResult { result: Self::RESULT_OK }
    }

    pub fn register_already_registered() -> (r: TxResult)
        ensures
            r@ == Self::RESULT_ALREADY_REGISTERED,
    {
        TxResult { result: Self::RESULT_ALREADY_REGISTERED }
    }

    pub fn create_object_wrong_owner() -> (r: TxResult)
        ensures
            r@ == Self::RESULT_CREATE_WRONG_OWNER,
    {
        TxResult { result: Self::RESULT_CREATE_WRONG_OWNER }
    }

    pub fn create_object_wrong_points() -> (r: TxResult)
        ensures
            r@ == Self::RESULT_WRONG_POINTS,
    {
        TxResult { result: Self::RESULT_WRONG_POINTS }
    }

    pub fn create_object_cross_neighbours() -> (r: TxResult)
        ensures
            r@ == Self::RESULT_WRONG_NEIGHBOURS,
    {
        TxResult { result: Self::RESULT_WRONG_NEIGHBOURS }
    }

    pub fn modify_object_wrong_object() -> (r: TxResult)
        ensures
            r@ == Self::RESULT_MODIFY_WRONG_OBJECT,
    {
        TxResult { result: Self::RESULT_MODIFY_WRONG_OBJECT }
    }

    pub fn transfer_object_wrong_owner() -> (r: TxResult)
        ensures
            r@ == Self::RESULT_TRANSFER_WRONG_OWNER,
    {
        TxResult { result: Self::RESULT_TRANSFER_WRONG_OWNER }
    }

    pub fn transfer_object_wrong_object() -> (r: TxResult)
        ensures
            r@ == Self::RESULT_TRANSFER_WRONG_OBJECT,
    {
        TxResult { result: Self::RESULT_TRANSFER_WRONG_OBJECT }
    }

    pub fn remove_object_wrong_object() -> (r: TxResult)
        ensures
            r@ == Self::RESULT_REMOVE_WRONG_OBJECT,
    {
        TxResult { result: Self::RESULT_REMOVE_WRONG_OBJECT }
    }

    pub fn restore_object_wrong_object() -> (r: TxResult)
        ensures
            r@ == Self::RESULT_RESTORE_WRONG_OBJECT,
    {
        TxResult { result: Self::RESULT_RESTORE_WRONG_OBJECT }
    }
}

/// A failure of the store that holds the ledger. The in-memory store of this
/// library never fails; the type keeps the shape of a storage-backed ledger.
#[derive(Debug)]
pub struct StorageError {
    pub message: String,
}

} // verus!
