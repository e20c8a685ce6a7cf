use vstd::prelude::*;

use time::ext::SystemTimeExt;

use crate::keys::{Digest, PublicKey};

verus! {

/// Asks to register a user under the signer's public key.
#[derive(Clone)]
pub struct TxRegister {
    pub pub_key: PublicKey,
    pub name: String,
    pub hash: Digest,
}

/// Asks to create a new owner of land titles.
#[derive(Clone)]
pub struct TxCreateOwner {
    pub pub_key: PublicKey,
    pub firstname: String,
    pub lastname: String,
    pub hash: Digest,
}

/// Asks to create a land object owned by `owner_id`. `points` holds the
/// bit patterns of the polygon's coordinates, x then y for each corner.
#[derive(Clone)]
pub struct TxCreateObject {
    pub pub_key: PublicKey,
    pub title: String,
    pub points: Vec<u64>,
    pub owner_id: u64,
    pub hash: Digest,
}

/// Asks to change the title and the polygon of an object.
#[derive(Clone)]
pub struct TxModifyObject {
    pub pub_key: PublicKey,
    pub object_id: u64,
    pub title: String,
    pub points: Vec<u64>,
    pub created_at: i64,
    pub hash: Digest,
}

/// Asks to give an object to another owner.
#[derive(Clone, Copy)]
pub struct TxTransferObject {
    pub pub_key: PublicKey,
    pub object_id: u64,
    pub owner_id: u64,
    pub created_at: i64,
    pub hash: Digest,
}

/// Asks to mark an object as removed.
#[derive(Clone, Copy)]
pub struct TxRemoveObject {
    pub pub_key: PublicKey,
    pub object_id: u64,
    pub created_at: i64,
    pub hash: Digest,
}

/// Asks to clear the removed mark of an object.
#[derive(Clone, Copy)]
pub struct TxRestoreObject {
    pub pub_key: PublicKey,
    pub object_id: u64,
    pub created_at: i64,
    pub hash: Digest,
}

/// Every transaction that the ledger executes.
#[derive(Clone)]
pub enum ObjectTx {
    Register(TxRegister),
    CreateOwner(TxCreateOwner),
    CreateObject(TxCreateObject),
    ModifyObject(TxModifyObject),
    TransferObject(TxTransferObject),
    RemoveObject(TxRemoveObject),
    RestoreObject(TxRestoreObject),
}

/// The hash that identifies a transaction.
pub open spec fn tx_hash(tx: ObjectTx) -> Digest {
    match tx {
        ObjectTx::Register(t) => t.hash,
        ObjectTx::CreateOwner(t) => t.hash,
        ObjectTx::CreateObject(t) => t.hash,
        ObjectTx::ModifyObject(t) => t.hash,
        ObjectTx::TransferObject(t) => t.hash,
        ObjectTx::RemoveObject(t) => t.hash,
        ObjectTx::RestoreObject(t) => t.hash,
    }
}

/// The key that signed a transaction.
pub open spec fn tx_pub_key(tx: ObjectTx) -> PublicKey {
    match tx {
        ObjectTx::Register(t) => t.pub_key,
        ObjectTx::CreateOwner(t) => t.pub_key,
        ObjectTx::CreateObject(t) => t.pub_key,
        ObjectTx::ModifyObject(t) => t.pub_key,
        ObjectTx::TransferObject(t) => t.pub_key,
        ObjectTx::RemoveObject(t) => t.pub_key,
        ObjectTx::RestoreObject(t) => t.pub_key,
    }
}

impl ObjectTx {
    pub fn hash(&self) -> (h: Digest)
        ensures
            h == tx_hash(*self),
    {
        match self {
            ObjectTx::Register(t) => t.hash,
            ObjectTx::CreateOwner(t) => t.hash,
            ObjectTx::CreateObject(t) => t.hash,
            ObjectTx::ModifyObject(t) => t.hash,
            ObjectTx::TransferObject(t) => t.hash,
            ObjectTx::RemoveObject(t) => t.hash,
            ObjectTx::RestoreObject(t) => t.hash,
        }
    }

    pub fn pub_key(&self) -> (k: PublicKey)
        ensures
            k == tx_pub_key(*self),
    {
        match self {
            ObjectTx::Register(t) => t.pub_key,
            ObjectTx::CreateOwner(t) => t.pub_key,
            ObjectTx::CreateObject(t) => t.pub_key,
            ObjectTx::ModifyObject(t) => t.pub_key,
            ObjectTx::TransferObject(t) => t.pub_key,
            ObjectTx::RemoveObject(t) => t.pub_key,
            ObjectTx::RestoreObject(t) => t.pub_key,
        }
    }
}

impl TxRegister {
    pub fn new(pub_key: &PublicKey, name: &str, hash: &Digest) -> (t: TxRegister)
        ensures
            t.pub_key == *pub_key,
            t.name@ == name@,
            t.hash == *hash,
    {
        TxRegister { pub_key: *pub_key, name: name.to_owned(), hash: *hash }
    }
}

impl TxCreateOwner {
    pub fn new(pub_key: &PublicKey, firstname: &str, lastname: &str, hash: &Digest) -> (t: TxCreateOwner)
        ensures
            t.pub_key == *pub_key,
            t.firstname@ == firstname@,
            t.lastname@ == lastname@,
            t.hash == *hash,
    {
        TxCreateOwner {
            pub_key: *pub_key,
            firstname: firstname.to_owned(),
            lastname: lastname.to_owned(),
            hash: *hash,
        }
    }
}

impl TxCreateObject {
    pub fn new(pub_key: &PublicKey, title: &str, points: &Vec<u64>, owner_id: u64, hash: &Digest) -> (t: TxCreateObject)
        ensures
            t.pub_key == *pub_key,
            t.title@ == title@,
            t.points@ == points@,
            t.owner_id == owner_id,
            t.hash == *hash,
    {
        TxCreateObject {
            pub_key: *pub_key,
            title: title.to_owned(),
            points: points.clone(),
            owner_id,
            hash: *hash,
        }
    }
}

impl TxModifyObject {
    pub fn new(
        pub_key: &PublicKey,
        object_id: u64,
        title: &str,
        points: &Vec<u64>,
        created_at: i64,
        hash: &Digest,
    ) -> (t: TxModifyObject)
        ensures
            t.pub_key == *pub_key,
            t.object_id == object_id,
            t.title@ == title@,
            t.points@ == points@,
            t.created_at == created_at,
            t.hash == *hash,
    {
        TxModifyObject {
            pub_key: *pub_key,
            object_id,
            title: title.to_owned(),
            points: points.clone(),
            created_at,
            hash: *hash,
        }
    }
}

impl TxTransferObject {
    pub fn new(pub_key: &PublicKey, object_id: u64, owner_id: u64, created_at: i64, hash: &Digest) -> (t: TxTransferObject)
        ensures
            t == (TxTransferObject { pub_key: *pub_key, object_id, owner_id, created_at, hash: *hash }),
    {
        TxTransferObject { pub_key: *pub_key, object_id, owner_id, created_at, hash: *hash }
    }
}

impl TxRemoveObject {
    pub fn new(pub_key: &PublicKey, object_id: u64, created_at: i64, hash: &Digest) -> (t: TxRemoveObject)
        ensures
            t == (TxRemoveObject { pub_key: *pub_key, object_id, created_at, hash: *hash }),
    {
        TxRemoveObject { pub_key: *pub_key, object_id, created_at, hash: *hash }
    }
}

impl TxRestoreObject {
    pub fn new(pub_key: &PublicKey, object_id: u64, created_at: i64, hash: &Digest) -> (t: TxRestoreObject)
        ensures
            t == (TxRestoreObject { pub_key: *pub_key, object_id, created_at, hash: *hash }),
    {
        TxRestoreObject { pub_key: *pub_key, object_id, created_at, hash: *hash }
    }
}

/// The number of corners that a flat list of coordinates describes: each
/// corner takes two coordinates, and a trailing lone coordinate is no corner.
pub open spec fn spec_corner_count(n_coords: nat) -> nat {
    n_coords / 2
}

pub fn corner_count(points: &Vec<u64>) -> (n: usize)
    ensures
        n == spec_corner_count(points.len() as nat),
{
    points.len() / 2
}

/// The current time, in whole seconds since the Unix epoch (negative before
/// it), from the `time` crate's `SystemTimeExt::signed_duration_since` on
/// `SystemTime::now()`, read with `SignedDuration::whole_seconds`. That call
/// saturates instead of failing, so every clock reading yields a value; a
/// reading beyond the range of `i64` seconds comes out as the nearest bound.
/// It reads the clock, so nothing is promised of the value.
#[verifier::external_body]
pub fn timestamp() -> (t: i64) {
    std::time::SystemTime::now().signed_duration_since(std::time::SystemTime::UNIX_EPOCH).whole_seconds()
}

} // verus!
