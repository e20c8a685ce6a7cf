use geo::{Intersects, LineString, Polygon};
use land_title::keys::{Digest, PublicKey};
use land_title::ledger::ObjectsBlockchain;
use land_title::txs::{
    timestamp, ObjectTx, TxCreateObject, TxCreateOwner, TxModifyObject, TxRegister,
    TxRemoveObject, TxRestoreObject, TxTransferObject,
};
use land_title::types::{HistoryAction, StorageError, TxResult};

fn bits(coords: &[f64]) -> Vec<u64> {
    coords.iter().map(|c| c.to_bits()).collect()
}

fn polygon(points: &[u64]) -> Polygon<f64> {
    let corners: Vec<(f64, f64)> = points
        .chunks(2)
        .filter(|c| c.len() == 2)
        .map(|c| (f64::from_bits(c[0]), f64::from_bits(c[1])))
        .collect();
    Polygon::new(LineString::from(corners), vec![])
}

/// For each stored object, whether its polygon meets the polygon of `points`.
fn crossings(b: &ObjectsBlockchain, points: &[u64]) -> Vec<bool> {
    let new_polygon = polygon(points);
    (0..b.objects_len())
        .map(|i| new_polygon.intersects(&polygon(b.object(i).unwrap().points())))
        .collect()
}

fn execute_tx(b: &mut ObjectsBlockchain, tx: ObjectTx) -> Result<(), StorageError> {
    let flags = match &tx {
        ObjectTx::CreateObject(t) => crossings(b, &t.points),
        _ => Vec::new(),
    };
    b.execute(&tx, &flags)
}

fn key(n: u8) -> PublicKey {
    PublicKey::new([n; 32])
}

fn digest(n: u8) -> Digest {
    Digest::new([n; 32])
}

fn result_of(b: &ObjectsBlockchain, h: &Digest) -> u8 {
    b.result(h).unwrap().result()
}

#[test]
fn register() {
    let mut b = ObjectsBlockchain::new();
    let p = key(1);
    let tx_register = TxRegister::new(&p, "test user", &digest(10));

    let ok_result = execute_tx(&mut b, ObjectTx::Register(tx_register.clone()));
    let stored_user_name = b.user(&p).unwrap().name().to_string();
    let err_result = execute_tx(&mut b, ObjectTx::Register(tx_register.clone()));

    assert_eq!(ok_result.is_ok(), true);
    assert_eq!(err_result.is_ok(), true);
    let r = b.result(&tx_register.hash).unwrap();
    assert_eq!(r.result(), TxResult::RESULT_ALREADY_REGISTERED);
    assert_eq!(stored_user_name, "test user");
}

#[test]
fn test_add_owner() {
    let mut b = ObjectsBlockchain::new();
    let p = key(1);
    let owner_id = 0_u64;
    let tx_create_owner = TxCreateOwner::new(&p, "firstname", "lastname", &digest(10));

    let ok_result = execute_tx(&mut b, ObjectTx::CreateOwner(tx_create_owner.clone()));
    let stored_owner = b.owner(owner_id).unwrap();

    assert_eq!(ok_result.is_ok(), true);
    assert_eq!(stored_owner.firstname(), "firstname");
    assert_eq!(stored_owner.lastname(), "lastname");
}

#[test]
fn test_add_object_to_wrong_owner_fails() {
    let mut b = ObjectsBlockchain::new();
    let p = key(1);
    let wrong_owner_id = 0_u64;
    let points = bits(&[1.0, 2.0, 3.0, 4.0]);
    let tx_create_object = TxCreateObject::new(&p, "test object title", &points, wrong_owner_id, &digest(11));

    let create_object_result = execute_tx(&mut b, ObjectTx::CreateObject(tx_create_object.clone()));

    assert_eq!(create_object_result.is_ok(), true);
    assert_eq!(b.objects_len(), 0);
    let r = b.result(&tx_create_object.hash).unwrap();
    assert_eq!(r.result(), TxResult::RESULT_CREATE_WRONG_OWNER);
}

#[test]
fn test_add_object_with_2_points_fails() {
    let mut b = ObjectsBlockchain::new();
    let p = key(1);
    let owner_id = 0_u64;
    let tx_create_owner = TxCreateOwner::new(&p, "firstname", "lastname", &digest(10));
    let create_owner_result = execute_tx(&mut b, ObjectTx::CreateOwner(tx_create_owner.clone()));

    let points = bits(&[1.0, 2.0, 3.0, 4.0]);
    let tx_create_object = TxCreateObject::new(&p, "test object title", &points, owner_id, &digest(11));

    let create_object_result = execute_tx(&mut b, ObjectTx::CreateObject(tx_create_object.clone()));

    assert_eq!(create_owner_result.is_ok(), true);
    assert_eq!(create_object_result.is_ok(), true);
    let r = b.result(&tx_create_object.hash).unwrap();
    assert_eq!(r.result(), TxResult::RESULT_WRONG_POINTS);
}

fn second_object_answer(points1: &[f64], points2: &[f64]) -> (bool, bool, bool, u8) {
    let mut b = ObjectsBlockchain::new();
    let p = key(1);
    let owner_id = 0_u64;
    let tx_create_owner = TxCreateOwner::new(&p, "firstname", "lastname", &digest(10));
    let create_owner_result = execute_tx(&mut b, ObjectTx::CreateOwner(tx_create_owner.clone()));

    let tx_create_object1 = TxCreateObject::new(&p, "test object title1", &bits(points1), owner_id, &digest(11));
    let tx_create_object2 = TxCreateObject::new(&p, "test object title2", &bits(points2), owner_id, &digest(12));

    let create_object_result1 = execute_tx(&mut b, ObjectTx::CreateObject(tx_create_object1.clone()));
    let create_object_result2 = execute_tx(&mut b, ObjectTx::CreateObject(tx_create_object2.clone()));
    (
        create_owner_result.is_ok(),
        create_object_result1.is_ok(),
        create_object_result2.is_ok(),
        result_of(&b, &tx_create_object2.hash),
    )
}

#[test]
fn test_add_object_crossing_another_fails() {
    let (owner_ok, ok1, ok2, r) = second_object_answer(
        &[0.0, 0.0, 2.0, 0.0, 2.0, 2.0, 0.0, 2.0],
        &[1.0, 1.0, 3.0, 1.0, 3.0, 3.0, 0.0, 3.0],
    );
    assert_eq!(owner_ok, true);
    assert_eq!(ok1, true);
    assert_eq!(ok2, true);
    assert_eq!(r, TxResult::RESULT_WRONG_NEIGHBOURS);
}

#[test]
fn test_add_object_the_same_to_another_fails() {
    let (owner_ok, ok1, ok2, r) = second_object_answer(
        &[0.0, 0.0, 2.0, 0.0, 2.0, 2.0, 0.0, 2.0],
        &[0.0, 0.0, 2.0, 0.0, 2.0, 2.0, 0.0, 2.0],
    );
    assert_eq!(owner_ok, true);
    assert_eq!(ok1, true);
    assert_eq!(ok2, true);
    assert_eq!(r, TxResult::RESULT_WRONG_NEIGHBOURS);
}

#[test]
fn test_add_object_inside_another_fails() {
    let (owner_ok, ok1, ok2, r) = second_object_answer(
        &[0.0, 0.0, 2.0, 0.0, 2.0, 2.0, 0.0, 2.0],
        &[0.5, 0.5, 1.5, 0.5, 1.5, 1.5, 0.5, 1.5],
    );
    assert_eq!(owner_ok, true);
    assert_eq!(ok1, true);
    assert_eq!(ok2, true);
    assert_eq!(r, TxResult::RESULT_WRONG_NEIGHBOURS);
}

#[test]
fn test_add_object() {
    let mut b = ObjectsBlockchain::new();
    let p = key(1);
    let owner_id = 0_u64;
    let tx_create_owner = TxCreateOwner::new(&p, "firstname", "lastname", &digest(10));

    let object_id1 = 0_u64;
    let points1 = bits(&[1.0, 1.0, 3.0, 1.0, 3.0, 4.0]);
    let tx_create_object1 = TxCreateObject::new(&p, "test object title1", &points1, owner_id, &digest(11));

    let object_id2 = 1_u64;
    let points2 = bits(&[4.0, 2.0, 5.0, 2.0, 5.0, 4.0]);
    let tx_create_object2 = TxCreateObject::new(&p, "test object title2", &points2, owner_id, &digest(12));

    let create_owner_result = execute_tx(&mut b, ObjectTx::CreateOwner(tx_create_owner.clone()));
    let create_object_result1 = execute_tx(&mut b, ObjectTx::CreateObject(tx_create_object1.clone()));
    let create_object_result2 = execute_tx(&mut b, ObjectTx::CreateObject(tx_create_object2.clone()));

    assert_eq!(create_owner_result.is_ok(), true);
    assert_eq!(create_object_result1.is_ok(), true);
    assert_eq!(create_object_result2.is_ok(), true);

    let stored_object1 = b.object(object_id1).unwrap();
    let stored_object2 = b.object(object_id2).unwrap();
    let history1 = b.object_history(object_id1);
    let history2 = b.object_history(object_id2);
    let ownership = b.owner_objects(owner_id);
    let objects_for_owner = b.find_objects_for_owner(owner_id);

    assert_eq!(stored_object1.title(), "test object title1");
    assert_eq!(stored_object1.owner_id(), owner_id);
    assert_eq!(stored_object1.points(), &bits(&[1.0, 1.0, 3.0, 1.0, 3.0, 4.0]));
    assert_eq!(stored_object1.deleted(), false);
    assert_eq!(history1.len(), 1);
    assert_eq!(history1[0].action, HistoryAction::Create);
    assert_eq!(history1[0].tx_hash.bytes, tx_create_object1.hash.bytes);

    assert_eq!(stored_object2.title(), "test object title2");
    assert_eq!(stored_object2.owner_id(), owner_id);
    assert_eq!(stored_object2.points(), &bits(&[4.0, 2.0, 5.0, 2.0, 5.0, 4.0]));
    assert_eq!(stored_object2.deleted(), false);
    assert_eq!(history2.len(), 1);
    assert_eq!(history2[0].tx_hash.bytes, tx_create_object2.hash.bytes);

    assert_eq!(ownership.len(), 2);
    assert_eq!((ownership[0].object_id, ownership[0].is_owner), (object_id1, true));
    assert_eq!((ownership[1].object_id, ownership[1].is_owner), (object_id2, true));
    assert_eq!(objects_for_owner.len(), 2);
    assert_eq!(result_of(&b, &tx_create_object1.hash), TxResult::RESULT_OK);
}

#[test]
fn test_tx_modify_object() {
    let mut b = ObjectsBlockchain::new();
    let p = key(1);
    let tx_create_owner = TxCreateOwner::new(&p, "firstname", "lastname", &digest(10));
    let owner_id = 0_u64;
    let object_id = 0_u64;
    let wrong_object_id = 1_u64;
    let points = bits(&[1.0, 2.0, 3.0, 4.0, 5.0, 6.0]);
    let tx_create_object = TxCreateObject::new(&p, "test object title", &points, owner_id, &digest(11));
    execute_tx(&mut b, ObjectTx::CreateOwner(tx_create_owner.clone())).unwrap();
    execute_tx(&mut b, ObjectTx::CreateObject(tx_create_object.clone())).unwrap();
    let modified_title = "modified object title";
    let modified_points = bits(&[5.0, 6.0, 7.0, 8.0]);
    let created_at = timestamp();
    let test_tx_modify_object = TxModifyObject::new(&p, object_id, modified_title, &modified_points, created_at, &digest(12));
    let failed_tx_modify_object = TxModifyObject::new(&p, wrong_object_id, modified_title, &modified_points, created_at, &digest(13));

    let ok_modification_result = execute_tx(&mut b, ObjectTx::ModifyObject(test_tx_modify_object.clone()));
    let err_modification_result = execute_tx(&mut b, ObjectTx::ModifyObject(failed_tx_modify_object.clone()));
    let modified_object = b.object(object_id).unwrap();
    let history = b.object_history(object_id);

    assert_eq!(ok_modification_result.is_ok(), true);

    assert_eq!(err_modification_result.is_ok(), true);
    let r = b.result(&failed_tx_modify_object.hash).unwrap();
    assert_eq!(r.result(), TxResult::RESULT_MODIFY_WRONG_OBJECT);

    assert_eq!(modified_object.title(), "modified object title");
    assert_eq!(modified_object.owner_id(), owner_id);
    assert_eq!(modified_object.points(), &bits(&[5.0, 6.0, 7.0, 8.0]));
    assert_eq!(modified_object.deleted(), false);
    assert_eq!(history.len(), 2);
    assert_eq!(history[1].action, HistoryAction::Modify);
    assert_eq!(history[1].tx_hash.bytes, test_tx_modify_object.hash.bytes);
}

#[test]
fn test_tx_transfer_object() {
    let mut b = ObjectsBlockchain::new();
    let p = key(1);
    let p2 = key(2);

    let owner_id1 = 0_u64;
    let owner_id2 = 1_u64;
    let tx_create_owner = TxCreateOwner::new(&p, "firstname1", "lastname1", &digest(10));
    let tx_create_owner2 = TxCreateOwner::new(&p2, "firstname2", "lastname2", &digest(11));
    let object_id = 0_u64;
    let wrong_object_id = 1_u64;
    let points = bits(&[1.0, 2.0, 3.0, 4.0, 5.0, 6.0]);
    let tx_create_object = TxCreateObject::new(&p, "test object title", &points, owner_id1, &digest(12));
    let create_owner_result1 = execute_tx(&mut b, ObjectTx::CreateOwner(tx_create_owner.clone()));
    let create_owner_result2 = execute_tx(&mut b, ObjectTx::CreateOwner(tx_create_owner2.clone()));
    let create_object_result = execute_tx(&mut b, ObjectTx::CreateObject(tx_create_object.clone()));
    let created_at = timestamp();
    let success_tx_transfer_object = TxTransferObject::new(&p, object_id, owner_id2, created_at, &digest(13));
    let failed_tx_transfer_object = TxTransferObject::new(&p, wrong_object_id, owner_id2, created_at, &digest(14));

    let success_transfer_tx = ObjectTx::TransferObject(success_tx_transfer_object.clone());
    let failed_transfer_tx = ObjectTx::TransferObject(failed_tx_transfer_object.clone());
    let ok_transfer_result = execute_tx(&mut b, success_transfer_tx.clone());
    let err_transfer_result = execute_tx(&mut b, failed_transfer_tx.clone());

    let modified_object = b.object(object_id).unwrap();
    let history = b.object_history(object_id);
    let ownership = b.owner_objects(owner_id1);
    let ownership2 = b.owner_objects(owner_id2);

    assert_eq!(create_owner_result1.is_ok(), true);
    assert_eq!(create_owner_result2.is_ok(), true);
    assert_eq!(create_object_result.is_ok(), true);

    assert_eq!(ok_transfer_result.is_ok(), true);
    assert_eq!(err_transfer_result.is_ok(), true);
    let r = b.result(&failed_transfer_tx.hash()).unwrap();
    assert_eq!(r.result(), TxResult::RESULT_TRANSFER_WRONG_OBJECT);

    assert_eq!(modified_object.owner_id(), owner_id2);
    assert_eq!(history.len(), 2);
    assert_eq!((history[1].action, history[1].old_owner, history[1].new_owner), (HistoryAction::Transfer, owner_id1, owner_id2));
    assert_eq!(ownership.len(), 2);
    assert_eq!((ownership[1].object_id, ownership[1].is_owner), (object_id, false));
    assert_eq!(ownership2.len(), 1);
    assert_eq!((ownership2[0].object_id, ownership2[0].is_owner), (object_id, true));
}

#[test]
fn test_tx_remove_object() {
    let mut b = ObjectsBlockchain::new();
    let owner_id = 0_u64;
    let p = key(1);
    let tx_create_owner = TxCreateOwner::new(&p, "firstname", "lastname", &digest(10));
    let object_id = 0_u64;
    let wrong_object_id = 1_u64;
    let points = bits(&[1.0, 2.0, 3.0, 4.0, 5.0, 6.0]);
    let tx_create_object = TxCreateObject::new(&p, "test object title", &points, owner_id, &digest(11));
    execute_tx(&mut b, ObjectTx::CreateOwner(tx_create_owner.clone())).unwrap();
    execute_tx(&mut b, ObjectTx::CreateObject(tx_create_object.clone())).unwrap();
    let created_at = timestamp();
    let test_tx_remove_object = TxRemoveObject::new(&p, object_id, created_at, &digest(12));
    let failed_tx_remove_object = TxRemoveObject::new(&p, wrong_object_id, created_at, &digest(13));

    let ok_remove_result = execute_tx(&mut b, ObjectTx::RemoveObject(test_tx_remove_object.clone()));
    let err_remove_result = execute_tx(&mut b, ObjectTx::RemoveObject(failed_tx_remove_object.clone()));
    let removed_object = b.object(object_id).unwrap();
    let history = b.object_history(object_id);

    assert_eq!(ok_remove_result.is_ok(), true);

    assert_eq!(err_remove_result.is_ok(), true);
    let r = b.result(&failed_tx_remove_object.hash).unwrap();
    assert_eq!(r.result(), TxResult::RESULT_REMOVE_WRONG_OBJECT);

    assert_eq!(removed_object.title(), "test object title");
    assert_eq!(removed_object.owner_id(), owner_id);
    assert_eq!(removed_object.points(), &bits(&[1.0, 2.0, 3.0, 4.0, 5.0, 6.0]));
    assert_eq!(removed_object.deleted(), true);
    assert_eq!(history.len(), 2);
    assert_eq!(history[1].action, HistoryAction::Remove);
}
