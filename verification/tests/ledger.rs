use expent::enums::{TransactionDirection, TransactionSource, TransactionStatus};
use expent::errors::ServiceError;
use expent::ledger::{
    plan_create_transaction, plan_delete_transaction, plan_revert_transaction, plan_update_transaction, PartyChange,
    TransactionPatch,
};
use expent::money::Amount;
use expent::records::{TransactionRecord, WalletDelta};
use expent::time::Timestamp;

fn at(secs: i64) -> Timestamp {
    Timestamp { secs, nanos: 0, offset_secs: 0 }
}

fn txn(status: TransactionStatus, src: Option<&str>, dst: Option<&str>) -> TransactionRecord {
    TransactionRecord {
        id: "t1".to_string(),
        user_id: "u1".to_string(),
        amount: Amount::new(2500, 2),
        direction: TransactionDirection::Out,
        date: at(1_700_000_000),
        source: TransactionSource::Manual,
        status,
        purpose_tag: Some("Lunch".to_string()),
        category_id: None,
        group_id: None,
        source_wallet_id: src.map(|s| s.to_string()),
        destination_wallet_id: dst.map(|s| s.to_string()),
        ledger_tab_id: None,
        deleted_at: None,
        notes: None,
    }
}

fn empty_patch() -> TransactionPatch {
    TransactionPatch {
        amount: None,
        date: None,
        purpose_tag: None,
        category_id: None,
        status: None,
        notes: None,
        source_wallet_id: None,
        destination_wallet_id: None,
        contact_id: None,
    }
}

fn moves(ds: &[WalletDelta]) -> Vec<(String, i128, u32)> {
    ds.iter().map(|d| (d.wallet_id.clone(), d.delta.mantissa, d.delta.scale)).collect()
}

fn net(ds: &[WalletDelta], wallet: &str) -> i128 {
    // all amounts in these tests share scale 2
    ds.iter().filter(|d| d.wallet_id == wallet).map(|d| d.delta.mantissa).sum()
}

#[test]
fn recording_moves_money_between_wallets() {
    let p = plan_create_transaction(
        "u1",
        Amount::new(2500, 2),
        TransactionDirection::Out,
        at(1_700_000_000),
        TransactionSource::Manual,
        Some("Lunch".to_string()),
        None,
        Some("cash".to_string()),
        Some("bank".to_string()),
        Some("c9".to_string()),
        None,
    );
    assert_eq!(p.txn.status, TransactionStatus::Completed);
    assert_eq!(p.txn.user_id, "u1");
    assert_eq!(moves(&p.deltas), vec![("cash".to_string(), -2500, 2), ("bank".to_string(), 2500, 2)]);
    let party = p.party.unwrap();
    assert_eq!(party.transaction_id, p.txn.id);
    assert_eq!(party.contact_id, Some("c9".to_string()));
    assert_eq!(party.role, "COUNTERPARTY");
    assert_eq!(p.txn.id.len(), 36);
}

#[test]
fn recording_without_wallets_moves_nothing() {
    let p = plan_create_transaction(
        "u1",
        Amount::from_i32(5),
        TransactionDirection::In,
        at(0),
        TransactionSource::Manual,
        None,
        None,
        None,
        None,
        None,
        None,
    );
    assert!(p.deltas.is_empty());
    assert!(p.party.is_none());
}

#[test]
fn transfer_changes_sum_to_zero() {
    let p = plan_create_transaction(
        "u1",
        Amount::new(999, 2),
        TransactionDirection::Out,
        at(0),
        TransactionSource::Manual,
        None,
        None,
        Some("a".to_string()),
        Some("b".to_string()),
        None,
        None,
    );
    assert_eq!(p.deltas.iter().map(|d| d.delta.mantissa).sum::<i128>(), 0);
}

#[test]
fn delete_then_restore_keeps_balances() {
    let t = txn(TransactionStatus::Completed, Some("cash"), None);
    let d = plan_delete_transaction(Some(t), "u1", at(1_800_000_000)).ok().unwrap();
    assert_eq!(d.txn.deleted_at, Some(at(1_800_000_000)));
    assert_eq!(moves(&d.deltas), vec![("cash".to_string(), 2500, 2)]);
    let r = plan_revert_transaction(Some(d.txn), "u1").ok().unwrap();
    assert_eq!(r.txn.deleted_at, None);
    assert_eq!(net(&d.deltas, "cash") + net(&r.deltas, "cash"), 0);
}

#[test]
fn deleting_a_cancelled_transaction_moves_nothing() {
    let t = txn(TransactionStatus::Cancelled, Some("cash"), Some("bank"));
    let d = plan_delete_transaction(Some(t), "u1", at(1)).ok().unwrap();
    assert!(d.deltas.is_empty());
}

#[test]
fn operations_refuse_missing_and_foreign_transactions() {
    assert!(matches!(plan_delete_transaction(None, "u1", at(1)), Err(ServiceError::TransactionNotFound)));
    let t = txn(TransactionStatus::Completed, None, None);
    assert!(matches!(plan_delete_transaction(Some(t), "u2", at(1)), Err(ServiceError::Unauthorized)));
    assert!(matches!(plan_revert_transaction(None, "u1"), Err(ServiceError::TransactionNotFound)));
    let t = txn(TransactionStatus::Completed, None, None);
    assert!(matches!(plan_revert_transaction(Some(t), "x"), Err(ServiceError::Unauthorized)));
    assert!(matches!(plan_update_transaction(None, "u1", empty_patch(), at(1_900_000_000)), Err(ServiceError::TransactionNotFound)));
    let t = txn(TransactionStatus::Completed, None, None);
    assert!(matches!(plan_update_transaction(Some(t), "u9", empty_patch(), at(1_900_000_000)), Err(ServiceError::Unauthorized)));
}

#[test]
fn empty_edit_changes_nothing() {
    let t = txn(TransactionStatus::Completed, Some("cash"), Some("bank"));
    let p = plan_update_transaction(Some(t), "u1", empty_patch(), at(1_900_000_000)).ok().unwrap();
    assert!(p.edit.is_none());
    assert!(matches!(p.party, PartyChange::Keep));
    assert_eq!(p.txn.amount, Amount::new(2500, 2));
    assert_eq!(net(&p.deltas, "cash"), 0);
    assert_eq!(net(&p.deltas, "bank"), 0);
}

#[test]
fn edit_moves_balances_by_the_difference() {
    let t = txn(TransactionStatus::Completed, Some("cash"), None);
    let mut patch = empty_patch();
    patch.amount = Some(Amount::new(4000, 2));
    patch.source_wallet_id = Some("card".to_string());
    patch.contact_id = Some("c1".to_string());
    let p = plan_update_transaction(Some(t), "u1", patch, at(1_900_000_000)).ok().unwrap();
    assert_eq!(net(&p.deltas, "cash"), 2500);
    assert_eq!(net(&p.deltas, "card"), -4000);
    let e = p.edit.unwrap();
    assert_eq!(e.old_amount, Amount::new(2500, 2));
    assert_eq!(e.new_amount, Amount::new(4000, 2));
    assert_eq!(e.transaction_id, "t1");
    assert_eq!(e.edited_at, at(1_900_000_000));
    match p.party {
        PartyChange::Replace(q) => {
            assert_eq!(q.contact_id, Some("c1".to_string()));
            assert_eq!(q.transaction_id, "t1");
        },
        _ => panic!("expected a new counterparty"),
    }
}

#[test]
fn edit_to_same_value_is_not_logged_and_empty_ids_detach() {
    let t = txn(TransactionStatus::Completed, Some("cash"), Some("bank"));
    let mut patch = empty_patch();
    patch.amount = Some(Amount::new(25, 0));
    patch.destination_wallet_id = Some(String::new());
    patch.contact_id = Some(String::new());
    let p = plan_update_transaction(Some(t), "u1", patch, at(1_900_000_000)).ok().unwrap();
    assert!(p.edit.is_none());
    assert_eq!(p.txn.destination_wallet_id, None);
    assert!(matches!(p.party, PartyChange::Clear));
    assert_eq!(net(&p.deltas, "bank"), -2500);
}

#[test]
fn cancelling_takes_back_the_effect() {
    let t = txn(TransactionStatus::Completed, Some("cash"), None);
    let mut patch = empty_patch();
    patch.status = Some(TransactionStatus::Cancelled);
    let p = plan_update_transaction(Some(t), "u1", patch, at(1_900_000_000)).ok().unwrap();
    assert_eq!(moves(&p.deltas), vec![("cash".to_string(), 2500, 2)]);
}

#[test]
fn create_then_delete_keeps_balances() {
    let p = plan_create_transaction(
        "u1",
        Amount::new(1234, 2),
        TransactionDirection::Out,
        at(10),
        TransactionSource::Manual,
        None,
        None,
        Some("cash".to_string()),
        Some("bank".to_string()),
        None,
        None,
    );
    let created = moves(&p.deltas);
    let d = plan_delete_transaction(Some(p.txn), "u1", at(20)).ok().unwrap();
    for w in ["cash", "bank"] {
        assert_eq!(net(&p.deltas, w) + net(&d.deltas, w), 0);
    }
    assert_eq!(created.len(), 2);
}

#[test]
fn edit_then_undo_keeps_balances() {
    let t = txn(TransactionStatus::Completed, Some("cash"), None);
    let mut there = empty_patch();
    there.amount = Some(Amount::new(9900, 2));
    there.destination_wallet_id = Some("bank".to_string());
    let first = plan_update_transaction(Some(t), "u1", there, at(1_900_000_000)).ok().unwrap();
    let mut back = empty_patch();
    back.amount = Some(Amount::new(2500, 2));
    back.destination_wallet_id = Some(String::new());
    let second = plan_update_transaction(Some(first.txn), "u1", back, at(1_900_000_000)).ok().unwrap();
    assert_eq!(second.txn.amount, Amount::new(2500, 2));
    assert_eq!(second.txn.destination_wallet_id, None);
    for w in ["cash", "bank"] {
        assert_eq!(net(&first.deltas, w) + net(&second.deltas, w), 0);
    }
}

#[test]
fn refusals_carry_their_messages() {
    assert_eq!(ServiceError::TransactionNotFound.message(), "Transaction not found");
    assert_eq!(ServiceError::RequestNotPending.message(), "Request is not pending");
    assert_eq!(ServiceError::MissingGroupId.message(), "Missing group_id in invite");
    assert_eq!(ServiceError::StatementRowNotFound.message(), "Statement row not found");
}
