use expent::categories::{builtin_categories, is_removed_by, is_visible_to, missing_builtin_categories, new_category};
use expent::contacts::{add_identifier, contact_detail, new_contact, update_contact, ContactRecord};
use expent::enums::{GroupRole, LedgerTabStatus};
use expent::errors::ServiceError;
use expent::groups::{authorize_admin, change_member_role, invite_target, new_group, GroupRecord};
use expent::money::Amount;
use expent::p2p::{
    is_listed_as_pending, new_invite_request, new_share_request, plan_accept, plan_split, reject_request, with_sender,
    AcceptOutcome, P2PRequestRecord, SplitDetail, UserGroupRecord,
};
use expent::tabs::{new_ledger_tab, plan_repayment, tab_status_after, tab_status_for_payments};
use expent::time::Timestamp;
use expent::users::{
    account_user_of, apply_account_update, make_primary, new_upi, signup_user, system_user, update_profile, UpiRecord,
};
use expent::wallets::{adjusted, new_wallet, update_wallet};

fn at(secs: i64) -> Timestamp {
    Timestamp { secs, nanos: 0, offset_secs: 0 }
}

fn request(status: &str, data: &str) -> P2PRequestRecord {
    P2PRequestRecord {
        id: "q1".to_string(),
        sender_user_id: "alice".to_string(),
        receiver_email: "bob@example.com".to_string(),
        transaction_data: data.to_string(),
        status: status.to_string(),
        linked_txn_id: None,
    }
}

fn member(role: &str) -> UserGroupRecord {
    UserGroupRecord { user_id: "u1".to_string(), group_id: "g1".to_string(), role: role.to_string() }
}

#[test]
fn shared_transaction_is_mirrored_on_accept() {
    let q = request("Pending", r#"{"amount":"120.50","date":"2024-03-12T21:15:00+05:30","purpose":"Dinner"}"#);
    match plan_accept("bob", Some(q), at(77)) {
        Ok(AcceptOutcome::Mirror { txn, request }) => {
            assert_eq!(txn.user_id, "bob");
            assert_eq!(txn.amount, Amount::new(12050, 2));
            assert_eq!(txn.date, at(1_710_258_300));
            assert_eq!(txn.purpose_tag, Some("Dinner".to_string()));
            assert_eq!(request.status, "Mapped");
            assert_eq!(request.linked_txn_id, Some(txn.id.clone()));
        },
        _ => panic!("expected a mirrored transaction"),
    }
}

#[test]
fn shared_transaction_without_amount_is_mirrored_as_zero() {
    let q = request("Pending", "{}");
    match plan_accept("bob", Some(q), at(77)) {
        Ok(AcceptOutcome::Mirror { txn, .. }) => {
            assert_eq!(txn.amount, Amount::zero());
            assert_eq!(txn.date, at(77));
            assert_eq!(txn.purpose_tag, None);
        },
        _ => panic!("expected a mirrored transaction"),
    }
}

#[test]
fn invitation_is_accepted_into_the_group() {
    let q = request("GroupInvite", r#"{"group_id":"g7","group_name":"Flat"}"#);
    match plan_accept("bob", Some(q), at(77)) {
        Ok(AcceptOutcome::JoinGroup { membership, request }) => {
            assert_eq!(membership.user_id, "bob");
            assert_eq!(membership.group_id, "g7");
            assert_eq!(membership.role, "Member");
            assert_eq!(request.status, "Approved");
        },
        _ => panic!("expected a group membership"),
    }
    assert!(matches!(plan_accept("bob", Some(request("GroupInvite", "{}")), at(77)), Err(ServiceError::MissingGroupId)));
}

#[test]
fn accept_refuses_missing_and_settled_requests() {
    assert!(matches!(plan_accept("bob", None, at(77)), Err(ServiceError::RequestNotFound)));
    assert!(matches!(plan_accept("bob", Some(request("Approved", "{}")), at(77)), Err(ServiceError::RequestNotPending)));
    assert!(matches!(plan_accept("bob", Some(request("Mapped", "{}")), at(77)), Err(ServiceError::RequestNotPending)));
    let rejected = reject_request(Some(request("Pending", "{}"))).ok().unwrap();
    assert_eq!(rejected.status, "REJECTED");
    assert!(matches!(plan_accept("bob", Some(rejected), at(77)), Err(ServiceError::RequestNotPending)));
    assert!(matches!(reject_request(None), Err(ServiceError::RequestNotFound)));
}

#[test]
fn written_statuses_do_not_show_as_pending() {
    let q = new_share_request("alice", "bob@example.com", true, "{}".to_string()).ok().unwrap();
    assert_eq!(q.status, "Pending");
    assert!(!is_listed_as_pending(&q.status));
    let inv = new_invite_request("alice", "bob@example.com", "{}".to_string());
    assert_eq!(inv.status, "GroupInvite");
    assert!(!is_listed_as_pending(&inv.status));
    assert!(is_listed_as_pending("PENDING"));
    assert!(is_listed_as_pending("GROUP_INVITE"));
    assert!(matches!(
        new_share_request("alice", "bob@example.com", false, "{}".to_string()),
        Err(ServiceError::TransactionNotFound)
    ));
    let w = with_sender(inv, Some("Alice".to_string()));
    assert_eq!(w.sender_name, Some("Alice".to_string()));
}

#[test]
fn splits_name_their_purpose() {
    let t = expent::records::TransactionRecord {
        id: "t1".to_string(),
        user_id: "alice".to_string(),
        amount: Amount::from_i32(300),
        direction: expent::enums::TransactionDirection::Out,
        date: at(1_700_000_000),
        source: expent::enums::TransactionSource::Manual,
        status: expent::enums::TransactionStatus::Completed,
        purpose_tag: None,
        category_id: None,
        group_id: None,
        source_wallet_id: None,
        destination_wallet_id: None,
        ledger_tab_id: None,
        deleted_at: None,
        notes: None,
    };
    let splits = vec![
        SplitDetail { receiver_email: "b@x.com".to_string(), amount: Amount::from_i32(100) },
        SplitDetail { receiver_email: "c@x.com".to_string(), amount: Amount::from_i32(200) },
    ];
    let shares = plan_split(Some(t), splits).ok().unwrap();
    assert_eq!(shares.len(), 2);
    assert_eq!(shares[0].purpose, "Split for Expense");
    assert_eq!(shares[1].receiver_email, "c@x.com");
    assert_eq!(shares[1].amount, Amount::from_i32(200));
    assert_eq!(shares[1].date, at(1_700_000_000));
    assert!(matches!(plan_split(None, vec![]), Err(ServiceError::TransactionNotFound)));
}

#[test]
fn tabs_settle_when_repayments_reach_the_target() {
    let tab = new_ledger_tab("alice", None, "Lent".to_string(), "Trip", None, Amount::from_i32(1000), at(5));
    assert_eq!(tab.status, "Open");
    let target = Amount::from_i32(1000);
    assert_eq!(tab_status_after(&Amount::from_i32(1000), &target), Some(LedgerTabStatus::Settled));
    assert_eq!(tab_status_after(&Amount::from_i32(400), &target), Some(LedgerTabStatus::PartiallyPaid));
    assert_eq!(tab_status_after(&Amount::zero(), &target), None);
    let paid = vec![Amount::from_i32(600), Amount::new(40000, 2)];
    assert_eq!(tab_status_for_payments(&target, &paid), Some(Some(LedgerTabStatus::Settled)));
    let t = plan_repayment("bob", &Some(tab), Amount::from_i32(250), Some("cash".to_string()), at(9)).ok().unwrap();
    assert_eq!(t.purpose_tag, Some("Repayment for: Trip".to_string()));
    assert_eq!(t.amount, Amount::from_i32(250));
    assert!(t.ledger_tab_id.is_some());
    assert!(matches!(plan_repayment("bob", &None, Amount::zero(), None, at(9)), Err(ServiceError::LedgerTabNotFound)));
}

#[test]
fn only_admins_manage_groups() {
    let (g, m) = new_group("u1", "Flat", None, at(1));
    assert_eq!(m.role, "Admin");
    assert_eq!(m.group_id, g.id);
    assert!(authorize_admin(&Some(m)).is_ok());
    assert!(matches!(authorize_admin(&Some(member("Member"))), Err(ServiceError::InsufficientPermissions)));
    assert!(matches!(authorize_admin(&None), Err(ServiceError::AdminNotInGroup)));
    let changed = change_member_role(&Some(member("Admin")), Some(member("Member")), GroupRole::Admin).ok().unwrap();
    assert_eq!(changed.role, "Admin");
    assert!(matches!(
        change_member_role(&Some(member("Admin")), None, GroupRole::Member),
        Err(ServiceError::MemberNotFound)
    ));
    let grp = GroupRecord { id: "g1".to_string(), name: "Flat".to_string(), description: None, created_at: at(1) };
    let target = invite_target(&Some(grp)).ok().unwrap();
    assert_eq!(target.group_name, "Flat");
    assert!(matches!(invite_target(&None), Err(ServiceError::GroupNotFound)));
}

#[test]
fn contacts_are_edited_through_links() {
    let (c, link) = new_contact("u1", "Ravi".to_string(), None);
    assert_eq!(link.contact_id, c.id);
    assert!(!c.is_pinned);
    let edited = update_contact(true, Some(c), None, Some("99".to_string()), Some(true)).ok().unwrap();
    assert_eq!(edited.name, "Ravi");
    assert_eq!(edited.phone, Some("99".to_string()));
    assert!(edited.is_pinned);
    assert!(matches!(update_contact(false, None, None, None, None), Err(ServiceError::ContactLinkNotFound)));
    assert!(matches!(update_contact(true, None, None, None, None), Err(ServiceError::ContactNotFound)));
    let id = add_identifier(true, "c1", "UPI".to_string(), "ravi@upi".to_string()).ok().unwrap();
    assert_eq!(id.contact_id, "c1");
    assert!(matches!(add_identifier(false, "c1", "UPI".to_string(), "x".to_string()), Err(ServiceError::ContactLinkNotFound)));
    let k = ContactRecord { id: "c1".to_string(), name: "Ravi".to_string(), phone: None, is_pinned: false };
    let d = contact_detail::<u8, u8>(true, Some(k), vec![1], vec![]).ok().unwrap();
    assert_eq!(d.1, vec![1]);
}

#[test]
fn users_and_upi_ids() {
    let s = system_user(at(1));
    assert_eq!(s.id, "system");
    assert!(!s.is_active);
    let u = signup_user(Some("u1".to_string()), None, Some("a@b.c".to_string()), None, None, at(2));
    assert_eq!(u.name, "");
    assert!(!u.email_verified);
    assert!(u.is_active);
    let fresh = signup_user(None, None, None, None, None, at(2));
    assert_eq!(fresh.id.len(), 36);
    let p = update_profile(Some(u), Some("Asha".to_string()), None, None, at(3)).ok().unwrap();
    assert_eq!(p.name, "Asha");
    assert_eq!(p.updated_at, at(3));
    assert_eq!(p.email, "a@b.c");
    assert!(p.is_active);
    assert_eq!(p.created_at, at(2));
    assert!(matches!(update_profile(None, None, None, None, at(3)), Err(ServiceError::UserNotFound)));
    let v = apply_account_update(Some(p), None, Some("new@b.c".to_string()), Some(true), None, at(4)).ok().unwrap();
    assert_eq!(v.email, "new@b.c");
    assert!(v.email_verified);
    assert_eq!(v.name, "Asha");
    let a = account_user_of(v);
    assert_eq!(a.role, Some("user".to_string()));
    assert!(!a.banned);
    let n = new_upi("u1", "asha@upi".to_string(), None);
    assert!(!n.is_primary);
    let rows = vec![
        UpiRecord { id: "p1".to_string(), user_id: "u1".to_string(), upi_id: "a@x".to_string(), is_primary: true, label: None },
        UpiRecord { id: "p2".to_string(), user_id: "u1".to_string(), upi_id: "b@x".to_string(), is_primary: false, label: None },
        UpiRecord { id: "p3".to_string(), user_id: "u2".to_string(), upi_id: "c@x".to_string(), is_primary: true, label: None },
    ];
    let after = make_primary(rows, "u1", "p2");
    let flags: Vec<bool> = after.iter().map(|u| u.is_primary).collect();
    assert_eq!(flags, vec![false, true, true]);
}

#[test]
fn builtin_categories_are_seeded_once() {
    let all = builtin_categories();
    assert_eq!(all.len(), 7);
    assert_eq!(all[0].id, "cat-sub-0001");
    assert_eq!(all[6].name, "Health & Medical");
    let missing = missing_builtin_categories(&vec!["cat-fod-0003".to_string(), "other".to_string()]);
    let ids: Vec<&str> = missing.iter().map(|c| c.id.as_str()).collect();
    assert_eq!(ids, vec!["cat-sub-0001", "cat-rnt-0002", "cat-trn-0004", "cat-ent-0005", "cat-gro-0006", "cat-hth-0007"]);
    let mut stored: Vec<String> = vec!["cat-fod-0003".to_string()];
    stored.extend(missing.iter().map(|c| c.id.clone()));
    assert!(missing_builtin_categories(&stored).is_empty());
}

#[test]
fn builtin_categories_are_visible_and_kept() {
    let all = builtin_categories();
    assert!(is_visible_to(&all[0], "anyone"));
    assert!(!is_removed_by(&all[0], "system", "cat-sub-0001"));
    let own = new_category("u1", "Books".to_string(), None, Some("#fff".to_string()));
    assert!(is_visible_to(&own, "u1"));
    assert!(!is_visible_to(&own, "u2"));
    assert!(is_removed_by(&own, "u1", &own.id));
    assert!(!is_removed_by(&own, "u2", &own.id));
}

#[test]
fn wallets_are_edited_by_their_owner() {
    let w = new_wallet("u1", "Cash", "Cash", Amount::from_i32(500), at(1));
    let id = w.id.clone();
    let e = update_wallet("u1", &id, Some(w), Some("Pocket".to_string()), None, at(2)).ok().unwrap();
    assert_eq!(e.name, "Pocket");
    assert_eq!(e.balance, Amount::from_i32(500));
    assert_eq!(e.updated_at, at(2));
    assert!(matches!(update_wallet("u2", &id, Some(e), None, None, at(3)), Err(ServiceError::WalletNotFound)));
    assert!(matches!(update_wallet("u1", "w", None, None, None, at(3)), Err(ServiceError::WalletNotFound)));
}

#[test]
fn wallet_balances_move_by_deltas() {
    let w = new_wallet("u1", "Cash", "Cash", Amount::new(10050, 2), at(1));
    let moved = adjusted(w, &Amount::new(-2550, 2)).unwrap();
    assert!(moved.balance.same_value(&Amount::from_i32(75)));
    assert_eq!(moved.name, "Cash");
    let big = Amount::new(79_228_162_514_264_337_593_543_950_335, 0);
    let w = new_wallet("u1", "Max", "Bank", big, at(1));
    assert!(adjusted(w, &big).is_none());
    assert_eq!(expent::money::checked_add(&Amount::from_i32(2), &Amount::new(5, 1)), Some(Amount::new(25, 1)));
}
