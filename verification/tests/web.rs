use expent::api::{
    rejection_error, validate_amount, AddIdentifierRequest, CreateContactRequest, CreateManualTransactionRequest,
    JsonRejection, MergeContactsRequest, ProcessImageOcrRequest, UpdateContactRequest, UpdateTransactionRequest,
};
use expent::api_error::{ApiError, AppError, DbError};
use expent::enums::{TransactionDirection, TransactionStatus};
use expent::errors::ServiceError;
use expent::listing::with_detail;
use expent::money::Amount;
use expent::ocr::{
    is_gpay, merge_target, plan_generic, plan_gpay, process_gpay, GPayExtraction, GPayOutcome, LineItem, OcrResult,
    RecordedPayment,
};
use expent::ocr_jobs::{
    authorize_key, doc_type_for_mime, failed_status, file_name, job_accepted_response, job_outcome, join_lines,
    mime_type_for, ocr_failure_error, processing_status, server_mime_type_for, stream_step, update_is_for, StreamAction,
    StreamEvent,
};
use expent::records::{PartyRecord, TransactionRecord};
use expent::requests::{row_matches_response, session_email, session_lookup_status};
use expent::contacts::ContactRecord;
use expent::reconciliation::BankStatementRow;
use expent::time::Timestamp;
use expent::wallets::WalletRecord;

fn at(secs: i64) -> Timestamp {
    Timestamp { secs, nanos: 0, offset_secs: 0 }
}

fn gpay(upi: Option<&str>) -> GPayExtraction {
    GPayExtraction {
        amount: Amount::new(35000, 2),
        direction: "IN".to_string(),
        datetime_str: Some("12 Mar 2024, 09:15 PM".to_string()),
        status: Some("Completed".to_string()),
        counterparty_name: "Ravi".to_string(),
        counterparty_phone: None,
        counterparty_upi_id: upi.map(|s| s.to_string()),
        is_merchant: false,
        upi_transaction_id: Some("4071".to_string()),
        google_transaction_id: None,
        source_bank_account: None,
        wallet_id: None,
        category_id: None,
    }
}

fn txn(src: Option<&str>) -> TransactionRecord {
    TransactionRecord {
        id: "t1".to_string(),
        user_id: "u1".to_string(),
        amount: Amount::from_i32(10),
        direction: TransactionDirection::Out,
        date: at(0),
        source: expent::enums::TransactionSource::Manual,
        status: TransactionStatus::Completed,
        purpose_tag: None,
        category_id: None,
        group_id: None,
        source_wallet_id: src.map(|s| s.to_string()),
        destination_wallet_id: None,
        ledger_tab_id: None,
        deleted_at: None,
        notes: None,
    }
}

#[test]
fn errors_answer_with_status_and_message() {
    assert_eq!(ApiError::NotFound("Row not found".to_string()).response_parts(), (404, "Row not found".to_string()));
    assert_eq!(ApiError::BadRequest("x".to_string()).response_parts(), (400, "x".to_string()));
    assert_eq!(ApiError::Unauthorized("no".to_string()).response_parts(), (401, "no".to_string()));
    assert_eq!(ApiError::Internal("boom".to_string()).response_parts(), (500, "boom".to_string()));
    assert_eq!(ApiError::App(AppError::Ocr("bad".to_string())).response_parts(), (400, "bad".to_string()));
    assert_eq!(ApiError::App(AppError::Validation("v".to_string())).response_parts(), (400, "v".to_string()));
    let hidden = ApiError::from_service(ServiceError::Unauthorized).response_parts();
    assert_eq!(hidden, (500, "An internal error occurred".to_string()));
    let db = ApiError::from_db(DbError::Other("disk".to_string())).response_parts();
    assert_eq!(db, (500, "An internal error occurred".to_string()));
}

#[test]
fn unreadable_bodies_are_bad_requests() {
    assert_eq!(rejection_error(JsonRejection::Other).response_parts(), (400, "Invalid JSON".to_string()));
    assert_eq!(rejection_error(JsonRejection::Syntax("line 1".to_string())).response_parts(), (400, "line 1".to_string()));
    assert_eq!(rejection_error(JsonRejection::Data("missing field `name`".to_string())).response_parts(), (400, "missing field `name`".to_string()));
}

#[test]
fn requests_are_validated() {
    assert!(CreateContactRequest { name: "Ravi".to_string(), phone: None }.validate().is_ok());
    let bad = CreateContactRequest { name: String::new(), phone: Some("123".to_string()) }.validate().unwrap_err();
    assert_eq!(bad.len(), 2);
    assert_eq!(bad[0].field, "name");
    assert_eq!(bad[0].code, "length");
    assert!(UpdateContactRequest { name: None, phone: Some("98765432100".to_string()), is_pinned: None }.validate().is_ok());
    assert!(AddIdentifierRequest { id_type: "UPI".to_string(), value: String::new() }.validate().is_err());
    assert!(MergeContactsRequest { primary_id: "a".to_string(), secondary_id: "b".to_string() }.validate().is_ok());
    assert_eq!(validate_amount(&Amount::zero()), Err("amount_must_be_positive".to_string()));
    assert!(validate_amount(&Amount::new(1, 2)).is_ok());
    let manual = CreateManualTransactionRequest {
        amount: Amount::from_i32(-5),
        date: at(0),
        purpose_tag: "Tea".to_string(),
        category_id: None,
        direction: TransactionDirection::Out,
        source_wallet_id: None,
        destination_wallet_id: None,
        contact_id: None,
        notes: None,
    };
    let errs = manual.validate().unwrap_err();
    assert_eq!(errs.len(), 1);
    assert_eq!(errs[0].field, "amount");
}

#[test]
fn request_fields_carry_over() {
    let req = ProcessImageOcrRequest { key: "u1/a.png".to_string(), p_hash: None, auto_confirm: None, wallet_id: None, category_id: None };
    assert!(!req.auto_confirm_flag());
    let u = UpdateTransactionRequest {
        amount: Some(Amount::from_i32(3)),
        date: None,
        purpose_tag: None,
        category_id: None,
        status: Some(TransactionStatus::Pending),
        notes: None,
        source_wallet_id: None,
        destination_wallet_id: None,
        contact_id: Some(String::new()),
    };
    let p = u.into_patch();
    assert_eq!(p.amount, Some(Amount::from_i32(3)));
    assert_eq!(p.status, Some(TransactionStatus::Pending));
    assert_eq!(p.contact_id, Some(String::new()));
}

#[test]
fn users_process_only_their_own_files() {
    assert!(authorize_key("u1", "u1/receipt.png"));
    assert!(!authorize_key("u1", "u10/receipt.png"));
    assert!(!authorize_key("u1", "u1"));
    assert_eq!(file_name("u1/2024/scan.pdf"), "scan.pdf");
    assert_eq!(file_name("plain"), "plain");
    assert_eq!(file_name("u1/"), "");
    assert_eq!(mime_type_for("scan.pdf"), "application/pdf");
    assert_eq!(mime_type_for("rows.csv"), "text/csv");
    assert_eq!(mime_type_for("pic.webp"), "image/webp");
    assert_eq!(mime_type_for("pic.jpg"), "image/png");
    assert_eq!(server_mime_type_for("pic.webp"), "image/png");
    assert_eq!(doc_type_for_mime("image/png"), "GPAY");
    assert_eq!(doc_type_for_mime("application/pdf"), "GENERIC");
}

#[test]
fn jobs_end_in_their_statuses() {
    let o = job_outcome(true, Some("t9".to_string()));
    assert_eq!(o.status, "COMPLETED");
    assert_eq!(o.transaction_id, Some("t9".to_string()));
    assert_eq!(job_outcome(true, None).status, "PENDING_REVIEW");
    assert_eq!(job_outcome(false, Some("t9".to_string())).transaction_id, None);
    assert_eq!(failed_status(), "FAILED");
    let (code, body) = job_accepted_response("j1".to_string(), "COMPLETED".to_string());
    assert_eq!((code, body.status.as_str()), (200, "COMPLETED"));
    let (code, body) = job_accepted_response("j2".to_string(), "QUEUED".to_string());
    assert_eq!((code, body.job_id.as_str(), body.status.as_str()), (202, "j2", "QUEUED"));
    assert!(update_is_for("u1", "u1"));
    assert!(!update_is_for("u1", "u2"));
}

#[test]
fn gpay_screenshot_with_new_counterparty_creates_a_contact() {
    assert!(is_gpay("GPAY"));
    assert!(!is_gpay("GENERIC"));
    let p = plan_gpay("u1", gpay(Some("ravi@okaxis")), None, "{}".to_string(), Some("u1/a.png".to_string()), at(5));
    assert!(p.contact_created);
    let n = p.new_contact.unwrap();
    assert_eq!(n.contact.name, "Ravi");
    assert_eq!(n.identifier.value, "ravi@okaxis");
    assert_eq!(n.identifier.id_type, "UPI");
    assert_eq!(p.party.unwrap().contact_id, Some(n.contact.id.clone()));
    assert_eq!(p.txn.direction, TransactionDirection::In);
    assert_eq!(p.txn.date, at(1_710_278_100));
    assert_eq!(p.source.source_type, "GPAY_OCR");
    assert_eq!(p.source.r2_file_url, Some("u1/a.png".to_string()));
}

#[test]
fn gpay_screenshot_with_known_counterparty_links_it() {
    let p = plan_gpay("u1", gpay(Some("ravi@okaxis")), Some("c5".to_string()), "{}".to_string(), None, at(5));
    assert!(!p.contact_created);
    assert!(p.new_contact.is_none());
    assert_eq!(p.party.unwrap().contact_id, Some("c5".to_string()));
    let none = plan_gpay("u1", gpay(None), None, "{}".to_string(), None, at(5));
    assert!(none.party.is_none());
    assert!(!none.contact_created);
}

#[test]
fn generic_receipt_becomes_a_purchase() {
    let receipt = OcrResult {
        raw_text: "...".to_string(),
        vendor: None,
        amount: None,
        date: Some(at(77)),
        upi_id: None,
        items: vec![LineItem { name: "Milk".to_string(), quantity: 2, price: Amount::from_i32(30) }],
        wallet_id: None,
        category_id: None,
    };
    let p = plan_generic("u1", receipt, "{}".to_string(), None, at(5));
    assert_eq!(p.txn.amount, Amount::zero());
    assert_eq!(p.txn.date, at(77));
    let undated = OcrResult {
        raw_text: String::new(),
        vendor: Some("Cafe".to_string()),
        amount: Some(Amount::from_i32(3)),
        date: None,
        upi_id: None,
        items: vec![],
        wallet_id: None,
        category_id: None,
    };
    assert_eq!(plan_generic("u1", undated, "{}".to_string(), None, at(5)).txn.date, at(5));
    assert_eq!(p.txn.direction, TransactionDirection::Out);
    assert_eq!(p.purchase.vendor, "Unknown");
    assert_eq!(p.items.len(), 1);
    assert_eq!(p.items[0].name, "Milk");
    assert_eq!(p.items[0].purchase_id, p.purchase.id);
    assert_eq!(p.source.source_type, "GENERIC_OCR");
}

#[test]
fn listed_transactions_carry_names() {
    let w = WalletRecord {
        id: "w1".to_string(),
        user_id: "u1".to_string(),
        name: "Cash".to_string(),
        wallet_type: "Cash".to_string(),
        balance: Amount::zero(),
        created_at: at(0),
        updated_at: at(0),
    };
    let party = PartyRecord {
        id: "p".to_string(),
        transaction_id: "t1".to_string(),
        user_id: None,
        contact_id: Some("c1".to_string()),
        role: "COUNTERPARTY".to_string(),
    };
    let c = ContactRecord { id: "c1".to_string(), name: "Ravi".to_string(), phone: None, is_pinned: false };
    let d = with_detail(txn(Some("w1")), Some(w), None, Some(party), Some(c));
    assert_eq!(d.source_wallet_name, Some("Cash".to_string()));
    assert_eq!(d.destination_wallet_name, None);
    assert_eq!(d.contact_name, Some("Ravi".to_string()));
    assert_eq!(d.contact_id, Some("c1".to_string()));
    let bare = with_detail(txn(None), None, None, None, None);
    assert_eq!(bare.contact_name, None);
    assert_eq!(bare.source_wallet_name, None);
}

#[test]
fn handlers_check_before_calling_services() {
    assert_eq!(session_email(Some("a@b.c".to_string())).ok(), Some("a@b.c".to_string()));
    match session_email(None) {
        Err(e) => assert_eq!(e.response_parts(), (400, "Email missing".to_string())),
        Ok(_) => panic!("expected a refusal"),
    }
    match row_matches_response(None, Ok(vec![])) {
        Err(e) => assert_eq!(e.response_parts(), (404, "Row not found".to_string())),
        Ok(_) => panic!("expected a refusal"),
    }
    let row = BankStatementRow {
        id: "r1".to_string(),
        user_id: "u1".to_string(),
        date: at(0),
        description: "x".to_string(),
        debit: None,
        credit: Some(Amount::from_i32(1)),
        balance: Amount::zero(),
        is_matched: false,
    };
    let resp = row_matches_response(Some(row), Ok(vec![(txn(None), 90)])).ok().unwrap();
    assert_eq!(resp.row.id, "r1");
    assert_eq!(resp.matches[0].1, 90);
}

#[test]
fn reading_failures_and_recognised_text() {
    assert_eq!(
        ocr_failure_error(Some(429), "too many".to_string()).response_parts(),
        (500, "Gemini API quota exceeded. Please try again later.".to_string())
    );
    assert_eq!(ocr_failure_error(Some(500), "oops".to_string()).response_parts(), (500, "oops".to_string()));
    assert_eq!(ocr_failure_error(None, "io".to_string()).response_parts(), (500, "io".to_string()));
    assert_eq!(join_lines(&vec!["Total".to_string(), "350.00".to_string()]), "Total\n350.00\n");
    assert_eq!(join_lines(&vec![]), "");
    assert_eq!(processing_status(), "PROCESSING");
}

#[test]
fn session_lookups_other_than_ok_are_unauthorized() {
    assert!(session_lookup_status(200).is_ok());
    assert_eq!(session_lookup_status(401), Err((401, "Unauthorized".to_string())));
    assert_eq!(session_lookup_status(500), Err((401, "Unauthorized".to_string())));
}

#[test]
fn a_stored_file_has_one_owner() {
    let key = "u1/2024/a.png";
    let owners: Vec<&str> = ["u1", "u", "u10", "u2", "2024"].into_iter().filter(|u| authorize_key(u, key)).collect();
    assert_eq!(owners, vec!["u1"]);
}

#[test]
fn progress_stream_sends_only_the_users_updates() {
    assert_eq!(stream_step(&StreamEvent::Update("u1".to_string()), "u1"), StreamAction::Send);
    assert_eq!(stream_step(&StreamEvent::Update("u2".to_string()), "u1"), StreamAction::Skip);
    assert_eq!(stream_step(&StreamEvent::Lagged, "u1"), StreamAction::Skip);
    assert_eq!(stream_step(&StreamEvent::Closed, "u1"), StreamAction::Stop);
}

#[test]
fn unreadable_screenshot_dates_fall_back_to_now() {
    let mut g = gpay(None);
    g.datetime_str = Some("yesterday".to_string());
    assert_eq!(plan_gpay("u1", g, None, "{}".to_string(), None, at(5)).txn.date, at(5));
    let mut g = gpay(None);
    g.datetime_str = None;
    assert_eq!(plan_gpay("u1", g, None, "{}".to_string(), None, at(6)).txn.date, at(6));
}

fn recorded(id: &str, user: &str, upi: Option<&str>, deleted: bool) -> RecordedPayment {
    let mut t = txn(None);
    t.id = id.to_string();
    t.user_id = user.to_string();
    if deleted {
        t.deleted_at = Some(at(1));
    }
    RecordedPayment { transaction: t, upi_transaction_id: upi.map(|s| s.to_string()) }
}

#[test]
fn a_payment_on_record_is_merged() {
    let on_record = vec![
        recorded("other-user", "u2", Some("4071"), false),
        recorded("deleted", "u1", Some("4071"), true),
        recorded("other-upi", "u1", Some("9999"), false),
        recorded("e1", "u1", Some("4071"), false),
        recorded("e2", "u1", Some("4071"), false),
    ];
    match process_gpay("u1", gpay(Some("ravi@okaxis")), on_record, None, "{}".to_string(), None, at(5)) {
        GPayOutcome::Merged(t) => assert_eq!(t.id, "e1"),
        GPayOutcome::Recorded(_) => panic!("expected a merge"),
    }
}

#[test]
fn a_new_payment_is_recorded() {
    let on_record = vec![recorded("x", "u1", Some("9999"), false), recorded("y", "u1", None, false)];
    match process_gpay("u1", gpay(Some("ravi@okaxis")), on_record, None, "{}".to_string(), None, at(5)) {
        GPayOutcome::Recorded(p) => {
            assert!(p.contact_created);
            assert_eq!(p.transfer.upi_transaction_id, Some("4071".to_string()));
        },
        GPayOutcome::Merged(_) => panic!("expected a new record"),
    }
    let mut g = gpay(None);
    g.upi_transaction_id = None;
    assert!(merge_target("u1", &g.upi_transaction_id, vec![recorded("y", "u1", None, false)]).is_none());
}

#[test]
fn the_same_screenshot_twice_is_recorded_once() {
    let first = plan_gpay("u1", gpay(Some("ravi@okaxis")), None, "{}".to_string(), None, at(5));
    let id = first.txn.id.clone();
    let on_record = vec![RecordedPayment { transaction: first.txn, upi_transaction_id: first.transfer.upi_transaction_id }];
    match process_gpay("u1", gpay(Some("ravi@okaxis")), on_record, None, "{}".to_string(), None, at(6)) {
        GPayOutcome::Merged(t) => assert_eq!(t.id, id),
        GPayOutcome::Recorded(_) => panic!("expected a merge"),
    }
}
