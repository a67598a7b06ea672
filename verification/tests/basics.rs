use expent::enums::{GroupRole, P2PRequestStatus, SubscriptionCycle, TransactionDirection, TransactionStatus};
use expent::ids::new_id;
use expent::json::json_str_field;
use expent::money::{parse_amount, sum_amounts, Amount, Order};
use expent::text::{char_count, contains_text, ends_with, same_text, starts_with};
use expent::time::{now, parse_receipt_datetime, parse_rfc3339_utc, Timestamp};

fn at(secs: i64) -> Timestamp {
    Timestamp { secs, nanos: 0, offset_secs: 0 }
}

#[test]
fn text_helpers_work_on_characters() {
    assert!(starts_with("user-1/receipt.png", "user-1/"));
    assert!(!starts_with("user-10/receipt.png", "user-1/x"));
    assert!(ends_with("scan.pdf", ".pdf"));
    assert!(!ends_with("pdf", ".pdf"));
    assert!(contains_text("netflix monthly", "flix"));
    assert!(contains_text("abc", ""));
    assert!(!contains_text("abc", "abcd"));
    assert!(same_text("é", "é"));
    assert_eq!(char_count("₹100"), 4);
}

#[test]
fn amounts_compare_by_value() {
    let one = Amount::new(10, 1);
    let one_again = Amount::new(100, 2);
    let two = Amount::from_i32(2);
    assert!(one.same_value(&one_again));
    assert!(matches!(one.compare(&two), Order::Less));
    assert!(matches!(two.compare(&one), Order::Greater));
    assert!(two.at_least(&one));
    assert!(!one.at_least(&two));
    assert!(Amount::new(-5, 0).is_negative());
    assert!(!Amount::zero().is_positive());
    assert_eq!(Amount::new(-125, 2).abs(), Amount::new(125, 2));
    assert_eq!(Amount::new(125, 2).neg(), Amount::new(-125, 2));
}

#[test]
fn amounts_parse_and_sum_as_decimals() {
    assert_eq!(parse_amount("12.50"), Some(Amount::new(1250, 2)));
    assert_eq!(parse_amount("-3"), Some(Amount::new(-3, 0)));
    assert_eq!(parse_amount("twelve"), None);
    let total = sum_amounts(&vec![Amount::new(1250, 2), Amount::new(5, 1)]).unwrap();
    assert!(total.same_value(&Amount::from_i32(13)));
    assert_eq!(sum_amounts(&vec![]), Some(Amount::zero()));
}

#[test]
fn days_between_dates_count_whole_days() {
    let start = at(1_700_000_000);
    assert_eq!(at(1_700_000_000 + 7 * 86400).days_since_exec(&start), 7);
    assert_eq!(at(1_700_000_000 + 7 * 86400 - 1).days_since_exec(&start), 6);
    assert_eq!(start.days_since_exec(&at(1_700_000_000 + 7 * 86400 - 1)), -6);
    assert_eq!(start.add_days(-90), at(1_700_000_000 - 90 * 86400));
    assert!(start.is_before(&at(1_700_000_001)));
    let shifted = Timestamp { secs: 1_700_000_000, nanos: 0, offset_secs: 19800 };
    assert!(start.is_same_instant(&shifted));
}

#[test]
fn dates_parse_with_chrono() {
    let d = parse_receipt_datetime("12 Mar 2024, 09:15 PM").unwrap();
    assert_eq!(d, Timestamp { secs: 1_710_278_100, nanos: 0, offset_secs: 0 });
    assert_eq!(parse_receipt_datetime("yesterday"), None);
    let r = parse_rfc3339_utc("2024-03-12T21:15:00+05:30").unwrap();
    assert_eq!(r, Timestamp { secs: 1_710_258_300, nanos: 0, offset_secs: 0 });
    assert_eq!(parse_rfc3339_utc("2024-03-12"), None);
}

#[test]
fn clock_and_ids_are_fresh() {
    let t = now();
    assert_eq!(t.offset_secs, 0);
    assert!(t.secs > 1_600_000_000);
    let a = new_id();
    let b = new_id();
    assert_eq!(a.len(), 36);
    assert_ne!(a, b);
}

#[test]
fn json_fields_are_read_by_name() {
    let doc = r#"{"doc_type":"GPAY","amount":"10"}"#;
    assert_eq!(json_str_field(doc, "doc_type"), Some("GPAY".to_string()));
    assert_eq!(json_str_field(doc, "missing"), None);
    assert_eq!(json_str_field("not json", "doc_type"), None);
    assert_eq!(json_str_field(r#"{"n":1}"#, "n"), None);
}

#[test]
fn enum_spellings_round_trip() {
    assert_eq!(TransactionDirection::In.db_value(), "IN");
    assert_eq!(TransactionDirection::from_db("OUT"), Some(TransactionDirection::Out));
    assert_eq!(TransactionDirection::from_db("Out"), None);
    assert_eq!(P2PRequestStatus::GroupInvite.db_value(), "GROUP_INVITE");
    assert_eq!(P2PRequestStatus::GroupInvite.display_name(), "GroupInvite");
    assert_eq!(GroupRole::Admin.display_name(), "Admin");
    assert_eq!(SubscriptionCycle::from_db(SubscriptionCycle::Yearly.db_value()), Some(SubscriptionCycle::Yearly));
    assert_eq!(TransactionStatus::from_db(TransactionStatus::Cancelled.db_value()), Some(TransactionStatus::Cancelled));
}

#[test]
fn negative_zero_keeps_its_sign() {
    // rust_decimal reads "-0.00" as a positive zero; negating a zero flips its sign flag
    assert_eq!(parse_amount("-0.00"), Some(Amount::new(0, 2)));
    let z = Amount::new(0, 2).neg();
    assert_eq!(z, Amount { mantissa: 0, scale: 2, negative: true });
    assert!(z.same_value(&Amount::zero()));
    assert!(!z.is_negative());
    assert_eq!(z.abs(), Amount::new(0, 2));
    let (debit, credit) = expent::reconciliation::split_signed_amount(z);
    assert_eq!(debit, None);
    assert_eq!(credit, Some(Amount { mantissa: 0, scale: 2, negative: true }));
    let row = expent::reconciliation::new_statement_row("u1", Timestamp { secs: 0, nanos: 0, offset_secs: 0 }, "x".to_string(), z);
    assert_eq!(row.credit, Some(z));
}

#[test]
fn sums_that_fit_are_exact() {
    let a = Amount::new(79_228_162_514_264_337_593_543_950_000, 0);
    let b = Amount::new(335, 0);
    let s = expent::money::checked_add(&a, &b).unwrap();
    assert!(s.same_value(&Amount::new(79_228_162_514_264_337_593_543_950_335, 0)));
    let c = expent::money::checked_add(&Amount::new(1, 28), &Amount::new(-3, 1)).unwrap();
    assert!(c.same_value(&Amount::new(-2_999_999_999_999_999_999_999_999_999, 28)));
    assert_eq!(expent::money::checked_add(&a, &Amount::new(336, 0)), None);
}
