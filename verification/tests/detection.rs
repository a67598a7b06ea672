use expent::enums::{TransactionDirection, TransactionSource, TransactionStatus};
use expent::errors::ServiceError;
use expent::money::Amount;
use expent::reconciliation::{
    confirm_row_match, match_window, new_match_record, new_statement_row, rank_row_matches, score_match,
    split_signed_amount, BankStatementRow,
};
use expent::records::TransactionRecord;
use expent::subscriptions::{
    configure_alert, confirm_subscription, detect_subscriptions, detection_window_start, group_charges, next_charges_fit,
    sort_dates,
};
use expent::time::Timestamp;

const DAY: i64 = 86400;
const T0: i64 = 1_700_000_000;

fn at(secs: i64) -> Timestamp {
    Timestamp { secs, nanos: 0, offset_secs: 0 }
}

fn charge(user: &str, tag: Option<&str>, mantissa: i128, scale: u32, secs: i64) -> TransactionRecord {
    TransactionRecord {
        id: format!("t{}", secs),
        user_id: user.to_string(),
        amount: Amount::new(mantissa, scale),
        direction: TransactionDirection::Out,
        date: at(secs),
        source: TransactionSource::Manual,
        status: TransactionStatus::Completed,
        purpose_tag: tag.map(|s| s.to_string()),
        category_id: None,
        group_id: None,
        source_wallet_id: None,
        destination_wallet_id: None,
        ledger_tab_id: None,
        deleted_at: None,
        notes: None,
    }
}

fn row(debit: Option<Amount>, credit: Option<Amount>, secs: i64, description: &str) -> BankStatementRow {
    BankStatementRow {
        id: "r1".to_string(),
        user_id: "u1".to_string(),
        date: at(secs),
        description: description.to_string(),
        debit,
        credit,
        balance: Amount::zero(),
        is_matched: false,
    }
}

#[test]
fn monthly_charges_are_detected() {
    let txns = vec![
        charge("u1", Some("Netflix"), 64900, 2, T0 + 30 * DAY),
        charge("u1", Some("Netflix"), 64900, 2, T0),
        charge("u1", Some("Coffee"), 200, 0, T0 + 2 * DAY),
    ];
    let subs = detect_subscriptions("u1", &txns);
    assert_eq!(subs.len(), 1);
    let s = &subs[0];
    assert_eq!(s.name, "Netflix");
    assert_eq!(s.cycle, "Monthly");
    assert_eq!(s.start_date, at(T0));
    assert_eq!(s.next_charge_date, at(T0 + 60 * DAY));
    assert_eq!(s.amount, Amount::new(64900, 2));
    assert_eq!(s.user_id, "u1");
    assert_eq!(s.id.len(), 36);
    assert!(s.detection_keywords.is_none());
}

#[test]
fn weekly_and_yearly_gaps_and_the_last_gap_wins() {
    let weekly = vec![charge("u1", None, 5, 0, T0), charge("u1", None, 5, 0, T0 + 7 * DAY)];
    let subs = detect_subscriptions("u1", &weekly);
    assert_eq!(subs[0].cycle, "Weekly");
    assert_eq!(subs[0].name, "Unknown");
    assert_eq!(subs[0].next_charge_date, at(T0 + 14 * DAY));
    let yearly = vec![charge("u1", Some("Domain"), 9, 0, T0), charge("u1", Some("Domain"), 9, 0, T0 + 365 * DAY)];
    assert_eq!(detect_subscriptions("u1", &yearly)[0].cycle, "Yearly");
    let mixed = vec![
        charge("u1", Some("Gym"), 10, 0, T0),
        charge("u1", Some("Gym"), 10, 0, T0 + 7 * DAY),
        charge("u1", Some("Gym"), 10, 0, T0 + 37 * DAY),
    ];
    let subs = detect_subscriptions("u1", &mixed);
    assert_eq!(subs[0].cycle, "Monthly");
    assert_eq!(subs[0].next_charge_date, at(T0 + 67 * DAY));
}

#[test]
fn irregular_or_single_charges_are_not_subscriptions() {
    let irregular = vec![charge("u1", Some("Taxi"), 3, 0, T0), charge("u1", Some("Taxi"), 3, 0, T0 + 12 * DAY)];
    assert!(detect_subscriptions("u1", &irregular).is_empty());
    let single = vec![charge("u1", Some("Rent"), 3, 0, T0)];
    assert!(detect_subscriptions("u1", &single).is_empty());
    assert!(detect_subscriptions("u1", &vec![]).is_empty());
}

#[test]
fn charges_group_by_purpose_and_amount_value() {
    let txns = vec![
        charge("u1", Some("Music"), 10, 0, T0),
        charge("u1", Some("Music"), 1000, 2, T0 + DAY),
        charge("u1", Some("Music"), 11, 0, T0 + 2 * DAY),
    ];
    let gs = group_charges(&txns);
    assert_eq!(gs.len(), 2);
    assert_eq!(gs[0].dates, vec![at(T0), at(T0 + DAY)]);
    assert_eq!(gs[1].dates, vec![at(T0 + 2 * DAY)]);
}

#[test]
fn dates_sort_stably() {
    let a = at(T0);
    let same_instant = Timestamp { secs: T0, nanos: 0, offset_secs: 3600 };
    let later = at(T0 + 5);
    let sorted = sort_dates(vec![later, same_instant, a]);
    assert_eq!(sorted, vec![same_instant, a, later]);
}

#[test]
fn detection_looks_back_ninety_days() {
    assert_eq!(detection_window_start(&at(T0)), at(T0 - 90 * DAY));
}

#[test]
fn confirmed_subscriptions_and_alerts_keep_their_fields() {
    let s = confirm_subscription(
        "u1",
        "Netflix".to_string(),
        Amount::from_i32(649),
        "Monthly".to_string(),
        at(T0),
        at(T0 + 30 * DAY),
        Some("[\"netflix\"]".to_string()),
    );
    assert_eq!(s.user_id, "u1");
    assert_eq!(s.cycle, "Monthly");
    let a = configure_alert(&s.id, 3, "EMAIL".to_string());
    assert_eq!(a.subscription_id, s.id);
    assert_eq!(a.days_before, 3);
    assert!(a.sent_at.is_none());
}

#[test]
fn signed_statement_amounts_split_into_debit_and_credit() {
    let (d, c) = split_signed_amount(Amount::new(-1250, 2));
    assert_eq!(d, Some(Amount::new(1250, 2)));
    assert_eq!(c, None);
    let (d, c) = split_signed_amount(Amount::zero());
    assert_eq!(d, None);
    assert_eq!(c, Some(Amount::zero()));
    let r = new_statement_row("u1", at(T0), "UPI NETFLIX".to_string(), Amount::from_i32(-649));
    assert_eq!(r.debit, Some(Amount::from_i32(649)));
    assert_eq!(r.balance, Amount::zero());
    assert!(!r.is_matched);
}

#[test]
fn candidates_are_scored() {
    let r = row(Some(Amount::from_i32(649)), None, T0, "UPI-NETFLIX COM");
    let exact = charge("u1", Some("Netflix"), 64900, 2, T0);
    assert_eq!(score_match(&r, &exact), 100);
    let later = charge("u1", Some("Spotify"), 649, 0, T0 + DAY);
    assert_eq!(score_match(&r, &later), 80);
    let other_amount = charge("u1", None, 650, 0, T0);
    assert_eq!(score_match(&r, &other_amount), 80);
}

#[test]
fn row_matches_keep_candidates_in_order() {
    let r = row(None, Some(Amount::from_i32(100)), T0, "salary");
    let txns = vec![
        charge("u1", Some("Salary"), 100, 0, T0 + 3 * DAY),
        charge("u1", None, 100, 0, T0 + 3 * DAY + 1),
        charge("u2", None, 100, 0, T0),
        charge("u1", None, 99, 0, T0),
        charge("u1", None, 10000, 2, T0 - 3 * DAY),
    ];
    let m = rank_row_matches("u1", Some(r), txns).ok().unwrap();
    let got: Vec<(String, i32)> = m.iter().map(|(t, s)| (t.id.clone(), *s)).collect();
    assert_eq!(got, vec![(format!("t{}", T0 + 3 * DAY), 90), (format!("t{}", T0 - 3 * DAY), 80)]);
    assert!(matches!(rank_row_matches("u1", None, vec![]), Err(ServiceError::StatementRowNotFound)));
}

#[test]
fn match_window_spans_three_days() {
    assert_eq!(match_window(&at(T0)), (at(T0 - 3 * DAY), at(T0 + 3 * DAY)));
}

#[test]
fn confirming_marks_the_row() {
    let r = row(None, Some(Amount::from_i32(1)), T0, "x");
    let m = confirm_row_match(Some(r)).ok().unwrap();
    assert!(m.is_matched);
    assert!(matches!(confirm_row_match(None), Err(ServiceError::RowNotFound)));
    let rec = new_match_record("r1", "t1", 90, at(T0));
    assert_eq!(rec.confidence, Amount::from_i32(90));
    assert_eq!(rec.row_id, "r1");
}

#[test]
fn detection_spans_the_charges() {
    let secs = [T0 + 37 * DAY, T0, T0 + 7 * DAY];
    let txns: Vec<TransactionRecord> = secs.iter().map(|s| charge("u1", Some("Gym"), 10, 0, *s)).collect();
    let s = &detect_subscriptions("u1", &txns)[0];
    for x in secs {
        assert!(s.start_date.secs <= x);
        assert!(x < s.next_charge_date.secs);
    }
}

#[test]
fn next_charges_fit_only_where_a_cycle_shows() {
    let end = expent::time::MAX_SECS - 10 * DAY;
    assert!(next_charges_fit(&vec![charge("u1", None, 1, 0, T0), charge("u1", None, 1, 0, T0 + 30 * DAY)]));
    let monthly_at_end = vec![charge("u1", None, 1, 0, end - 30 * DAY), charge("u1", None, 1, 0, end)];
    assert!(!next_charges_fit(&monthly_at_end));
    let irregular_at_end = vec![charge("u1", None, 1, 0, end - 12 * DAY), charge("u1", None, 1, 0, end)];
    assert!(next_charges_fit(&irregular_at_end));
    let single_at_end = vec![charge("u1", None, 1, 0, end)];
    assert!(next_charges_fit(&single_at_end));
    assert!(next_charges_fit(&vec![]));
}
