//! Bank statement reconciliation: storing statement rows, finding and
//! scoring the transactions that may match a row, and confirming a match.
//!
//! A candidate for a row belongs to the same user, has the row's amount (in
//! magnitude) and lies within three days of the row's date. Its score starts
//! at 70 and gains 10 for the same amount, 10 for the very same instant and
//! 10 when its purpose, lower-cased, occurs in the row's lower-cased
//! description; it never exceeds 100.
use vstd::prelude::*;
use crate::errors::ServiceError;
use crate::money::Amount;
use crate::records::{TransactionRecord, TxnView};
use crate::text::seq_contains;
use crate::time::Timestamp;

verus! {

/// How many days either side of a row's date a candidate may lie.
pub const MATCH_WINDOW_DAYS: i64 = 3;

/// A bank statement row.
pub struct BankStatementRow {
    pub id: String,
    pub user_id: String,
    pub date: Timestamp,
    pub description: String,
    pub debit: Option<Amount>,
    pub credit: Option<Amount>,
    pub balance: Amount,
    pub is_matched: bool,
}

/// A confirmed match between a statement row and a transaction.
pub struct MatchRecord {
    pub row_id: String,
    pub transaction_id: String,
    pub confidence: Amount,
    pub matched_at: Timestamp,
}

/// A signed statement amount as debit and credit: a negative amount is a
/// debit of its magnitude, any other a credit of the amount as given (a
/// negative zero stays a negative zero).
pub open spec fn debit_credit(amount: Amount) -> (Option<Amount>, Option<Amount>) {
    if amount.value() < 0 {
        (Some(Amount { mantissa: (-amount.mantissa) as i128, scale: amount.scale, negative: false }), None)
    } else {
        (None, Some(amount))
    }
}

/// Splits a signed amount into debit and credit.
pub fn split_signed_amount(amount: Amount) -> (r: (Option<Amount>, Option<Amount>))
    requires
        amount.wf(),
    ensures
        r == debit_credit(amount),
{
    if amount.is_negative() {
        (Some(amount.abs()), None)
    } else {
        (None, Some(amount))
    }
}

/// A new, unmatched statement row of `user_id` for a signed amount. The
/// running balance is not tracked and is stored as zero.
pub fn new_statement_row(user_id: &str, date: Timestamp, description: String, amount: Amount) -> (row: BankStatementRow)
    requires
        amount.wf(),
    ensures
        row.user_id@ == user_id@,
        row.date == date,
        row.description == description,
        (row.debit, row.credit) == debit_credit(amount),
        row.balance == Amount::zero_spec(),
        !row.is_matched,
{
    let (debit, credit) = split_signed_amount(amount);
    BankStatementRow {
        id: crate::ids::new_id(),
        user_id: crate::text::owned(user_id),
        date,
        description,
        debit,
        credit,
        balance: Amount::zero(),
        is_matched: false,
    }
}

/// The amount a row is matched on: its debit, else its credit, else zero.
pub open spec fn row_amount(row: BankStatementRow) -> Amount {
    match row.debit {
        Some(d) => d,
        None => match row.credit {
            Some(c) => c,
            None => Amount::zero_spec(),
        },
    }
}

/// The magnitude of an amount, with the sign flag cleared.
pub open spec fn magnitude(a: Amount) -> Amount {
    if a.mantissa < 0 {
        Amount { mantissa: (-a.mantissa) as i128, scale: a.scale, negative: false }
    } else {
        Amount { negative: false, ..a }
    }
}

/// What `str::to_lowercase` gives for a text.
pub uninterp spec fn lowercase(s: Seq<char>) -> Seq<char>;

/// Lower-cases a text with the standard library's `str::to_lowercase`
/// (Unicode lower-casing). The result is named; the contract claims nothing
/// else of it.
#[verifier::external_body]
fn to_lowercase(s: &str) -> (r: String)
    ensures
        r@ == lowercase(s@),
{
    s.to_lowercase()
}

/// A transaction is a candidate for a row: same user, the row's amount in
/// magnitude, and a date within the window around the row's date.
pub open spec fn is_candidate(user_id: Seq<char>, row: BankStatementRow, t: TxnView) -> bool {
    &&& t.user_id == user_id
    &&& t.amount.value() == magnitude(row_amount(row)).value()
    &&& row.date.plus_days(-3).not_after(t.date)
    &&& t.date.not_after(row.date.plus_days(3))
}

/// The score of a candidate for a row.
pub open spec fn match_score(row: BankStatementRow, t: TxnView) -> int {
    let base = 70int;
    let a = if t.amount.value() == magnitude(row_amount(row)).value() { 10int } else { 0 };
    let d = if t.date.same_instant(row.date) { 10int } else { 0 };
    let n = match t.purpose_tag {
        Some(tag) => if seq_contains(lowercase(row.description@), lowercase(tag)) { 10int } else { 0 },
        None => 0,
    };
    let total = base + a + d + n;
    if total < 100 { total } else { 100 }
}

/// The row's amounts and date are ones a decimal and chrono can hold, and
/// the match window around the date stays within chrono's range.
pub open spec fn row_wf(row: BankStatementRow) -> bool {
    &&& row.debit matches Some(d) ==> d.wf()
    &&& row.credit matches Some(c) ==> c.wf()
    &&& row.date.wf()
    &&& row.date.can_add_days(-3)
    &&& row.date.can_add_days(3)
}

fn row_amount_exec(row: &BankStatementRow) -> (a: Amount)
    ensures
        a == row_amount(*row),
{
    match row.debit {
        Some(d) => d,
        None => match row.credit {
            Some(c) => c,
            None => Amount::zero(),
        },
    }
}

/// The earliest and latest dates of the window around a row's date.
pub fn match_window(date: &Timestamp) -> (w: (Timestamp, Timestamp))
    requires
        date.wf(),
        date.can_add_days(-3),
        date.can_add_days(3),
    ensures
        w.0 == date.plus_days(-3),
        w.1 == date.plus_days(3),
{
    (date.add_days(-MATCH_WINDOW_DAYS), date.add_days(MATCH_WINDOW_DAYS))
}

/// The score of candidate `t` for `row`.
pub fn score_match(row: &BankStatementRow, t: &TransactionRecord) -> (s: i32)
    requires
        row_wf(*row),
        t@.wf(),
    ensures
        s == match_score(*row, t@),
{
    let wanted = row_amount_exec(row).abs();
    let mut score: i32 = 70;
    if t.amount.same_value(&wanted) {
        score = score + 10;
    }
    if t.date.is_same_instant(&row.date) {
        score = score + 10;
    }
    match &t.purpose_tag {
        Some(tag) => {
            let hay = to_lowercase(row.description.as_str());
            let needle = to_lowercase(tag.as_str());
            if crate::text::contains_text(hay.as_str(), needle.as_str()) {
                score = score + 10;
            }
        },
        None => {},
    }
    if score < 100 {
        score
    } else {
        100
    }
}

/// The candidates among `txns`, in their order, each with its score.
pub open spec fn ranked(user_id: Seq<char>, row: BankStatementRow, txns: Seq<TxnView>) -> Seq<(TxnView, int)>
    decreases txns.len(),
{
    if txns.len() == 0 {
        Seq::empty()
    } else {
        ranked(user_id, row, txns.drop_last()) + if is_candidate(user_id, row, txns.last()) {
            seq![(txns.last(), match_score(row, txns.last()))]
        } else {
            Seq::empty()
        }
    }
}

/// Scores the transactions that may match a statement row. `row` is the row
/// found under the requested id, if any; `txns` are the transactions looked
/// up for it, of which the candidates are kept, in order.
pub fn rank_row_matches(user_id: &str, row: Option<BankStatementRow>, txns: Vec<TransactionRecord>) -> (r: Result<Vec<(TransactionRecord, i32)>, ServiceError>)
    requires
        row matches Some(rw) ==> row_wf(rw),
        forall|i: int| 0 <= i < txns.len() ==> (#[trigger] txns@[i])@.wf() && txns@[i].date.wf(),
    ensures
        row is None <==> r == Err::<Vec<(TransactionRecord, i32)>, ServiceError>(ServiceError::StatementRowNotFound),
        r matches Ok(v) ==> v@.map_values(|p: (TransactionRecord, i32)| (p.0@, p.1 as int))
            == ranked(user_id@, row->0, txns@.map_values(|t: TransactionRecord| t@)),
{
    let row = match row {
        Some(rw) => rw,
        None => {
            return Err(ServiceError::StatementRowNotFound);
        },
    };
    let (start, end) = match_window(&row.date);
    let wanted = row_amount_exec(&row).abs();
    let ghost tv = txns@.map_values(|t: TransactionRecord| t@);
    let mut out: Vec<(TransactionRecord, i32)> = Vec::new();
    let mut txns = txns;
    let mut rest: Vec<TransactionRecord> = Vec::new();
    // Take the transactions in order by reversing once.
    while txns.len() > 0
        invariant
            tv.len() == txns.len() + rest.len(),
            forall|i: int| 0 <= i < txns.len() ==> (#[trigger] txns@[i])@ == tv[i],
            forall|i: int| 0 <= i < rest.len() ==> (#[trigger] rest@[i])@ == tv[tv.len() - 1 - i],
        decreases txns.len(),
    {
        let t = txns.pop().unwrap();
        rest.push(t);
    }
    let mut k: usize = 0;
    while rest.len() > 0
        invariant
            tv.len() == k + rest.len(),
            tv.len() <= usize::MAX,
            forall|i: int| 0 <= i < rest.len() ==> (#[trigger] rest@[i])@ == tv[tv.len() - 1 - i],
            forall|i: int| 0 <= i < tv.len() ==> (#[trigger] tv[i]).wf() && tv[i].date.wf(),
            row_wf(row),
            start == row.date.plus_days(-3),
            end == row.date.plus_days(3),
            wanted == magnitude(row_amount(row)),
            out@.map_values(|p: (TransactionRecord, i32)| (p.0@, p.1 as int)) == ranked(user_id@, row, tv.take(k as int)),
        decreases rest.len(),
    {
        let t = rest.pop().unwrap();
        proof {
            assert(t@ == tv[k as int]);
            assert(tv.take(k + 1).drop_last() =~= tv.take(k as int));
            wanted.lemma_sign();
        }
        let ghost before = out@;
        let keep = crate::text::same_text(t.user_id.as_str(), user_id) && t.amount.same_value(&wanted)
            && !t.date.is_before(&start) && !end.is_before(&t.date);
        if keep {
            let s = score_match(&row, &t);
            out.push((t, s));
            proof {
                assert(out@.map_values(|p: (TransactionRecord, i32)| (p.0@, p.1 as int))
                    =~= before.map_values(|p: (TransactionRecord, i32)| (p.0@, p.1 as int)).push((tv[k as int], s as int)));
            }
        }
        k = k + 1;
    }
    assert(tv.take(tv.len() as int) =~= tv);
    Ok(out)
}

/// Marks the row found under the requested id as matched (the match itself
/// is recorded first, whether or not the row exists).
pub fn confirm_row_match(row: Option<BankStatementRow>) -> (r: Result<BankStatementRow, ServiceError>)
    ensures
        row is None <==> r is Err,
        r matches Err(e) ==> e == ServiceError::RowNotFound,
        r matches Ok(m) ==> m.is_matched && m.id == row->0.id && m.user_id == row->0.user_id && m.date == row->0.date
            && m.description == row->0.description && m.debit == row->0.debit && m.credit == row->0.credit
            && m.balance == row->0.balance,
{
    match row {
        Some(mut rw) => {
            rw.is_matched = true;
            Ok(rw)
        },
        None => Err(ServiceError::RowNotFound),
    }
}

/// The record of a confirmed match with the given confidence.
pub fn new_match_record(row_id: &str, txn_id: &str, confidence: i32, now: Timestamp) -> (m: MatchRecord)
    ensures
        m.row_id@ == row_id@,
        m.transaction_id@ == txn_id@,
        m.confidence == (Amount { mantissa: confidence as i128, scale: 0, negative: confidence < 0 }),
        m.matched_at == now,
{
    MatchRecord {
        row_id: crate::text::owned(row_id),
        transaction_id: crate::text::owned(txn_id),
        confidence: Amount::from_i32(confidence),
        matched_at: now,
    }
}

/// A row stored for a signed amount is matched on the magnitude of that
/// amount, whether it was stored as a debit or as a credit.
pub proof fn law_stored_row_matches_on_magnitude(row: BankStatementRow, amount: Amount)
    requires
        amount.wf(),
        (row.debit, row.credit) == debit_credit(amount),
    ensures
        magnitude(row_amount(row)).value() == if amount.value() < 0 { -amount.value() } else { amount.value() },
{
    amount.lemma_sign();
    let n = Amount { mantissa: (-amount.mantissa) as i128, scale: amount.scale, negative: false };
    n.lemma_sign();
    vstd::arithmetic::mul::lemma_mul_unary_negation(
        amount.mantissa as int,
        crate::money::pow10((crate::money::MAX_SCALE - amount.scale) as nat),
    );
}

/// Every candidate of a row scores between 80 and 100: the amount always
/// agrees.
pub proof fn law_candidate_scores(user_id: Seq<char>, row: BankStatementRow, t: TxnView)
    requires
        is_candidate(user_id, row, t),
    ensures
        80 <= match_score(row, t) <= 100,
{
}

/// Every transaction offered as a match for a row is one of the given
/// transactions, belongs to the user, has the row's amount in magnitude
/// (its debit, else its credit, else zero) and lies no more than three days
/// before or after the row's date; its score is between 80 and 100.
pub proof fn law_matches_lie_within_the_window(user_id: Seq<char>, row: BankStatementRow, txns: Seq<TxnView>, i: int)
    requires
        0 <= i < ranked(user_id, row, txns).len(),
        row.debit matches Some(d) ==> d.wf(),
        row.credit matches Some(c) ==> c.wf(),
    ensures
        ({
            let t = ranked(user_id, row, txns)[i].0;
            let wanted = match row.debit {
                Some(d) => d.value(),
                None => match row.credit {
                    Some(c) => c.value(),
                    None => 0,
                },
            };
            &&& txns.contains(t)
            &&& t.user_id == user_id
            &&& t.amount.value() == (if wanted < 0 { -wanted } else { wanted })
            &&& row.date.plus_days(-3).not_after(t.date)
            &&& t.date.not_after(row.date.plus_days(3))
            &&& 80 <= ranked(user_id, row, txns)[i].1 <= 100
        }),
    decreases txns.len(),
{
    let init = txns.drop_last();
    let prev = ranked(user_id, row, init);
    if i < prev.len() {
        law_matches_lie_within_the_window(user_id, row, init, i);
        assert(ranked(user_id, row, txns)[i] == prev[i]);
        let t = prev[i].0;
        let k = choose|k: int| 0 <= k < init.len() && init[k] == t;
        assert(txns[k] == t);
    } else {
        let t = txns.last();
        assert(ranked(user_id, row, txns)[i] == (t, match_score(row, t)));
        assert(txns[txns.len() - 1] == t);
        let a = row_amount(row);
        vstd::arithmetic::mul::lemma_mul_unary_negation(
            a.mantissa as int,
            crate::money::pow10((crate::money::MAX_SCALE - a.scale) as nat),
        );
        a.lemma_sign();
    }
}

} // verus!
