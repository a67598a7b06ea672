//! Ledger tabs: running balances owed between people, paid off by
//! repayments. A tab whose repayments reach its target is settled; one with
//! some repayment is partially paid.
use vstd::prelude::*;
use crate::enums::{LedgerTabStatus, TransactionDirection, TransactionSource, TransactionStatus};
use crate::errors::ServiceError;
use crate::money::{sum_spec, Amount};
use crate::records::TransactionRecord;
use crate::time::Timestamp;

verus! {

/// A ledger tab.
pub struct LedgerTabRecord {
    pub id: String,
    pub creator_id: String,
    pub counterparty_id: Option<String>,
    /// The display name of the tab's type.
    pub tab_type: String,
    pub title: String,
    pub description: Option<String>,
    pub target_amount: Amount,
    /// The display name of the tab's status.
    pub status: String,
    pub created_at: Timestamp,
    pub updated_at: Timestamp,
}

/// A new open tab.
pub fn new_ledger_tab(
    creator_id: &str,
    counterparty_id: Option<String>,
    tab_type: String,
    title: &str,
    description: Option<String>,
    target_amount: Amount,
    now: Timestamp,
) -> (t: LedgerTabRecord)
    ensures
        t.creator_id@ == creator_id@,
        t.counterparty_id == counterparty_id,
        t.tab_type == tab_type,
        t.title@ == title@,
        t.description == description,
        t.target_amount == target_amount,
        t.status@ == LedgerTabStatus::Open.display_text(),
        t.created_at == now,
        t.updated_at == now,
{
    LedgerTabRecord {
        id: crate::ids::new_id(),
        creator_id: crate::text::owned(creator_id),
        counterparty_id,
        tab_type,
        title: crate::text::owned(title),
        description,
        target_amount,
        status: crate::text::owned(LedgerTabStatus::Open.display_name()),
        created_at: now,
        updated_at: now,
    }
}

/// The purpose text of a repayment of the tab titled `title`.
pub open spec fn repayment_purpose(title: Seq<char>) -> Seq<char> {
    "Repayment for: "@ + title
}

/// Records a repayment of `amount` by `user_id` on the tab found under the
/// requested id (if any): a completed, manual, incoming transaction dated
/// `now`, from `source_wallet_id`, linked to the tab.
pub fn plan_repayment(user_id: &str, tab: &Option<LedgerTabRecord>, amount: Amount, source_wallet_id: Option<String>, now: Timestamp) -> (r: Result<TransactionRecord, ServiceError>)
    ensures
        tab is None <==> r is Err,
        r matches Err(e) ==> e == ServiceError::LedgerTabNotFound,
        r matches Ok(t) ==> {
            &&& t@.user_id == user_id@
            &&& t@.amount == amount
            &&& t@.direction == TransactionDirection::In
            &&& t@.date == now
            &&& t@.source == TransactionSource::Manual
            &&& t@.status == TransactionStatus::Completed
            &&& t@.category_id is None
            &&& t@.purpose_tag == Some(repayment_purpose(tab->0.title@))
            &&& t@.group_id is None
            &&& t@.source_wallet_id == source_wallet_id.deep_view()
            &&& t@.destination_wallet_id is None
            &&& t@.ledger_tab_id == Some(tab->0.id@)
            &&& t@.deleted_at is None
            &&& t@.notes is None
        },
{
    let tab = match tab {
        Some(t) => t,
        None => {
            return Err(ServiceError::LedgerTabNotFound);
        },
    };
    let mut purpose = crate::text::owned("Repayment for: ");
    purpose.append(tab.title.as_str());
    Ok(TransactionRecord {
        id: crate::ids::new_id(),
        user_id: crate::text::owned(user_id),
        amount,
        direction: TransactionDirection::In,
        date: now,
        source: TransactionSource::Manual,
        status: TransactionStatus::Completed,
        category_id: None,
        purpose_tag: Some(purpose),
        group_id: None,
        source_wallet_id,
        destination_wallet_id: None,
        ledger_tab_id: Some(tab.id.clone()),
        deleted_at: None,
        notes: None,
    })
}

/// The status a tab takes when `paid` has been repaid against `target`:
/// settled once the target is reached, partially paid while something but
/// not all is repaid, and unchanged (`None`) otherwise.
pub open spec fn status_after(paid: Amount, target: Amount) -> Option<LedgerTabStatus> {
    if paid.value() >= target.value() {
        Some(LedgerTabStatus::Settled)
    } else if paid.value() > 0 {
        Some(LedgerTabStatus::PartiallyPaid)
    } else {
        None
    }
}

/// The status a tab takes for a total repaid.
pub fn tab_status_after(paid: &Amount, target: &Amount) -> (s: Option<LedgerTabStatus>)
    requires
        paid.wf(),
        target.wf(),
    ensures
        s == status_after(*paid, *target),
{
    if paid.at_least(target) {
        Some(LedgerTabStatus::Settled)
    } else if paid.is_positive() {
        Some(LedgerTabStatus::PartiallyPaid)
    } else {
        None
    }
}

/// The status a tab takes given the amounts of all its (not deleted)
/// transactions: they are summed as decimals and compared with the target.
/// `None` where the sum overflows a decimal.
pub fn tab_status_for_payments(target: &Amount, paid: &Vec<Amount>) -> (s: Option<Option<LedgerTabStatus>>)
    requires
        target.wf(),
        forall|i: int| 0 <= i < paid.len() ==> (#[trigger] paid@[i]).wf(),
    ensures
        match sum_spec(paid@) {
            Some(total) => s == Some(status_after(total, *target)),
            None => s is None,
        },
{
    match crate::money::sum_amounts(paid) {
        Some(total) => Some(tab_status_after(&total, target)),
        None => None,
    }
}

/// Once the repayments reach the target, the tab is settled; a tab is never
/// marked partially paid when nothing positive has been repaid.
pub proof fn law_tab_status_follows_payments(paid: Amount, target: Amount)
    ensures
        paid.value() >= target.value() ==> status_after(paid, target) == Some(LedgerTabStatus::Settled),
        status_after(paid, target) == Some(LedgerTabStatus::PartiallyPaid) ==> 0 < paid.value() < target.value(),
        status_after(paid, target) is None ==> paid.value() <= 0 && paid.value() < target.value(),
{
}

} // verus!
