//! Rows of the data model as plain values, with their views.
use vstd::prelude::*;
use crate::enums::{TransactionDirection, TransactionSource, TransactionStatus};
use crate::money::Amount;
use crate::time::Timestamp;

verus! {

/// An owned copy of an optional string.
pub fn copy_opt(o: &Option<String>) -> (r: Option<String>)
    ensures
        r.deep_view() == o.deep_view(),
{
    match o {
        Some(s) => Some(s.clone()),
        None => None,
    }
}

/// A transaction row.
pub struct TransactionRecord {
    pub id: String,
    pub user_id: String,
    pub amount: Amount,
    pub direction: TransactionDirection,
    pub date: Timestamp,
    pub source: TransactionSource,
    pub status: TransactionStatus,
    pub purpose_tag: Option<String>,
    pub category_id: Option<String>,
    pub group_id: Option<String>,
    pub source_wallet_id: Option<String>,
    pub destination_wallet_id: Option<String>,
    pub ledger_tab_id: Option<String>,
    pub deleted_at: Option<Timestamp>,
    pub notes: Option<String>,
}

/// The view of a transaction row: its fields with strings as `Seq<char>`.
pub struct TxnView {
    pub id: Seq<char>,
    pub user_id: Seq<char>,
    pub amount: Amount,
    pub direction: TransactionDirection,
    pub date: Timestamp,
    pub source: TransactionSource,
    pub status: TransactionStatus,
    pub purpose_tag: Option<Seq<char>>,
    pub category_id: Option<Seq<char>>,
    pub group_id: Option<Seq<char>>,
    pub source_wallet_id: Option<Seq<char>>,
    pub destination_wallet_id: Option<Seq<char>>,
    pub ledger_tab_id: Option<Seq<char>>,
    pub deleted_at: Option<Timestamp>,
    pub notes: Option<Seq<char>>,
}

impl View for TransactionRecord {
    type V = TxnView;

    open spec fn view(&self) -> TxnView {
        TxnView {
            id: self.id@,
            user_id: self.user_id@,
            amount: self.amount,
            direction: self.direction,
            date: self.date,
            source: self.source,
            status: self.status,
            purpose_tag: self.purpose_tag.deep_view(),
            category_id: self.category_id.deep_view(),
            group_id: self.group_id.deep_view(),
            source_wallet_id: self.source_wallet_id.deep_view(),
            destination_wallet_id: self.destination_wallet_id.deep_view(),
            ledger_tab_id: self.ledger_tab_id.deep_view(),
            deleted_at: self.deleted_at,
            notes: self.notes.deep_view(),
        }
    }
}

impl TxnView {
    /// The amount can be held by a decimal.
    pub open spec fn wf(self) -> bool {
        self.amount.wf()
    }

    /// The transaction counts toward wallet balances (it is not cancelled).
    pub open spec fn is_active(self) -> bool {
        self.status != TransactionStatus::Cancelled
    }
}

impl TransactionRecord {
    /// A field-by-field copy.
    pub fn duplicate(&self) -> (r: TransactionRecord)
        ensures
            r@ == self@,
    {
        TransactionRecord {
            id: self.id.clone(),
            user_id: self.user_id.clone(),
            amount: self.amount,
            direction: self.direction,
            date: self.date,
            source: self.source,
            status: self.status,
            purpose_tag: copy_opt(&self.purpose_tag),
            category_id: copy_opt(&self.category_id),
            group_id: copy_opt(&self.group_id),
            source_wallet_id: copy_opt(&self.source_wallet_id),
            destination_wallet_id: copy_opt(&self.destination_wallet_id),
            ledger_tab_id: copy_opt(&self.ledger_tab_id),
            deleted_at: self.deleted_at,
            notes: copy_opt(&self.notes),
        }
    }
}

/// A counterparty link between a transaction and a contact.
pub struct PartyRecord {
    pub id: String,
    pub transaction_id: String,
    pub user_id: Option<String>,
    pub contact_id: Option<String>,
    pub role: String,
}

/// The role that marks a counterparty link.
pub open spec fn counterparty_role() -> Seq<char> {
    "COUNTERPARTY"@
}

impl PartyRecord {
    /// A fresh counterparty link of `transaction_id` to `contact_id`.
    pub fn counterparty(transaction_id: &String, contact_id: String) -> (r: PartyRecord)
        ensures
            r.transaction_id@ == transaction_id@,
            r.user_id is None,
            r.contact_id == Some(contact_id),
            r.role@ == counterparty_role(),
    {
        PartyRecord {
            id: crate::ids::new_id(),
            transaction_id: transaction_id.clone(),
            user_id: None,
            contact_id: Some(contact_id),
            role: crate::text::owned("COUNTERPARTY"),
        }
    }
}

/// A change of a wallet's balance by a signed amount.
pub struct WalletDelta {
    pub wallet_id: String,
    pub delta: Amount,
}

impl View for WalletDelta {
    type V = (Seq<char>, Amount);

    open spec fn view(&self) -> (Seq<char>, Amount) {
        (self.wallet_id@, self.delta)
    }
}

} // verus!
