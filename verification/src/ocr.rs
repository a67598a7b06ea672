//! Turning OCR results into transactions.
//!
//! A Google Pay screenshot (`GPAY`) gives a payment with its counterparty: a
//! counterparty known by UPI id is reused, an unknown one becomes a new
//! contact linked to the user; the payment is recorded with its transfer
//! details, and a payment to a merchant also as a purchase. Any other
//! document is read as a generic receipt: an outgoing payment to its vendor,
//! with a purchase and its line items.
//!
//! A screenshot of a payment that is already on record (a transaction of the
//! same user whose transfer has the same UPI transaction id) is merged into
//! that transaction: nothing new is recorded.
use vstd::prelude::*;
use crate::contacts::{ContactLinkRecord, ContactRecord, IdentifierRecord};
use crate::enums::{TransactionDirection, TransactionSource, TransactionStatus};
use crate::money::Amount;
use crate::records::{counterparty_role, PartyRecord, TransactionRecord};
use crate::time::{receipt_datetime_parse, Timestamp};

verus! {

/// One line of a purchase.
pub struct LineItem {
    pub name: String,
    pub quantity: i32,
    pub price: Amount,
}

/// A generic OCR reading of a receipt.
pub struct OcrResult {
    pub raw_text: String,
    pub vendor: Option<String>,
    pub amount: Option<Amount>,
    pub date: Option<Timestamp>,
    pub upi_id: Option<String>,
    pub items: Vec<LineItem>,
    pub wallet_id: Option<String>,
    pub category_id: Option<String>,
}

/// What a Google Pay screenshot shows.
pub struct GPayExtraction {
    pub amount: Amount,
    /// `IN` or `OUT`.
    pub direction: String,
    pub datetime_str: Option<String>,
    pub status: Option<String>,
    pub counterparty_name: String,
    pub counterparty_phone: Option<String>,
    pub counterparty_upi_id: Option<String>,
    pub is_merchant: bool,
    pub upi_transaction_id: Option<String>,
    pub google_transaction_id: Option<String>,
    pub source_bank_account: Option<String>,
    pub wallet_id: Option<String>,
    pub category_id: Option<String>,
}

/// OCR output as the worker hands it over.
pub struct ProcessedOcr {
    /// `GPAY` or `GENERIC`.
    pub doc_type: String,
    /// The extracted data, as JSON text.
    pub data: String,
    pub r2_key: Option<String>,
}

/// The transaction created from OCR output, and whether a contact was
/// created for it.
pub struct OcrTransactionResponse {
    pub transaction: TransactionRecord,
    pub contact_created: bool,
}

/// Where a transaction came from: the stored file and the raw OCR data.
pub struct TransactionSourceRecord {
    pub id: String,
    pub transaction_id: String,
    pub source_type: String,
    pub r2_file_url: Option<String>,
    pub raw_metadata: Option<String>,
}

/// The transfer details of a payment.
pub struct TransferRecord {
    pub id: String,
    pub transaction_id: String,
    pub direction: String,
    pub counterparty_name: String,
    pub counterparty_phone: Option<String>,
    pub counterparty_upi_id: Option<String>,
    pub is_merchant: bool,
    pub upi_transaction_id: Option<String>,
    pub google_transaction_id: Option<String>,
    pub source_bank_account: Option<String>,
}

/// A purchase.
pub struct PurchaseRecord {
    pub id: String,
    pub transaction_id: String,
    pub vendor: String,
    pub total: Amount,
    pub order_id: Option<String>,
}

/// A line of a purchase.
pub struct PurchaseItemRecord {
    pub id: String,
    pub purchase_id: String,
    pub name: String,
    pub quantity: i32,
    pub price: Amount,
    pub sku: Option<String>,
}

/// The document is a Google Pay screenshot.
pub fn is_gpay(doc_type: &str) -> (r: bool)
    ensures
        r == (doc_type@ == "GPAY"@),
{
    crate::text::same_text(doc_type, "GPAY")
}

/// The direction a screenshot shows: incoming for `IN`, else outgoing.
pub open spec fn gpay_direction(d: Seq<char>) -> TransactionDirection {
    if d == "IN"@ {
        TransactionDirection::In
    } else {
        TransactionDirection::Out
    }
}

/// The date a screenshot shows, if its date text can be read.
pub open spec fn gpay_date(s: Option<Seq<char>>) -> Option<Timestamp> {
    match s {
        Some(t) => match receipt_datetime_parse(t) {
            Some(p) => Some(Timestamp { secs: p.0, nanos: p.1, offset_secs: 0 }),
            None => None,
        },
        None => None,
    }
}

/// A new contact for an unknown counterparty, with its UPI identifier and
/// its link to the user.
pub struct NewCounterparty {
    pub contact: ContactRecord,
    pub identifier: IdentifierRecord,
    pub link: ContactLinkRecord,
}

/// The rows that recording a Google Pay screenshot writes.
pub struct GPayPlan {
    pub new_contact: Option<NewCounterparty>,
    pub txn: TransactionRecord,
    pub source: TransactionSourceRecord,
    pub party: Option<PartyRecord>,
    pub transfer: TransferRecord,
    pub purchase: Option<PurchaseRecord>,
    pub contact_created: bool,
}

/// The counterparty link names contact `c`.
pub open spec fn links_party(party: Option<PartyRecord>, c: Seq<char>) -> bool {
    match party {
        Some(q) => q.contact_id.deep_view() == Some(c),
        None => false,
    }
}

/// The plan creates a contact for the counterparty named `name` with phone
/// `phone`, identified by UPI id `upi` and linked to `user_id`, and links the
/// transaction to it.
pub open spec fn creates_counterparty(p: GPayPlan, name: Seq<char>, phone: Option<Seq<char>>, upi: Seq<char>, user_id: Seq<char>) -> bool {
    match p.new_contact {
        Some(n) => {
            &&& n.contact.name@ == name
            &&& n.contact.phone.deep_view() == phone
            &&& !n.contact.is_pinned
            &&& n.identifier.contact_id@ == n.contact.id@
            &&& n.identifier.id_type@ == "UPI"@
            &&& n.identifier.value@ == upi
            &&& n.identifier.linked_user_id is None
            &&& n.link.user_id@ == user_id
            &&& n.link.contact_id@ == n.contact.id@
            &&& links_party(p.party, n.contact.id@)
        },
        None => false,
    }
}

/// `p` records the Google Pay screenshot `gpay` for `user_id`, as
/// `plan_gpay` describes.
pub open spec fn plans_gpay(
    p: GPayPlan,
    user_id: Seq<char>,
    gpay: GPayExtraction,
    known_contact: Option<String>,
    raw_data: String,
    r2_key: Option<String>,
    now: Timestamp,
) -> bool {
    // the counterparty: reused, created, or absent
    &&& match gpay.counterparty_upi_id {
        None => p.new_contact is None && p.party is None && !p.contact_created,
        Some(upi) => match known_contact {
            Some(c) => p.new_contact is None && !p.contact_created && links_party(p.party, c@),
            None => p.contact_created && creates_counterparty(p, gpay.counterparty_name@, gpay.counterparty_phone.deep_view(), upi@, user_id),
        },
    }
    &&& (p.party matches Some(q) ==> q.transaction_id@ == p.txn@.id && q.user_id is None && q.role@ == counterparty_role())
    // the transaction
    &&& p.txn@.user_id == user_id
    &&& p.txn@.amount == gpay.amount
    &&& p.txn@.direction == gpay_direction(gpay.direction@)
    &&& p.txn@.date == match gpay_date(gpay.datetime_str.deep_view()) { Some(d) => d, None => now }
    &&& p.txn@.source == TransactionSource::Ocr
    &&& p.txn@.status == TransactionStatus::Completed
    &&& p.txn@.category_id is None
    &&& p.txn@.purpose_tag is None
    &&& p.txn@.group_id is None
    &&& p.txn@.source_wallet_id is None
    &&& p.txn@.destination_wallet_id is None
    &&& p.txn@.ledger_tab_id is None
    &&& p.txn@.deleted_at is None
    &&& p.txn@.notes is None
    // where it came from
    &&& p.source.transaction_id@ == p.txn@.id
    &&& p.source.source_type@ == "GPAY_OCR"@
    &&& p.source.r2_file_url == r2_key
    &&& p.source.raw_metadata == Some(raw_data)
    // the transfer
    &&& p.transfer.transaction_id@ == p.txn@.id
    &&& p.transfer.direction == gpay.direction
    &&& p.transfer.counterparty_name@ == gpay.counterparty_name@
    &&& p.transfer.counterparty_phone == gpay.counterparty_phone
    &&& p.transfer.counterparty_upi_id == gpay.counterparty_upi_id
    &&& p.transfer.is_merchant == gpay.is_merchant
    &&& p.transfer.upi_transaction_id == gpay.upi_transaction_id
    &&& p.transfer.google_transaction_id == gpay.google_transaction_id
    &&& p.transfer.source_bank_account == gpay.source_bank_account
    // the purchase, for a merchant
    &&& (gpay.is_merchant <==> p.purchase is Some)
    &&& (p.purchase matches Some(pu) ==> pu.transaction_id@ == p.txn@.id && pu.vendor@ == gpay.counterparty_name@
        && pu.total == gpay.amount && pu.order_id is None)
}

/// A screenshot is recorded as money received exactly when its direction
/// text is `IN`; any other text (such as `OUT`) is money sent.
pub proof fn law_screenshot_direction(
    p: GPayPlan,
    user_id: Seq<char>,
    gpay: GPayExtraction,
    known_contact: Option<String>,
    raw_data: String,
    r2_key: Option<String>,
    now: Timestamp,
)
    requires
        plans_gpay(p, user_id, gpay, known_contact, raw_data, r2_key, now),
    ensures
        gpay.direction@ == "IN"@ ==> p.txn@.direction == TransactionDirection::In,
        gpay.direction@ != "IN"@ ==> p.txn@.direction == TransactionDirection::Out,
        p.transfer.direction == gpay.direction,
{
}

/// Records a Google Pay screenshot for `user_id`. `known_contact` is the
/// contact found owning the screenshot's UPI id, if the screenshot has one
/// and a contact owns it; `raw_data` is the screenshot's JSON text and
/// `r2_key` the stored file.
pub fn plan_gpay(user_id: &str, gpay: GPayExtraction, known_contact: Option<String>, raw_data: String, r2_key: Option<String>, now: Timestamp) -> (p: GPayPlan)
    ensures
        plans_gpay(p, user_id@, gpay, known_contact, raw_data, r2_key, now),
{
    let mut contact_created = false;
    let mut new_contact: Option<NewCounterparty> = None;
    let contact_id: Option<String> = match &gpay.counterparty_upi_id {
        Some(upi) => match known_contact {
            Some(c) => Some(c),
            None => {
                let contact = ContactRecord {
                    id: crate::ids::new_id(),
                    name: gpay.counterparty_name.clone(),
                    phone: crate::records::copy_opt(&gpay.counterparty_phone),
                    is_pinned: false,
                };
                let identifier = IdentifierRecord {
                    id: crate::ids::new_id(),
                    contact_id: contact.id.clone(),
                    id_type: crate::text::owned("UPI"),
                    value: upi.clone(),
                    linked_user_id: None,
                };
                let link = ContactLinkRecord { user_id: crate::text::owned(user_id), contact_id: contact.id.clone() };
                let cid = contact.id.clone();
                contact_created = true;
                new_contact = Some(NewCounterparty { contact, identifier, link });
                Some(cid)
            },
        },
        None => None,
    };
    let direction = if crate::text::same_text(gpay.direction.as_str(), "IN") {
        TransactionDirection::In
    } else {
        TransactionDirection::Out
    };
    let date = match &gpay.datetime_str {
        Some(s) => match crate::time::parse_receipt_datetime(s.as_str()) {
            Some(d) => d,
            None => now,
        },
        None => now,
    };
    let txn = TransactionRecord {
        id: crate::ids::new_id(),
        user_id: crate::text::owned(user_id),
        amount: gpay.amount,
        direction,
        date,
        source: TransactionSource::Ocr,
        status: TransactionStatus::Completed,
        category_id: None,
        purpose_tag: None,
        group_id: None,
        source_wallet_id: None,
        destination_wallet_id: None,
        ledger_tab_id: None,
        deleted_at: None,
        notes: None,
    };
    let source = TransactionSourceRecord {
        id: crate::ids::new_id(),
        transaction_id: txn.id.clone(),
        source_type: crate::text::owned("GPAY_OCR"),
        r2_file_url: r2_key,
        raw_metadata: Some(raw_data),
    };
    let party = match contact_id {
        Some(c) => Some(PartyRecord::counterparty(&txn.id, c)),
        None => None,
    };
    let purchase = if gpay.is_merchant {
        Some(PurchaseRecord {
            id: crate::ids::new_id(),
            transaction_id: txn.id.clone(),
            vendor: gpay.counterparty_name.clone(),
            total: gpay.amount,
            order_id: None,
        })
    } else {
        None
    };
    let transfer = TransferRecord {
        id: crate::ids::new_id(),
        transaction_id: txn.id.clone(),
        direction: gpay.direction,
        counterparty_name: gpay.counterparty_name,
        counterparty_phone: gpay.counterparty_phone,
        counterparty_upi_id: gpay.counterparty_upi_id,
        is_merchant: gpay.is_merchant,
        upi_transaction_id: gpay.upi_transaction_id,
        google_transaction_id: gpay.google_transaction_id,
        source_bank_account: gpay.source_bank_account,
    };
    GPayPlan { new_contact, txn, source, party, transfer, purchase, contact_created }
}

/// A payment already on record: one of the user's transactions, with the
/// UPI transaction id of its transfer details (if it has any).
pub struct RecordedPayment {
    pub transaction: TransactionRecord,
    pub upi_transaction_id: Option<String>,
}

/// `r` is the payment a screenshot with UPI transaction id `upi` shows, for
/// `user_id`: a transaction of that user, not deleted, whose transfer has
/// that UPI transaction id. A screenshot without one matches nothing.
pub open spec fn same_payment(user_id: Seq<char>, upi: Option<Seq<char>>, r: RecordedPayment) -> bool {
    &&& upi is Some
    &&& r.upi_transaction_id.deep_view() == upi
    &&& r.transaction.user_id@ == user_id
    &&& r.transaction.deleted_at is None
}

/// The transaction a screenshot is merged into: the first of `recorded`
/// that is the same payment, or `None` where none is and the screenshot is
/// recorded anew.
pub fn merge_target(user_id: &str, upi_transaction_id: &Option<String>, recorded: Vec<RecordedPayment>) -> (r: Option<TransactionRecord>)
    ensures
        r is None <==> forall|j: int| 0 <= j < recorded.len() ==> !same_payment(user_id@, upi_transaction_id.deep_view(), #[trigger] recorded@[j]),
        r matches Some(t) ==> exists|i: int| {
            &&& 0 <= i < recorded.len()
            &&& same_payment(user_id@, upi_transaction_id.deep_view(), #[trigger] recorded@[i])
            &&& forall|j: int| 0 <= j < i ==> !same_payment(user_id@, upi_transaction_id.deep_view(), #[trigger] recorded@[j])
            &&& t == recorded@[i].transaction
        },
{
    let upi = match upi_transaction_id {
        Some(u) => u,
        None => {
            return None;
        },
    };
    let mut i: usize = 0;
    while i < recorded.len()
        invariant
            i <= recorded.len(),
            upi_transaction_id.deep_view() == Some(upi@),
            forall|j: int| 0 <= j < i ==> !same_payment(user_id@, upi_transaction_id.deep_view(), #[trigger] recorded@[j]),
        decreases recorded.len() - i,
    {
        let r = &recorded[i];
        let same_upi = match &r.upi_transaction_id {
            Some(x) => crate::text::same_text(x.as_str(), upi.as_str()),
            None => false,
        };
        if same_upi && crate::text::same_text(r.transaction.user_id.as_str(), user_id) && r.transaction.deleted_at.is_none() {
            let mut recorded = recorded;
            let ghost before = recorded@;
            let found = recorded.swap_remove(i);
            assert(found == before[i as int]);
            return Some(found.transaction);
        }
        i = i + 1;
    }
    None
}

/// A screenshot with a UPI transaction id, once recorded, is the same
/// payment when it comes again: processing it a second time merges it into
/// the transaction recorded the first time rather than recording it twice.
pub proof fn law_recorded_screenshot_merges_next_time(
    p: GPayPlan,
    user_id: Seq<char>,
    gpay: GPayExtraction,
    known_contact: Option<String>,
    raw_data: String,
    r2_key: Option<String>,
    now: Timestamp,
)
    requires
        plans_gpay(p, user_id, gpay, known_contact, raw_data, r2_key, now),
        gpay.upi_transaction_id is Some,
    ensures
        same_payment(user_id, gpay.upi_transaction_id.deep_view(), RecordedPayment { transaction: p.txn, upi_transaction_id: p.transfer.upi_transaction_id }),
{
}

/// What becomes of a Google Pay screenshot.
pub enum GPayOutcome {
    /// It is a payment already on record: this transaction.
    Merged(TransactionRecord),
    /// It is recorded anew.
    Recorded(GPayPlan),
}

/// Processes a Google Pay screenshot for `user_id`: merged into the payment
/// already on record among `recorded` (see `merge_target`), else recorded as
/// `plan_gpay` does.
pub fn process_gpay(
    user_id: &str,
    gpay: GPayExtraction,
    recorded: Vec<RecordedPayment>,
    known_contact: Option<String>,
    raw_data: String,
    r2_key: Option<String>,
    now: Timestamp,
) -> (r: GPayOutcome)
    ensures
        (forall|j: int| 0 <= j < recorded.len() ==> !same_payment(user_id@, gpay.upi_transaction_id.deep_view(), #[trigger] recorded@[j]))
            <==> r is Recorded,
        r matches GPayOutcome::Recorded(p) ==> plans_gpay(p, user_id@, gpay, known_contact, raw_data, r2_key, now),
        r matches GPayOutcome::Merged(t) ==> exists|i: int| {
            &&& 0 <= i < recorded.len()
            &&& same_payment(user_id@, gpay.upi_transaction_id.deep_view(), #[trigger] recorded@[i])
            &&& forall|j: int| 0 <= j < i ==> !same_payment(user_id@, gpay.upi_transaction_id.deep_view(), #[trigger] recorded@[j])
            &&& t == recorded@[i].transaction
        },
{
    match merge_target(user_id, &gpay.upi_transaction_id, recorded) {
        Some(t) => GPayOutcome::Merged(t),
        None => GPayOutcome::Recorded(plan_gpay(user_id, gpay, known_contact, raw_data, r2_key, now)),
    }
}

/// The rows that recording a generic receipt writes.
pub struct GenericPlan {
    pub txn: TransactionRecord,
    pub source: TransactionSourceRecord,
    pub purchase: PurchaseRecord,
    pub items: Vec<PurchaseItemRecord>,
}

/// Records a generic receipt for `user_id`: an outgoing payment of its
/// amount (zero if unread) to its vendor, dated by the receipt (or `now`), a
/// purchase from the vendor (`Unknown` if unread) and its line items.
pub fn plan_generic(user_id: &str, receipt: OcrResult, raw_data: String, r2_key: Option<String>, now: Timestamp) -> (p: GenericPlan)
    ensures
        p.txn@.user_id == user_id@,
        p.txn@.amount == match receipt.amount { Some(a) => a, None => Amount::zero_spec() },
        p.txn@.direction == TransactionDirection::Out,
        receipt.date matches Some(d) ==> p.txn@.date == d,
        receipt.date is None ==> p.txn@.date == now,
        p.txn@.source == TransactionSource::Ocr,
        p.txn@.status == TransactionStatus::Completed,
        p.txn@.category_id is None,
        p.txn@.purpose_tag == receipt.vendor.deep_view(),
        p.txn@.group_id is None,
        p.txn@.source_wallet_id is None,
        p.txn@.destination_wallet_id is None,
        p.txn@.ledger_tab_id is None,
        p.txn@.deleted_at is None,
        p.txn@.notes is None,
        p.source.transaction_id@ == p.txn@.id,
        p.source.source_type@ == "GENERIC_OCR"@,
        p.source.r2_file_url == r2_key,
        p.source.raw_metadata == Some(raw_data),
        p.purchase.transaction_id@ == p.txn@.id,
        p.purchase.vendor@ == match receipt.vendor { Some(v) => v@, None => "Unknown"@ },
        p.purchase.total == p.txn@.amount,
        p.purchase.order_id is None,
        p.items.len() == receipt.items.len(),
        forall|i: int| 0 <= i < p.items.len() ==> {
            &&& (#[trigger] p.items@[i]).purchase_id@ == p.purchase.id@
            &&& p.items@[i].name == receipt.items@[i].name
            &&& p.items@[i].quantity == receipt.items@[i].quantity
            &&& p.items@[i].price == receipt.items@[i].price
            &&& p.items@[i].sku is None
        },
{
    let amount = match receipt.amount {
        Some(a) => a,
        None => Amount::zero(),
    };
    let date = match receipt.date {
        Some(d) => d,
        None => now,
    };
    let txn = TransactionRecord {
        id: crate::ids::new_id(),
        user_id: crate::text::owned(user_id),
        amount,
        direction: TransactionDirection::Out,
        date,
        source: TransactionSource::Ocr,
        status: TransactionStatus::Completed,
        category_id: None,
        purpose_tag: crate::records::copy_opt(&receipt.vendor),
        group_id: None,
        source_wallet_id: None,
        destination_wallet_id: None,
        ledger_tab_id: None,
        deleted_at: None,
        notes: None,
    };
    let source = TransactionSourceRecord {
        id: crate::ids::new_id(),
        transaction_id: txn.id.clone(),
        source_type: crate::text::owned("GENERIC_OCR"),
        r2_file_url: r2_key,
        raw_metadata: Some(raw_data),
    };
    let vendor = match receipt.vendor {
        Some(v) => v,
        None => crate::text::owned("Unknown"),
    };
    let purchase = PurchaseRecord { id: crate::ids::new_id(), transaction_id: txn.id.clone(), vendor, total: amount, order_id: None };
    let mut lines = receipt.items;
    let ghost given = lines@;
    let mut reversed: Vec<LineItem> = Vec::new();
    while lines.len() > 0
        invariant
            given.len() == lines.len() + reversed.len(),
            forall|i: int| 0 <= i < lines.len() ==> #[trigger] lines@[i] == given[i],
            forall|i: int| 0 <= i < reversed.len() ==> #[trigger] reversed@[i] == given[given.len() - 1 - i],
        decreases lines.len(),
    {
        let l = lines.pop().unwrap();
        reversed.push(l);
    }
    let mut items: Vec<PurchaseItemRecord> = Vec::new();
    while reversed.len() > 0
        invariant
            given.len() == items.len() + reversed.len(),
            forall|i: int| 0 <= i < reversed.len() ==> #[trigger] reversed@[i] == given[given.len() - 1 - i],
            forall|i: int| 0 <= i < items.len() ==> {
                &&& (#[trigger] items@[i]).purchase_id@ == purchase.id@
                &&& items@[i].name == given[i].name
                &&& items@[i].quantity == given[i].quantity
                &&& items@[i].price == given[i].price
                &&& items@[i].sku is None
            },
        decreases reversed.len(),
    {
        let l = reversed.pop().unwrap();
        items.push(PurchaseItemRecord {
            id: crate::ids::new_id(),
            purchase_id: purchase.id.clone(),
            name: l.name,
            quantity: l.quantity,
            price: l.price,
            sku: None,
        });
    }
    GenericPlan { txn, source, purchase, items }
}

} // verus!
