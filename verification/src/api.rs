//! Requests and responses of the HTTP API, and the rules its requests are
//! validated against before any work is done.
use vstd::prelude::*;
use crate::api_error::ApiError;
use crate::contacts::{ContactRecord, IdentifierRecord};
use crate::enums::{TransactionDirection, TransactionStatus};
use crate::money::Amount;
use crate::p2p::SplitDetail;
use crate::records::TransactionRecord;
use crate::time::Timestamp;

verus! {

/// A request body that has been read and has passed its validation rules.
pub struct ValidatedJson<T>(pub T);

/// Why a request body could not be read as JSON.
pub enum JsonRejection {
    /// It is JSON of the wrong shape; the description says how.
    Data(String),
    /// It is not JSON; the description says where.
    Syntax(String),
    /// Anything else (such as a missing content type).
    Other,
}

/// The error a body that could not be read is answered with.
pub fn rejection_error(r: JsonRejection) -> (e: ApiError)
    ensures
        match r {
            JsonRejection::Data(m) => e == ApiError::BadRequest(m),
            JsonRejection::Syntax(m) => e == ApiError::BadRequest(m),
            JsonRejection::Other => e matches ApiError::BadRequest(m) && m@ == "Invalid JSON"@,
        },
{
    match r {
        JsonRejection::Data(m) => ApiError::BadRequest(m),
        JsonRejection::Syntax(m) => ApiError::BadRequest(m),
        JsonRejection::Other => ApiError::BadRequest(crate::text::owned("Invalid JSON")),
    }
}

/// A broken validation rule: the field and the rule's code.
pub struct FieldError {
    pub field: String,
    pub code: String,
}

/// A text has between `min` and `max` characters.
pub open spec fn length_ok(s: Seq<char>, min: nat, max: nat) -> bool {
    min <= s.len() <= max
}

/// An optional text, if present, has between `min` and `max` characters.
pub open spec fn opt_length_ok(s: Option<Seq<char>>, min: nat, max: nat) -> bool {
    s matches Some(t) ==> length_ok(t, min, max)
}

fn check_length(errors: &mut Vec<FieldError>, field: &str, s: &str, min: usize, max: usize)
    ensures
        final(errors)@.len() == old(errors)@.len() + if length_ok(s@, min as nat, max as nat) { 0int } else { 1int },
        forall|i: int| 0 <= i < old(errors)@.len() ==> final(errors)@[i] == old(errors)@[i],
        !length_ok(s@, min as nat, max as nat) ==> final(errors)@.last().field@ == field@ && final(errors)@.last().code@ == "length"@,
{
    let n = crate::text::char_count(s);
    if n < min || n > max {
        errors.push(FieldError { field: crate::text::owned(field), code: crate::text::owned("length") });
    }
}

fn check_opt_length(errors: &mut Vec<FieldError>, field: &str, s: &Option<String>, min: usize, max: usize)
    ensures
        final(errors)@.len() == old(errors)@.len() + if opt_length_ok(s.deep_view(), min as nat, max as nat) { 0int } else { 1int },
        forall|i: int| 0 <= i < old(errors)@.len() ==> final(errors)@[i] == old(errors)@[i],
        !opt_length_ok(s.deep_view(), min as nat, max as nat) ==> final(errors)@.last().field@ == field@ && final(errors)@.last().code@ == "length"@,
{
    if let Some(t) = s {
        check_length(errors, field, t.as_str(), min, max);
    }
}

fn finish(errors: Vec<FieldError>) -> (r: Result<(), Vec<FieldError>>)
    ensures
        errors.len() == 0 <==> r is Ok,
        r matches Err(v) ==> v == errors,
{
    if errors.len() == 0 {
        Ok(())
    } else {
        Err(errors)
    }
}

/// A new category.
pub struct CreateCategoryRequest {
    pub name: String,
    pub icon: Option<String>,
    pub color: Option<String>,
}

/// A new contact: a name of 1 to 100 characters and, optionally, a phone
/// number of 10 to 15 characters.
pub struct CreateContactRequest {
    pub name: String,
    pub phone: Option<String>,
}

impl CreateContactRequest {
    pub open spec fn valid(&self) -> bool {
        length_ok(self.name@, 1, 100) && opt_length_ok(self.phone.deep_view(), 10, 15)
    }

    /// Checks the rules, reporting every broken one.
    pub fn validate(&self) -> (r: Result<(), Vec<FieldError>>)
        ensures
            r is Ok <==> self.valid(),
            r matches Err(v) ==> v.len() == (if length_ok(self.name@, 1, 100) { 0int } else { 1int })
                + (if opt_length_ok(self.phone.deep_view(), 10, 15) { 0int } else { 1int }),
    {
        let mut errors: Vec<FieldError> = Vec::new();
        check_length(&mut errors, "name", self.name.as_str(), 1, 100);
        check_opt_length(&mut errors, "phone", &self.phone, 10, 15);
        finish(errors)
    }
}

/// Changes to a contact: a name of 1 to 100 characters and a phone number of
/// 10 to 15 characters, where given.
pub struct UpdateContactRequest {
    pub name: Option<String>,
    pub phone: Option<String>,
    pub is_pinned: Option<bool>,
}

impl UpdateContactRequest {
    pub open spec fn valid(&self) -> bool {
        opt_length_ok(self.name.deep_view(), 1, 100) && opt_length_ok(self.phone.deep_view(), 10, 15)
    }

    /// Checks the rules, reporting every broken one.
    pub fn validate(&self) -> (r: Result<(), Vec<FieldError>>)
        ensures
            r is Ok <==> self.valid(),
    {
        let mut errors: Vec<FieldError> = Vec::new();
        check_opt_length(&mut errors, "name", &self.name, 1, 100);
        check_opt_length(&mut errors, "phone", &self.phone, 10, 15);
        finish(errors)
    }
}

/// A contact with its identifiers and transactions.
pub struct ContactDetailResponse {
    pub contact: ContactRecord,
    pub identifiers: Vec<IdentifierRecord>,
    pub transactions: Vec<TransactionRecord>,
}

/// A new identifier of a contact: a value of 1 to 255 characters.
pub struct AddIdentifierRequest {
    pub id_type: String,
    pub value: String,
}

impl AddIdentifierRequest {
    pub open spec fn valid(&self) -> bool {
        length_ok(self.value@, 1, 255)
    }

    /// Checks the rules, reporting every broken one.
    pub fn validate(&self) -> (r: Result<(), Vec<FieldError>>)
        ensures
            r is Ok <==> self.valid(),
    {
        let mut errors: Vec<FieldError> = Vec::new();
        check_length(&mut errors, "value", self.value.as_str(), 1, 255);
        finish(errors)
    }
}

/// Two contacts to merge: ids of 1 to 255 characters.
pub struct MergeContactsRequest {
    pub primary_id: String,
    pub secondary_id: String,
}

impl MergeContactsRequest {
    pub open spec fn valid(&self) -> bool {
        length_ok(self.primary_id@, 1, 255) && length_ok(self.secondary_id@, 1, 255)
    }

    /// Checks the rules, reporting every broken one.
    pub fn validate(&self) -> (r: Result<(), Vec<FieldError>>)
        ensures
            r is Ok <==> self.valid(),
    {
        let mut errors: Vec<FieldError> = Vec::new();
        check_length(&mut errors, "primary_id", self.primary_id.as_str(), 1, 255);
        check_length(&mut errors, "secondary_id", self.secondary_id.as_str(), 1, 255);
        finish(errors)
    }
}

/// A file to process with OCR, and how to treat the result.
pub struct ProcessImageOcrRequest {
    pub key: String,
    pub p_hash: Option<String>,
    pub auto_confirm: Option<bool>,
    pub wallet_id: Option<String>,
    pub category_id: Option<String>,
}

impl ProcessImageOcrRequest {
    /// Automatic confirmation is off unless asked for.
    pub fn auto_confirm_flag(&self) -> (b: bool)
        ensures
            b == (self.auto_confirm == Some(true)),
    {
        match self.auto_confirm {
            Some(b) => b,
            None => false,
        }
    }
}

/// An OCR job and its status.
pub struct OcrJobResponse {
    pub job_id: String,
    pub status: String,
}

/// Paging of a list.
pub struct PaginationParams {
    pub limit: Option<u64>,
    pub offset: Option<u64>,
}

/// A manually entered transaction: a positive amount and a purpose of 1 to
/// 255 characters.
pub struct CreateManualTransactionRequest {
    pub amount: Amount,
    pub date: Timestamp,
    pub purpose_tag: String,
    pub category_id: Option<String>,
    pub direction: TransactionDirection,
    pub source_wallet_id: Option<String>,
    pub destination_wallet_id: Option<String>,
    pub contact_id: Option<String>,
    pub notes: Option<String>,
}

/// The amount rule of a manual transaction: it must be above zero.
pub fn validate_amount(amount: &Amount) -> (r: Result<(), String>)
    ensures
        r is Ok <==> amount.value() > 0,
        r matches Err(code) ==> code@ == "amount_must_be_positive"@,
{
    if !amount.is_positive() {
        return Err(crate::text::owned("amount_must_be_positive"));
    }
    Ok(())
}

impl CreateManualTransactionRequest {
    pub open spec fn valid(&self) -> bool {
        self.amount.value() > 0 && length_ok(self.purpose_tag@, 1, 255)
    }

    /// Checks the rules, reporting every broken one.
    pub fn validate(&self) -> (r: Result<(), Vec<FieldError>>)
        ensures
            r is Ok <==> self.valid(),
    {
        let mut errors: Vec<FieldError> = Vec::new();
        match validate_amount(&self.amount) {
            Ok(()) => {},
            Err(code) => {
                errors.push(FieldError { field: crate::text::owned("amount"), code });
            },
        }
        check_length(&mut errors, "purpose_tag", self.purpose_tag.as_str(), 1, 255);
        finish(errors)
    }
}

/// Changes to a transaction.
pub struct UpdateTransactionRequest {
    pub amount: Option<Amount>,
    pub date: Option<Timestamp>,
    pub purpose_tag: Option<String>,
    pub category_id: Option<String>,
    pub status: Option<TransactionStatus>,
    pub notes: Option<String>,
    pub source_wallet_id: Option<String>,
    pub destination_wallet_id: Option<String>,
    pub contact_id: Option<String>,
}

impl UpdateTransactionRequest {
    /// The edit the request asks for.
    pub fn into_patch(self) -> (p: crate::ledger::TransactionPatch)
        ensures
            p.amount == self.amount,
            p.date == self.date,
            p.purpose_tag == self.purpose_tag,
            p.category_id == self.category_id,
            p.status == self.status,
            p.notes == self.notes,
            p.source_wallet_id == self.source_wallet_id,
            p.destination_wallet_id == self.destination_wallet_id,
            p.contact_id == self.contact_id,
    {
        crate::ledger::TransactionPatch {
            amount: self.amount,
            date: self.date,
            purpose_tag: self.purpose_tag,
            category_id: self.category_id,
            status: self.status,
            notes: self.notes,
            source_wallet_id: self.source_wallet_id,
            destination_wallet_id: self.destination_wallet_id,
            contact_id: self.contact_id,
        }
    }
}

/// A transaction to split, and its shares.
pub struct SplitTransactionRequest {
    pub transaction_id: String,
    pub splits: Vec<SplitDetail>,
}

} // verus!
