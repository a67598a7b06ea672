//! Bodies of the server's requests and responses, and the checks the
//! handlers make before calling a service.
use vstd::prelude::*;
use crate::api_error::{ApiError, AppError, DbError};
use crate::errors::ServiceError;
use crate::money::Amount;
use crate::reconciliation::BankStatementRow;
use crate::records::TransactionRecord;
use crate::time::Timestamp;

verus! {

/// A new group.
pub struct CreateGroupRequest {
    pub name: String,
    pub description: Option<String>,
}

/// An invitation of a user, by email, into a group.
pub struct InviteToGroupRequest {
    pub receiver_email: String,
    pub group_id: String,
}

/// A transaction shared with a user, by email.
pub struct CreateP2PRequest {
    pub receiver_email: String,
    pub transaction_id: String,
}

/// The acceptance of a request.
pub struct AcceptP2PRequest {
    pub request_id: String,
}

/// A statement row with the transactions that may match it and their scores.
pub struct RowMatchesResponse {
    pub row: BankStatementRow,
    pub matches: Vec<(TransactionRecord, i32)>,
}

/// The confirmation that a statement row is a transaction.
pub struct ConfirmMatchRequest {
    pub transaction_id: String,
    pub confidence: i32,
}

/// A bank statement to store, row by row.
pub struct StatementUploadRequest {
    pub rows: Vec<StatementRow>,
}

/// One row of a bank statement: a signed amount (negative for a debit).
pub struct StatementRow {
    pub date: Timestamp,
    pub description: String,
    pub amount: Amount,
}

/// A request for an address to upload a file to.
pub struct PresignedUrlRequest {
    pub content_type: String,
    pub file_name: String,
}

/// Where an uploaded file is (or will be) and its storage key.
pub struct PresignedUrlResponse {
    pub url: String,
    pub key: String,
}

/// An edit of the user's profile; a field left `None` stays.
pub struct UpdateProfileRequest {
    pub name: Option<String>,
    pub username: Option<String>,
    pub image: Option<String>,
}

/// A new UPI id of the user.
pub struct AddUpiRequest {
    pub upi_id: String,
    pub label: Option<String>,
}

/// The email of the signed-in user, which the pending requests are listed
/// by; a session without one is a bad request.
pub fn session_email(email: Option<String>) -> (r: Result<String, ApiError>)
    ensures
        email is Some ==> r == Ok::<String, ApiError>(email->0),
        email is None ==> (r matches Err(ApiError::BadRequest(m)) && m@ == "Email missing"@),
{
    match email {
        Some(e) => Ok(e),
        None => Err(ApiError::BadRequest(crate::text::owned("Email missing"))),
    }
}

/// The answer to a request for a row's matches: `row` is the row found under
/// the requested id, `matches` what ranking it gave.
pub fn row_matches_response(
    row: Option<BankStatementRow>,
    matches: Result<Vec<(TransactionRecord, i32)>, ServiceError>,
) -> (r: Result<RowMatchesResponse, ApiError>)
    ensures
        row is None ==> (r matches Err(ApiError::NotFound(m)) && m@ == "Row not found"@),
        (row is Some && matches is Err) ==> (r matches Err(ApiError::App(AppError::Db(DbError::Custom(m)))) && m@ == matches->Err_0.text()),
        (row is Some && matches is Ok) ==> (r matches Ok(resp) && resp.row == row->0 && resp.matches == matches->Ok_0),
{
    let row = match row {
        Some(rw) => rw,
        None => {
            return Err(ApiError::NotFound(crate::text::owned("Row not found")));
        },
    };
    match matches {
        Ok(m) => Ok(RowMatchesResponse { row, matches: m }),
        Err(e) => Err(ApiError::from_service(e)),
    }
}

/// What the sign-in service's answer to a session lookup means: a status
/// other than 200 is no session, rejected with 401 `Unauthorized`.
pub fn session_lookup_status(status: u16) -> (r: Result<(), (u16, String)>)
    ensures
        status == 200 ==> r is Ok,
        status != 200 ==> (r matches Err(e) && e.0 == 401 && e.1@ == "Unauthorized"@),
{
    if status != 200 {
        return Err((401, crate::text::owned("Unauthorized")));
    }
    Ok(())
}

} // verus!
