//! The ways a service operation refuses a request. Each carries the message
//! the operation reports (as a custom database error).
use vstd::prelude::*;

verus! {

/// A refusal of a service operation.
#[derive(Clone, Copy, Debug, PartialEq, Eq, Structural)]
pub enum ServiceError {
    TransactionNotFound,
    Unauthorized,
    WalletNotFound,
    RequestNotFound,
    RequestNotPending,
    MissingGroupId,
    LedgerTabNotFound,
    ContactLinkNotFound,
    ContactNotFound,
    UserNotFound,
    AdminNotInGroup,
    InsufficientPermissions,
    MemberNotFound,
    GroupNotFound,
    StatementRowNotFound,
    RowNotFound,
}

impl ServiceError {
    /// The message reported for the refusal.
    pub open spec fn text(self) -> Seq<char> {
        match self {
            ServiceError::TransactionNotFound => "Transaction not found"@,
            ServiceError::Unauthorized => "Unauthorized"@,
            ServiceError::WalletNotFound => "Wallet not found"@,
            ServiceError::RequestNotFound => "Request not found"@,
            ServiceError::RequestNotPending => "Request is not pending"@,
            ServiceError::MissingGroupId => "Missing group_id in invite"@,
            ServiceError::LedgerTabNotFound => "Ledger tab not found"@,
            ServiceError::ContactLinkNotFound => "Contact link not found"@,
            ServiceError::ContactNotFound => "Contact not found"@,
            ServiceError::UserNotFound => "User not found"@,
            ServiceError::AdminNotInGroup => "Admin not in group"@,
            ServiceError::InsufficientPermissions => "Insufficient permissions"@,
            ServiceError::MemberNotFound => "Member not found"@,
            ServiceError::GroupNotFound => "Group not found"@,
            ServiceError::StatementRowNotFound => "Statement row not found"@,
            ServiceError::RowNotFound => "Row not found"@,
        }
    }
    /// The message reported for the refusal.
    pub fn message(&self) -> (s: &'static str)
        ensures
            s@ == self.text(),
    {
        match self {
            ServiceError::TransactionNotFound => "Transaction not found",
            ServiceError::Unauthorized => "Unauthorized",
            ServiceError::WalletNotFound => "Wallet not found",
            ServiceError::RequestNotFound => "Request not found",
            ServiceError::RequestNotPending => "Request is not pending",
            ServiceError::MissingGroupId => "Missing group_id in invite",
            ServiceError::LedgerTabNotFound => "Ledger tab not found",
            ServiceError::ContactLinkNotFound => "Contact link not found",
            ServiceError::ContactNotFound => "Contact not found",
            ServiceError::UserNotFound => "User not found",
            ServiceError::AdminNotInGroup => "Admin not in group",
            ServiceError::InsufficientPermissions => "Insufficient permissions",
            ServiceError::MemberNotFound => "Member not found",
            ServiceError::GroupNotFound => "Group not found",
            ServiceError::StatementRowNotFound => "Statement row not found",
            ServiceError::RowNotFound => "Row not found",
        }
    }
}

} // verus!
