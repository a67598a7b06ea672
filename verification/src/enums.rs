//! The enumerations of the data model. Each has two spellings: the value
//! stored in its database column (`IN`, `GROUP_INVITE`, ...) and its display
//! name, the variant's own name (`In`, `GroupInvite`, ...), which is what
//! `to_string()` gives and what the string-typed status columns hold.
use vstd::prelude::*;

verus! {

/// Which way money moves in a transaction.
#[derive(Clone, Copy, Debug, PartialEq, Eq, Structural)]
pub enum TransactionDirection {
    In,
    Out,
}

impl TransactionDirection {
    /// The value stored in the database column.
    pub open spec fn db_text(self) -> Seq<char> {
        match self {
            TransactionDirection::In => "IN"@,
            TransactionDirection::Out => "OUT"@,
        }
    }

    /// The display name (the variant's name).
    pub open spec fn display_text(self) -> Seq<char> {
        match self {
            TransactionDirection::In => "In"@,
            TransactionDirection::Out => "Out"@,
        }
    }

    /// The variant whose database value is `s`, if any.
    pub open spec fn parse_db(s: Seq<char>) -> Option<Self> {
        if s == "IN"@ {
            Some(TransactionDirection::In)
        } else if s == "OUT"@ {
            Some(TransactionDirection::Out)
        } else {
            None
        }
    }

    /// The value stored in the database column.
    pub fn db_value(&self) -> (s: &'static str)
        ensures
            s@ == self.db_text(),
    {
        match self {
            TransactionDirection::In => "IN",
            TransactionDirection::Out => "OUT",
        }
    }

    /// The display name, as `to_string()` gives it.
    pub fn display_name(&self) -> (s: &'static str)
        ensures
            s@ == self.display_text(),
    {
        match self {
            TransactionDirection::In => "In",
            TransactionDirection::Out => "Out",
        }
    }

    /// Reads a database value.
    pub fn from_db(s: &str) -> (r: Option<Self>)
        ensures
            r == Self::parse_db(s@),
    {
        if crate::text::same_text(s, "IN") {
            Some(TransactionDirection::In)
        } else if crate::text::same_text(s, "OUT") {
            Some(TransactionDirection::Out)
        } else {
            None
        }
    }

    /// Reading back a stored value gives the variant that was stored.
    pub proof fn lemma_db_roundtrip(self)
        ensures
            Self::parse_db(self.db_text()) == Some(self),
    {
        reveal_strlit("IN");
        reveal_strlit("OUT");
        assert("IN"@.len() != "OUT"@.len());
        assert("IN"@ != "OUT"@);
    }

}

/// Where a transaction was recorded from.
#[derive(Clone, Copy, Debug, PartialEq, Eq, Structural)]
pub enum TransactionSource {
    Manual,
    Ocr,
    Statement,
    P2p,
}

impl TransactionSource {
    /// The value stored in the database column.
    pub open spec fn db_text(self) -> Seq<char> {
        match self {
            TransactionSource::Manual => "MANUAL"@,
            TransactionSource::Ocr => "OCR"@,
            TransactionSource::Statement => "STATEMENT"@,
            TransactionSource::P2p => "P2P"@,
        }
    }

    /// The display name (the variant's name).
    pub open spec fn display_text(self) -> Seq<char> {
        match self {
            TransactionSource::Manual => "Manual"@,
            TransactionSource::Ocr => "Ocr"@,
            TransactionSource::Statement => "Statement"@,
            TransactionSource::P2p => "P2p"@,
        }
    }

    /// The variant whose database value is `s`, if any.
    pub open spec fn parse_db(s: Seq<char>) -> Option<Self> {
        if s == "MANUAL"@ {
            Some(TransactionSource::Manual)
        } else if s == "OCR"@ {
            Some(TransactionSource::Ocr)
        } else if s == "STATEMENT"@ {
            Some(TransactionSource::Statement)
        } else if s == "P2P"@ {
            Some(TransactionSource::P2p)
        } else {
            None
        }
    }

    /// The value stored in the database column.
    pub fn db_value(&self) -> (s: &'static str)
        ensures
            s@ == self.db_text(),
    {
        match self {
            TransactionSource::Manual => "MANUAL",
            TransactionSource::Ocr => "OCR",
            TransactionSource::Statement => "STATEMENT",
            TransactionSource::P2p => "P2P",
        }
    }

    /// The display name, as `to_string()` gives it.
    pub fn display_name(&self) -> (s: &'static str)
        ensures
            s@ == self.display_text(),
    {
        match self {
            TransactionSource::Manual => "Manual",
            TransactionSource::Ocr => "Ocr",
            TransactionSource::Statement => "Statement",
            TransactionSource::P2p => "P2p",
        }
    }

    /// Reads a database value.
    pub fn from_db(s: &str) -> (r: Option<Self>)
        ensures
            r == Self::parse_db(s@),
    {
        if crate::text::same_text(s, "MANUAL") {
            Some(TransactionSource::Manual)
        } else if crate::text::same_text(s, "OCR") {
            Some(TransactionSource::Ocr)
        } else if crate::text::same_text(s, "STATEMENT") {
            Some(TransactionSource::Statement)
        } else if crate::text::same_text(s, "P2P") {
            Some(TransactionSource::P2p)
        } else {
            None
        }
    }

    /// Reading back a stored value gives the variant that was stored.
    pub proof fn lemma_db_roundtrip(self)
        ensures
            Self::parse_db(self.db_text()) == Some(self),
    {
        reveal_strlit("MANUAL");
        reveal_strlit("OCR");
        reveal_strlit("STATEMENT");
        reveal_strlit("P2P");
        assert("MANUAL"@.len() != "OCR"@.len());
        assert("MANUAL"@ != "OCR"@);
        assert("MANUAL"@.len() != "STATEMENT"@.len());
        assert("MANUAL"@ != "STATEMENT"@);
        assert("MANUAL"@.len() != "P2P"@.len());
        assert("MANUAL"@ != "P2P"@);
        assert("OCR"@.len() != "STATEMENT"@.len());
        assert("OCR"@ != "STATEMENT"@);
        assert("OCR"@[0] != "P2P"@[0]);
        assert("OCR"@ != "P2P"@);
        assert("STATEMENT"@.len() != "P2P"@.len());
        assert("STATEMENT"@ != "P2P"@);
    }

}

/// The state of a transaction.
#[derive(Clone, Copy, Debug, PartialEq, Eq, Structural)]
pub enum TransactionStatus {
    Completed,
    Pending,
    Cancelled,
}

impl TransactionStatus {
    /// The value stored in the database column.
    pub open spec fn db_text(self) -> Seq<char> {
        match self {
            TransactionStatus::Completed => "COMPLETED"@,
            TransactionStatus::Pending => "PENDING"@,
            TransactionStatus::Cancelled => "CANCELLED"@,
        }
    }

    /// The display name (the variant's name).
    pub open spec fn display_text(self) -> Seq<char> {
        match self {
            TransactionStatus::Completed => "Completed"@,
            TransactionStatus::Pending => "Pending"@,
            TransactionStatus::Cancelled => "Cancelled"@,
        }
    }

    /// The variant whose database value is `s`, if any.
    pub open spec fn parse_db(s: Seq<char>) -> Option<Self> {
        if s == "COMPLETED"@ {
            Some(TransactionStatus::Completed)
        } else if s == "PENDING"@ {
            Some(TransactionStatus::Pending)
        } else if s == "CANCELLED"@ {
            Some(TransactionStatus::Cancelled)
        } else {
            None
        }
    }

    /// The value stored in the database column.
    pub fn db_value(&self) -> (s: &'static str)
        ensures
            s@ == self.db_text(),
    {
        match self {
            TransactionStatus::Completed => "COMPLETED",
            TransactionStatus::Pending => "PENDING",
            TransactionStatus::Cancelled => "CANCELLED",
        }
    }

    /// The display name, as `to_string()` gives it.
    pub fn display_name(&self) -> (s: &'static str)
        ensures
            s@ == self.display_text(),
    {
        match self {
            TransactionStatus::Completed => "Completed",
            TransactionStatus::Pending => "Pending",
            TransactionStatus::Cancelled => "Cancelled",
        }
    }

    /// Reads a database value.
    pub fn from_db(s: &str) -> (r: Option<Self>)
        ensures
            r == Self::parse_db(s@),
    {
        if crate::text::same_text(s, "COMPLETED") {
            Some(TransactionStatus::Completed)
        } else if crate::text::same_text(s, "PENDING") {
            Some(TransactionStatus::Pending)
        } else if crate::text::same_text(s, "CANCELLED") {
            Some(TransactionStatus::Cancelled)
        } else {
            None
        }
    }

    /// Reading back a stored value gives the variant that was stored.
    pub proof fn lemma_db_roundtrip(self)
        ensures
            Self::parse_db(self.db_text()) == Some(self),
    {
        reveal_strlit("COMPLETED");
        reveal_strlit("PENDING");
        reveal_strlit("CANCELLED");
        assert("COMPLETED"@.len() != "PENDING"@.len());
        assert("COMPLETED"@ != "PENDING"@);
        assert("COMPLETED"@[1] != "CANCELLED"@[1]);
        assert("COMPLETED"@ != "CANCELLED"@);
        assert("PENDING"@.len() != "CANCELLED"@.len());
        assert("PENDING"@ != "CANCELLED"@);
    }

}

/// The kind of a contact identifier.
#[derive(Clone, Copy, Debug, PartialEq, Eq, Structural)]
pub enum IdentifierType {
    Upi,
    Phone,
    BankAcc,
}

impl IdentifierType {
    /// The value stored in the database column.
    pub open spec fn db_text(self) -> Seq<char> {
        match self {
            IdentifierType::Upi => "UPI"@,
            IdentifierType::Phone => "PHONE"@,
            IdentifierType::BankAcc => "BANK_ACC"@,
        }
    }

    /// The display name (the variant's name).
    pub open spec fn display_text(self) -> Seq<char> {
        match self {
            IdentifierType::Upi => "Upi"@,
            IdentifierType::Phone => "Phone"@,
            IdentifierType::BankAcc => "BankAcc"@,
        }
    }

    /// The variant whose database value is `s`, if any.
    pub open spec fn parse_db(s: Seq<char>) -> Option<Self> {
        if s == "UPI"@ {
            Some(IdentifierType::Upi)
        } else if s == "PHONE"@ {
            Some(IdentifierType::Phone)
        } else if s == "BANK_ACC"@ {
            Some(IdentifierType::BankAcc)
        } else {
            None
        }
    }

    /// The value stored in the database column.
    pub fn db_value(&self) -> (s: &'static str)
        ensures
            s@ == self.db_text(),
    {
        match self {
            IdentifierType::Upi => "UPI",
            IdentifierType::Phone => "PHONE",
            IdentifierType::BankAcc => "BANK_ACC",
        }
    }

    /// The display name, as `to_string()` gives it.
    pub fn display_name(&self) -> (s: &'static str)
        ensures
            s@ == self.display_text(),
    {
        match self {
            IdentifierType::Upi => "Upi",
            IdentifierType::Phone => "Phone",
            IdentifierType::BankAcc => "BankAcc",
        }
    }

    /// Reads a database value.
    pub fn from_db(s: &str) -> (r: Option<Self>)
        ensures
            r == Self::parse_db(s@),
    {
        if crate::text::same_text(s, "UPI") {
            Some(IdentifierType::Upi)
        } else if crate::text::same_text(s, "PHONE") {
            Some(IdentifierType::Phone)
        } else if crate::text::same_text(s, "BANK_ACC") {
            Some(IdentifierType::BankAcc)
        } else {
            None
        }
    }

    /// Reading back a stored value gives the variant that was stored.
    pub proof fn lemma_db_roundtrip(self)
        ensures
            Self::parse_db(self.db_text()) == Some(self),
    {
        reveal_strlit("UPI");
        reveal_strlit("PHONE");
        reveal_strlit("BANK_ACC");
        assert("UPI"@.len() != "PHONE"@.len());
        assert("UPI"@ != "PHONE"@);
        assert("UPI"@.len() != "BANK_ACC"@.len());
        assert("UPI"@ != "BANK_ACC"@);
        assert("PHONE"@.len() != "BANK_ACC"@.len());
        assert("PHONE"@ != "BANK_ACC"@);
    }

}

/// The role of a party in a transaction.
#[derive(Clone, Copy, Debug, PartialEq, Eq, Structural)]
pub enum TxnPartyRole {
    Sender,
    Receiver,
}

impl TxnPartyRole {
    /// The value stored in the database column.
    pub open spec fn db_text(self) -> Seq<char> {
        match self {
            TxnPartyRole::Sender => "SENDER"@,
            TxnPartyRole::Receiver => "RECEIVER"@,
        }
    }

    /// The display name (the variant's name).
    pub open spec fn display_text(self) -> Seq<char> {
        match self {
            TxnPartyRole::Sender => "Sender"@,
            TxnPartyRole::Receiver => "Receiver"@,
        }
    }

    /// The variant whose database value is `s`, if any.
    pub open spec fn parse_db(s: Seq<char>) -> Option<Self> {
        if s == "SENDER"@ {
            Some(TxnPartyRole::Sender)
        } else if s == "RECEIVER"@ {
            Some(TxnPartyRole::Receiver)
        } else {
            None
        }
    }

    /// The value stored in the database column.
    pub fn db_value(&self) -> (s: &'static str)
        ensures
            s@ == self.db_text(),
    {
        match self {
            TxnPartyRole::Sender => "SENDER",
            TxnPartyRole::Receiver => "RECEIVER",
        }
    }

    /// The display name, as `to_string()` gives it.
    pub fn display_name(&self) -> (s: &'static str)
        ensures
            s@ == self.display_text(),
    {
        match self {
            TxnPartyRole::Sender => "Sender",
            TxnPartyRole::Receiver => "Receiver",
        }
    }

    /// Reads a database value.
    pub fn from_db(s: &str) -> (r: Option<Self>)
        ensures
            r == Self::parse_db(s@),
    {
        if crate::text::same_text(s, "SENDER") {
            Some(TxnPartyRole::Sender)
        } else if crate::text::same_text(s, "RECEIVER") {
            Some(TxnPartyRole::Receiver)
        } else {
            None
        }
    }

    /// Reading back a stored value gives the variant that was stored.
    pub proof fn lemma_db_roundtrip(self)
        ensures
            Self::parse_db(self.db_text()) == Some(self),
    {
        reveal_strlit("SENDER");
        reveal_strlit("RECEIVER");
        assert("SENDER"@.len() != "RECEIVER"@.len());
        assert("SENDER"@ != "RECEIVER"@);
    }

}

/// How often a subscription charges.
#[derive(Clone, Copy, Debug, PartialEq, Eq, Structural)]
pub enum SubscriptionCycle {
    Weekly,
    Monthly,
    Yearly,
}

impl SubscriptionCycle {
    /// The value stored in the database column.
    pub open spec fn db_text(self) -> Seq<char> {
        match self {
            SubscriptionCycle::Weekly => "WEEKLY"@,
            SubscriptionCycle::Monthly => "MONTHLY"@,
            SubscriptionCycle::Yearly => "YEARLY"@,
        }
    }

    /// The display name (the variant's name).
    pub open spec fn display_text(self) -> Seq<char> {
        match self {
            SubscriptionCycle::Weekly => "Weekly"@,
            SubscriptionCycle::Monthly => "Monthly"@,
            SubscriptionCycle::Yearly => "Yearly"@,
        }
    }

    /// The variant whose database value is `s`, if any.
    pub open spec fn parse_db(s: Seq<char>) -> Option<Self> {
        if s == "WEEKLY"@ {
            Some(SubscriptionCycle::Weekly)
        } else if s == "MONTHLY"@ {
            Some(SubscriptionCycle::Monthly)
        } else if s == "YEARLY"@ {
            Some(SubscriptionCycle::Yearly)
        } else {
            None
        }
    }

    /// The value stored in the database column.
    pub fn db_value(&self) -> (s: &'static str)
        ensures
            s@ == self.db_text(),
    {
        match self {
            SubscriptionCycle::Weekly => "WEEKLY",
            SubscriptionCycle::Monthly => "MONTHLY",
            SubscriptionCycle::Yearly => "YEARLY",
        }
    }

    /// The display name, as `to_string()` gives it.
    pub fn display_name(&self) -> (s: &'static str)
        ensures
            s@ == self.display_text(),
    {
        match self {
            SubscriptionCycle::Weekly => "Weekly",
            SubscriptionCycle::Monthly => "Monthly",
            SubscriptionCycle::Yearly => "Yearly",
        }
    }

    /// Reads a database value.
    pub fn from_db(s: &str) -> (r: Option<Self>)
        ensures
            r == Self::parse_db(s@),
    {
        if crate::text::same_text(s, "WEEKLY") {
            Some(SubscriptionCycle::Weekly)
        } else if crate::text::same_text(s, "MONTHLY") {
            Some(SubscriptionCycle::Monthly)
        } else if crate::text::same_text(s, "YEARLY") {
            Some(SubscriptionCycle::Yearly)
        } else {
            None
        }
    }

    /// Reading back a stored value gives the variant that was stored.
    pub proof fn lemma_db_roundtrip(self)
        ensures
            Self::parse_db(self.db_text()) == Some(self),
    {
        reveal_strlit("WEEKLY");
        reveal_strlit("MONTHLY");
        reveal_strlit("YEARLY");
        assert("WEEKLY"@.len() != "MONTHLY"@.len());
        assert("WEEKLY"@ != "MONTHLY"@);
        assert("WEEKLY"@[0] != "YEARLY"@[0]);
        assert("WEEKLY"@ != "YEARLY"@);
        assert("MONTHLY"@.len() != "YEARLY"@.len());
        assert("MONTHLY"@ != "YEARLY"@);
    }

}

/// How a subscription alert is delivered.
#[derive(Clone, Copy, Debug, PartialEq, Eq, Structural)]
pub enum AlertChannel {
    Email,
    Push,
}

impl AlertChannel {
    /// The value stored in the database column.
    pub open spec fn db_text(self) -> Seq<char> {
        match self {
            AlertChannel::Email => "EMAIL"@,
            AlertChannel::Push => "PUSH"@,
        }
    }

    /// The display name (the variant's name).
    pub open spec fn display_text(self) -> Seq<char> {
        match self {
            AlertChannel::Email => "Email"@,
            AlertChannel::Push => "Push"@,
        }
    }

    /// The variant whose database value is `s`, if any.
    pub open spec fn parse_db(s: Seq<char>) -> Option<Self> {
        if s == "EMAIL"@ {
            Some(AlertChannel::Email)
        } else if s == "PUSH"@ {
            Some(AlertChannel::Push)
        } else {
            None
        }
    }

    /// The value stored in the database column.
    pub fn db_value(&self) -> (s: &'static str)
        ensures
            s@ == self.db_text(),
    {
        match self {
            AlertChannel::Email => "EMAIL",
            AlertChannel::Push => "PUSH",
        }
    }

    /// The display name, as `to_string()` gives it.
    pub fn display_name(&self) -> (s: &'static str)
        ensures
            s@ == self.display_text(),
    {
        match self {
            AlertChannel::Email => "Email",
            AlertChannel::Push => "Push",
        }
    }

    /// Reads a database value.
    pub fn from_db(s: &str) -> (r: Option<Self>)
        ensures
            r == Self::parse_db(s@),
    {
        if crate::text::same_text(s, "EMAIL") {
            Some(AlertChannel::Email)
        } else if crate::text::same_text(s, "PUSH") {
            Some(AlertChannel::Push)
        } else {
            None
        }
    }

    /// Reading back a stored value gives the variant that was stored.
    pub proof fn lemma_db_roundtrip(self)
        ensures
            Self::parse_db(self.db_text()) == Some(self),
    {
        reveal_strlit("EMAIL");
        reveal_strlit("PUSH");
        assert("EMAIL"@.len() != "PUSH"@.len());
        assert("EMAIL"@ != "PUSH"@);
    }

}

/// The state of a request between two users.
#[derive(Clone, Copy, Debug, PartialEq, Eq, Structural)]
pub enum P2PRequestStatus {
    Pending,
    Mapped,
    Rejected,
    Approved,
    GroupInvite,
}

impl P2PRequestStatus {
    /// The value stored in the database column.
    pub open spec fn db_text(self) -> Seq<char> {
        match self {
            P2PRequestStatus::Pending => "PENDING"@,
            P2PRequestStatus::Mapped => "MAPPED"@,
            P2PRequestStatus::Rejected => "REJECTED"@,
            P2PRequestStatus::Approved => "APPROVED"@,
            P2PRequestStatus::GroupInvite => "GROUP_INVITE"@,
        }
    }

    /// The display name (the variant's name).
    pub open spec fn display_text(self) -> Seq<char> {
        match self {
            P2PRequestStatus::Pending => "Pending"@,
            P2PRequestStatus::Mapped => "Mapped"@,
            P2PRequestStatus::Rejected => "Rejected"@,
            P2PRequestStatus::Approved => "Approved"@,
            P2PRequestStatus::GroupInvite => "GroupInvite"@,
        }
    }

    /// The variant whose database value is `s`, if any.
    pub open spec fn parse_db(s: Seq<char>) -> Option<Self> {
        if s == "PENDING"@ {
            Some(P2PRequestStatus::Pending)
        } else if s == "MAPPED"@ {
            Some(P2PRequestStatus::Mapped)
        } else if s == "REJECTED"@ {
            Some(P2PRequestStatus::Rejected)
        } else if s == "APPROVED"@ {
            Some(P2PRequestStatus::Approved)
        } else if s == "GROUP_INVITE"@ {
            Some(P2PRequestStatus::GroupInvite)
        } else {
            None
        }
    }

    /// The value stored in the database column.
    pub fn db_value(&self) -> (s: &'static str)
        ensures
            s@ == self.db_text(),
    {
        match self {
            P2PRequestStatus::Pending => "PENDING",
            P2PRequestStatus::Mapped => "MAPPED",
            P2PRequestStatus::Rejected => "REJECTED",
            P2PRequestStatus::Approved => "APPROVED",
            P2PRequestStatus::GroupInvite => "GROUP_INVITE",
        }
    }

    /// The display name, as `to_string()` gives it.
    pub fn display_name(&self) -> (s: &'static str)
        ensures
            s@ == self.display_text(),
    {
        match self {
            P2PRequestStatus::Pending => "Pending",
            P2PRequestStatus::Mapped => "Mapped",
            P2PRequestStatus::Rejected => "Rejected",
            P2PRequestStatus::Approved => "Approved",
            P2PRequestStatus::GroupInvite => "GroupInvite",
        }
    }

    /// Reads a database value.
    pub fn from_db(s: &str) -> (r: Option<Self>)
        ensures
            r == Self::parse_db(s@),
    {
        if crate::text::same_text(s, "PENDING") {
            Some(P2PRequestStatus::Pending)
        } else if crate::text::same_text(s, "MAPPED") {
            Some(P2PRequestStatus::Mapped)
        } else if crate::text::same_text(s, "REJECTED") {
            Some(P2PRequestStatus::Rejected)
        } else if crate::text::same_text(s, "APPROVED") {
            Some(P2PRequestStatus::Approved)
        } else if crate::text::same_text(s, "GROUP_INVITE") {
            Some(P2PRequestStatus::GroupInvite)
        } else {
            None
        }
    }

    /// Reading back a stored value gives the variant that was stored.
    pub proof fn lemma_db_roundtrip(self)
        ensures
            Self::parse_db(self.db_text()) == Some(self),
    {
        reveal_strlit("PENDING");
        reveal_strlit("MAPPED");
        reveal_strlit("REJECTED");
        reveal_strlit("APPROVED");
        reveal_strlit("GROUP_INVITE");
        assert("PENDING"@.len() != "MAPPED"@.len());
        assert("PENDING"@ != "MAPPED"@);
        assert("PENDING"@.len() != "REJECTED"@.len());
        assert("PENDING"@ != "REJECTED"@);
        assert("PENDING"@.len() != "APPROVED"@.len());
        assert("PENDING"@ != "APPROVED"@);
        assert("PENDING"@.len() != "GROUP_INVITE"@.len());
        assert("PENDING"@ != "GROUP_INVITE"@);
        assert("MAPPED"@.len() != "REJECTED"@.len());
        assert("MAPPED"@ != "REJECTED"@);
        assert("MAPPED"@.len() != "APPROVED"@.len());
        assert("MAPPED"@ != "APPROVED"@);
        assert("MAPPED"@.len() != "GROUP_INVITE"@.len());
        assert("MAPPED"@ != "GROUP_INVITE"@);
        assert("REJECTED"@[0] != "APPROVED"@[0]);
        assert("REJECTED"@ != "APPROVED"@);
        assert("REJECTED"@.len() != "GROUP_INVITE"@.len());
        assert("REJECTED"@ != "GROUP_INVITE"@);
        assert("APPROVED"@.len() != "GROUP_INVITE"@.len());
        assert("APPROVED"@ != "GROUP_INVITE"@);
    }

}

/// A member's role in a group.
#[derive(Clone, Copy, Debug, PartialEq, Eq, Structural)]
pub enum GroupRole {
    Admin,
    Member,
}

impl GroupRole {
    /// The value stored in the database column.
    pub open spec fn db_text(self) -> Seq<char> {
        match self {
            GroupRole::Admin => "ADMIN"@,
            GroupRole::Member => "MEMBER"@,
        }
    }

    /// The display name (the variant's name).
    pub open spec fn display_text(self) -> Seq<char> {
        match self {
            GroupRole::Admin => "Admin"@,
            GroupRole::Member => "Member"@,
        }
    }

    /// The variant whose database value is `s`, if any.
    pub open spec fn parse_db(s: Seq<char>) -> Option<Self> {
        if s == "ADMIN"@ {
            Some(GroupRole::Admin)
        } else if s == "MEMBER"@ {
            Some(GroupRole::Member)
        } else {
            None
        }
    }

    /// The value stored in the database column.
    pub fn db_value(&self) -> (s: &'static str)
        ensures
            s@ == self.db_text(),
    {
        match self {
            GroupRole::Admin => "ADMIN",
            GroupRole::Member => "MEMBER",
        }
    }

    /// The display name, as `to_string()` gives it.
    pub fn display_name(&self) -> (s: &'static str)
        ensures
            s@ == self.display_text(),
    {
        match self {
            GroupRole::Admin => "Admin",
            GroupRole::Member => "Member",
        }
    }

    /// Reads a database value.
    pub fn from_db(s: &str) -> (r: Option<Self>)
        ensures
            r == Self::parse_db(s@),
    {
        if crate::text::same_text(s, "ADMIN") {
            Some(GroupRole::Admin)
        } else if crate::text::same_text(s, "MEMBER") {
            Some(GroupRole::Member)
        } else {
            None
        }
    }

    /// Reading back a stored value gives the variant that was stored.
    pub proof fn lemma_db_roundtrip(self)
        ensures
            Self::parse_db(self.db_text()) == Some(self),
    {
        reveal_strlit("ADMIN");
        reveal_strlit("MEMBER");
        assert("ADMIN"@.len() != "MEMBER"@.len());
        assert("ADMIN"@ != "MEMBER"@);
    }

}

/// The state of a ledger tab.
#[derive(Clone, Copy, Debug, PartialEq, Eq, Structural)]
pub enum LedgerTabStatus {
    Open,
    Settled,
    PartiallyPaid,
}

impl LedgerTabStatus {
    /// The value stored in the database column.
    pub open spec fn db_text(self) -> Seq<char> {
        match self {
            LedgerTabStatus::Open => "OPEN"@,
            LedgerTabStatus::Settled => "SETTLED"@,
            LedgerTabStatus::PartiallyPaid => "PARTIALLY_PAID"@,
        }
    }

    /// The display name (the variant's name).
    pub open spec fn display_text(self) -> Seq<char> {
        match self {
            LedgerTabStatus::Open => "Open"@,
            LedgerTabStatus::Settled => "Settled"@,
            LedgerTabStatus::PartiallyPaid => "PartiallyPaid"@,
        }
    }

    /// The variant whose database value is `s`, if any.
    pub open spec fn parse_db(s: Seq<char>) -> Option<Self> {
        if s == "OPEN"@ {
            Some(LedgerTabStatus::Open)
        } else if s == "SETTLED"@ {
            Some(LedgerTabStatus::Settled)
        } else if s == "PARTIALLY_PAID"@ {
            Some(LedgerTabStatus::PartiallyPaid)
        } else {
            None
        }
    }

    /// The value stored in the database column.
    pub fn db_value(&self) -> (s: &'static str)
        ensures
            s@ == self.db_text(),
    {
        match self {
            LedgerTabStatus::Open => "OPEN",
            LedgerTabStatus::Settled => "SETTLED",
            LedgerTabStatus::PartiallyPaid => "PARTIALLY_PAID",
        }
    }

    /// The display name, as `to_string()` gives it.
    pub fn display_name(&self) -> (s: &'static str)
        ensures
            s@ == self.display_text(),
    {
        match self {
            LedgerTabStatus::Open => "Open",
            LedgerTabStatus::Settled => "Settled",
            LedgerTabStatus::PartiallyPaid => "PartiallyPaid",
        }
    }

    /// Reads a database value.
    pub fn from_db(s: &str) -> (r: Option<Self>)
        ensures
            r == Self::parse_db(s@),
    {
        if crate::text::same_text(s, "OPEN") {
            Some(LedgerTabStatus::Open)
        } else if crate::text::same_text(s, "SETTLED") {
            Some(LedgerTabStatus::Settled)
        } else if crate::text::same_text(s, "PARTIALLY_PAID") {
            Some(LedgerTabStatus::PartiallyPaid)
        } else {
            None
        }
    }

    /// Reading back a stored value gives the variant that was stored.
    pub proof fn lemma_db_roundtrip(self)
        ensures
            Self::parse_db(self.db_text()) == Some(self),
    {
        reveal_strlit("OPEN");
        reveal_strlit("SETTLED");
        reveal_strlit("PARTIALLY_PAID");
        assert("OPEN"@.len() != "SETTLED"@.len());
        assert("OPEN"@ != "SETTLED"@);
        assert("OPEN"@.len() != "PARTIALLY_PAID"@.len());
        assert("OPEN"@ != "PARTIALLY_PAID"@);
        assert("SETTLED"@.len() != "PARTIALLY_PAID"@.len());
        assert("SETTLED"@ != "PARTIALLY_PAID"@);
    }

}

} // verus!
