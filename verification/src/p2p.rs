//! Requests between users: sharing a transaction, splitting one, inviting to
//! a group, and accepting or rejecting such a request.
//!
//! A request's status is stored as text. Requests are written with the
//! display names of `P2PRequestStatus` (`Pending`, `GroupInvite`, `Mapped`,
//! `Approved`), except that a rejection writes `REJECTED`, and the list of
//! pending requests looks for `PENDING` and `GROUP_INVITE`.
use vstd::prelude::*;
use crate::enums::{GroupRole, P2PRequestStatus, TransactionDirection, TransactionSource, TransactionStatus};
use crate::errors::ServiceError;
use crate::json::json_text_field;
use crate::money::{decimal_parse, Amount};
use crate::records::{TransactionRecord, TxnView};
use crate::time::{rfc3339_parse, Timestamp};

verus! {

/// A request from one user to another, identified by e-mail.
pub struct P2PRequestRecord {
    pub id: String,
    pub sender_user_id: String,
    pub receiver_email: String,
    /// The shared data, as JSON text.
    pub transaction_data: String,
    pub status: String,
    pub linked_txn_id: Option<String>,
}

/// A pending request with the name of its sender, if the sender is known.
pub struct P2PRequestWithSender {
    pub request: P2PRequestRecord,
    pub sender_name: Option<String>,
}

/// A user's membership of a group.
pub struct UserGroupRecord {
    pub user_id: String,
    pub group_id: String,
    pub role: String,
}

/// Statuses listed as pending.
pub open spec fn listed_as_pending(status: Seq<char>) -> bool {
    status == "PENDING"@ || status == "GROUP_INVITE"@
}

/// The status shows in the list of pending requests.
pub fn is_listed_as_pending(status: &str) -> (r: bool)
    ensures
        r == listed_as_pending(status@),
{
    crate::text::same_text(status, "PENDING") || crate::text::same_text(status, "GROUP_INVITE")
}

/// A pending request paired with its sender's name.
pub fn with_sender(request: P2PRequestRecord, sender_name: Option<String>) -> (r: P2PRequestWithSender)
    ensures
        r.request == request,
        r.sender_name == sender_name,
{
    P2PRequestWithSender { request, sender_name }
}

/// A new pending request that shares a transaction. `snapshot` is the JSON
/// text of the transaction, which must exist.
pub fn new_share_request(sender_id: &str, receiver_email: &str, txn_exists: bool, snapshot: String) -> (r: Result<P2PRequestRecord, ServiceError>)
    ensures
        !txn_exists <==> r is Err,
        r matches Err(e) ==> e == ServiceError::TransactionNotFound,
        r matches Ok(q) ==> q.sender_user_id@ == sender_id@ && q.receiver_email@ == receiver_email@ && q.transaction_data == snapshot
            && q.status@ == P2PRequestStatus::Pending.display_text() && q.linked_txn_id is None,
{
    if !txn_exists {
        return Err(ServiceError::TransactionNotFound);
    }
    Ok(P2PRequestRecord {
        id: crate::ids::new_id(),
        sender_user_id: crate::text::owned(sender_id),
        receiver_email: crate::text::owned(receiver_email),
        transaction_data: snapshot,
        status: crate::text::owned(P2PRequestStatus::Pending.display_name()),
        linked_txn_id: None,
    })
}

/// What one share of a split asks of its receiver.
pub struct SplitShare {
    pub receiver_email: String,
    pub amount: Amount,
    pub date: Timestamp,
    /// `Split for <purpose>`, where a transaction without purpose counts as
    /// `Expense`.
    pub purpose: String,
}

/// The purpose text of a split of a transaction with purpose `tag`.
pub open spec fn split_purpose(tag: Option<Seq<char>>) -> Seq<char> {
    "Split for "@ + match tag {
        Some(t) => t,
        None => "Expense"@,
    }
}

/// One share of a split: an e-mail and an amount.
pub struct SplitDetail {
    pub receiver_email: String,
    pub amount: Amount,
}

/// The shares of splitting transaction `txn` (the row found under the
/// requested id, if any) among `splits`, in order. Each becomes a pending
/// request whose data holds the share's amount, the transaction's date and
/// the purpose text.
pub fn plan_split(txn: Option<TransactionRecord>, splits: Vec<SplitDetail>) -> (r: Result<Vec<SplitShare>, ServiceError>)
    ensures
        txn is None <==> r is Err,
        r matches Err(e) ==> e == ServiceError::TransactionNotFound,
        r matches Ok(shares) ==> shares.len() == splits.len() && forall|i: int| 0 <= i < shares.len() ==> {
            &&& (#[trigger] shares@[i]).receiver_email == splits@[i].receiver_email
            &&& shares@[i].amount == splits@[i].amount
            &&& shares@[i].date == txn->0.date
            &&& shares@[i].purpose@ == split_purpose(txn->0@.purpose_tag)
            &&& shares@[i].purpose@ == "Split for "@ + match txn->0.purpose_tag {
                Some(t) => t@,
                None => "Expense"@,
            }
        },
{
    let t = match txn {
        Some(t) => t,
        None => {
            return Err(ServiceError::TransactionNotFound);
        },
    };
    let mut shares: Vec<SplitShare> = Vec::new();
    let mut splits = splits;
    let ghost given = splits@;
    let mut reversed: Vec<SplitDetail> = Vec::new();
    while splits.len() > 0
        invariant
            given.len() == splits.len() + reversed.len(),
            forall|i: int| 0 <= i < splits.len() ==> #[trigger] splits@[i] == given[i],
            forall|i: int| 0 <= i < reversed.len() ==> #[trigger] reversed@[i] == given[given.len() - 1 - i],
        decreases splits.len(),
    {
        let d = splits.pop().unwrap();
        reversed.push(d);
    }
    while reversed.len() > 0
        invariant
            given.len() == shares.len() + reversed.len(),
            forall|i: int| 0 <= i < reversed.len() ==> #[trigger] reversed@[i] == given[given.len() - 1 - i],
            forall|i: int| 0 <= i < shares.len() ==> {
                &&& (#[trigger] shares@[i]).receiver_email == given[i].receiver_email
                &&& shares@[i].amount == given[i].amount
                &&& shares@[i].date == t.date
                &&& shares@[i].purpose@ == split_purpose(t@.purpose_tag)
            },
        decreases reversed.len(),
    {
        let d = reversed.pop().unwrap();
        let mut purpose = crate::text::owned("Split for ");
        match &t.purpose_tag {
            Some(tag) => purpose.append(tag.as_str()),
            None => purpose.append("Expense"),
        }
        shares.push(SplitShare { receiver_email: d.receiver_email, amount: d.amount, date: t.date, purpose });
    }
    Ok(shares)
}

/// A pending group invitation; its data names the group.
pub fn new_invite_request(sender_id: &str, receiver_email: &str, invite_data: String) -> (q: P2PRequestRecord)
    ensures
        q.sender_user_id@ == sender_id@,
        q.receiver_email@ == receiver_email@,
        q.transaction_data == invite_data,
        q.status@ == P2PRequestStatus::GroupInvite.display_text(),
        q.linked_txn_id is None,
{
    P2PRequestRecord {
        id: crate::ids::new_id(),
        sender_user_id: crate::text::owned(sender_id),
        receiver_email: crate::text::owned(receiver_email),
        transaction_data: invite_data,
        status: crate::text::owned(P2PRequestStatus::GroupInvite.display_name()),
        linked_txn_id: None,
    }
}

/// What accepting a request does.
pub enum AcceptOutcome {
    /// An invitation: the receiver joins the group as a member and the
    /// request becomes approved.
    JoinGroup { membership: UserGroupRecord, request: P2PRequestRecord },
    /// A shared transaction: the receiver gets an incoming copy of it and the
    /// request becomes mapped to that copy.
    Mirror { txn: TransactionRecord, request: P2PRequestRecord },
}

/// The request can be accepted: it is pending or an invitation.
pub open spec fn acceptable(status: Seq<char>) -> bool {
    status == P2PRequestStatus::Pending.display_text() || status == P2PRequestStatus::GroupInvite.display_text()
}

/// The amount a shared transaction's data gives: its `amount` field read as a
/// decimal, else zero.
pub open spec fn shared_amount(data: Seq<char>) -> Amount {
    match json_text_field(data, "amount"@) {
        Some(s) => match decimal_parse(s) {
            Some(p) => Amount { mantissa: p.0, scale: p.1, negative: p.2 },
            None => Amount::zero_spec(),
        },
        None => Amount::zero_spec(),
    }
}

/// The date a shared transaction's data gives, if its `date` field is an
/// RFC 3339 date; shown at offset zero.
pub open spec fn shared_date(data: Seq<char>) -> Option<Timestamp> {
    match json_text_field(data, "date"@) {
        Some(s) => match rfc3339_parse(s) {
            Some(p) => Some(Timestamp { secs: p.0, nanos: p.1, offset_secs: 0 }),
            None => None,
        },
        None => None,
    }
}

/// The request with a new status (and link).
pub open spec fn restated(q: P2PRequestRecord, r: P2PRequestRecord, status: Seq<char>) -> bool {
    &&& r.id@ == q.id@
    &&& r.sender_user_id@ == q.sender_user_id@
    &&& r.receiver_email@ == q.receiver_email@
    &&& r.transaction_data@ == q.transaction_data@
    &&& r.status@ == status
}

/// `r` adds the receiver to group `g` as a member and approves `q`.
pub open spec fn joins_group(receiver_id: Seq<char>, q: P2PRequestRecord, g: Seq<char>, r: Result<AcceptOutcome, ServiceError>) -> bool {
    match r {
        Ok(AcceptOutcome::JoinGroup { membership: m, request: a }) => {
            &&& m.user_id@ == receiver_id
            &&& m.group_id@ == g
            &&& m.role@ == GroupRole::Member.display_text()
            &&& restated(q, a, P2PRequestStatus::Approved.display_text())
            &&& a.linked_txn_id.deep_view() == q.linked_txn_id.deep_view()
        },
        _ => false,
    }
}

/// `r` copies the transaction shared by `q` to the receiver (dated `now`
/// where the shared date cannot be read) and maps `q` to the copy.
pub open spec fn mirrors_transaction(receiver_id: Seq<char>, q: P2PRequestRecord, now: Timestamp, r: Result<AcceptOutcome, ServiceError>) -> bool {
    match r {
        Ok(AcceptOutcome::Mirror { txn: t, request: a }) => {
            &&& t@.user_id == receiver_id
            &&& t@.amount == shared_amount(q.transaction_data@)
            &&& t@.direction == TransactionDirection::In
            &&& t@.date == match shared_date(q.transaction_data@) { Some(d) => d, None => now }
            &&& t@.source == TransactionSource::P2p
            &&& t@.status == TransactionStatus::Completed
            &&& t@.purpose_tag == json_text_field(q.transaction_data@, "purpose"@)
            &&& t@.category_id is None
            &&& t@.group_id is None
            &&& t@.source_wallet_id is None
            &&& t@.destination_wallet_id is None
            &&& t@.ledger_tab_id is None
            &&& t@.deleted_at is None
            &&& t@.notes is None
            &&& restated(q, a, P2PRequestStatus::Mapped.display_text())
            &&& a.linked_txn_id.deep_view() == Some(t@.id)
        },
        _ => false,
    }
}

/// Accepts the request found under the requested id (if any) on behalf of
/// `receiver_id`. An invitation adds the receiver to the group named in its
/// data and approves the request; a shared transaction is copied to the
/// receiver as a completed incoming P2P transaction (amount, date and
/// purpose taken from the data: zero and `now` where they cannot be
/// read) and the request is mapped to the copy.
pub fn plan_accept(receiver_id: &str, request: Option<P2PRequestRecord>, now: Timestamp) -> (r: Result<AcceptOutcome, ServiceError>)
    ensures
        match request {
            None => r == Err::<AcceptOutcome, ServiceError>(ServiceError::RequestNotFound),
            Some(q) => if !acceptable(q.status@) {
                r == Err::<AcceptOutcome, ServiceError>(ServiceError::RequestNotPending)
            } else if q.status@ == P2PRequestStatus::GroupInvite.display_text() {
                match json_text_field(q.transaction_data@, "group_id"@) {
                    None => r == Err::<AcceptOutcome, ServiceError>(ServiceError::MissingGroupId),
                    Some(g) => joins_group(receiver_id@, q, g, r),
                }
            } else {
                mirrors_transaction(receiver_id@, q, now, r)
            },
        },
{
    let q = match request {
        Some(q) => q,
        None => {
            return Err(ServiceError::RequestNotFound);
        },
    };
    let pending = crate::text::same_text(q.status.as_str(), P2PRequestStatus::Pending.display_name());
    let invite = crate::text::same_text(q.status.as_str(), P2PRequestStatus::GroupInvite.display_name());
    if !pending && !invite {
        return Err(ServiceError::RequestNotPending);
    }
    if invite {
        let group_id = match crate::json::json_str_field(q.transaction_data.as_str(), "group_id") {
            Some(g) => g,
            None => {
                return Err(ServiceError::MissingGroupId);
            },
        };
        let membership = UserGroupRecord {
            user_id: crate::text::owned(receiver_id),
            group_id,
            role: crate::text::owned(GroupRole::Member.display_name()),
        };
        let mut approved = q;
        approved.status = crate::text::owned(P2PRequestStatus::Approved.display_name());
        proof {
            reveal_strlit("Pending");
            reveal_strlit("GroupInvite");
            assert("Pending"@.len() != "GroupInvite"@.len());
            assert(P2PRequestStatus::Pending.display_text() != P2PRequestStatus::GroupInvite.display_text());
        }
        return Ok(AcceptOutcome::JoinGroup { membership, request: approved });
    }
    let amount = match crate::json::json_str_field(q.transaction_data.as_str(), "amount") {
        Some(s) => match crate::money::parse_amount(s.as_str()) {
            Some(a) => a,
            None => Amount::zero(),
        },
        None => Amount::zero(),
    };
    let date = match crate::json::json_str_field(q.transaction_data.as_str(), "date") {
        Some(s) => match crate::time::parse_rfc3339_utc(s.as_str()) {
            Some(d) => d,
            None => now,
        },
        None => now,
    };
    let txn = TransactionRecord {
        id: crate::ids::new_id(),
        user_id: crate::text::owned(receiver_id),
        amount,
        direction: TransactionDirection::In,
        date,
        source: TransactionSource::P2p,
        status: TransactionStatus::Completed,
        purpose_tag: crate::json::json_str_field(q.transaction_data.as_str(), "purpose"),
        category_id: None,
        group_id: None,
        source_wallet_id: None,
        destination_wallet_id: None,
        ledger_tab_id: None,
        deleted_at: None,
        notes: None,
    };
    let mut mapped = q;
    mapped.status = crate::text::owned(P2PRequestStatus::Mapped.display_name());
    mapped.linked_txn_id = Some(txn.id.clone());
    Ok(AcceptOutcome::Mirror { txn, request: mapped })
}

/// Rejects the request found under the requested id (if any): its status
/// becomes `REJECTED`, whatever it was.
pub fn reject_request(request: Option<P2PRequestRecord>) -> (r: Result<P2PRequestRecord, ServiceError>)
    ensures
        request is None <==> r is Err,
        r matches Err(e) ==> e == ServiceError::RequestNotFound,
        r matches Ok(a) ==> restated(request->0, a, "REJECTED"@) && a.linked_txn_id.deep_view() == request->0.linked_txn_id.deep_view(),
{
    match request {
        Some(q) => {
            let mut rejected = q;
            rejected.status = crate::text::owned("REJECTED");
            Ok(rejected)
        },
        None => Err(ServiceError::RequestNotFound),
    }
}

/// Each share of a split asks for the share's amount, dated as the split
/// transaction, with the purpose `Split for ` followed by the transaction's
/// purpose tag, or `Split for Expense` where it has none.
pub proof fn law_split_purpose_names_the_transaction(tag: Option<Seq<char>>)
    ensures
        tag matches Some(t) ==> split_purpose(tag) == "Split for "@ + t,
        tag matches Some(t) ==> split_purpose(tag).subrange(10, split_purpose(tag).len() as int) == t,
        tag is None ==> split_purpose(tag) == "Split for Expense"@,
{
    reveal_strlit("Split for ");
    reveal_strlit("Expense");
    reveal_strlit("Split for Expense");
    if let Some(t) = tag {
        assert(("Split for "@ + t).subrange(10, ("Split for "@ + t).len() as int) =~= t);
    } else {
        assert("Split for "@ + "Expense"@ =~= "Split for Expense"@);
    }
}

/// A request can be accepted at most once: once accepted, it is no longer
/// pending, and accepting it again is refused.
pub proof fn law_accepted_request_is_not_pending_again(status: Seq<char>)
    requires
        status == P2PRequestStatus::Approved.display_text() || status == P2PRequestStatus::Mapped.display_text(),
    ensures
        !acceptable(status),
{
    reveal_strlit("Pending");
    reveal_strlit("GroupInvite");
    reveal_strlit("Approved");
    reveal_strlit("Mapped");
    assert("Approved"@[0] != "Pending"@[0]);
    assert("Mapped"@[0] != "Pending"@[0]);
    assert("Approved"@[0] != "GroupInvite"@[0]);
    assert("Mapped"@[0] != "GroupInvite"@[0]);
}

/// A rejected request cannot be accepted afterwards.
pub proof fn law_rejected_request_cannot_be_accepted()
    ensures
        !acceptable("REJECTED"@),
{
    reveal_strlit("Pending");
    reveal_strlit("GroupInvite");
    reveal_strlit("REJECTED");
    assert("REJECTED"@[0] != "Pending"@[0]);
    assert("REJECTED"@[0] != "GroupInvite"@[0]);
}

/// Requests written as pending or as invitations are spelled differently
/// from what the list of pending requests looks for, so they never show in
/// it.
pub proof fn law_written_statuses_are_not_listed()
    ensures
        !listed_as_pending(P2PRequestStatus::Pending.display_text()),
        !listed_as_pending(P2PRequestStatus::GroupInvite.display_text()),
{
    reveal_strlit("Pending");
    reveal_strlit("GroupInvite");
    reveal_strlit("PENDING");
    reveal_strlit("GROUP_INVITE");
    assert("Pending"@[1] != "PENDING"@[1]);
    assert("Pending"@.len() != "GROUP_INVITE"@.len());
    assert("GroupInvite"@.len() != "PENDING"@.len());
    assert("GroupInvite"@[1] != "GROUP_INVITE"@[1]);
}

} // verus!
