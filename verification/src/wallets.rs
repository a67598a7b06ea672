//! Wallets: the accounts a user keeps money in. Their balances move with the
//! transactions (see the ledger); here they are created and edited.
use vstd::prelude::*;
use crate::errors::ServiceError;
use crate::money::Amount;
use crate::time::Timestamp;

verus! {

/// A wallet of a user.
pub struct WalletRecord {
    pub id: String,
    pub user_id: String,
    pub name: String,
    /// The kind of wallet, by its name.
    pub wallet_type: String,
    pub balance: Amount,
    pub created_at: Timestamp,
    pub updated_at: Timestamp,
}

/// A new wallet of `user_id`, holding `initial_balance`, made at `now`.
pub fn new_wallet(user_id: &str, name: &str, wallet_type: &str, initial_balance: Amount, now: Timestamp) -> (w: WalletRecord)
    ensures
        w.user_id@ == user_id@,
        w.name@ == name@,
        w.wallet_type@ == wallet_type@,
        w.balance == initial_balance,
        w.created_at == now,
        w.updated_at == now,
{
    WalletRecord {
        id: crate::ids::new_id(),
        user_id: crate::text::owned(user_id),
        name: crate::text::owned(name),
        wallet_type: crate::text::owned(wallet_type),
        balance: initial_balance,
        created_at: now,
        updated_at: now,
    }
}

/// The wallet is `wallet_id` and belongs to `user_id`.
pub open spec fn is_wallet_of(w: WalletRecord, user_id: Seq<char>, wallet_id: Seq<char>) -> bool {
    w.user_id@ == user_id && w.id@ == wallet_id
}

/// Edits wallet `wallet_id` of `user_id`, as looked up in `found`: a field
/// left `None` stays, and the update time becomes `now`. A wallet that is
/// missing, or is another one or another user's, is not found.
pub fn update_wallet(
    user_id: &str,
    wallet_id: &str,
    found: Option<WalletRecord>,
    name: Option<String>,
    balance: Option<Amount>,
    now: Timestamp,
) -> (r: Result<WalletRecord, ServiceError>)
    ensures
        r is Ok <==> (found matches Some(w) && is_wallet_of(w, user_id@, wallet_id@)),
        r matches Err(e) ==> e == ServiceError::WalletNotFound,
        r matches Ok(w) ==> {
            let old = found->0;
            &&& w.id == old.id
            &&& w.user_id == old.user_id
            &&& w.wallet_type == old.wallet_type
            &&& w.created_at == old.created_at
            &&& w.name == match name { Some(n) => n, None => old.name }
            &&& w.balance == match balance { Some(b) => b, None => old.balance }
            &&& w.updated_at == now
        },
{
    let mut w = match found {
        Some(w) => w,
        None => {
            return Err(ServiceError::WalletNotFound);
        },
    };
    if !(crate::text::same_text(w.user_id.as_str(), user_id) && crate::text::same_text(w.id.as_str(), wallet_id)) {
        return Err(ServiceError::WalletNotFound);
    }
    if let Some(n) = name {
        w.name = n;
    }
    if let Some(b) = balance {
        w.balance = b;
    }
    w.updated_at = now;
    Ok(w)
}

/// The wallet with its balance moved by `delta`, or `None` where the new
/// balance overflows a decimal. Where the exact new balance fits a decimal
/// at the larger of the two scales, it is exactly the old one plus `delta`.
pub fn adjusted(w: WalletRecord, delta: &Amount) -> (r: Option<WalletRecord>)
    requires
        w.balance.wf(),
        delta.wf(),
    ensures
        crate::money::checked_sum(w.balance, *delta) is None <==> r is None,
        crate::money::sum_fits(w.balance, *delta) ==> (r matches Some(n) && n.balance.value() == w.balance.value() + delta.value()),
        r matches Some(n) ==> {
            &&& Some(n.balance) == crate::money::checked_sum(w.balance, *delta)
            &&& n.id == w.id
            &&& n.user_id == w.user_id
            &&& n.name == w.name
            &&& n.wallet_type == w.wallet_type
            &&& n.created_at == w.created_at
            &&& n.updated_at == w.updated_at
        },
{
    match crate::money::checked_add(&w.balance, delta) {
        Some(b) => {
            let mut n = w;
            n.balance = b;
            Some(n)
        },
        None => None,
    }
}

} // verus!
