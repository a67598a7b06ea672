//! A transaction as listed: with the names of its wallets and of its
//! counterparty contact, where they are found.
use vstd::prelude::*;
use crate::contacts::ContactRecord;
use crate::records::{copy_opt, PartyRecord, TransactionRecord};
use crate::wallets::WalletRecord;

verus! {

/// A transaction with the names of its wallets and counterparty.
pub struct TransactionWithDetail {
    pub transaction: TransactionRecord,
    pub source_wallet_name: Option<String>,
    pub destination_wallet_name: Option<String>,
    pub contact_name: Option<String>,
    pub contact_id: Option<String>,
}

/// The name of the wallet found for a wallet id, where the transaction names
/// one and the wallet is found.
pub open spec fn wallet_name(wallet_id: Option<Seq<char>>, found: Option<WalletRecord>) -> Option<Seq<char>> {
    match (wallet_id, found) {
        (Some(_), Some(w)) => Some(w.name@),
        _ => None,
    }
}

fn name_of_wallet(wallet_id: &Option<String>, found: Option<WalletRecord>) -> (r: Option<String>)
    ensures
        r.deep_view() == wallet_name(wallet_id.deep_view(), found),
{
    match (wallet_id, found) {
        (Some(_), Some(w)) => Some(w.name),
        _ => None,
    }
}

/// Assembles the listed form of `txn`: `source_wallet` and
/// `destination_wallet` are the wallets found under its wallet ids,
/// `counterparty` its counterparty link if any, and `contact` the contact
/// found under that link's contact id. The contact's name and id show only
/// when the link names a contact and that contact is found.
pub fn with_detail(
    txn: TransactionRecord,
    source_wallet: Option<WalletRecord>,
    destination_wallet: Option<WalletRecord>,
    counterparty: Option<PartyRecord>,
    contact: Option<ContactRecord>,
) -> (r: TransactionWithDetail)
    ensures
        r.transaction == txn,
        r.source_wallet_name.deep_view() == wallet_name(txn.source_wallet_id.deep_view(), source_wallet),
        r.destination_wallet_name.deep_view() == wallet_name(txn.destination_wallet_id.deep_view(), destination_wallet),
        (counterparty matches Some(p) && p.contact_id is Some && contact is Some) ==> {
            &&& r.contact_name == Some(contact->0.name)
            &&& r.contact_id.deep_view() == counterparty->0.contact_id.deep_view()
        },
        !(counterparty matches Some(p) && p.contact_id is Some && contact is Some) ==> {
            &&& r.contact_name is None
            &&& r.contact_id is None
        },
{
    let source_wallet_name = name_of_wallet(&txn.source_wallet_id, source_wallet);
    let destination_wallet_name = name_of_wallet(&txn.destination_wallet_id, destination_wallet);
    let mut contact_name: Option<String> = None;
    let mut contact_id: Option<String> = None;
    if let Some(p) = &counterparty {
        if p.contact_id.is_some() {
            if let Some(c) = contact {
                contact_name = Some(c.name);
                contact_id = copy_opt(&p.contact_id);
            }
        }
    }
    TransactionWithDetail { transaction: txn, source_wallet_name, destination_wallet_name, contact_name, contact_id }
}

} // verus!
