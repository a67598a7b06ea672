//! Recording, editing, deleting and restoring transactions, and the wallet
//! balance changes each of these makes. A transaction that is not cancelled
//! takes its amount out of its source wallet and puts it into its destination
//! wallet; the operations here compute the rows to write and the balance
//! changes to apply, which the caller then carries out in one database
//! transaction.
use vstd::prelude::*;
use crate::enums::{TransactionDirection, TransactionSource, TransactionStatus};
use crate::errors::ServiceError;
use crate::money::Amount;
use crate::records::{copy_opt, counterparty_role, PartyRecord, TransactionRecord, TxnView, WalletDelta};
use crate::time::Timestamp;

verus! {

/// `-a`, with the same scale (the sign flag flipped, as `-` on a decimal
/// does).
pub open spec fn negated(a: Amount) -> Amount {
    Amount { mantissa: (-a.mantissa) as i128, scale: a.scale, negative: !a.negative }
}

/// A single balance change of `wallet` by `d`, if there is a wallet.
pub open spec fn change_of(wallet: Option<Seq<char>>, d: Amount) -> Seq<(Seq<char>, Amount)> {
    match wallet {
        Some(w) => seq![(w, d)],
        None => Seq::empty(),
    }
}

/// The balance changes that recording `t` makes: its amount leaves the
/// source wallet and enters the destination wallet.
pub open spec fn apply_effect(t: TxnView) -> Seq<(Seq<char>, Amount)> {
    change_of(t.source_wallet_id, negated(t.amount)) + change_of(t.destination_wallet_id, t.amount)
}

/// The balance changes that take back what recording `t` did.
pub open spec fn reverse_effect(t: TxnView) -> Seq<(Seq<char>, Amount)> {
    change_of(t.source_wallet_id, t.amount) + change_of(t.destination_wallet_id, negated(t.amount))
}

/// The view of a list of balance changes.
pub open spec fn deltas_view(v: Seq<WalletDelta>) -> Seq<(Seq<char>, Amount)> {
    v.map_values(|d: WalletDelta| d@)
}

/// By how much a list of balance changes moves the balance of `wallet`, in
/// units of `10^-28`.
pub open spec fn net_change(ds: Seq<(Seq<char>, Amount)>, wallet: Seq<char>) -> int
    decreases ds.len(),
{
    if ds.len() == 0 {
        0
    } else {
        net_change(ds.drop_last(), wallet) + if ds.last().0 == wallet {
            ds.last().1.value()
        } else {
            0
        }
    }
}

/// Moving by two lists of changes in turn moves by the sum of both.
pub proof fn lemma_net_change_concat(a: Seq<(Seq<char>, Amount)>, b: Seq<(Seq<char>, Amount)>, w: Seq<char>)
    ensures
        net_change(a + b, w) == net_change(a, w) + net_change(b, w),
    decreases b.len(),
{
    if b.len() == 0 {
        assert(a + b =~= a);
    } else {
        assert((a + b).drop_last() =~= a + b.drop_last());
        lemma_net_change_concat(a, b.drop_last(), w);
    }
}

proof fn lemma_net_change_one(wallet: Option<Seq<char>>, d: Amount, w: Seq<char>)
    ensures
        net_change(change_of(wallet, d), w) == if wallet == Some(w) { d.value() } else { 0 },
{
    match wallet {
        Some(x) => {
            let c = change_of(wallet, d);
            assert(c.drop_last() =~= Seq::<(Seq<char>, Amount)>::empty());
            assert(net_change(c.drop_last(), w) == 0);
            assert(c.last() == (x, d));
        },
        None => {},
    }
}

proof fn lemma_negated_value(a: Amount)
    requires
        a.wf(),
    ensures
        negated(a).value() == -a.value(),
        negated(a).wf(),
{
    vstd::arithmetic::mul::lemma_mul_unary_negation(
        a.mantissa as int,
        crate::money::pow10((crate::money::MAX_SCALE - a.scale) as nat),
    );
}

/// Taking a transaction back cancels, wallet by wallet, what recording it did.
pub proof fn lemma_reverse_cancels_apply(t: TxnView, w: Seq<char>)
    requires
        t.wf(),
    ensures
        net_change(apply_effect(t), w) + net_change(reverse_effect(t), w) == 0,
{
    lemma_negated_value(t.amount);
    lemma_net_change_concat(change_of(t.source_wallet_id, negated(t.amount)), change_of(t.destination_wallet_id, t.amount), w);
    lemma_net_change_concat(change_of(t.source_wallet_id, t.amount), change_of(t.destination_wallet_id, negated(t.amount)), w);
    lemma_net_change_one(t.source_wallet_id, negated(t.amount), w);
    lemma_net_change_one(t.destination_wallet_id, t.amount, w);
    lemma_net_change_one(t.source_wallet_id, t.amount, w);
    lemma_net_change_one(t.destination_wallet_id, negated(t.amount), w);
}

/// The balance changes for `t`, in the order the operations apply them.
fn effect_deltas(t: &TransactionRecord, reverse: bool) -> (r: Vec<WalletDelta>)
    requires
        t@.wf(),
    ensures
        deltas_view(r@) == if reverse { reverse_effect(t@) } else { apply_effect(t@) },
{
    let mut r: Vec<WalletDelta> = Vec::new();
    let out_delta = if reverse { t.amount } else { t.amount.neg() };
    let in_delta = if reverse { t.amount.neg() } else { t.amount };
    match &t.source_wallet_id {
        Some(w) => {
            r.push(WalletDelta { wallet_id: w.clone(), delta: out_delta });
        },
        None => {},
    }
    match &t.destination_wallet_id {
        Some(w) => {
            r.push(WalletDelta { wallet_id: w.clone(), delta: in_delta });
        },
        None => {},
    }
    proof {
        let expected = if reverse { reverse_effect(t@) } else { apply_effect(t@) };
        assert(deltas_view(r@) =~= expected);
    }
    r
}

/// The rows and balance changes that recording a transaction makes.
pub struct CreatePlan {
    pub txn: TransactionRecord,
    pub party: Option<PartyRecord>,
    pub deltas: Vec<WalletDelta>,
}

/// Records a transaction of `user_id`, completed, with a counterparty link
/// to `contact_id` if one is given, and takes its amount out of the source
/// wallet and into the destination wallet.
pub fn plan_create_transaction(
    user_id: &str,
    amount: Amount,
    direction: TransactionDirection,
    date: Timestamp,
    source: TransactionSource,
    purpose_tag: Option<String>,
    category_id: Option<String>,
    source_wallet_id: Option<String>,
    destination_wallet_id: Option<String>,
    contact_id: Option<String>,
    notes: Option<String>,
) -> (p: CreatePlan)
    requires
        amount.wf(),
    ensures
        p.txn@.user_id == user_id@,
        p.txn@.amount == amount,
        p.txn@.direction == direction,
        p.txn@.date == date,
        p.txn@.source == source,
        p.txn@.status == TransactionStatus::Completed,
        p.txn@.purpose_tag == purpose_tag.deep_view(),
        p.txn@.category_id == category_id.deep_view(),
        p.txn@.group_id is None,
        p.txn@.source_wallet_id == source_wallet_id.deep_view(),
        p.txn@.destination_wallet_id == destination_wallet_id.deep_view(),
        p.txn@.ledger_tab_id is None,
        p.txn@.deleted_at is None,
        p.txn@.notes == notes.deep_view(),
        match contact_id {
            Some(c) => p.party matches Some(q) && q.transaction_id@ == p.txn@.id && q.user_id is None
                && q.contact_id == Some(c) && q.role@ == counterparty_role(),
            None => p.party is None,
        },
        deltas_view(p.deltas@) == apply_effect(p.txn@),
{
    let txn = TransactionRecord {
        id: crate::ids::new_id(),
        user_id: crate::text::owned(user_id),
        amount,
        direction,
        date,
        source,
        status: TransactionStatus::Completed,
        purpose_tag,
        category_id,
        group_id: None,
        source_wallet_id,
        destination_wallet_id,
        ledger_tab_id: None,
        deleted_at: None,
        notes,
    };
    let party = match contact_id {
        Some(c) => Some(PartyRecord::counterparty(&txn.id, c)),
        None => None,
    };
    let deltas = effect_deltas(&txn, false);
    CreatePlan { txn, party, deltas }
}

/// The changes an edit asks for; a field left `None` stays as it is.
pub struct TransactionPatch {
    pub amount: Option<Amount>,
    pub date: Option<Timestamp>,
    pub purpose_tag: Option<String>,
    pub category_id: Option<String>,
    pub status: Option<TransactionStatus>,
    pub notes: Option<String>,
    /// An empty id detaches the source wallet.
    pub source_wallet_id: Option<String>,
    /// An empty id detaches the destination wallet.
    pub destination_wallet_id: Option<String>,
    /// An empty id removes the counterparty.
    pub contact_id: Option<String>,
}

impl TransactionPatch {
    /// Any amount the patch carries can be held by a decimal.
    pub open spec fn wf(self) -> bool {
        self.amount matches Some(a) ==> a.wf()
    }

    /// The patch changes nothing.
    pub open spec fn is_empty(self) -> bool {
        &&& self.amount is None
        &&& self.date is None
        &&& self.purpose_tag is None
        &&& self.category_id is None
        &&& self.status is None
        &&& self.notes is None
        &&& self.source_wallet_id is None
        &&& self.destination_wallet_id is None
        &&& self.contact_id is None
    }
}

/// A wallet reference after an edit: an empty id means none.
pub open spec fn patched_wallet(old: Option<Seq<char>>, new: Option<String>) -> Option<Seq<char>> {
    match new {
        Some(s) => if s@.len() == 0 {
            None
        } else {
            Some(s@)
        },
        None => old,
    }
}

/// A text field after an edit.
pub open spec fn patched_text(old: Option<Seq<char>>, new: Option<String>) -> Option<Seq<char>> {
    match new {
        Some(s) => Some(s@),
        None => old,
    }
}

/// The transaction `old` after the edit `p`.
pub open spec fn patched(old: TxnView, p: TransactionPatch) -> TxnView {
    TxnView {
        amount: match p.amount {
            Some(a) => a,
            None => old.amount,
        },
        date: match p.date {
            Some(d) => d,
            None => old.date,
        },
        purpose_tag: patched_text(old.purpose_tag, p.purpose_tag),
        category_id: patched_text(old.category_id, p.category_id),
        status: match p.status {
            Some(s) => s,
            None => old.status,
        },
        notes: patched_text(old.notes, p.notes),
        source_wallet_id: patched_wallet(old.source_wallet_id, p.source_wallet_id),
        destination_wallet_id: patched_wallet(old.destination_wallet_id, p.destination_wallet_id),
        ..old
    }
}

/// The balance changes of an edit from `old` to `new`: first what `old` did
/// is taken back, then what `new` does is applied, each only where the
/// transaction is not cancelled.
pub open spec fn edit_effect(old: TxnView, new: TxnView) -> Seq<(Seq<char>, Amount)> {
    (if old.is_active() {
        reverse_effect(old)
    } else {
        Seq::empty()
    }) + (if new.is_active() {
        apply_effect(new)
    } else {
        Seq::empty()
    })
}

/// A logged change of a transaction's amount.
pub struct EditRecord {
    pub id: String,
    pub transaction_id: String,
    pub old_amount: Amount,
    pub new_amount: Amount,
    pub edited_at: Timestamp,
}

/// What an edit does to the counterparty links of the transaction.
pub enum PartyChange {
    /// They stay as they are.
    Keep,
    /// The counterparty links are removed.
    Clear,
    /// The counterparty links are removed and this one is added.
    Replace(PartyRecord),
}

/// `old` with the edit `patch` applied.
fn apply_patch(old: &TransactionRecord, patch: &TransactionPatch) -> (t: TransactionRecord)
    requires
        patch.wf(),
        old@.wf(),
    ensures
        t@ == patched(old@, *patch),
        t@.wf(),
{
    let mut txn = old.duplicate();
    if let Some(a) = patch.amount {
        txn.amount = a;
    }
    if let Some(d) = patch.date {
        txn.date = d;
    }
    if let Some(tag) = &patch.purpose_tag {
        txn.purpose_tag = Some(tag.clone());
    }
    if let Some(c) = &patch.category_id {
        txn.category_id = Some(c.clone());
    }
    if let Some(s) = patch.status {
        txn.status = s;
    }
    if let Some(n) = &patch.notes {
        txn.notes = Some(n.clone());
    }
    if let Some(w) = &patch.source_wallet_id {
        txn.source_wallet_id = if w.as_str().unicode_len() == 0 { None } else { Some(w.clone()) };
    }
    if let Some(w) = &patch.destination_wallet_id {
        txn.destination_wallet_id = if w.as_str().unicode_len() == 0 { None } else { Some(w.clone()) };
    }
    txn
}

/// The log entry for an edit that changes the value of the amount.
fn amount_edit(old: &TransactionRecord, patch: &TransactionPatch, now: Timestamp) -> (e: Option<EditRecord>)
    requires
        patch.wf(),
        old@.wf(),
    ensures
        match patch.amount {
            Some(a) => if a.value() != old@.amount.value() {
                e matches Some(r) && r.transaction_id@ == old@.id && r.old_amount == old@.amount && r.new_amount == a
                    && r.edited_at == now
            } else {
                e is None
            },
            None => e is None,
        },
{
    match patch.amount {
        Some(a) => {
            if !a.same_value(&old.amount) {
                Some(EditRecord {
                    id: crate::ids::new_id(),
                    transaction_id: old.id.clone(),
                    old_amount: old.amount,
                    new_amount: a,
                    edited_at: now,
                })
            } else {
                None
            }
        },
        None => None,
    }
}

/// What an edit does to the counterparty of transaction `txn_id`.
fn party_change(txn_id: &String, patch: &TransactionPatch) -> (c: PartyChange)
    ensures
        match patch.contact_id {
            Some(k) => if k@.len() == 0 {
                c is Clear
            } else {
                c matches PartyChange::Replace(q) && q.transaction_id@ == txn_id@ && q.user_id is None
                    && q.contact_id.deep_view() == Some(k@) && q.role@ == counterparty_role()
            },
            None => c is Keep,
        },
{
    match &patch.contact_id {
        Some(k) => {
            if k.as_str().unicode_len() == 0 {
                PartyChange::Clear
            } else {
                PartyChange::Replace(PartyRecord::counterparty(txn_id, k.clone()))
            }
        },
        None => PartyChange::Keep,
    }
}

/// The balance changes of an edit from `old` to `new`.
fn edit_deltas(old: &TransactionRecord, new: &TransactionRecord) -> (d: Vec<WalletDelta>)
    requires
        old@.wf(),
        new@.wf(),
    ensures
        deltas_view(d@) == edit_effect(old@, new@),
{
    let mut deltas: Vec<WalletDelta> = Vec::new();
    if old.status != TransactionStatus::Cancelled {
        deltas = effect_deltas(old, true);
    }
    if new.status != TransactionStatus::Cancelled {
        let mut applied = effect_deltas(new, false);
        let ghost before = deltas@;
        deltas.append(&mut applied);
        proof {
            assert(deltas_view(deltas@) =~= deltas_view(before) + apply_effect(new@));
        }
    }
    proof {
        assert(deltas_view(deltas@) =~= edit_effect(old@, new@));
    }
    deltas
}

/// The rows and balance changes that an edit makes.
pub struct UpdatePlan {
    pub txn: TransactionRecord,
    pub edit: Option<EditRecord>,
    pub party: PartyChange,
    pub deltas: Vec<WalletDelta>,
}

/// Edits the transaction `existing` (the row found under the requested id,
/// if any) on behalf of `user_id`. A new amount of a different value is
/// logged as edited at `now`; a given contact replaces the counterparty (an empty one removes
/// it); wallet balances lose what the old transaction did and gain what the
/// edited one does, each only where it is not cancelled.
pub fn plan_update_transaction(existing: Option<TransactionRecord>, user_id: &str, patch: TransactionPatch, now: Timestamp) -> (r: Result<UpdatePlan, ServiceError>)
    requires
        patch.wf(),
        existing matches Some(t) ==> t@.wf(),
    ensures
        existing is None ==> r == Err::<UpdatePlan, ServiceError>(ServiceError::TransactionNotFound),
        existing matches Some(t) && t.user_id@ != user_id@ ==> r == Err::<UpdatePlan, ServiceError>(ServiceError::Unauthorized),
        existing matches Some(t) && t.user_id@ == user_id@ ==> r is Ok,
        r matches Ok(plan) ==> ({
            let old = existing->0@;
            &&& plan.txn@ == patched(old, patch)
            &&& plan.txn@.date == match patch.date { Some(d) => d, None => old.date }
            &&& plan.txn@.amount == match patch.amount { Some(a) => a, None => old.amount }
            &&& plan.txn@.status == match patch.status { Some(st) => st, None => old.status }
            &&& match patch.amount {
                Some(a) => if a.value() != old.amount.value() {
                    plan.edit matches Some(e) && e.transaction_id@ == old.id && e.old_amount == old.amount && e.new_amount == a
                        && e.edited_at == now
                } else {
                    plan.edit is None
                },
                None => plan.edit is None,
            }
            &&& match patch.contact_id {
                Some(c) => if c@.len() == 0 {
                    plan.party is Clear
                } else {
                    plan.party matches PartyChange::Replace(q) && q.transaction_id@ == old.id && q.user_id is None
                        && q.contact_id.deep_view() == Some(c@) && q.role@ == counterparty_role()
                },
                None => plan.party is Keep,
            }
            &&& deltas_view(plan.deltas@) == edit_effect(old, plan.txn@)
        }),
{
    let old = match existing {
        Some(t) => t,
        None => {
            return Err(ServiceError::TransactionNotFound);
        },
    };
    if !crate::text::same_text(old.user_id.as_str(), user_id) {
        return Err(ServiceError::Unauthorized);
    }
    let txn = apply_patch(&old, &patch);
    let edit = amount_edit(&old, &patch, now);
    let party = party_change(&txn.id, &patch);
    let deltas = edit_deltas(&old, &txn);
    Ok(UpdatePlan { txn, edit, party, deltas })
}

/// The rows and balance changes that deleting a transaction makes.
pub struct DeletePlan {
    pub txn: TransactionRecord,
    pub deltas: Vec<WalletDelta>,
}

/// Marks the transaction `existing` deleted at `now` on behalf of `user_id`,
/// and takes back its balance changes unless it is cancelled.
pub fn plan_delete_transaction(existing: Option<TransactionRecord>, user_id: &str, now: Timestamp) -> (r: Result<DeletePlan, ServiceError>)
    requires
        existing matches Some(t) ==> t@.wf(),
    ensures
        existing is None ==> r == Err::<DeletePlan, ServiceError>(ServiceError::TransactionNotFound),
        existing matches Some(t) && t.user_id@ != user_id@ ==> r == Err::<DeletePlan, ServiceError>(ServiceError::Unauthorized),
        existing matches Some(t) && t.user_id@ == user_id@ ==> r is Ok,
        r matches Ok(plan) ==> ({
            let old = existing->0@;
            &&& plan.txn@ == (TxnView { deleted_at: Some(now), ..old })
            &&& deltas_view(plan.deltas@) == delete_effect(old)
        }),
{
    let old = match existing {
        Some(t) => t,
        None => {
            return Err(ServiceError::TransactionNotFound);
        },
    };
    if !crate::text::same_text(old.user_id.as_str(), user_id) {
        return Err(ServiceError::Unauthorized);
    }
    let deltas = if old.status != TransactionStatus::Cancelled {
        effect_deltas(&old, true)
    } else {
        Vec::new()
    };
    proof {
        if !old@.is_active() {
            assert(deltas_view(deltas@) =~= Seq::<(Seq<char>, Amount)>::empty());
        }
    }
    let mut txn = old;
    txn.deleted_at = Some(now);
    Ok(DeletePlan { txn, deltas })
}

/// The rows and balance changes that restoring a deleted transaction makes.
pub struct RevertPlan {
    pub txn: TransactionRecord,
    pub deltas: Vec<WalletDelta>,
}

/// Clears the deletion mark of `existing` on behalf of `user_id`, and applies
/// its balance changes again unless it is cancelled.
pub fn plan_revert_transaction(existing: Option<TransactionRecord>, user_id: &str) -> (r: Result<RevertPlan, ServiceError>)
    requires
        existing matches Some(t) ==> t@.wf(),
    ensures
        existing is None ==> r == Err::<RevertPlan, ServiceError>(ServiceError::TransactionNotFound),
        existing matches Some(t) && t.user_id@ != user_id@ ==> r == Err::<RevertPlan, ServiceError>(ServiceError::Unauthorized),
        existing matches Some(t) && t.user_id@ == user_id@ ==> r is Ok,
        r matches Ok(plan) ==> ({
            let old = existing->0@;
            &&& plan.txn@ == (TxnView { deleted_at: None, ..old })
            &&& deltas_view(plan.deltas@) == revert_effect(old)
        }),
{
    let old = match existing {
        Some(t) => t,
        None => {
            return Err(ServiceError::TransactionNotFound);
        },
    };
    if !crate::text::same_text(old.user_id.as_str(), user_id) {
        return Err(ServiceError::Unauthorized);
    }
    let mut txn = old;
    txn.deleted_at = None;
    let deltas = if txn.status != TransactionStatus::Cancelled {
        effect_deltas(&txn, false)
    } else {
        Vec::new()
    };
    proof {
        if !txn@.is_active() {
            assert(deltas_view(deltas@) =~= Seq::<(Seq<char>, Amount)>::empty());
        }
    }
    Ok(RevertPlan { txn, deltas })
}

/// The balance changes of deleting `t`.
pub open spec fn delete_effect(t: TxnView) -> Seq<(Seq<char>, Amount)> {
    if t.is_active() {
        reverse_effect(t)
    } else {
        Seq::empty()
    }
}

/// The balance changes of restoring `t`.
pub open spec fn revert_effect(t: TxnView) -> Seq<(Seq<char>, Amount)> {
    if t.is_active() {
        apply_effect(TxnView { deleted_at: None, ..t })
    } else {
        Seq::empty()
    }
}

/// The sum of all balance changes, whatever the wallet.
pub open spec fn total_change(ds: Seq<(Seq<char>, Amount)>) -> int
    decreases ds.len(),
{
    if ds.len() == 0 {
        0
    } else {
        total_change(ds.drop_last()) + ds.last().1.value()
    }
}

proof fn lemma_total_change_concat(a: Seq<(Seq<char>, Amount)>, b: Seq<(Seq<char>, Amount)>)
    ensures
        total_change(a + b) == total_change(a) + total_change(b),
    decreases b.len(),
{
    if b.len() == 0 {
        assert(a + b =~= a);
    } else {
        assert((a + b).drop_last() =~= a + b.drop_last());
        lemma_total_change_concat(a, b.drop_last());
    }
}

proof fn lemma_total_change_one(wallet: Option<Seq<char>>, d: Amount)
    ensures
        total_change(change_of(wallet, d)) == if wallet is Some { d.value() } else { 0 },
{
    if let Some(x) = wallet {
        let c = change_of(wallet, d);
        assert(c.drop_last() =~= Seq::<(Seq<char>, Amount)>::empty());
        assert(total_change(c.drop_last()) == 0);
    }
}

/// Deleting a transaction and then restoring it leaves every wallet balance
/// where it was.
pub proof fn law_delete_then_restore_keeps_balances(t: TxnView, now: Timestamp, w: Seq<char>)
    requires
        t.wf(),
    ensures
        net_change(delete_effect(t), w) + net_change(revert_effect(TxnView { deleted_at: Some(now), ..t }), w) == 0,
{
    let d = TxnView { deleted_at: Some(now), ..t };
    assert(apply_effect(TxnView { deleted_at: None, ..d }) == apply_effect(t));
    lemma_reverse_cancels_apply(t, w);
}

/// Recording a transaction and then deleting it leaves every wallet balance
/// where it was.
pub proof fn law_create_then_delete_keeps_balances(t: TxnView, w: Seq<char>)
    requires
        t.wf(),
        t.status == TransactionStatus::Completed,
    ensures
        net_change(apply_effect(t), w) + net_change(delete_effect(t), w) == 0,
{
    lemma_reverse_cancels_apply(t, w);
}

/// An edit that changes nothing leaves the transaction as it was and every
/// wallet balance where it was.
pub proof fn law_empty_edit_changes_nothing(t: TxnView, p: TransactionPatch, w: Seq<char>)
    requires
        t.wf(),
        p.is_empty(),
    ensures
        patched(t, p) == t,
        net_change(edit_effect(t, patched(t, p)), w) == 0,
{
    assert(patched(t, p) == t);
    if t.is_active() {
        lemma_net_change_concat(reverse_effect(t), apply_effect(t), w);
        lemma_reverse_cancels_apply(t, w);
    } else {
        assert(edit_effect(t, t) =~= Seq::<(Seq<char>, Amount)>::empty());
    }
}

/// An edit moves each wallet balance by what the edited transaction does to
/// it minus what the old one did.
pub proof fn law_edit_moves_by_difference(old: TxnView, new: TxnView, w: Seq<char>)
    requires
        old.wf(),
        new.wf(),
    ensures
        net_change(edit_effect(old, new), w) == (if new.is_active() { net_change(apply_effect(new), w) } else { 0 })
            - (if old.is_active() { net_change(apply_effect(old), w) } else { 0 }),
{
    let a = if old.is_active() { reverse_effect(old) } else { Seq::empty() };
    let b = if new.is_active() { apply_effect(new) } else { Seq::empty() };
    lemma_net_change_concat(a, b, w);
    lemma_reverse_cancels_apply(old, w);
}

/// A transfer between two wallets neither creates nor destroys money: the
/// balance changes of a transaction with both wallets sum to zero.
pub proof fn law_transfer_conserves_money(t: TxnView)
    requires
        t.wf(),
        t.source_wallet_id is Some,
        t.destination_wallet_id is Some,
    ensures
        total_change(apply_effect(t)) == 0,
        total_change(reverse_effect(t)) == 0,
{
    lemma_negated_value(t.amount);
    lemma_total_change_concat(change_of(t.source_wallet_id, negated(t.amount)), change_of(t.destination_wallet_id, t.amount));
    lemma_total_change_concat(change_of(t.source_wallet_id, t.amount), change_of(t.destination_wallet_id, negated(t.amount)));
    lemma_total_change_one(t.source_wallet_id, negated(t.amount));
    lemma_total_change_one(t.destination_wallet_id, t.amount);
    lemma_total_change_one(t.source_wallet_id, t.amount);
    lemma_total_change_one(t.destination_wallet_id, negated(t.amount));
}

/// An edit followed by the edit that restores the old transaction leaves
/// every wallet balance where it was.
pub proof fn law_edit_then_undo_keeps_balances(old: TxnView, new: TxnView, w: Seq<char>)
    requires
        old.wf(),
        new.wf(),
    ensures
        net_change(edit_effect(old, new), w) + net_change(edit_effect(new, old), w) == 0,
{
    law_edit_moves_by_difference(old, new, w);
    law_edit_moves_by_difference(new, old, w);
}

/// An edit writes each field the patch gives and keeps each field it leaves
/// out: the amount, date and status given replace the old ones, a given
/// purpose, category or note becomes the new text, a given wallet id becomes
/// the new wallet (an empty one removes it), and the transaction's identity,
/// owner, direction, source, group, tab and deletion mark never change.
pub proof fn law_edit_writes_what_the_patch_gives(old: TxnView, p: TransactionPatch)
    ensures
        p.amount matches Some(a) ==> patched(old, p).amount == a,
        p.amount is None ==> patched(old, p).amount == old.amount,
        p.date matches Some(d) ==> patched(old, p).date == d,
        p.date is None ==> patched(old, p).date == old.date,
        p.status matches Some(st) ==> patched(old, p).status == st,
        p.status is None ==> patched(old, p).status == old.status,
        p.purpose_tag matches Some(t) ==> patched(old, p).purpose_tag == Some(t@),
        p.purpose_tag is None ==> patched(old, p).purpose_tag == old.purpose_tag,
        p.category_id matches Some(c) ==> patched(old, p).category_id == Some(c@),
        p.category_id is None ==> patched(old, p).category_id == old.category_id,
        p.notes matches Some(n) ==> patched(old, p).notes == Some(n@),
        p.notes is None ==> patched(old, p).notes == old.notes,
        p.source_wallet_id matches Some(w) ==> patched(old, p).source_wallet_id == (if w@.len() == 0 { None } else { Some(w@) }),
        p.source_wallet_id is None ==> patched(old, p).source_wallet_id == old.source_wallet_id,
        p.destination_wallet_id matches Some(w) ==> patched(old, p).destination_wallet_id == (if w@.len() == 0 { None } else { Some(w@) }),
        p.destination_wallet_id is None ==> patched(old, p).destination_wallet_id == old.destination_wallet_id,
        patched(old, p).id == old.id,
        patched(old, p).user_id == old.user_id,
        patched(old, p).direction == old.direction,
        patched(old, p).source == old.source,
        patched(old, p).group_id == old.group_id,
        patched(old, p).ledger_tab_id == old.ledger_tab_id,
        patched(old, p).deleted_at == old.deleted_at,
{
}

} // verus!
