//! Subscriptions: confirmed recurring charges, their alerts, and the
//! detection of likely subscriptions among recent transactions.
//!
//! Detection groups transactions by purpose (or "Unknown") and amount, sorts
//! each group's dates, and looks at the gaps between consecutive charges: a
//! gap of 6 to 8 days means weekly, 27 to 33 days monthly, 360 to 370 days
//! yearly; the last gap that fits decides. The next charge is due 7, 30 or
//! 365 days after the latest one.
use vstd::prelude::*;
use crate::enums::SubscriptionCycle;
use crate::money::Amount;
use crate::records::TxnView;
use crate::records::TransactionRecord;
use crate::time::Timestamp;

verus! {

/// How far back detection looks, in days.
pub const DETECTION_WINDOW_DAYS: i64 = 90;

/// A subscription row.
pub struct SubscriptionRecord {
    pub id: String,
    pub user_id: String,
    pub name: String,
    pub amount: Amount,
    /// The display name of the cycle (`Weekly`, `Monthly`, `Yearly`).
    pub cycle: String,
    pub start_date: Timestamp,
    pub next_charge_date: Timestamp,
    /// Detection keywords as JSON text.
    pub detection_keywords: Option<String>,
}

/// An alert configured for a subscription.
pub struct AlertRecord {
    pub id: String,
    pub subscription_id: String,
    pub days_before: i32,
    pub channel: String,
    pub sent_at: Option<Timestamp>,
}

/// Records a subscription the user confirmed.
pub fn confirm_subscription(
    user_id: &str,
    name: String,
    amount: Amount,
    cycle: String,
    start_date: Timestamp,
    next_charge_date: Timestamp,
    keywords: Option<String>,
) -> (s: SubscriptionRecord)
    ensures
        s.user_id@ == user_id@,
        s.name == name,
        s.amount == amount,
        s.cycle == cycle,
        s.start_date == start_date,
        s.next_charge_date == next_charge_date,
        s.detection_keywords == keywords,
{
    SubscriptionRecord {
        id: crate::ids::new_id(),
        user_id: crate::text::owned(user_id),
        name,
        amount,
        cycle,
        start_date,
        next_charge_date,
        detection_keywords: keywords,
    }
}

/// An alert `days_before` a charge of subscription `sub_id`, not yet sent.
pub fn configure_alert(sub_id: &str, days_before: i32, channel: String) -> (a: AlertRecord)
    ensures
        a.subscription_id@ == sub_id@,
        a.days_before == days_before,
        a.channel == channel,
        a.sent_at is None,
{
    AlertRecord { id: crate::ids::new_id(), subscription_id: crate::text::owned(sub_id), days_before, channel, sent_at: None }
}

/// The earliest date detection looks at: `now` less the window.
pub fn detection_window_start(now: &Timestamp) -> (t: Timestamp)
    requires
        now.wf(),
        now.can_add_days(-DETECTION_WINDOW_DAYS as int),
    ensures
        t == now.plus_days(-DETECTION_WINDOW_DAYS as int),
{
    now.add_days(-DETECTION_WINDOW_DAYS)
}

// ---------------------------------------------------------------------
// Stable sorting of dates.

/// `s` with `x` inserted after every element that is not later than it.
pub open spec fn insert_sorted(s: Seq<Timestamp>, x: Timestamp) -> Seq<Timestamp>
    decreases s.len(),
{
    if s.len() > 0 && x.before(s.last()) {
        insert_sorted(s.drop_last(), x).push(s.last())
    } else {
        s.push(x)
    }
}

/// `s` sorted by instant; elements at the same instant keep their order.
pub open spec fn sort_stable(s: Seq<Timestamp>) -> Seq<Timestamp>
    decreases s.len(),
{
    if s.len() == 0 {
        Seq::empty()
    } else {
        insert_sorted(sort_stable(s.drop_last()), s.last())
    }
}

/// Every element is not earlier than the one before it.
pub open spec fn is_sorted(s: Seq<Timestamp>) -> bool {
    forall|i: int, j: int| 0 <= i < j < s.len() ==> !s[j].before(s[i])
}

proof fn lemma_insert_sorted_shape(s: Seq<Timestamp>, x: Timestamp, j: int)
    requires
        0 <= j <= s.len(),
        forall|k: int| j <= k < s.len() ==> x.before(#[trigger] s[k]),
        j == 0 || !x.before(s[j - 1]),
    ensures
        insert_sorted(s, x) =~= s.take(j).push(x) + s.skip(j),
    decreases s.len(),
{
    if s.len() > 0 && x.before(s.last()) {
        lemma_insert_sorted_shape(s.drop_last(), x, j);
        assert(s.drop_last().take(j) =~= s.take(j));
        assert(s.drop_last().skip(j).push(s.last()) =~= s.skip(j));
    } else {
        assert(s.skip(j) =~= Seq::<Timestamp>::empty());
        assert(s.take(j) =~= s);
    }
}

proof fn lemma_insert_sorted_keeps_order(s: Seq<Timestamp>, x: Timestamp)
    requires
        is_sorted(s),
    ensures
        is_sorted(insert_sorted(s, x)),
        insert_sorted(s, x).len() == s.len() + 1,
        insert_sorted(s, x).to_multiset() =~= s.to_multiset().insert(x),
    decreases s.len(),
{
    broadcast use vstd::seq_lib::group_to_multiset_ensures, vstd::multiset::group_multiset_axioms;

    if s.len() > 0 && x.before(s.last()) {
        let init = s.drop_last();
        let rest = insert_sorted(init, x);
        lemma_insert_sorted_keeps_order(init, x);
        assert(init.push(s.last()) =~= s);
        let out = rest.push(s.last());
        assert forall|i: int, j: int| 0 <= i < j < out.len() implies !out[j].before(out[i]) by {
            if j < rest.len() {
                assert(out[j] == rest[j] && out[i] == rest[i]);
            } else {
                let e = rest[i];
                assert(rest.contains(e));
                assert(rest.to_multiset().count(e) > 0);
                if e != x {
                    assert(init.to_multiset().count(e) > 0);
                    assert(init.contains(e));
                    let k = choose|k: int| 0 <= k < init.len() && init[k] == e;
                    assert(s[k] == e);
                    assert(!s[s.len() - 1].before(s[k]));
                }
            }
        }
    } else {
        let out = s.push(x);
        assert forall|i: int, j: int| 0 <= i < j < out.len() implies !out[j].before(out[i]) by {
            if j < s.len() {
                assert(out[j] == s[j] && out[i] == s[i]);
            } else if i < s.len() - 1 {
                assert(!s[s.len() - 1].before(s[i]));
            }
        }
    }
}

proof fn lemma_sort_stable_sorted(s: Seq<Timestamp>)
    ensures
        is_sorted(sort_stable(s)),
        sort_stable(s).len() == s.len(),
        sort_stable(s).to_multiset() =~= s.to_multiset(),
    decreases s.len(),
{
    if s.len() > 0 {
        lemma_sort_stable_sorted(s.drop_last());
        lemma_insert_sorted_keeps_order(sort_stable(s.drop_last()), s.last());
        assert(s.drop_last().push(s.last()) =~= s);
        vstd::seq_lib::to_multiset_build(s.drop_last(), s.last());
        assert(sort_stable(s) == insert_sorted(sort_stable(s.drop_last()), s.last()));
        assert(sort_stable(s).to_multiset() =~= s.drop_last().to_multiset().insert(s.last()));
        let p = s.drop_last().push(s.last());
        assert(p == s);
        assert(p.to_multiset() == s.to_multiset());
    } else {
        assert(s =~= Seq::<Timestamp>::empty());
    }
}

/// Sorting the dates of a group gives them in time order, each exactly as
/// often as before.
pub proof fn law_sorted_dates_are_ordered(s: Seq<Timestamp>)
    ensures
        is_sorted(sort_stable(s)),
        sort_stable(s).to_multiset() =~= s.to_multiset(),
{
    lemma_sort_stable_sorted(s);
}

/// Sorts dates by instant, keeping the order of dates at the same instant
/// (as the standard stable sort does).
pub fn sort_dates(v: Vec<Timestamp>) -> (r: Vec<Timestamp>)
    ensures
        r@ == sort_stable(v@),
{
    let mut out: Vec<Timestamp> = Vec::new();
    let mut i: usize = 0;
    while i < v.len()
        invariant
            i <= v.len(),
            out@ == sort_stable(v@.take(i as int)),
        decreases v.len() - i,
    {
        let x = v[i];
        let mut j: usize = out.len();
        while j > 0 && x.is_before(&out[j - 1])
            invariant
                j <= out.len(),
                forall|k: int| j <= k < out.len() ==> x.before(#[trigger] out@[k]),
            decreases j,
        {
            j = j - 1;
        }
        proof {
            lemma_insert_sorted_shape(out@, x, j as int);
            assert(v@.take(i + 1).drop_last() =~= v@.take(i as int));
        }
        out.insert(j, x);
        assert(out@ =~= insert_sorted(sort_stable(v@.take(i as int)), x));
        i = i + 1;
    }
    assert(v@.take(v.len() as int) =~= v@);
    out
}

// ---------------------------------------------------------------------
// Cycle detection.

/// The cycle a gap of `days` between two charges suggests.
pub open spec fn cycle_of_gap(days: int) -> Option<SubscriptionCycle> {
    if 6 <= days <= 8 {
        Some(SubscriptionCycle::Weekly)
    } else if 27 <= days <= 33 {
        Some(SubscriptionCycle::Monthly)
    } else if 360 <= days <= 370 {
        Some(SubscriptionCycle::Yearly)
    } else {
        None
    }
}

/// The cycle suggested by the last gap, among the first `n` gaps of `ds`,
/// that suggests one.
pub open spec fn detect_upto(ds: Seq<Timestamp>, n: int) -> Option<SubscriptionCycle>
    decreases n,
{
    if n <= 0 {
        None
    } else {
        match cycle_of_gap(ds[n].days_since(ds[n - 1])) {
            Some(c) => Some(c),
            None => detect_upto(ds, n - 1),
        }
    }
}

/// The cycle of a sorted list of charge dates, if any gap suggests one.
pub open spec fn detect_cycle(ds: Seq<Timestamp>) -> Option<SubscriptionCycle> {
    detect_upto(ds, ds.len() - 1)
}

/// The days from one charge to the next in a cycle.
pub open spec fn cycle_days(c: SubscriptionCycle) -> int {
    match c {
        SubscriptionCycle::Weekly => 7,
        SubscriptionCycle::Yearly => 365,
        SubscriptionCycle::Monthly => 30,
    }
}

fn cycle_days_exec(c: SubscriptionCycle) -> (d: i64)
    ensures
        d == cycle_days(c),
{
    match c {
        SubscriptionCycle::Weekly => 7,
        SubscriptionCycle::Yearly => 365,
        SubscriptionCycle::Monthly => 30,
    }
}

fn cycle_of_gap_exec(days: i64) -> (c: Option<SubscriptionCycle>)
    ensures
        c == cycle_of_gap(days as int),
{
    if 6 <= days && days <= 8 {
        Some(SubscriptionCycle::Weekly)
    } else if 27 <= days && days <= 33 {
        Some(SubscriptionCycle::Monthly)
    } else if 360 <= days && days <= 370 {
        Some(SubscriptionCycle::Yearly)
    } else {
        None
    }
}

/// The detected cycle of sorted charge dates `ds`.
fn detect_cycle_exec(ds: &Vec<Timestamp>) -> (c: Option<SubscriptionCycle>)
    requires
        ds.len() >= 1,
        forall|i: int| 0 <= i < ds.len() ==> (#[trigger] ds@[i]).wf(),
    ensures
        c == detect_cycle(ds@),
{
    let mut detected: Option<SubscriptionCycle> = None;
    let mut i: usize = 0;
    while i + 1 < ds.len()
        invariant
            i + 1 <= ds.len(),
            forall|k: int| 0 <= k < ds.len() ==> (#[trigger] ds@[k]).wf(),
            detected == detect_upto(ds@, i as int),
        decreases ds.len() - i,
    {
        let gap = ds[i + 1].days_since_exec(&ds[i]);
        match cycle_of_gap_exec(gap) {
            Some(c) => {
                detected = Some(c);
            },
            None => {},
        }
        i = i + 1;
    }
    detected
}

// ---------------------------------------------------------------------
// Grouping.

/// A group of charges: its purpose, its amount and the dates seen.
pub struct ChargeGroup {
    pub name: String,
    pub amount: Amount,
    pub dates: Vec<Timestamp>,
}

/// The view of a group.
pub open spec fn group_view(g: ChargeGroup) -> (Seq<char>, Amount, Seq<Timestamp>) {
    (g.name@, g.amount, g.dates@)
}

/// The purpose a transaction is grouped under.
pub open spec fn group_name(t: TxnView) -> Seq<char> {
    match t.purpose_tag {
        Some(s) => s,
        None => "Unknown"@,
    }
}

/// Index of the first group with this purpose and an amount of this value, or
/// `gs.len()` if there is none.
pub open spec fn find_group(gs: Seq<(Seq<char>, Amount, Seq<Timestamp>)>, name: Seq<char>, amount: Amount) -> int
    decreases gs.len(),
{
    if gs.len() == 0 {
        0
    } else {
        let i = find_group(gs.drop_last(), name, amount);
        if i < gs.len() - 1 {
            i
        } else if gs.last().0 == name && gs.last().1.value() == amount.value() {
            gs.len() - 1
        } else {
            gs.len() as int
        }
    }
}

/// The groups after one more charge: it joins the group with its purpose and
/// amount, or starts a new group at the end.
pub open spec fn add_charge(gs: Seq<(Seq<char>, Amount, Seq<Timestamp>)>, name: Seq<char>, amount: Amount, date: Timestamp) -> Seq<(Seq<char>, Amount, Seq<Timestamp>)> {
    let i = find_group(gs, name, amount);
    if i < gs.len() {
        gs.update(i, (gs[i].0, gs[i].1, gs[i].2.push(date)))
    } else {
        gs.push((name, amount, seq![date]))
    }
}

/// The groups of a list of transactions, in order of first appearance.
pub open spec fn groups_of(ts: Seq<TxnView>) -> Seq<(Seq<char>, Amount, Seq<Timestamp>)>
    decreases ts.len(),
{
    if ts.len() == 0 {
        Seq::empty()
    } else {
        add_charge(groups_of(ts.drop_last()), group_name(ts.last()), ts.last().amount, ts.last().date)
    }
}

proof fn lemma_find_group_bounds(gs: Seq<(Seq<char>, Amount, Seq<Timestamp>)>, name: Seq<char>, amount: Amount)
    ensures
        0 <= find_group(gs, name, amount) <= gs.len(),
        find_group(gs, name, amount) < gs.len() ==> gs[find_group(gs, name, amount)].0 == name
            && gs[find_group(gs, name, amount)].1.value() == amount.value(),
        find_group(gs, name, amount) == gs.len() ==> forall|k: int|
            0 <= k < gs.len() ==> !(#[trigger] gs[k].0 == name && gs[k].1.value() == amount.value()),
        forall|k: int| 0 <= k < find_group(gs, name, amount) ==> !(#[trigger] gs[k].0 == name && gs[k].1.value() == amount.value()),
    decreases gs.len(),
{
    if gs.len() > 0 {
        let init = gs.drop_last();
        lemma_find_group_bounds(init, name, amount);
        assert forall|k: int| 0 <= k < init.len() implies #[trigger] gs[k] == init[k] by {}
    }
}

/// The index of the group with this purpose and amount value, or the number of
/// groups if there is none.
fn find_group_exec(gs: &Vec<ChargeGroup>, name: &String, amount: &Amount) -> (i: usize)
    requires
        amount.wf(),
        forall|k: int| 0 <= k < gs.len() ==> (#[trigger] gs@[k]).amount.wf(),
    ensures
        i == find_group(gs@.map_values(|g: ChargeGroup| group_view(g)), name@, *amount),
{
    let ghost views = gs@.map_values(|g: ChargeGroup| group_view(g));
    proof {
        lemma_find_group_bounds(views, name@, *amount);
    }
    let mut i: usize = 0;
    while i < gs.len()
        invariant
            i <= gs.len(),
            views == gs@.map_values(|g: ChargeGroup| group_view(g)),
            amount.wf(),
            forall|k: int| 0 <= k < gs.len() ==> (#[trigger] gs@[k]).amount.wf(),
            forall|k: int| 0 <= k < i ==> !(#[trigger] views[k].0 == name@ && views[k].1.value() == amount.value()),
        decreases gs.len() - i,
    {
        if crate::text::same_text(gs[i].name.as_str(), name.as_str()) && gs[i].amount.same_value(amount) {
            proof {
                lemma_find_group_bounds(views, name@, *amount);
                let f = find_group(views, name@, *amount);
                assert(views[i as int] == group_view(gs@[i as int]));
                if f < i {
                    assert(!(views[f].0 == name@ && views[f].1.value() == amount.value()));
                } else if f > i {
                    assert(!(views[i as int].0 == name@ && views[i as int].1.value() == amount.value()));
                }
            }
            return i;
        }
        i = i + 1;
    }
    proof {
        lemma_find_group_bounds(views, name@, *amount);
        let f = find_group(views, name@, *amount);
        if f < gs.len() {
            assert(!(views[f].0 == name@ && views[f].1.value() == amount.value()));
        }
    }
    i
}

/// Groups transactions by purpose and amount value, in order of first
/// appearance, keeping each group's dates in the order seen.
pub fn group_charges(ts: &Vec<TransactionRecord>) -> (gs: Vec<ChargeGroup>)
    requires
        forall|i: int| 0 <= i < ts.len() ==> (#[trigger] ts@[i])@.wf() && ts@[i].date.wf(),
    ensures
        gs@.map_values(|g: ChargeGroup| group_view(g)) == groups_of(ts@.map_values(|t: TransactionRecord| t@)),
        forall|k: int| 0 <= k < gs.len() ==> (#[trigger] gs@[k]).amount.wf(),
        forall|k: int, j: int| 0 <= k < gs.len() && 0 <= j < gs@[k].dates.len() ==> (#[trigger] gs@[k].dates@[j]).wf(),
{
    let ghost tv = ts@.map_values(|t: TransactionRecord| t@);
    let mut gs: Vec<ChargeGroup> = Vec::new();
    let mut i: usize = 0;
    while i < ts.len()
        invariant
            i <= ts.len(),
            tv == ts@.map_values(|t: TransactionRecord| t@),
            forall|k: int| 0 <= k < ts.len() ==> (#[trigger] ts@[k])@.wf() && ts@[k].date.wf(),
            forall|k: int| 0 <= k < gs.len() ==> (#[trigger] gs@[k]).amount.wf(),
            forall|k: int, j: int| 0 <= k < gs.len() && 0 <= j < gs@[k].dates.len() ==> (#[trigger] gs@[k].dates@[j]).wf(),
            gs@.map_values(|g: ChargeGroup| group_view(g)) == groups_of(tv.take(i as int)),
        decreases ts.len() - i,
    {
        let t = &ts[i];
        let name = match &t.purpose_tag {
            Some(s) => s.clone(),
            None => crate::text::owned("Unknown"),
        };
        assert(name@ == group_name(tv[i as int]));
        let ghost before = gs@.map_values(|g: ChargeGroup| group_view(g));
        let at = find_group_exec(&gs, &name, &t.amount);
        proof {
            lemma_find_group_bounds(before, name@, t.amount);
            assert(tv.take(i + 1).drop_last() =~= tv.take(i as int));
        }
        if at < gs.len() {
            let ghost old_gs = gs@;
            let mut g = gs.remove(at);
            g.dates.push(t.date);
            gs.insert(at, g);
            assert forall|k: int, j: int| 0 <= k < gs.len() && 0 <= j < gs@[k].dates.len() implies (#[trigger] gs@[k].dates@[j]).wf() by {
                if k != at {
                    assert(gs@[k] == old_gs[k]);
                } else if j < old_gs[k].dates.len() {
                    assert(gs@[k].dates@[j] == old_gs[k].dates@[j]);
                }
            }
            assert(gs@.map_values(|g: ChargeGroup| group_view(g)) =~= add_charge(before, name@, t.amount, t.date));
        } else {
            let mut dates: Vec<Timestamp> = Vec::new();
            dates.push(t.date);
            gs.push(ChargeGroup { name, amount: t.amount, dates });
            assert(gs@.map_values(|g: ChargeGroup| group_view(g)) =~= add_charge(before, name@, t.amount, t.date));
        }
        i = i + 1;
    }
    assert(tv.take(ts.len() as int) =~= tv);
    gs
}

// ---------------------------------------------------------------------
// Detection.

/// What detection reports for a group: purpose, amount, cycle, first charge
/// and next charge.
pub open spec fn detection_of(g: (Seq<char>, Amount, Seq<Timestamp>)) -> Option<(Seq<char>, Amount, SubscriptionCycle, Timestamp, Timestamp)> {
    if g.2.len() >= 2 {
        let ds = sort_stable(g.2);
        match detect_cycle(ds) {
            Some(c) => Some((g.0, g.1, c, ds[0], ds.last().plus_days(cycle_days(c)))),
            None => None,
        }
    } else {
        None
    }
}

/// What detection reports for each group, in group order, leaving out the
/// groups in which no cycle shows.
pub open spec fn detections(gs: Seq<(Seq<char>, Amount, Seq<Timestamp>)>) -> Seq<(Seq<char>, Amount, SubscriptionCycle, Timestamp, Timestamp)>
    decreases gs.len(),
{
    if gs.len() == 0 {
        Seq::empty()
    } else {
        detections(gs.drop_last()) + match detection_of(gs.last()) {
            Some(d) => seq![d],
            None => Seq::empty(),
        }
    }
}

/// The next charge of every group with a cycle is a date chrono can hold.
pub open spec fn next_charges_representable(gs: Seq<(Seq<char>, Amount, Seq<Timestamp>)>) -> bool {
    forall|k: int| 0 <= k < gs.len() && (#[trigger] gs[k]).2.len() >= 2 && detect_cycle(sort_stable(gs[k].2)) is Some
        ==> sort_stable(gs[k].2).last().can_add_days(cycle_days(detect_cycle(sort_stable(gs[k].2))->0))
}

/// The view of a detected subscription, without its fresh id.
pub open spec fn detected_view(s: SubscriptionRecord) -> (Seq<char>, Amount, Seq<char>, Timestamp, Timestamp) {
    (s.name@, s.amount, s.cycle@, s.start_date, s.next_charge_date)
}

/// The same report, with the cycle spelled by its display name.
pub open spec fn spelled(d: (Seq<char>, Amount, SubscriptionCycle, Timestamp, Timestamp)) -> (Seq<char>, Amount, Seq<char>, Timestamp, Timestamp) {
    (d.0, d.1, d.2.display_text(), d.3, d.4)
}

fn copy_dates(v: &Vec<Timestamp>) -> (r: Vec<Timestamp>)
    ensures
        r@ == v@,
{
    let mut r: Vec<Timestamp> = Vec::new();
    let mut i: usize = 0;
    while i < v.len()
        invariant
            i <= v.len(),
            r@ == v@.take(i as int),
        decreases v.len() - i,
    {
        r.push(v[i]);
        assert(v@.take(i + 1) =~= v@.take(i as int).push(v@[i as int]));
        i = i + 1;
    }
    assert(v@.take(v.len() as int) =~= v@);
    r
}

/// Looks for subscriptions among the transactions of `user_id` (those of the
/// detection window): groups them by purpose and amount, and reports each
/// group whose sorted dates show a weekly, monthly or yearly gap, with its
/// first charge and its next one. The reports are not stored.
pub fn detect_subscriptions(user_id: &str, txns: &Vec<TransactionRecord>) -> (subs: Vec<SubscriptionRecord>)
    requires
        forall|i: int| 0 <= i < txns.len() ==> (#[trigger] txns@[i])@.wf() && txns@[i].date.wf(),
        next_charges_representable(groups_of(txns@.map_values(|t: TransactionRecord| t@))),
    ensures
        subs.len() == detections(groups_of(txns@.map_values(|t: TransactionRecord| t@))).len(),
        forall|i: int| 0 <= i < subs.len() ==> {
            &&& detected_view(#[trigger] subs@[i]) == spelled(detections(groups_of(txns@.map_values(|t: TransactionRecord| t@)))[i])
            &&& subs@[i].user_id@ == user_id@
            &&& subs@[i].id@.len() == 36
            &&& subs@[i].detection_keywords is None
        },
{
    let gs = group_charges(txns);
    let ghost gv = gs@.map_values(|g: ChargeGroup| group_view(g));
    let mut subs: Vec<SubscriptionRecord> = Vec::new();
    let mut k: usize = 0;
    while k < gs.len()
        invariant
            k <= gs.len(),
            gv == gs@.map_values(|g: ChargeGroup| group_view(g)),
            gv == groups_of(txns@.map_values(|t: TransactionRecord| t@)),
            next_charges_representable(gv),
            forall|a: int| 0 <= a < gs.len() ==> (#[trigger] gs@[a]).amount.wf(),
            forall|a: int, j: int| 0 <= a < gs.len() && 0 <= j < gs@[a].dates.len() ==> (#[trigger] gs@[a].dates@[j]).wf(),
            subs.len() == detections(gv.take(k as int)).len(),
            forall|i: int| 0 <= i < subs.len() ==> {
                &&& detected_view(#[trigger] subs@[i]) == spelled(detections(gv.take(k as int))[i])
                &&& subs@[i].user_id@ == user_id@
                &&& subs@[i].id@.len() == 36
                &&& subs@[i].detection_keywords is None
            },
        decreases gs.len() - k,
    {
        let g = &gs[k];
        let ghost before = subs@;
        proof {
            assert(gv.take(k + 1).drop_last() =~= gv.take(k as int));
            assert(gv[k as int] == group_view(gs@[k as int]));
        }
        if g.dates.len() >= 2 {
            let dates = sort_dates(copy_dates(&g.dates));
            proof {
                lemma_sort_stable_sorted(g.dates@);
                assert forall|j: int| 0 <= j < dates.len() implies (#[trigger] dates@[j]).wf() by {
                    assert(dates@.to_multiset().count(dates@[j]) > 0) by {
                        vstd::seq_lib::to_multiset_contains(dates@, dates@[j]);
                    }
                    vstd::seq_lib::to_multiset_contains(g.dates@, dates@[j]);
                    let w = choose|w: int| 0 <= w < g.dates@.len() && g.dates@[w] == dates@[j];
                }
            }
            match detect_cycle_exec(&dates) {
                Some(c) => {
                    let last = dates[dates.len() - 1];
                    proof {
                        assert(next_charges_representable(gv));
                        assert(gv[k as int].2 == g.dates@);
                    }
                    let next = last.add_days(cycle_days_exec(c));
                    let sub = SubscriptionRecord {
                        id: crate::ids::new_id(),
                        user_id: crate::text::owned(user_id),
                        name: g.name.clone(),
                        amount: g.amount,
                        cycle: crate::text::owned(c.display_name()),
                        start_date: dates[0],
                        next_charge_date: next,
                        detection_keywords: None,
                    };
                    subs.push(sub);
                    proof {
                        assert(detections(gv.take(k + 1)) =~= detections(gv.take(k as int)) + seq![detection_of(gv[k as int])->0]);
                    }
                },
                None => {
                    proof {
                        assert(detections(gv.take(k + 1)) =~= detections(gv.take(k as int)));
                    }
                },
            }
        } else {
            proof {
                assert(detections(gv.take(k + 1)) =~= detections(gv.take(k as int)));
            }
        }
        k = k + 1;
    }
    assert(gv.take(gs.len() as int) =~= gv);
    subs
}

/// A reported subscription starts at the earliest charge of its group, and
/// its next charge comes after every charge of the group.
pub proof fn law_detection_spans_the_charges(g: (Seq<char>, Amount, Seq<Timestamp>), x: Timestamp)
    requires
        detection_of(g) is Some,
        match detection_of(g) {
            Some(d) => sort_stable(g.2).last().can_add_days(cycle_days(d.2)),
            None => true,
        },
        g.2.contains(x),
    ensures
        match detection_of(g) {
            Some(d) => d.3.not_after(x) && x.before(d.4),
            None => false,
        },
{
    let ds = sort_stable(g.2);
    law_sorted_dates_are_ordered(g.2);
    vstd::seq_lib::to_multiset_contains(g.2, x);
    vstd::seq_lib::to_multiset_contains(ds, x);
    let j = choose|j: int| 0 <= j < ds.len() && ds[j] == x;
    if j > 0 {
        assert(!ds[j].before(ds[0]));
    }
    if j < ds.len() - 1 {
        assert(!ds[ds.len() - 1].before(ds[j]));
    }
}

/// Whether the next charge of every group in which a cycle shows can be
/// computed, which `detect_subscriptions` needs (chrono panics otherwise).
pub fn next_charges_fit(txns: &Vec<TransactionRecord>) -> (r: bool)
    requires
        forall|i: int| 0 <= i < txns.len() ==> (#[trigger] txns@[i])@.wf() && txns@[i].date.wf(),
    ensures
        r == next_charges_representable(groups_of(txns@.map_values(|t: TransactionRecord| t@))),
{
    let gs = group_charges(txns);
    let ghost gv = gs@.map_values(|g: ChargeGroup| group_view(g));
    let mut k: usize = 0;
    while k < gs.len()
        invariant
            k <= gs.len(),
            gv == gs@.map_values(|g: ChargeGroup| group_view(g)),
            gv == groups_of(txns@.map_values(|t: TransactionRecord| t@)),
            forall|a: int, j: int| 0 <= a < gs.len() && 0 <= j < gs@[a].dates.len() ==> (#[trigger] gs@[a].dates@[j]).wf(),
            forall|a: int| 0 <= a < k && (#[trigger] gv[a]).2.len() >= 2 && detect_cycle(sort_stable(gv[a].2)) is Some
                ==> sort_stable(gv[a].2).last().can_add_days(cycle_days(detect_cycle(sort_stable(gv[a].2))->0)),
        decreases gs.len() - k,
    {
        let g = &gs[k];
        assert(gv[k as int] == group_view(gs@[k as int]));
        if g.dates.len() >= 2 {
            let dates = sort_dates(copy_dates(&g.dates));
            proof {
                lemma_sort_stable_sorted(g.dates@);
                assert forall|j: int| 0 <= j < dates.len() implies (#[trigger] dates@[j]).wf() by {
                    assert(dates@.to_multiset().count(dates@[j]) > 0) by {
                        vstd::seq_lib::to_multiset_contains(dates@, dates@[j]);
                    }
                    vstd::seq_lib::to_multiset_contains(g.dates@, dates@[j]);
                    let w = choose|w: int| 0 <= w < g.dates@.len() && g.dates@[w] == dates@[j];
                }
            }
            match detect_cycle_exec(&dates) {
                Some(c) => {
                    let last = dates[dates.len() - 1];
                    let days = cycle_days_exec(c);
                    assert(last.wf());
                    if last.secs > crate::time::MAX_SECS - 86400 * days {
                        assert(!next_charges_representable(gv)) by {
                            assert(gv[k as int].2 == g.dates@);
                        }
                        return false;
                    }
                },
                None => {},
            }
        }
        k = k + 1;
    }
    true
}

/// A reported subscription's next charge is one cycle after the group's
/// latest charge: 7 days for a weekly cycle, 30 for a monthly one and 365
/// for a yearly one; its start is the group's earliest charge.
pub proof fn law_next_charge_is_one_cycle_after_the_latest(g: (Seq<char>, Amount, Seq<Timestamp>))
    requires
        detection_of(g) is Some,
    ensures
        exists|first: Timestamp, latest: Timestamp| {
            &&& g.2.contains(first)
            &&& g.2.contains(latest)
            &&& forall|x: Timestamp| #[trigger] g.2.contains(x) ==> first.not_after(x) && x.not_after(latest)
            &&& match detection_of(g) {
                Some(d) => {
                    &&& d.3 == first
                    &&& d.4 == latest.plus_days(match d.2 {
                        SubscriptionCycle::Weekly => 7int,
                        SubscriptionCycle::Monthly => 30int,
                        SubscriptionCycle::Yearly => 365int,
                    })
                },
                None => false,
            }
        },
{
    let ds = sort_stable(g.2);
    law_sorted_dates_are_ordered(g.2);
    assert(ds.len() == g.2.len()) by {
        ds.to_multiset_ensures();
        g.2.to_multiset_ensures();
    }
    let first = ds[0];
    let latest = ds.last();
    vstd::seq_lib::to_multiset_contains(ds, first);
    vstd::seq_lib::to_multiset_contains(g.2, first);
    vstd::seq_lib::to_multiset_contains(ds, latest);
    vstd::seq_lib::to_multiset_contains(g.2, latest);
    assert(ds.contains(first));
    assert(ds.contains(latest));
    assert forall|x: Timestamp| #[trigger] g.2.contains(x) implies first.not_after(x) && x.not_after(latest) by {
        vstd::seq_lib::to_multiset_contains(g.2, x);
        vstd::seq_lib::to_multiset_contains(ds, x);
        let j = choose|j: int| 0 <= j < ds.len() && ds[j] == x;
        if j > 0 {
            assert(!ds[j].before(ds[0]));
        }
        if j < ds.len() - 1 {
            assert(!ds[ds.len() - 1].before(ds[j]));
        }
    }
    let c = detect_cycle(ds)->0;
    assert(detection_of(g) == Some((g.0, g.1, c, first, latest.plus_days(cycle_days(c)))));
    let days = match c {
        SubscriptionCycle::Weekly => 7int,
        SubscriptionCycle::Monthly => 30int,
        SubscriptionCycle::Yearly => 365int,
    };
    assert(cycle_days(c) == days);
}

} // verus!
