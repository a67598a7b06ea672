//! Categories of transactions: a user's own, and the built-in ones owned by
//! the system user, which everyone sees and no one may delete.
use vstd::prelude::*;
use crate::users::system_user_id;

verus! {

/// A category.
pub struct CategoryRecord {
    pub id: String,
    pub user_id: String,
    pub name: String,
    pub icon: Option<String>,
    pub color: Option<String>,
}

/// A new category of `user_id`.
pub fn new_category(user_id: &str, name: String, icon: Option<String>, color: Option<String>) -> (c: CategoryRecord)
    ensures
        c.user_id@ == user_id@,
        c.name == name,
        c.icon == icon,
        c.color == color,
{
    CategoryRecord { id: crate::ids::new_id(), user_id: crate::text::owned(user_id), name, icon, color }
}

/// A user sees their own categories and the built-in ones.
pub open spec fn visible_to(c: CategoryRecord, user_id: Seq<char>) -> bool {
    c.user_id@ == user_id || c.user_id@ == system_user_id()
}

/// The category shows in the user's list.
pub fn is_visible_to(c: &CategoryRecord, user_id: &str) -> (r: bool)
    ensures
        r == visible_to(*c, user_id@),
{
    crate::text::same_text(c.user_id.as_str(), user_id) || crate::text::same_text(c.user_id.as_str(), "system")
}

/// Deleting category `category_id` for `user_id` removes `c` exactly when it
/// is that category, the user's own, and not a built-in one.
pub open spec fn removed_by(c: CategoryRecord, user_id: Seq<char>, category_id: Seq<char>) -> bool {
    c.id@ == category_id && c.user_id@ == user_id && c.user_id@ != system_user_id()
}

/// The category is removed by the deletion.
pub fn is_removed_by(c: &CategoryRecord, user_id: &str, category_id: &str) -> (r: bool)
    ensures
        r == removed_by(*c, user_id@, category_id@),
{
    crate::text::same_text(c.id.as_str(), category_id) && crate::text::same_text(c.user_id.as_str(), user_id)
        && !crate::text::same_text(c.user_id.as_str(), "system")
}

/// No deletion, whoever asks for it, removes a built-in category.
pub proof fn law_builtin_categories_stay(c: CategoryRecord, user_id: Seq<char>, category_id: Seq<char>)
    requires
        c.user_id@ == system_user_id(),
    ensures
        !removed_by(c, user_id, category_id),
        visible_to(c, user_id),
{
}

/// The id, name, icon and color of each built-in category.
pub open spec fn builtin_spec() -> Seq<(Seq<char>, Seq<char>, Seq<char>, Seq<char>)> {
    seq![
        ("cat-sub-0001"@, "Subscription"@, "calendar"@, "#3b82f6"@),
        ("cat-rnt-0002"@, "Rent & EMI"@, "home"@, "#8b5cf6"@),
        ("cat-fod-0003"@, "Food & Dining"@, "coffee"@, "#f97316"@),
        ("cat-trn-0004"@, "Transport"@, "car"@, "#eab308"@),
        ("cat-ent-0005"@, "Entertainment"@, "tv"@, "#ec4899"@),
        ("cat-gro-0006"@, "Groceries"@, "shopping-cart"@, "#10b981"@),
        ("cat-hth-0007"@, "Health & Medical"@, "activity"@, "#ef4444"@),
    ]
}

fn builtin(id: &str, name: &str, icon: &str, color: &str) -> (c: CategoryRecord)
    ensures
        c.id@ == id@,
        c.user_id@ == system_user_id(),
        c.name@ == name@,
        c.icon.deep_view() == Some(icon@),
        c.color.deep_view() == Some(color@),
{
    CategoryRecord {
        id: crate::text::owned(id),
        user_id: crate::text::owned("system"),
        name: crate::text::owned(name),
        icon: Some(crate::text::owned(icon)),
        color: Some(crate::text::owned(color)),
    }
}

/// The built-in categories, owned by the system user, in their fixed order.
pub fn builtin_categories() -> (v: Vec<CategoryRecord>)
    ensures
        v.len() == builtin_spec().len(),
        forall|i: int| 0 <= i < v.len() ==> {
            &&& (#[trigger] v@[i]).id@ == builtin_spec()[i].0
            &&& v@[i].user_id@ == system_user_id()
            &&& v@[i].name@ == builtin_spec()[i].1
            &&& v@[i].icon.deep_view() == Some(builtin_spec()[i].2)
            &&& v@[i].color.deep_view() == Some(builtin_spec()[i].3)
        },
{
    let mut v: Vec<CategoryRecord> = Vec::new();
    v.push(builtin("cat-sub-0001", "Subscription", "calendar", "#3b82f6"));
    v.push(builtin("cat-rnt-0002", "Rent & EMI", "home", "#8b5cf6"));
    v.push(builtin("cat-fod-0003", "Food & Dining", "coffee", "#f97316"));
    v.push(builtin("cat-trn-0004", "Transport", "car", "#eab308"));
    v.push(builtin("cat-ent-0005", "Entertainment", "tv", "#ec4899"));
    v.push(builtin("cat-gro-0006", "Groceries", "shopping-cart", "#10b981"));
    v.push(builtin("cat-hth-0007", "Health & Medical", "activity", "#ef4444"));
    v
}

/// The texts of a list of strings.
pub open spec fn texts_of(ids: Seq<String>) -> Seq<Seq<char>> {
    ids.map_values(|s: String| s@)
}

/// The built-in categories whose id is not among `existing`, in their fixed order.
pub open spec fn missing_spec(existing: Seq<Seq<char>>) -> Seq<(Seq<char>, Seq<char>, Seq<char>, Seq<char>)> {
    missing_among(builtin_spec(), existing)
}

/// The entries of `s` whose id is not among `existing`, in order.
pub open spec fn missing_among(
    s: Seq<(Seq<char>, Seq<char>, Seq<char>, Seq<char>)>,
    existing: Seq<Seq<char>>,
) -> Seq<(Seq<char>, Seq<char>, Seq<char>, Seq<char>)> {
    s.filter(|b: (Seq<char>, Seq<char>, Seq<char>, Seq<char>)| !existing.contains(b.0))
}

fn contains_id(ids: &Vec<String>, id: &String) -> (r: bool)
    ensures
        r == texts_of(ids@).contains(id@),
{
    let mut k: usize = 0;
    while k < ids.len()
        invariant
            k <= ids.len(),
            forall|j: int| 0 <= j < k ==> (#[trigger] ids@[j])@ != id@,
        decreases ids.len() - k,
    {
        if crate::text::same_text(ids[k].as_str(), id.as_str()) {
            assert(texts_of(ids@)[k as int] == id@);
            return true;
        }
        k = k + 1;
    }
    assert forall|j: int| 0 <= j < texts_of(ids@).len() implies texts_of(ids@)[j] != id@ by {
        assert(ids@[j]@ != id@);
    }
    false
}

/// The built-in categories to create: those whose id is not among the ids
/// already stored, in their fixed order.
pub fn missing_builtin_categories(existing_ids: &Vec<String>) -> (v: Vec<CategoryRecord>)
    ensures
        v.len() == missing_spec(texts_of(existing_ids@)).len(),
        forall|i: int| 0 <= i < v.len() ==> {
            let b = missing_spec(texts_of(existing_ids@))[i];
            &&& (#[trigger] v@[i]).id@ == b.0
            &&& v@[i].user_id@ == system_user_id()
            &&& v@[i].name@ == b.1
            &&& v@[i].icon.deep_view() == Some(b.2)
            &&& v@[i].color.deep_view() == Some(b.3)
        },
{
    let ghost existing = texts_of(existing_ids@);
    let mut all = builtin_categories();
    let ghost given = all@;
    let n = all.len();
    let mut out: Vec<CategoryRecord> = Vec::new();
    let mut t: usize = 0;
    reveal(Seq::filter);
    assert(missing_among(builtin_spec().subrange(0, 0), existing) =~= Seq::empty());
    while t < n
        invariant
            n == given.len(),
            n == builtin_spec().len(),
            existing == texts_of(existing_ids@),
            t <= n,
            all@ =~= given.subrange(t as int, n as int),
            forall|i: int| 0 <= i < n ==> {
                &&& (#[trigger] given[i]).id@ == builtin_spec()[i].0
                &&& given[i].user_id@ == system_user_id()
                &&& given[i].name@ == builtin_spec()[i].1
                &&& given[i].icon.deep_view() == Some(builtin_spec()[i].2)
                &&& given[i].color.deep_view() == Some(builtin_spec()[i].3)
            },
            out.len() == missing_among(builtin_spec().subrange(0, t as int), existing).len(),
            forall|i: int| 0 <= i < out.len() ==> {
                let b = missing_among(builtin_spec().subrange(0, t as int), existing)[i];
                &&& (#[trigger] out@[i]).id@ == b.0
                &&& out@[i].user_id@ == system_user_id()
                &&& out@[i].name@ == b.1
                &&& out@[i].icon.deep_view() == Some(b.2)
                &&& out@[i].color.deep_view() == Some(b.3)
            },
        decreases n - t,
    {
        let c = all.remove(0);
        assert(c == given[t as int]);
        let ghost prefix = builtin_spec().subrange(0, t as int);
        let ghost next = builtin_spec().subrange(0, t + 1);
        assert(next.drop_last() =~= prefix);
        assert(next.last() == builtin_spec()[t as int]);
        assert(next.len() > 0);
        reveal(Seq::filter);
        let found = contains_id(existing_ids, &c.id);
        if !found {
            assert(missing_among(next, existing) == missing_among(prefix, existing).push(builtin_spec()[t as int]));
            out.push(c);
        } else {
            assert(missing_among(next, existing) == missing_among(prefix, existing));
        }
        t = t + 1;
    }
    assert(builtin_spec().subrange(0, n as int) =~= builtin_spec());
    out
}

/// The ids of a list of built-in category entries.
pub open spec fn entry_ids(s: Seq<(Seq<char>, Seq<char>, Seq<char>, Seq<char>)>) -> Seq<Seq<char>> {
    s.map_values(|b: (Seq<char>, Seq<char>, Seq<char>, Seq<char>)| b.0)
}

/// Seeding the built-in categories twice creates nothing the second time:
/// once the missing ones are stored, none is missing.
pub proof fn law_seeding_is_idempotent(existing: Seq<Seq<char>>)
    ensures
        missing_spec(existing + entry_ids(missing_spec(existing))).len() == 0,
{
    let m = missing_spec(existing);
    let e2 = existing + entry_ids(m);
    let f1 = |b: (Seq<char>, Seq<char>, Seq<char>, Seq<char>)| !existing.contains(b.0);
    let f2 = |b: (Seq<char>, Seq<char>, Seq<char>, Seq<char>)| !e2.contains(b.0);
    assert(m == builtin_spec().filter(f1));
    assert(missing_spec(e2) == builtin_spec().filter(f2));
    if builtin_spec().filter(f2).len() > 0 {
        let x = builtin_spec().filter(f2)[0];
        builtin_spec().lemma_filter_pred(f2, 0);
        assert(builtin_spec().filter(f2).contains(x));
        builtin_spec().lemma_filter_contains_rev(f2, x);
        let i = choose|i: int| 0 <= i < builtin_spec().len() && builtin_spec()[i] == x;
        if existing.contains(x.0) {
            let k = choose|k: int| 0 <= k < existing.len() && existing[k] == x.0;
            assert(e2[k] == x.0);
        } else {
            builtin_spec().lemma_filter_contains(f1, i);
            let j = choose|j: int| 0 <= j < m.len() && m[j] == x;
            assert(e2[existing.len() + j] == x.0);
        }
    }
}

} // verus!
