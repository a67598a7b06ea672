//! Start-up settings of the server, computed from the values it was started
//! with: the log filter, the storage endpoint, the allowed and trusted
//! origins and the sign-up flags.
use vstd::prelude::*;
use crate::text::{chars_of, occurs_at, push_char, seq_contains};

verus! {

/// The log filter used when none is configured.
pub open spec fn default_log_filter() -> Seq<char> {
    "info,server=debug,better_auth=info"@
}

/// The levels added for the database and HTTP layers.
pub open spec fn quiet_layers() -> Seq<char> {
    ",sqlx=error,sea_orm=warn,tower_http=debug"@
}

/// The log filter: the configured one (or the default); unless it already
/// sets a level for `sqlx`, the database and HTTP layers are quietened.
pub open spec fn log_filter_spec(configured: Option<Seq<char>>) -> Seq<char> {
    let base = match configured { Some(c) => c, None => default_log_filter() };
    if seq_contains(base, "sqlx="@) { base } else { base + quiet_layers() }
}

/// The log filter for the configured one, if any.
pub fn log_filter(configured: Option<String>) -> (r: String)
    ensures
        r@ == log_filter_spec(configured.deep_view()),
{
    let base = match configured {
        Some(c) => c,
        None => crate::text::owned("info,server=debug,better_auth=info"),
    };
    if crate::text::contains_text(base.as_str(), "sqlx=") {
        base
    } else {
        base.concat(",sqlx=error,sea_orm=warn,tower_http=debug")
    }
}

/// `p` is the last position where `needle` occurs in `s`.
pub open spec fn is_last_occurrence(s: Seq<char>, needle: Seq<char>, p: int) -> bool {
    occurs_at(s, needle, p) && forall|q: int| p < q ==> !occurs_at(s, needle, q)
}

/// The storage endpoint without a bucket path: cut after the last `.com`
/// that is followed by `/`; unchanged where there is none.
pub open spec fn endpoint_spec(s: Seq<char>) -> Seq<char> {
    if seq_contains(s, ".com/"@) {
        let p = choose|p: int| is_last_occurrence(s, ".com/"@, p);
        s.subrange(0, p + 4)
    } else {
        s
    }
}

/// The storage endpoint with any bucket path after its `.com` removed.
pub fn strip_bucket_suffix(endpoint: &str) -> (r: String)
    ensures
        r@ == endpoint_spec(endpoint@),
{
    let h = chars_of(endpoint);
    let n = chars_of(".com/");
    proof {
        reveal_strlit(".com/");
    }
    if h.len() < n.len() {
        assert(!seq_contains(endpoint@, ".com/"@));
        return crate::text::owned(endpoint);
    }
    let mut i: usize = h.len() - n.len() + 1;
    while i > 0
        invariant
            h@ == endpoint@,
            n@ == ".com/"@,
            n.len() == 5,
            n.len() <= h.len(),
            i <= h.len() - n.len() + 1,
            forall|q: int| i <= q ==> !occurs_at(endpoint@, ".com/"@, q),
        decreases i,
    {
        i = i - 1;
        if crate::text::occurs_at_exec(&h, &n, i) {
            assert(is_last_occurrence(endpoint@, ".com/"@, i as int));
            assert(seq_contains(endpoint@, ".com/"@));
            proof {
                let p = choose|p: int| is_last_occurrence(endpoint@, ".com/"@, p);
                assert(p == i);
            }
            return crate::text::string_of_range(&h, 0, i + 4);
        }
    }
    assert(!seq_contains(endpoint@, ".com/"@)) by {
        assert forall|q: int| !occurs_at(endpoint@, ".com/"@, q) by {
            if q < 0 {
            }
        }
    }
    crate::text::owned(endpoint)
}

/// The pieces of `s` between the occurrences of `sep`, in order (an empty
/// text gives one empty piece).
pub open spec fn split_spec(s: Seq<char>, sep: char) -> Seq<Seq<char>>
    decreases s.len(),
{
    if s.len() == 0 {
        seq![Seq::<char>::empty()]
    } else {
        let before = split_spec(s.drop_last(), sep);
        if s.last() == sep {
            before.push(Seq::<char>::empty())
        } else {
            before.update(before.len() - 1, before.last().push(s.last()))
        }
    }
}

/// The texts of a list of strings.
pub open spec fn texts(v: Seq<String>) -> Seq<Seq<char>> {
    v.map_values(|s: String| s@)
}

/// The pieces of `s` between the commas, in order.
pub fn split_commas(s: &str) -> (r: Vec<String>)
    ensures
        texts(r@) == split_spec(s@, ','),
{
    let h = chars_of(s);
    let mut pieces: Vec<String> = Vec::new();
    let mut cur = String::new();
    let mut i: usize = 0;
    assert(h@.subrange(0, 0) =~= Seq::<char>::empty());
    assert(texts(pieces@).push(cur@) =~= seq![Seq::<char>::empty()]);
    while i < h.len()
        invariant
            h@ == s@,
            i <= h.len(),
            split_spec(h@.subrange(0, i as int), ',') == texts(pieces@).push(cur@),
        decreases h.len() - i,
    {
        let ghost prev = h@.subrange(0, i as int);
        assert(h@.subrange(0, i + 1).drop_last() =~= prev);
        let c = h[i];
        if c == ',' {
            let ghost old_pieces = pieces@;
            let done = cur;
            pieces.push(done);
            cur = String::new();
            assert(texts(pieces@).push(cur@) =~= texts(old_pieces).push(done@).push(Seq::<char>::empty()));
        } else {
            let ghost old_cur = cur@;
            push_char(&mut cur, c);
            assert(texts(pieces@).push(cur@) =~= texts(pieces@).push(old_cur).update(pieces@.len() as int, old_cur.push(c)));
        }
        i = i + 1;
    }
    assert(h@.subrange(0, h.len() as int) =~= s@);
    pieces.push(cur);
    assert(texts(pieces@) =~= split_spec(s@, ','));
    pieces
}

/// The characters with the Unicode property White_Space.
pub open spec fn is_white_space(c: char) -> bool {
    ('\u{9}' <= c <= '\u{d}') || c == ' ' || c == '\u{85}' || c == '\u{a0}' || c == '\u{1680}'
        || ('\u{2000}' <= c <= '\u{200a}') || c == '\u{2028}' || c == '\u{2029}' || c == '\u{202f}'
        || c == '\u{205f}' || c == '\u{3000}'
}

fn is_white_space_exec(c: char) -> (r: bool)
    ensures
        r == is_white_space(c),
{
    ('\u{9}' <= c && c <= '\u{d}') || c == ' ' || c == '\u{85}' || c == '\u{a0}' || c == '\u{1680}'
        || ('\u{2000}' <= c && c <= '\u{200a}') || c == '\u{2028}' || c == '\u{2029}' || c == '\u{202f}'
        || c == '\u{205f}' || c == '\u{3000}'
}

/// `s` without the white space at its start.
pub open spec fn trim_start_spec(s: Seq<char>) -> Seq<char>
    decreases s.len(),
{
    if s.len() > 0 && is_white_space(s[0]) { trim_start_spec(s.drop_first()) } else { s }
}

/// `s` without the white space at its end.
pub open spec fn trim_end_spec(s: Seq<char>) -> Seq<char>
    decreases s.len(),
{
    if s.len() > 0 && is_white_space(s.last()) { trim_end_spec(s.drop_last()) } else { s }
}

/// `s` without the white space at either end.
pub open spec fn trim_spec(s: Seq<char>) -> Seq<char> {
    trim_end_spec(trim_start_spec(s))
}

proof fn lemma_trim_start(s: Seq<char>, k: int)
    requires
        0 <= k <= s.len(),
        forall|j: int| 0 <= j < k ==> is_white_space(#[trigger] s[j]),
        k == s.len() || !is_white_space(s[k]),
    ensures
        trim_start_spec(s) == s.subrange(k, s.len() as int),
    decreases k,
{
    if k == 0 {
        assert(s.subrange(0, s.len() as int) =~= s);
    } else {
        assert(is_white_space(s[0]));
        let t = s.drop_first();
        assert forall|j: int| 0 <= j < k - 1 implies is_white_space(#[trigger] t[j]) by {
            assert(t[j] == s[j + 1]);
        }
        if k - 1 < t.len() {
            assert(t[k - 1] == s[k]);
        }
        lemma_trim_start(t, k - 1);
        assert(t.subrange(k - 1, t.len() as int) =~= s.subrange(k, s.len() as int));
    }
}

proof fn lemma_trim_end(s: Seq<char>, e: int)
    requires
        0 <= e <= s.len(),
        forall|j: int| e <= j < s.len() ==> is_white_space(#[trigger] s[j]),
        e == 0 || !is_white_space(s[e - 1]),
    ensures
        trim_end_spec(s) == s.subrange(0, e),
    decreases s.len() - e,
{
    if e == s.len() {
        assert(s.subrange(0, e) =~= s);
    } else {
        assert(is_white_space(s.last()));
        let t = s.drop_last();
        assert forall|j: int| e <= j < t.len() implies is_white_space(#[trigger] t[j]) by {
            assert(t[j] == s[j]);
        }
        if e > 0 {
            assert(t[e - 1] == s[e - 1]);
        }
        lemma_trim_end(t, e);
        assert(t.subrange(0, e) =~= s.subrange(0, e));
    }
}

/// `s` without the white space at either end.
pub fn trim(s: &str) -> (r: String)
    ensures
        r@ == trim_spec(s@),
{
    let h = chars_of(s);
    let mut k: usize = 0;
    while k < h.len() && is_white_space_exec(h[k])
        invariant
            h@ == s@,
            k <= h.len(),
            forall|j: int| 0 <= j < k ==> is_white_space(#[trigger] h@[j]),
        decreases h.len() - k,
    {
        k = k + 1;
    }
    proof {
        lemma_trim_start(s@, k as int);
    }
    let ghost t = s@.subrange(k as int, s@.len() as int);
    let mut e: usize = h.len();
    while e > k && is_white_space_exec(h[e - 1])
        invariant
            h@ == s@,
            t == s@.subrange(k as int, s@.len() as int),
            k <= e <= h.len(),
            forall|j: int| e <= j < h.len() ==> is_white_space(#[trigger] h@[j]),
        decreases e,
    {
        e = e - 1;
    }
    proof {
        assert forall|j: int| e - k <= j < t.len() implies is_white_space(#[trigger] t[j]) by {
            assert(t[j] == h@[j + k]);
        }
        if e > k {
            assert(t[e - k - 1] == h@[e - 1]);
        }
        lemma_trim_end(t, e - k);
        assert(t.subrange(0, e - k) =~= h@.subrange(k as int, e as int));
    }
    crate::text::string_of_range(&h, k, e)
}

/// `a` comes strictly before `b` in lexicographic order of characters.
pub open spec fn text_less(a: Seq<char>, b: Seq<char>) -> bool
    decreases a.len(),
{
    if a.len() == 0 {
        b.len() > 0
    } else if b.len() == 0 {
        false
    } else if a[0] != b[0] {
        a[0] < b[0]
    } else {
        text_less(a.drop_first(), b.drop_first())
    }
}

/// Of two texts, exactly one comes first, or they are equal.
pub proof fn lemma_text_less_total(a: Seq<char>, b: Seq<char>)
    ensures
        a == b || text_less(a, b) || text_less(b, a),
        !(text_less(a, b) && text_less(b, a)),
        !text_less(a, a),
    decreases a.len(),
{
    if a.len() > 0 && b.len() > 0 {
        lemma_text_less_total(a.drop_first(), b.drop_first());
        if a[0] == b[0] && a.drop_first() == b.drop_first() {
            assert(a =~= seq![a[0]] + a.drop_first());
            assert(b =~= seq![b[0]] + b.drop_first());
        }
    } else if a.len() == 0 && b.len() == 0 {
        assert(a =~= b);
    }
    if a.len() > 0 {
        lemma_text_less_total(a.drop_first(), a.drop_first());
    }
}

/// The order is transitive.
pub proof fn lemma_text_less_transitive(a: Seq<char>, b: Seq<char>, c: Seq<char>)
    requires
        text_less(a, b),
        text_less(b, c),
    ensures
        text_less(a, c),
    decreases a.len(),
{
    if a.len() > 0 && b.len() > 0 && c.len() > 0 {
        if a[0] == b[0] && b[0] == c[0] {
            lemma_text_less_transitive(a.drop_first(), b.drop_first(), c.drop_first());
        }
    }
}

/// Whether `a` comes strictly before `b` in lexicographic order of characters.
pub fn is_text_less(a: &Vec<char>, b: &Vec<char>) -> (r: bool)
    ensures
        r == text_less(a@, b@),
{
    let mut i: usize = 0;
    assert(a@.subrange(0, a.len() as int) =~= a@);
    assert(b@.subrange(0, b.len() as int) =~= b@);
    while i < a.len() && i < b.len() && a[i] == b[i]
        invariant
            i <= a.len(),
            i <= b.len(),
            text_less(a@, b@) == text_less(a@.subrange(i as int, a.len() as int), b@.subrange(i as int, b.len() as int)),
        decreases a.len() - i,
    {
        let ghost x = a@.subrange(i as int, a.len() as int);
        let ghost y = b@.subrange(i as int, b.len() as int);
        assert(x.drop_first() =~= a@.subrange(i + 1, a.len() as int));
        assert(y.drop_first() =~= b@.subrange(i + 1, b.len() as int));
        i = i + 1;
    }
    let ghost x = a@.subrange(i as int, a.len() as int);
    let ghost y = b@.subrange(i as int, b.len() as int);
    if i == a.len() {
        i < b.len()
    } else if i == b.len() {
        false
    } else {
        assert(x[0] == a@[i as int] && y[0] == b@[i as int]);
        a[i] < b[i]
    }
}

/// The texts are in strictly increasing order (so no text occurs twice).
pub open spec fn strictly_sorted(v: Seq<Seq<char>>) -> bool {
    forall|i: int, j: int| 0 <= i < j < v.len() ==> text_less(#[trigger] v[i], #[trigger] v[j])
}

/// Inserts `x` into the strictly sorted `v`, where it is not there yet.
fn insert_sorted_unique(v: &mut Vec<String>, x: String)
    requires
        strictly_sorted(texts(old(v)@)),
    ensures
        strictly_sorted(texts(final(v)@)),
        texts(final(v)@).to_set() == texts(old(v)@).to_set().insert(x@),
{
    let xc = chars_of(x.as_str());
    let mut k: usize = 0;
    while k < v.len() && is_text_less(&chars_of(v[k].as_str()), &xc)
        invariant
            xc@ == x@,
            k <= v.len(),
            strictly_sorted(texts(v@)),
            forall|j: int| 0 <= j < k ==> text_less(#[trigger] texts(v@)[j], x@),
        decreases v.len() - k,
    {
        k = k + 1;
    }
    let ghost before = texts(v@);
    if k < v.len() && crate::text::same_text(v[k].as_str(), x.as_str()) {
        assert(before[k as int] == x@);
        assert(before.to_set().insert(x@) =~= before.to_set());
        return;
    }
    proof {
        if k < v.len() {
            lemma_text_less_total(before[k as int], x@);
        }
    }
    v.insert(k, x);
    let ghost after = texts(v@);
    assert(after =~= before.insert(k as int, x@));
    assert forall|i: int, j: int| 0 <= i < j < after.len() implies text_less(#[trigger] after[i], #[trigger] after[j]) by {
        if j < k {
        } else if j == k {
            assert(after[i] == before[i]);
        } else if i < k {
            assert(after[j] == before[j - 1]);
            if i + 1 < j {
                assert(after[i] == before[i]);
                assert(text_less(before[i], before[j - 1]));
            }
        } else if i == k {
            assert(after[j] == before[j - 1]);
            if j - 1 > k {
                lemma_text_less_transitive(x@, before[k as int], before[j - 1]);
            }
        } else {
            assert(after[i] == before[i - 1]);
            assert(after[j] == before[j - 1]);
        }
    }
    assert(after.to_set() =~= before.to_set().insert(x@)) by {
        assert forall|t: Seq<char>| after.to_set().contains(t) implies before.to_set().insert(x@).contains(t) by {
            let i = choose|i: int| 0 <= i < after.len() && after[i] == t;
            if i < k {
                assert(before[i] == t);
            } else if i > k {
                assert(before[i - 1] == t);
            }
        }
        assert forall|t: Seq<char>| before.to_set().insert(x@).contains(t) implies after.to_set().contains(t) by {
            if t == x@ {
                assert(after[k as int] == t);
            } else {
                let i = choose|i: int| 0 <= i < before.len() && before[i] == t;
                if i < k {
                    assert(after[i] == t);
                } else {
                    assert(after[i + 1] == t);
                }
            }
        }
    }
}

/// The origins trusted by the sign-in service before sorting: the two local
/// front-end origins, the service's own base address, and each of the
/// comma-separated configured origins, trimmed (none where that setting is empty).
pub open spec fn origins_given(base_url: Seq<char>, cors_origin: Seq<char>) -> Seq<Seq<char>> {
    let fixed = seq!["http://localhost:3000"@, "http://127.0.0.1:3000"@, base_url];
    if cors_origin.len() == 0 {
        fixed
    } else {
        fixed + split_spec(cors_origin, ',').map_values(|p: Seq<char>| trim_spec(p))
    }
}

/// The trusted origins, sorted, each once.
pub fn trusted_origins(base_url: &str, cors_origin: &str) -> (r: Vec<String>)
    ensures
        strictly_sorted(texts(r@)),
        texts(r@).to_set() == origins_given(base_url@, cors_origin@).to_set(),
{
    let mut given: Vec<String> = Vec::new();
    given.push(crate::text::owned("http://localhost:3000"));
    given.push(crate::text::owned("http://127.0.0.1:3000"));
    given.push(crate::text::owned(base_url));
    let ghost fixed = seq!["http://localhost:3000"@, "http://127.0.0.1:3000"@, base_url@];
    assert(texts(given@) =~= fixed);
    if !cors_origin.is_empty() {
        let pieces = split_commas(cors_origin);
        let mut i: usize = 0;
        let ghost trimmed = split_spec(cors_origin@, ',').map_values(|p: Seq<char>| trim_spec(p));
        while i < pieces.len()
            invariant
                texts(pieces@) == split_spec(cors_origin@, ','),
                trimmed == split_spec(cors_origin@, ',').map_values(|p: Seq<char>| trim_spec(p)),
                i <= pieces.len(),
                texts(given@) =~= fixed + trimmed.subrange(0, i as int),
            decreases pieces.len() - i,
        {
            let t = trim(pieces[i].as_str());
            assert(texts(pieces@)[i as int] == pieces@[i as int]@);
            given.push(t);
            assert(fixed + trimmed.subrange(0, i + 1) =~= (fixed + trimmed.subrange(0, i as int)).push(trimmed[i as int]));
            i = i + 1;
        }
        assert(trimmed.subrange(0, pieces.len() as int) =~= trimmed);
    } else {
        assert(cors_origin@.len() == 0);
    }
    assert(texts(given@) == origins_given(base_url@, cors_origin@));
    let mut out: Vec<String> = Vec::new();
    let mut rest = given;
    let ghost all = texts(rest@);
    let n = rest.len();
    let mut taken: usize = 0;
    assert(all.subrange(0, 0).to_set() =~= Set::<Seq<char>>::empty());
    assert(texts(out@).to_set() =~= Set::<Seq<char>>::empty());
    while rest.len() > 0
        invariant
            taken + rest.len() == all.len(),
            all.len() == n,
            texts(rest@) =~= all.subrange(taken as int, all.len() as int),
            strictly_sorted(texts(out@)),
            texts(out@).to_set() == all.subrange(0, taken as int).to_set(),
        decreases rest.len(),
    {
        let ghost before = rest@;
        let x = rest.remove(0);
        assert(texts(before)[0] == x@);
        assert(texts(rest@) =~= texts(before).subrange(1, texts(before).len() as int));
        insert_sorted_unique(&mut out, x);
        assert(all.subrange(0, taken + 1) =~= all.subrange(0, taken as int).push(all[taken as int]));
        proof {
            all.subrange(0, taken as int).lemma_push_to_set_commute(all[taken as int]);
        }
        taken = taken + 1;
    }
    assert(all.subrange(0, all.len() as int) =~= all);
    out
}

/// A sign-up setting: on unless it is set to `false`, and `default` when unset.
pub open spec fn flag_spec(value: Option<Seq<char>>, default: bool) -> bool {
    match value {
        Some(v) => v != "false"@,
        None => default,
    }
}

/// The value of a sign-up setting.
pub fn flag(value: Option<String>, default: bool) -> (r: bool)
    ensures
        r == flag_spec(value.deep_view(), default),
{
    match value {
        Some(v) => !crate::text::same_text(v.as_str(), "false"),
        None => default,
    }
}

/// The base address of the sign-in service: the first of the two settings
/// that is set, else `http://localhost:8080`.
pub open spec fn base_url_spec(primary: Option<Seq<char>>, fallback: Option<Seq<char>>) -> Seq<char> {
    match (primary, fallback) {
        (Some(p), _) => p,
        (None, Some(f)) => f,
        (None, None) => "http://localhost:8080"@,
    }
}

/// The base address of the sign-in service.
pub fn base_url(primary: Option<String>, fallback: Option<String>) -> (r: String)
    ensures
        r@ == base_url_spec(primary.deep_view(), fallback.deep_view()),
{
    match (primary, fallback) {
        (Some(p), _) => p,
        (None, Some(f)) => f,
        (None, None) => crate::text::owned("http://localhost:8080"),
    }
}

/// The origins allowed to call the server when none are configured.
pub open spec fn default_allowed_origins() -> Seq<char> {
    "http://localhost:3000,http://127.0.0.1:3000"@
}

/// The origins allowed to call the server: the comma-separated pieces of the
/// configured list, or of the default one, as they stand (not trimmed).
pub fn allowed_origins(configured: Option<String>) -> (r: Vec<String>)
    ensures
        texts(r@) == split_spec(
            match configured.deep_view() { Some(c) => c, None => default_allowed_origins() },
            ',',
        ),
{
    match configured {
        Some(c) => split_commas(c.as_str()),
        None => split_commas("http://localhost:3000,http://127.0.0.1:3000"),
    }
}

} // verus!
