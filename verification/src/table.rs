//! Generic queries over a table held as a vector of rows: first match,
//! selection, deletion and update, each specified over the sequence of rows.
use crate::model::Row;
use vstd::prelude::*;

verus! {

/// The first row satisfying `p`, in table order.
pub open spec fn first_match<T>(s: Seq<T>, p: spec_fn(T) -> bool) -> Option<T>
    decreases s.len(),
{
    if s.len() == 0 {
        None
    } else if p(s[0]) {
        Some(s[0])
    } else {
        first_match(s.drop_first(), p)
    }
}

/// Some row satisfies `p`.
pub open spec fn any_match<T>(s: Seq<T>, p: spec_fn(T) -> bool) -> bool {
    exists|i: int| 0 <= i < s.len() && p(#[trigger] s[i])
}

/// Replaces each row satisfying `p` by `g` of it.
pub open spec fn update_where<T>(s: Seq<T>, p: spec_fn(T) -> bool, g: spec_fn(T) -> T) -> Seq<T> {
    s.map_values(|x: T| if p(x) { g(x) } else { x })
}

/// The rows not satisfying `p`.
pub open spec fn delete_where<T>(s: Seq<T>, p: spec_fn(T) -> bool) -> Seq<T> {
    s.filter(|x: T| !p(x))
}

/// Skipping rows that do not satisfy `p` does not change the first match.
pub proof fn lemma_first_match_from<T>(s: Seq<T>, p: spec_fn(T) -> bool, i: int)
    requires
        0 <= i <= s.len(),
        forall|k: int| 0 <= k < i ==> !p(#[trigger] s[k]),
    ensures
        first_match(s, p) == first_match(s.subrange(i, s.len() as int), p),
    decreases i,
{
    if i > 0 {
        assert(!p(s[0]));
        let t = s.drop_first();
        assert forall|k: int| 0 <= k < i - 1 implies !p(#[trigger] t[k]) by {
            assert(t[k] == s[k + 1]);
        }
        lemma_first_match_from(t, p, i - 1);
        assert(t.subrange(i - 1, t.len() as int) =~= s.subrange(i, s.len() as int));
    } else {
        assert(s.subrange(0, s.len() as int) =~= s);
    }
}

/// The first match is the row at index `i` when `i` is the first index that satisfies `p`.
pub proof fn lemma_first_match_at<T>(s: Seq<T>, p: spec_fn(T) -> bool, i: int)
    requires
        0 <= i < s.len(),
        p(s[i]),
        forall|k: int| 0 <= k < i ==> !p(#[trigger] s[k]),
    ensures
        first_match(s, p) == Some(s[i]),
{
    lemma_first_match_from(s, p, i);
    assert(s.subrange(i, s.len() as int)[0] == s[i]);
}

/// No match when no row satisfies `p`.
pub proof fn lemma_first_match_none<T>(s: Seq<T>, p: spec_fn(T) -> bool)
    requires
        forall|k: int| 0 <= k < s.len() ==> !p(#[trigger] s[k]),
    ensures
        first_match(s, p) == None::<T>,
{
    lemma_first_match_from(s, p, s.len() as int);
    assert(s.subrange(s.len() as int, s.len() as int).len() == 0);
}

/// The first match after appending a row: the old first match if there was
/// one, else the new row if it matches.
pub proof fn lemma_first_match_push<T>(s: Seq<T>, x: T, p: spec_fn(T) -> bool)
    ensures
        first_match(s.push(x), p) == (match first_match(s, p) {
            Some(y) => Some(y),
            None => if p(x) {
                Some(x)
            } else {
                None
            },
        }),
    decreases s.len(),
{
    if s.len() == 0 {
        assert(s.push(x).drop_first() =~= Seq::<T>::empty());
        assert(s.push(x)[0] == x);
        assert(first_match(s.push(x).drop_first(), p) == None::<T>);
    } else {
        assert(s.push(x)[0] == s[0]);
        assert(s.push(x).drop_first() =~= s.drop_first().push(x));
        lemma_first_match_push(s.drop_first(), x, p);
    }
}

/// A found row satisfies the predicate and belongs to the table.
pub proof fn lemma_first_match_some<T>(s: Seq<T>, p: spec_fn(T) -> bool)
    ensures
        first_match(s, p) matches Some(x) ==> p(x) && s.contains(x),
        first_match(s, p) is None <==> !any_match(s, p),
    decreases s.len(),
{
    if s.len() > 0 {
        lemma_first_match_some(s.drop_first(), p);
        if first_match(s, p) is None {
            assert forall|i: int| 0 <= i < s.len() implies !p(#[trigger] s[i]) by {
                if i > 0 {
                    assert(s[i] == s.drop_first()[i - 1]);
                }
            }
        }
        if let Some(x) = first_match(s.drop_first(), p) {
            if !p(s[0]) {
                let j = choose|j: int| 0 <= j < s.drop_first().len() && s.drop_first()[j] == x;
                assert(s[j + 1] == x);
            }
        }
        if any_match(s, p) && !p(s[0]) {
            let i = choose|i: int| 0 <= i < s.len() && p(#[trigger] s[i]);
            assert(s.drop_first()[i - 1] == s[i]);
        }
    }
}

/// Index of the first row satisfying `p`.
pub fn find_index<T>(v: &Vec<T>, pred: impl Fn(&T) -> bool, Ghost(p): Ghost<spec_fn(T) -> bool>) -> (r:
    Option<usize>)
    requires
        forall|x: T| #[trigger] pred.requires((&x,)),
        forall|x: T, b: bool| pred.ensures((&x,), b) ==> b == p(x),
    ensures
        match r {
            Some(i) => i < v.len() && p(v@[i as int]) && forall|k: int|
                0 <= k < i ==> !p(#[trigger] v@[k]),
            None => forall|k: int| 0 <= k < v.len() ==> !p(#[trigger] v@[k]),
        },
        r is Some ==> first_match(v@, p) == Some(v@[r->0 as int]),
        r is None ==> first_match(v@, p) == None::<T>,
{
    let mut i: usize = 0;
    while i < v.len()
        invariant
            i <= v.len(),
            forall|x: T| #[trigger] pred.requires((&x,)),
            forall|x: T, b: bool| pred.ensures((&x,), b) ==> b == p(x),
            forall|k: int| 0 <= k < i ==> !p(#[trigger] v@[k]),
        decreases v.len() - i,
    {
        if pred(&v[i]) {
            proof {
                lemma_first_match_at(v@, p, i as int);
            }
            return Some(i);
        }
        i = i + 1;
    }
    proof {
        lemma_first_match_none(v@, p);
    }
    None
}

/// The first row satisfying `p`.
pub fn find_row<T: Row>(v: &Vec<T>, pred: impl Fn(&T) -> bool, Ghost(p): Ghost<spec_fn(T) -> bool>) -> (r:
    Option<T>)
    requires
        forall|x: T| #[trigger] pred.requires((&x,)),
        forall|x: T, b: bool| pred.ensures((&x,), b) ==> b == p(x),
    ensures
        r == first_match(v@, p),
{
    match find_index(v, pred, Ghost(p)) {
        Some(i) => Some(v[i].duplicate()),
        None => None,
    }
}

/// The rows satisfying `p`, in table order.
pub fn select_rows<T: Row>(v: &Vec<T>, pred: impl Fn(&T) -> bool, Ghost(p): Ghost<spec_fn(T) -> bool>) -> (r:
    Vec<T>)
    requires
        forall|x: T| #[trigger] pred.requires((&x,)),
        forall|x: T, b: bool| pred.ensures((&x,), b) ==> b == p(x),
    ensures
        r@ == v@.filter(p),
{
    let mut out: Vec<T> = Vec::new();
    let mut i: usize = 0;
    assert(v@.take(0).filter(p) =~= Seq::<T>::empty()) by {
        reveal_with_fuel(Seq::filter, 1);
    }
    while i < v.len()
        invariant
            i <= v.len(),
            forall|x: T| #[trigger] pred.requires((&x,)),
            forall|x: T, b: bool| pred.ensures((&x,), b) ==> b == p(x),
            out@ == v@.take(i as int).filter(p),
        decreases v.len() - i,
    {
        proof {
            assert(v@.take(i + 1).drop_last() =~= v@.take(i as int));
            reveal_with_fuel(Seq::filter, 1);
        }
        if pred(&v[i]) {
            out.push(v[i].duplicate());
        }
        i = i + 1;
    }
    assert(v@.take(v.len() as int) =~= v@);
    out
}

/// Deletes the rows satisfying `p`, keeping the others in order.
pub fn delete_rows<T>(v: &mut Vec<T>, pred: impl Fn(&T) -> bool, Ghost(p): Ghost<spec_fn(T) -> bool>)
    requires
        forall|x: T| #[trigger] pred.requires((&x,)),
        forall|x: T, b: bool| pred.ensures((&x,), b) ==> b == p(x),
    ensures
        final(v)@ == delete_where(old(v)@, p),
{
    let ghost orig = v@;
    let ghost keep = |x: T| !p(x);
    let mut i: usize = 0;
    let ghost mut k: int = 0;
    assert(orig.take(0).filter(keep) =~= Seq::<T>::empty()) by {
        reveal_with_fuel(Seq::filter, 1);
    }
    while i < v.len()
        invariant
            0 <= k <= orig.len(),
            i <= v.len(),
            forall|x: T| #[trigger] pred.requires((&x,)),
            forall|x: T, b: bool| pred.ensures((&x,), b) ==> b == p(x),
            keep == (|x: T| !p(x)),
            v@.take(i as int) == orig.take(k).filter(keep),
            v@.skip(i as int) == orig.skip(k),
            v.len() - i == orig.len() - k,
        decreases v.len() - i,
    {
        proof {
            assert(orig.take(k + 1).drop_last() =~= orig.take(k));
            assert(v@[i as int] == orig[k]) by {
                assert(v@.skip(i as int)[0] == orig.skip(k)[0]);
            }
            reveal_with_fuel(Seq::filter, 1);
        }
        if pred(&v[i]) {
            let ghost before = v@;
            v.remove(i);
            proof {
                assert(v@.take(i as int) =~= before.take(i as int));
                assert(v@.skip(i as int) =~= before.skip(i as int).drop_first());
                assert(orig.skip(k + 1) =~= orig.skip(k).drop_first());
                k = k + 1;
            }
        } else {
            let ghost before = v@;
            proof {
                assert(v@.take(i + 1) =~= before.take(i as int).push(orig[k]));
                assert(v@.skip(i + 1) =~= before.skip(i as int).drop_first());
                assert(orig.skip(k + 1) =~= orig.skip(k).drop_first());
                k = k + 1;
            }
            i = i + 1;
        }
    }
    proof {
        assert(orig.skip(k).len() == 0);
        assert(k == orig.len());
        assert(orig.take(k) =~= orig);
        assert(v@.take(i as int) =~= v@);
    }
}

/// Replaces each row satisfying `p` by `g` of it.
pub fn update_rows<T>(
    v: &mut Vec<T>,
    pred: impl Fn(&T) -> bool,
    f: impl Fn(&T) -> T,
    Ghost(p): Ghost<spec_fn(T) -> bool>,
    Ghost(g): Ghost<spec_fn(T) -> T>,
)
    requires
        forall|x: T| #[trigger] pred.requires((&x,)),
        forall|x: T, b: bool| pred.ensures((&x,), b) ==> b == p(x),
        forall|x: T| #[trigger] f.requires((&x,)),
        forall|x: T, y: T| f.ensures((&x,), y) ==> y == g(x),
    ensures
        final(v)@ == update_where(old(v)@, p, g),
{
    let ghost orig = v@;
    let mut i: usize = 0;
    while i < v.len()
        invariant
            i <= v.len(),
            v@.len() == orig.len(),
            forall|x: T| #[trigger] pred.requires((&x,)),
            forall|x: T, b: bool| pred.ensures((&x,), b) ==> b == p(x),
            forall|x: T| #[trigger] f.requires((&x,)),
            forall|x: T, y: T| f.ensures((&x,), y) ==> y == g(x),
            forall|k: int| 0 <= k < i ==> #[trigger] v@[k] == (if p(orig[k]) { g(orig[k]) } else { orig[k] }),
            forall|k: int| i <= k < v.len() ==> #[trigger] v@[k] == orig[k],
        decreases v.len() - i,
    {
        if pred(&v[i]) {
            let y = f(&v[i]);
            v.set(i, y);
        }
        i = i + 1;
    }
    assert(v@ =~= update_where(orig, p, g));
}

/// The rows `b` with `k(a, b)`.
pub open spec fn related<A, B>(k: spec_fn(A, B) -> bool, a: A) -> spec_fn(B) -> bool {
    |b: B| k(a, b)
}

/// Inner join that pairs each left row (in order) with the first right row
/// related to it; left rows without a partner are dropped.
pub open spec fn join_first<A, B>(ls: Seq<A>, rs: Seq<B>, k: spec_fn(A, B) -> bool) -> Seq<(A, B)>
    decreases ls.len(),
{
    if ls.len() == 0 {
        Seq::empty()
    } else {
        let rest = join_first(ls.drop_last(), rs, k);
        match first_match(rs, related(k, ls.last())) {
            Some(b) => rest.push((ls.last(), b)),
            None => rest,
        }
    }
}

/// Pairs each left row with the first related right row.
pub fn join_rows<A: Row, B: Row>(
    ls: &Vec<A>,
    rs: &Vec<B>,
    key: impl Fn(&A, &B) -> bool,
    Ghost(k): Ghost<spec_fn(A, B) -> bool>,
) -> (r: Vec<(A, B)>)
    requires
        forall|a: A, b: B| #[trigger] key.requires((&a, &b)),
        forall|a: A, b: B, x: bool| key.ensures((&a, &b), x) ==> x == k(a, b),
    ensures
        r@ == join_first(ls@, rs@, k),
{
    let mut out: Vec<(A, B)> = Vec::new();
    let mut i: usize = 0;
    while i < ls.len()
        invariant
            i <= ls.len(),
            forall|a: A, b: B| #[trigger] key.requires((&a, &b)),
            forall|a: A, b: B, x: bool| key.ensures((&a, &b), x) ==> x == k(a, b),
            out@ == join_first(ls@.take(i as int), rs@, k),
        decreases ls.len() - i,
    {
        let a = &ls[i];
        let mut j: usize = 0;
        let mut found: Option<B> = None;
        while j < rs.len()
            invariant_except_break
                found is None,
            invariant
                j <= rs.len(),
                forall|a: A, b: B| #[trigger] key.requires((&a, &b)),
                forall|a: A, b: B, x: bool| key.ensures((&a, &b), x) ==> x == k(a, b),
                forall|m: int| 0 <= m < j ==> !related(k, *a)(#[trigger] rs@[m]),
            ensures
                found is Some ==> found == first_match(rs@, related(k, *a)),
                found is None ==> j == rs.len(),
            decreases rs.len() - j,
        {
            if key(a, &rs[j]) {
                proof {
                    lemma_first_match_at(rs@, related(k, *a), j as int);
                }
                found = Some(rs[j].duplicate());
                break;
            }
            j = j + 1;
        }
        proof {
            if found is None {
                lemma_first_match_none(rs@, related(k, *a));
            }
        }
        proof {
            assert(ls@.take(i + 1).drop_last() =~= ls@.take(i as int));
            assert(ls@.take(i + 1).last() == ls@[i as int]);
        }
        match found {
            Some(b) => {
                out.push((a.duplicate(), b));
            },
            None => {},
        }
        i = i + 1;
    }
    assert(ls@.take(ls.len() as int) =~= ls@);
    out
}

/// Where a descending sort puts `x` into the sorted `s`: before the first
/// row that `x` exceeds, so after every row it does not exceed (`le(x, y)`).
pub open spec fn insert_pos<T>(s: Seq<T>, x: T, le: spec_fn(T, T) -> bool) -> int
    decreases s.len(),
{
    if s.len() == 0 {
        0
    } else if !le(x, s[0]) {
        0
    } else {
        1 + insert_pos(s.drop_first(), x, le)
    }
}

/// Stable descending insertion sort by `le`.
pub open spec fn sort_desc<T>(s: Seq<T>, le: spec_fn(T, T) -> bool) -> Seq<T>
    decreases s.len(),
{
    if s.len() == 0 {
        s
    } else {
        let r = sort_desc(s.drop_last(), le);
        r.insert(insert_pos(r, s.last(), le), s.last())
    }
}

proof fn lemma_insert_pos<T>(s: Seq<T>, x: T, le: spec_fn(T, T) -> bool, j: int)
    requires
        0 <= j <= s.len(),
        forall|k: int| 0 <= k < j ==> le(x, #[trigger] s[k]),
        j == s.len() || !le(x, s[j]),
    ensures
        insert_pos(s, x, le) == j,
    decreases j,
{
    if j > 0 {
        let t = s.drop_first();
        assert forall|k: int| 0 <= k < j - 1 implies le(x, #[trigger] t[k]) by {
            assert(t[k] == s[k + 1]);
        }
        if j < s.len() {
            assert(t[j - 1] == s[j]);
        }
        lemma_insert_pos(t, x, le, j - 1);
    }
}

/// Sorts rows in descending order of `le`, keeping the table order of equal rows.
pub fn sort_rows_desc<T: Row>(
    v: &Vec<T>,
    le: impl Fn(&T, &T) -> bool,
    Ghost(l): Ghost<spec_fn(T, T) -> bool>,
) -> (r: Vec<T>)
    requires
        forall|a: T, b: T| #[trigger] le.requires((&a, &b)),
        forall|a: T, b: T, x: bool| le.ensures((&a, &b), x) ==> x == l(a, b),
    ensures
        r@ == sort_desc(v@, l),
{
    let mut out: Vec<T> = Vec::new();
    let mut i: usize = 0;
    while i < v.len()
        invariant
            i <= v.len(),
            forall|a: T, b: T| #[trigger] le.requires((&a, &b)),
            forall|a: T, b: T, x: bool| le.ensures((&a, &b), x) ==> x == l(a, b),
            out@ == sort_desc(v@.take(i as int), l),
        decreases v.len() - i,
    {
        let x = &v[i];
        let mut j: usize = 0;
        while j < out.len() && le(x, &out[j])
            invariant
                j <= out.len(),
                forall|a: T, b: T| #[trigger] le.requires((&a, &b)),
                forall|a: T, b: T, x: bool| le.ensures((&a, &b), x) ==> x == l(a, b),
                forall|k: int| 0 <= k < j ==> l(*x, #[trigger] out@[k]),
            decreases out.len() - j,
        {
            j = j + 1;
        }
        proof {
            lemma_insert_pos(out@, *x, l, j as int);
            assert(v@.take(i + 1).drop_last() =~= v@.take(i as int));
            assert(v@.take(i + 1).last() == v@[i as int]);
        }
        out.insert(j, x.duplicate());
        i = i + 1;
    }
    assert(v@.take(v.len() as int) =~= v@);
    out
}

/// The rows a filter keeps are rows of the table that satisfy the test,
/// and every row that satisfies it is kept.
pub proof fn lemma_filter_exact<T>(s: Seq<T>, p: spec_fn(T) -> bool)
    ensures
        forall|i: int| 0 <= i < s.filter(p).len() ==> p(#[trigger] s.filter(p)[i]) && s.contains(s.filter(p)[i]),
        forall|j: int| 0 <= j < s.len() && p(#[trigger] s[j]) ==> s.filter(p).contains(s[j]),
    decreases s.len(),
{
    #[allow(deprecated)]
    s.filter_lemma(p);
    if s.len() > 0 {
        let t = s.drop_last();
        lemma_filter_exact(t, p);
        reveal_with_fuel(Seq::filter, 1);
        assert(s.filter(p) == if p(s.last()) { t.filter(p).push(s.last()) } else { t.filter(p) });
        assert forall|i: int| 0 <= i < s.filter(p).len() implies s.contains(#[trigger] s.filter(p)[i]) by {
            if i < t.filter(p).len() {
                let x = t.filter(p)[i];
                assert(t.contains(x));
                let k = choose|k: int| 0 <= k < t.len() && t[k] == x;
                assert(s[k] == x);
            } else {
                assert(s[s.len() - 1] == s.last());
            }
        }
    }
}

/// Where a descending sort inserts a row lies within the sorted rows.
proof fn lemma_insert_pos_bounds<T>(s: Seq<T>, x: T, le: spec_fn(T, T) -> bool)
    ensures
        0 <= insert_pos(s, x, le) <= s.len(),
    decreases s.len(),
{
    if s.len() > 0 && le(x, s[0]) {
        lemma_insert_pos_bounds(s.drop_first(), x, le);
    }
}

/// Sorting keeps exactly the rows there were, each as often as it was there.
pub proof fn lemma_sort_desc_multiset<T>(s: Seq<T>, le: spec_fn(T, T) -> bool)
    ensures
        sort_desc(s, le).to_multiset() =~= s.to_multiset(),
        sort_desc(s, le).len() == s.len(),
    decreases s.len(),
{
    if s.len() > 0 {
        let d = s.drop_last();
        let x = s.last();
        let r = sort_desc(d, le);
        lemma_sort_desc_multiset(d, le);
        let p = insert_pos(r, x, le);
        lemma_insert_pos_bounds(r, x, le);
        let t = r.insert(p, x);
        assert(t.remove(p) =~= r);
        assert(t[p] == x);
        vstd::seq_lib::to_multiset_remove(t, p);
        t.to_multiset_ensures();
        assert(t.contains(x));
        assert(t.to_multiset().count(x) > 0);
        assert(t.to_multiset() =~= r.to_multiset().insert(x));
        assert(s =~= d.push(x));
        vstd::seq_lib::to_multiset_build(d, x);
        s.to_multiset_ensures();
        t.to_multiset_ensures();
    }
}

/// `le` orders every two rows and is transitive.
pub open spec fn total_preorder<T>(le: spec_fn(T, T) -> bool) -> bool {
    &&& forall|a: T, b: T| #[trigger] le(a, b) || le(b, a)
    &&& forall|a: T, b: T, c: T| #[trigger] le(a, b) && #[trigger] le(b, c) ==> le(a, c)
}

/// Each row comes no lower by `le` than every row after it.
pub open spec fn sorted_desc_by<T>(s: Seq<T>, le: spec_fn(T, T) -> bool) -> bool {
    forall|i: int, j: int| 0 <= i < j < s.len() ==> le(#[trigger] s[j], #[trigger] s[i])
}

/// A row goes after every row it does not exceed and before the first one
/// it exceeds.
proof fn lemma_insert_pos_place<T>(s: Seq<T>, x: T, le: spec_fn(T, T) -> bool)
    ensures
        forall|k: int| 0 <= k < insert_pos(s, x, le) ==> le(x, #[trigger] s[k]),
        insert_pos(s, x, le) < s.len() ==> !le(x, s[insert_pos(s, x, le)]),
    decreases s.len(),
{
    lemma_insert_pos_bounds(s, x, le);
    if s.len() > 0 && le(x, s[0]) {
        let t = s.drop_first();
        lemma_insert_pos_place(t, x, le);
        lemma_insert_pos_bounds(t, x, le);
        assert(insert_pos(s, x, le) == 1 + insert_pos(t, x, le));
        assert forall|k: int| 0 <= k < insert_pos(s, x, le) implies le(x, #[trigger] s[k]) by {
            if k > 0 {
                assert(s[k] == t[k - 1]);
            }
        }
        if insert_pos(s, x, le) < s.len() {
            assert(s[insert_pos(s, x, le)] == t[insert_pos(t, x, le)]);
        }
    }
}

/// The descending sort by a total preorder puts the rows in descending order.
pub proof fn lemma_sort_desc_sorted<T>(s: Seq<T>, le: spec_fn(T, T) -> bool)
    requires
        total_preorder(le),
    ensures
        sorted_desc_by(sort_desc(s, le), le),
    decreases s.len(),
{
    if s.len() > 0 {
        let x = s.last();
        let r = sort_desc(s.drop_last(), le);
        lemma_sort_desc_sorted(s.drop_last(), le);
        let p = insert_pos(r, x, le);
        lemma_insert_pos_bounds(r, x, le);
        lemma_insert_pos_place(r, x, le);
        let t = r.insert(p, x);
        assert(t == sort_desc(s, le));
        if p < r.len() {
            assert(le(r[p], x));
        }
        assert forall|i: int, j: int| 0 <= i < j < t.len() implies le(#[trigger] t[j], #[trigger] t[i]) by {
            if j < p {
                assert(t[i] == r[i] && t[j] == r[j]);
            } else if j == p {
                assert(t[i] == r[i] && t[j] == x);
            } else if i < p {
                assert(t[i] == r[i] && t[j] == r[j - 1]);
                assert(le(r[j - 1], r[p]) || j - 1 == p);
                assert(le(r[p], x));
                assert(le(r[j - 1], x));
            } else if i == p {
                assert(t[i] == x && t[j] == r[j - 1]);
                assert(le(r[j - 1], r[p]) || j - 1 == p);
            } else {
                assert(t[i] == r[i - 1] && t[j] == r[j - 1]);
            }
        }
    }
}

} // verus!
