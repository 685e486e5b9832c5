//! Text helpers: lower-casing, case-insensitive comparison and the `ILIKE`
//! pattern matching used by every name lookup of the service.
use vstd::prelude::*;

verus! {

/// What `str::to_lowercase` returns for a string (Unicode lower-casing).
pub uninterp spec fn lowercase(s: Seq<char>) -> Seq<char>;

/// Every character is ASCII.
pub open spec fn is_ascii_text(s: Seq<char>) -> bool {
    forall|i: int| 0 <= i < s.len() ==> (#[trigger] s[i] as int) < 128
}

/// ASCII lower-casing of one character: `A`..`Z` become `a`..`z`, every
/// other character stays.
pub open spec fn ascii_lower(c: char) -> char {
    if 'A' <= c && c <= 'Z' {
        ((c as int) + 32) as char
    } else {
        c
    }
}

/// ASCII lower-casing of a text.
pub open spec fn ascii_lowered(s: Seq<char>) -> Seq<char> {
    s.map_values(|c: char| ascii_lower(c))
}

/// Calls `str::to_lowercase`; the result is the lower-cased string, named
/// `lowercase`. Of Unicode case mapping only the ASCII part is written out,
/// as std documents it: an ASCII text is lower-cased letter by letter.
#[verifier::external_body]
pub(crate) fn to_lower(s: &str) -> (r: String)
    ensures
        r@ == lowercase(s@),
        is_ascii_text(s@) ==> r@ == ascii_lowered(s@),
{
    s.to_lowercase()
}

/// Two strings are equal when lower-cased, as `a.to_lowercase() == b.to_lowercase()`.
pub open spec fn eq_ignore_case(a: Seq<char>, b: Seq<char>) -> bool {
    lowercase(a) == lowercase(b)
}

/// Case-insensitive equality of two strings.
pub fn same_ignore_case(a: &str, b: &str) -> (r: bool)
    ensures
        r == eq_ignore_case(a@, b@),
{
    let la = to_lower(a);
    let lb = to_lower(b);
    la == lb
}

/// Some name of `names` equals `name` ignoring case.
pub open spec fn any_eq_ignore_case(names: Seq<String>, name: Seq<char>) -> bool {
    exists|i: int| 0 <= i < names.len() && eq_ignore_case(#[trigger] names[i]@, name)
}

/// Whether `name` is already among `names`, ignoring case
/// (`names.iter().any(|i| i.to_lowercase() == name.to_lowercase())`).
pub fn name_taken(names: &Vec<String>, name: &str) -> (r: bool)
    ensures
        r == any_eq_ignore_case(names@, name@),
{
    let ln = to_lower(name);
    let mut i: usize = 0;
    while i < names.len()
        invariant
            i <= names.len(),
            ln@ == lowercase(name@),
            forall|j: int| 0 <= j < i ==> !eq_ignore_case(#[trigger] names@[j]@, name@),
        decreases names.len() - i,
    {
        let li = to_lower(names[i].as_str());
        if li == ln {
            assert(eq_ignore_case(names@[i as int]@, name@));
            return true;
        }
        i = i + 1;
    }
    false
}

/// The characters of a string, in order.
pub fn chars_of(s: &str) -> (v: Vec<char>)
    ensures
        v@ == s@,
{
    let n = s.unicode_len();
    let mut v: Vec<char> = Vec::new();
    let mut i: usize = 0;
    while i < n
        invariant
            n == s@.len(),
            i <= n,
            v@ == s@.subrange(0, i as int),
        decreases n - i,
    {
        let c = s.get_char(i);
        v.push(c);
        i = i + 1;
        assert(v@ =~= s@.subrange(0, i as int));
    }
    assert(v@ =~= s@);
    v
}

/// The escape character of `LIKE` patterns.
pub open spec fn escape_char() -> char {
    '\\'
}

/// A pattern is well formed unless its last character is an unpaired escape.
pub open spec fn pattern_ok_from(p: Seq<char>, j: int) -> bool
    decreases p.len() - j,
{
    if j >= p.len() {
        true
    } else if p[j] == escape_char() {
        j + 1 < p.len() && pattern_ok_from(p, j + 2)
    } else {
        pattern_ok_from(p, j + 1)
    }
}

/// `LIKE` matching of text `t` from position `i` against pattern `p` from
/// position `j`: `%` matches any run of characters, `_` any one character,
/// `\x` the character `x` itself, and every other character itself.
pub open spec fn like_from(t: Seq<char>, p: Seq<char>, i: int, j: int) -> bool
    decreases p.len() - j, t.len() - i,
{
    if j < 0 || i < 0 || i > t.len() || j >= p.len() {
        j >= p.len() && i == t.len()
    } else if p[j] == '%' {
        like_from(t, p, i, j + 1) || (i < t.len() && like_from(t, p, i + 1, j))
    } else if p[j] == escape_char() {
        j + 1 < p.len() && i < t.len() && t[i] == p[j + 1] && like_from(t, p, i + 1, j + 2)
    } else if p[j] == '_' {
        i < t.len() && like_from(t, p, i + 1, j + 1)
    } else {
        i < t.len() && t[i] == p[j] && like_from(t, p, i + 1, j + 1)
    }
}

/// The whole text matches the whole pattern.
pub open spec fn like(t: Seq<char>, p: Seq<char>) -> bool {
    like_from(t, p, 0, 0)
}

/// Case-insensitive `LIKE`: both sides are lower-cased, then matched.
pub open spec fn ilike(t: Seq<char>, p: Seq<char>) -> bool {
    like(lowercase(t), lowercase(p))
}

/// A pattern that the database accepts for `ILIKE`.
pub open spec fn ilike_pattern_ok(p: Seq<char>) -> bool {
    pattern_ok_from(lowercase(p), 0)
}

/// Whether the pattern `p` (from `j`) is well formed.
fn pattern_ok(p: &Vec<char>) -> (r: bool)
    ensures
        r == pattern_ok_from(p@, 0),
{
    let mut j: usize = 0;
    while j < p.len()
        invariant
            j <= p.len() + 1,
            pattern_ok_from(p@, 0) == pattern_ok_from(p@, j as int),
        decreases p.len() - j,
    {
        if p[j] == '\\' {
            if j + 1 >= p.len() {
                return false;
            }
            j = j + 2;
        } else {
            j = j + 1;
        }
    }
    true
}

/// The value of one cell of the matching table: `like_from(t, p, i, j)`,
/// computed from the already known cells of positions `i + 1` and patterns
/// `j + 1`, `j + 2`.
fn like_cell(
    t: &Vec<char>,
    p: &Vec<char>,
    i: usize,
    j: usize,
    here_next: bool,
    col1_here: bool,
    col1_next: bool,
    col2_next: bool,
) -> (v: bool)
    requires
        i <= t.len(),
        j < p.len(),
        col1_here == like_from(t@, p@, i as int, j + 1),
        i < t.len() ==> here_next == like_from(t@, p@, i + 1, j as int),
        i < t.len() ==> col1_next == like_from(t@, p@, i + 1, j + 1),
        i < t.len() ==> col2_next == like_from(t@, p@, i + 1, j + 2),
    ensures
        v == like_from(t@, p@, i as int, j as int),
{
    let n = t.len();
    let m = p.len();
    if p[j] == '%' {
        col1_here || (i < n && here_next)
    } else if p[j] == '\\' {
        j + 1 < m && i < n && t[i] == p[j + 1] && col2_next
    } else if p[j] == '_' {
        i < n && col1_next
    } else {
        i < n && t[i] == p[j] && col1_next
    }
}

/// One column of the matching table: `c[i]` for positions `i < n`, `e` for `i == n`.
spec fn column_is(c: Seq<bool>, e: bool, t: Seq<char>, p: Seq<char>, j: int) -> bool {
    &&& c.len() == t.len()
    &&& e == like_from(t, p, t.len() as int, j)
    &&& forall|i: int| 0 <= i < t.len() ==> #[trigger] c[i] == like_from(t, p, i, j)
}

fn column_at(c: &Vec<bool>, e: bool, i: usize) -> (v: bool)
    requires
        i <= c.len(),
    ensures
        v == (if i < c.len() { c@[i as int] } else { e }),
{
    if i < c.len() {
        c[i]
    } else {
        e
    }
}

/// Matches a text against a `LIKE` pattern, column by column from the end of
/// the pattern (dynamic programming over suffixes).
pub fn like_match(t: &Vec<char>, p: &Vec<char>) -> (r: bool)
    ensures
        r == like(t@, p@),
{
    let n = t.len();
    let m = p.len();
    let mut base: Vec<bool> = Vec::new();
    let mut k: usize = 0;
    while k < n
        invariant
            k <= n,
            n == t.len(),
            base.len() == k,
            forall|i: int| 0 <= i < k ==> #[trigger] base@[i] == false,
        decreases n - k,
    {
        base.push(false);
        k = k + 1;
    }
    // column m (and every column beyond) matches exactly the empty rest of text
    let mut prev1: Vec<bool> = base.clone();
    let mut prev1_end: bool = true;
    let mut prev2: Vec<bool> = base.clone();
    let mut prev2_end: bool = true;
    assert(column_is(prev1@, prev1_end, t@, p@, m as int));
    assert(column_is(prev2@, prev2_end, t@, p@, m + 1));
    let mut jj: usize = m;
    while jj > 0
        invariant
            n == t.len(),
            m == p.len(),
            jj <= m,
            base@.len() == n,
            forall|i: int| 0 <= i < n ==> #[trigger] base@[i] == false,
            column_is(prev1@, prev1_end, t@, p@, jj as int),
            column_is(prev2@, prev2_end, t@, p@, jj + 1),
        decreases jj,
    {
        let j = jj - 1;
        let mut cur: Vec<bool> = base.clone();
        let cur_end = like_cell(t, p, n, j, false, prev1_end, false, false);
        let mut ii: usize = n;
        while ii > 0
            invariant
                n == t.len(),
                m == p.len(),
                j < m,
                jj == j + 1,
                ii <= n,
                cur@.len() == n,
                cur_end == like_from(t@, p@, n as int, j as int),
                column_is(prev1@, prev1_end, t@, p@, jj as int),
                column_is(prev2@, prev2_end, t@, p@, jj + 1),
                forall|i: int| ii <= i < n ==> #[trigger] cur@[i] == like_from(t@, p@, i, j as int),
            decreases ii,
        {
            let i = ii - 1;
            let here_next = column_at(&cur, cur_end, i + 1);
            let c1_here = column_at(&prev1, prev1_end, i);
            let c1_next = column_at(&prev1, prev1_end, i + 1);
            let c2_next = column_at(&prev2, prev2_end, i + 1);
            let v = like_cell(t, p, i, j, here_next, c1_here, c1_next, c2_next);
            cur.set(i, v);
            ii = i;
        }
        prev2 = prev1;
        prev2_end = prev1_end;
        prev1 = cur;
        prev1_end = cur_end;
        jj = j;
    }
    column_at(&prev1, prev1_end, 0)
}

/// Outcome of an `ILIKE` comparison: the database rejects a pattern that ends
/// with a lone escape character.
pub enum LikeResult {
    Match,
    NoMatch,
    BadPattern,
}

/// `text ILIKE pattern`.
pub fn ilike_match(text: &str, pattern: &str) -> (r: LikeResult)
    ensures
        r is BadPattern <==> !ilike_pattern_ok(pattern@),
        r is Match <==> (ilike_pattern_ok(pattern@) && ilike(text@, pattern@)),
{
    let lt = to_lower(text);
    let lp = to_lower(pattern);
    let tv = chars_of(lt.as_str());
    let pv = chars_of(lp.as_str());
    if !pattern_ok(&pv) {
        return LikeResult::BadPattern;
    }
    if like_match(&tv, &pv) {
        LikeResult::Match
    } else {
        LikeResult::NoMatch
    }
}

} // verus!

verus! {

/// Whether the database accepts `pattern` in `ILIKE`.
pub fn ilike_pattern_valid(pattern: &str) -> (r: bool)
    ensures
        r == ilike_pattern_ok(pattern@),
        is_ascii_text(pattern@) ==> lowercase(pattern@) == ascii_lowered(pattern@),
{
    let lp = to_lower(pattern);
    let pv = chars_of(lp.as_str());
    pattern_ok(&pv)
}

/// Whether `text ILIKE pattern` holds (false for a rejected pattern).
pub fn ilike_holds(text: &str, pattern: &str) -> (r: bool)
    ensures
        r == (ilike_pattern_ok(pattern@) && ilike(text@, pattern@)),
{
    match ilike_match(text, pattern) {
        LikeResult::Match => true,
        _ => false,
    }
}

/// A text without escape characters matches itself as a `LIKE` pattern,
/// from any position on.
proof fn lemma_like_self_from(t: Seq<char>, i: int)
    requires
        0 <= i <= t.len(),
        !t.contains(escape_char()),
    ensures
        like_from(t, t, i, i),
    decreases t.len() - i,
{
    if i < t.len() {
        lemma_like_self_from(t, i + 1);
        assert(t[i] != escape_char());
        if t[i] == '%' {
            assert(like_from(t, t, i + 1, i));
        }
    }
}

/// A text without escape characters is an accepted pattern from any
/// position on.
proof fn lemma_pattern_ok_without_escape(p: Seq<char>, j: int)
    requires
        0 <= j,
        !p.contains(escape_char()),
    ensures
        pattern_ok_from(p, j),
    decreases p.len() - j,
{
    if j < p.len() {
        assert(p[j] != escape_char());
        lemma_pattern_ok_without_escape(p, j + 1);
    }
}

/// A text whose lower-cased form has no escape character is an accepted
/// `ILIKE` pattern that matches the text itself.
pub proof fn lemma_ilike_self(t: Seq<char>)
    requires
        !lowercase(t).contains(escape_char()),
    ensures
        ilike_pattern_ok(t),
        ilike(t, t),
{
    lemma_pattern_ok_without_escape(lowercase(t), 0);
    lemma_like_self_from(lowercase(t), 0);
}

} // verus!
