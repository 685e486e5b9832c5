//! Pagination of listings: page `page` (from 1) of `per_page` rows, with the
//! count of all rows as the database reports it beside each row of the page
//! (`COUNT(*) OVER ()`, so 0 when the page is empty).
use crate::model::Row;
use crate::store::DbError;
use vstd::prelude::*;

verus! {

/// The rows of a page and the total the page reports.
pub open spec fn page_of<T>(s: Seq<T>, page: i64, per_page: i64) -> Result<(Seq<T>, int), DbError> {
    let offset = (page - 1) * per_page;
    if page - 1 < i64::MIN || offset < i64::MIN || offset > i64::MAX || per_page < 0 || offset < 0 {
        Err(DbError::Failure)
    } else if s.len() > i64::MAX {
        Err(DbError::Failure)
    } else {
        let rows = if offset >= s.len() {
            Seq::<T>::empty()
        } else if offset + per_page >= s.len() {
            s.subrange(offset, s.len() as int)
        } else {
            s.subrange(offset, offset + per_page)
        };
        Ok((rows, if rows.len() > 0 { s.len() as int } else { 0 }))
    }
}

/// Number of pages of `per_page` rows needed for `total` rows (0 for an
/// empty page size).
pub open spec fn page_count(total: int, per_page: int) -> int {
    if per_page <= 0 {
        0
    } else {
        (total + per_page - 1) / per_page
    }
}

/// Cuts a page out of sorted rows; refused for a negative limit or offset
/// and for an offset out of the range of `i64`.
pub fn paginate<T: Row>(rows: &Vec<T>, page: i64, per_page: i64) -> (r: Result<(Vec<T>, i64), DbError>)
    ensures
        match page_of(rows@, page, per_page) {
            Err(e) => r == Err::<(Vec<T>, i64), DbError>(e),
            Ok((p, t)) => r matches Ok((v, n)) && v@ == p && n == t,
        },
{
    let pm1 = match page.checked_sub(1) {
        Some(x) => x,
        None => return Err(DbError::Failure),
    };
    let offset = match pm1.checked_mul(per_page) {
        Some(x) => x,
        None => return Err(DbError::Failure),
    };
    if per_page < 0 || offset < 0 {
        return Err(DbError::Failure);
    }
    if rows.len() as u64 > i64::MAX as u64 {
        return Err(DbError::Failure);
    }
    let n = rows.len() as i64;
    let mut out: Vec<T> = Vec::new();
    if offset < n {
        let end: i64 = if per_page >= n - offset {
            n
        } else {
            offset + per_page
        };
        let mut i: i64 = offset;
        while i < end
            invariant
                0 <= offset <= i <= end <= n,
                n == rows.len(),
                out@ == rows@.subrange(offset as int, i as int),
            decreases end - i,
        {
            out.push(rows[i as usize].duplicate());
            i = i + 1;
            assert(out@ =~= rows@.subrange(offset as int, i as int));
        }
    }
    let total: i64 = if out.len() > 0 {
        n
    } else {
        0
    };
    assert(out@ =~= page_of(rows@, page, per_page)->Ok_0.0);
    Ok((out, total))
}

/// `ceil(total / per_page)`, and 0 where `per_page` is not positive.
pub fn count_pages(total: i64, per_page: i64) -> (r: i64)
    requires
        total >= 0,
    ensures
        r == page_count(total as int, per_page as int),
{
    if per_page <= 0 {
        0
    } else {
        let q = total / per_page;
        let rem = total % per_page;
        proof {
            assert(total == q * per_page + rem) by (nonlinear_arith)
                requires
                    q == total / per_page,
                    rem == total % per_page,
                    per_page > 0,
                    total >= 0,
            ;
            lemma_ceil_div(total as int, per_page as int, q as int, rem as int);
        }
        if rem > 0 {
            q + 1
        } else {
            q
        }
    }
}

proof fn lemma_ceil_div(total: int, d: int, q: int, rem: int)
    requires
        d > 0,
        total >= 0,
        0 <= rem < d,
        total == q * d + rem,
    ensures
        (total + d - 1) / d == if rem > 0 {
            q + 1
        } else {
            q
        },
        q < i64::MAX || rem == 0 || total > i64::MAX,
{
    if rem > 0 {
        assert(total + d - 1 == (q + 1) * d + (rem - 1)) by (nonlinear_arith)
            requires
                total == q * d + rem,
        ;
        vstd::arithmetic::div_mod::lemma_fundamental_div_mod_converse(total + d - 1, d, q + 1, rem - 1);
    } else {
        assert(total + d - 1 == q * d + (d - 1)) by (nonlinear_arith)
            requires
                total == q * d + rem,
                rem == 0,
        ;
        vstd::arithmetic::div_mod::lemma_fundamental_div_mod_converse(total + d - 1, d, q, d - 1);
    }
    if q >= i64::MAX && rem > 0 {
        assert(q * d >= q) by (nonlinear_arith)
            requires
                d >= 1,
                q >= 0,
        ;
    }
}

} // verus!
