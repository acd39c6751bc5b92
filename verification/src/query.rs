//! Questions about the rows of the durable store: the page of a listing,
//! the rows that a sweep removes, and whether a refresh reached its row.

use crate::model::{views, Model, ModelView};
use crate::time::Timestamp;
use vstd::prelude::*;

verus! {

/// The owner of the questions.
pub struct Query;

/// The number of pages that `total` rows fill at `per_page` rows a page:
/// the quotient, rounded up.
pub open spec fn num_pages(total: int, per_page: int) -> int {
    total / per_page + if total % per_page > 0 {
        1int
    } else {
        0int
    }
}

/// The index of the first row of page `page`, numbered from 1, in a
/// listing of `total` rows; `total` where the page lies beyond the rows.
pub open spec fn page_start(page: int, per_page: int, total: int) -> int {
    if (page - 1) * per_page < total {
        (page - 1) * per_page
    } else {
        total
    }
}

/// The index after the last row of page `page`.
pub open spec fn page_end(page: int, per_page: int, total: int) -> int {
    if page_start(page, per_page, total) + per_page < total {
        page_start(page, per_page, total) + per_page
    } else {
        total
    }
}

/// The rows of page `page`, numbered from 1, of a listing in pages of
/// `per_page` rows.
pub open spec fn page_rows<T>(rows: Seq<T>, page: int, per_page: int) -> Seq<T> {
    rows.subrange(
        page_start(page, per_page, rows.len() as int),
        page_end(page, per_page, rows.len() as int),
    )
}

/// The first `pages` pages of a listing, one after the other.
pub open spec fn pages_joined<T>(rows: Seq<T>, pages: nat, per_page: int) -> Seq<T>
    decreases pages,
{
    if pages == 0 {
        Seq::empty()
    } else {
        pages_joined(rows, (pages - 1) as nat, per_page) + page_rows(rows, pages as int, per_page)
    }
}

/// Whether the rows stand in ascending order of their identifiers.
pub open spec fn ordered_by_id(rows: Seq<ModelView>) -> bool {
    forall|i: int, j: int| 0 <= i < j < rows.len() ==> rows[i].id < rows[j].id
}

/// The rows that a sweep at time `now` leaves: those that have not expired.
pub open spec fn unexpired(rows: Seq<ModelView>, now: int) -> Seq<ModelView> {
    rows.filter(|row: ModelView| !row.is_expired_at(now))
}

/// The rows that a sweep at time `now` removes: those that have expired.
pub open spec fn expired(rows: Seq<ModelView>, now: int) -> Seq<ModelView> {
    rows.filter(|row: ModelView| row.is_expired_at(now))
}

/// A sweep of a table with one more row at its end.
proof fn lemma_sweep_push(rows: Seq<ModelView>, row: ModelView, now: int)
    ensures
        unexpired(rows.push(row), now) == if row.is_expired_at(now) {
            unexpired(rows, now)
        } else {
            unexpired(rows, now).push(row)
        },
        expired(rows.push(row), now) == if row.is_expired_at(now) {
            expired(rows, now).push(row)
        } else {
            expired(rows, now)
        },
{
    reveal(Seq::filter);
    assert(rows.push(row).drop_last() =~= rows);
}

impl Query {
    /// The index from 0 of the page that users number `page`, from 1.
    pub fn page_index(page: u64) -> (index: u64)
        requires
            page >= 1,
        ensures
            index == page - 1,
    {
        page - 1
    }

    /// The number of pages that `total` rows fill.
    pub fn num_pages(total: u64, redirections_per_page: u64) -> (pages: u64)
        requires
            redirections_per_page >= 1,
        ensures
            pages == num_pages(total as int, redirections_per_page as int),
    {
        let full: u64 = total / redirections_per_page;
        if total % redirections_per_page > 0 {
            proof {
                lemma_num_pages_rounds_up(total as int, redirections_per_page as int);
            }
            full + 1
        } else {
            full
        }
    }

    /// The rows of page `page` of a listing of `total` rows, as the index
    /// of the first and the index after the last.
    pub fn page_window(page: u64, redirections_per_page: u64, total: u64) -> (window: (u64, u64))
        requires
            page >= 1,
            redirections_per_page >= 1,
        ensures
            window.0 == page_start(page as int, redirections_per_page as int, total as int),
            window.1 == page_end(page as int, redirections_per_page as int, total as int),
            window.0 <= window.1 <= total,
    {
        let start: u64 = match (page - 1).checked_mul(redirections_per_page) {
            Some(start) => if start < total {
                start
            } else {
                total
            },
            None => total,
        };
        let end: u64 = match start.checked_add(redirections_per_page) {
            Some(end) => if end < total {
                end
            } else {
                total
            },
            None => total,
        };
        (start, end)
    }

    /// The rows of page `page`, numbered from 1, of the listing `rows`, in
    /// the order of the listing, and the number of pages that the listing
    /// fills. A page beyond the last is empty. Of a listing in ascending
    /// order of identifiers, as the store hands it out, the page is in
    /// that order too.
    pub fn find_redirections_in_page(rows: &Vec<Model>, page: u64, redirections_per_page: u64) -> (r:
        (Vec<Model>, u64))
        requires
            page >= 1,
            redirections_per_page >= 1,
        ensures
            r.0@ == page_rows(rows@, page as int, redirections_per_page as int),
            r.1 == num_pages(rows@.len() as int, redirections_per_page as int),
            ordered_by_id(views(rows@)) ==> ordered_by_id(views(r.0@)),
    {
        let total: u64 = rows.len() as u64;
        let (start, end) = Query::page_window(page, redirections_per_page, total);
        let mut items: Vec<Model> = Vec::new();
        let mut i: usize = start as usize;
        while i < end as usize
            invariant
                start <= i <= end <= rows@.len(),
                items@ == rows@.subrange(start as int, i as int),
            decreases end - i,
        {
            items.push(rows[i].clone());
            assert(rows@.subrange(start as int, i + 1) == rows@.subrange(start as int, i as int).push(
                rows@[i as int],
            ));
            i += 1;
        }
        proof {
            if ordered_by_id(views(rows@)) {
                assert forall|i: int, j: int| 0 <= i < j < views(items@).len() implies views(
                    items@,
                )[i].id < views(items@)[j].id by {
                    assert(views(items@)[i] == views(rows@)[start + i]);
                    assert(views(items@)[j] == views(rows@)[start + j]);
                }
            }
        }
        (items, Query::num_pages(total, redirections_per_page))
    }

    /// Sweeps the table at time `now`: takes out the rows whose expiration
    /// lies before `now` and hands them back, and leaves the others as they
    /// are and in their order.
    pub fn delete_outdated_redirections(rows: &mut Vec<Model>, now: &Timestamp) -> (removed: Vec<
        Model,
    >)
        ensures
            views(final(rows)@) == unexpired(views(old(rows)@), now@),
            views(removed@) == expired(views(old(rows)@), now@),
    {
        let mut kept: Vec<Model> = Vec::new();
        let mut removed: Vec<Model> = Vec::new();
        let mut i: usize = 0;
        proof {
            reveal(Seq::filter);
            assert(views(rows@.take(0)) =~= Seq::<ModelView>::empty());
            assert(views(kept@) =~= Seq::<ModelView>::empty());
            assert(views(removed@) =~= Seq::<ModelView>::empty());
        }
        while i < rows.len()
            invariant
                i <= rows@.len(),
                rows@ == old(rows)@,
                views(kept@) == unexpired(views(rows@.take(i as int)), now@),
                views(removed@) == expired(views(rows@.take(i as int)), now@),
            decreases rows@.len() - i,
        {
            let row = rows[i].clone();
            proof {
                lemma_sweep_push(views(rows@.take(i as int)), row@, now@);
                assert(views(rows@.take(i + 1)) =~= views(rows@.take(i as int)).push(row@));
            }
            if row.is_expired_at(now) {
                let ghost before = removed@;
                removed.push(row);
                assert(views(removed@) =~= views(before).push(row@));
            } else {
                let ghost before = kept@;
                kept.push(row);
                assert(views(kept@) =~= views(before).push(row@));
            }
            i += 1;
        }
        assert(rows@.take(rows@.len() as int) =~= rows@);
        *rows = kept;
        removed
    }

    /// Whether a refresh of the last access reached its row: the store
    /// reports the rows it changed, and one row is the only success.
    pub fn update_access_date(rows_affected: u64) -> (refreshed: bool)
        ensures
            refreshed == (rows_affected == 1),
    {
        rows_affected == 1
    }
}

/// Rounding up never leaves 64 bits: the pages are no more than the rows.
proof fn lemma_num_pages_rounds_up(total: int, per_page: int)
    requires
        0 <= total,
        1 <= per_page,
    ensures
        0 <= num_pages(total, per_page) <= total,
        total % per_page > 0 ==> total / per_page < total,
{
    lemma_num_pages_is_ceiling(total, per_page);
    if total % per_page > 0 {
        assert(total >= 1);
        assert((num_pages(total, per_page) - 1) * per_page >= num_pages(total, per_page) - 1)
            by (nonlinear_arith)
            requires
                per_page >= 1,
                num_pages(total, per_page) - 1 >= 0,
        ;
    } else {
        assert((total / per_page) * per_page >= total / per_page) by (nonlinear_arith)
            requires
                per_page >= 1,
                total / per_page >= 0,
        ;
    }
}

/// The number of pages is the least number of pages that hold all rows:
/// no row is left over, and with one page fewer some row would be.
pub proof fn lemma_num_pages_is_ceiling(total: int, per_page: int)
    requires
        0 <= total,
        1 <= per_page,
    ensures
        0 <= num_pages(total, per_page),
        total <= num_pages(total, per_page) * per_page,
        total > 0 ==> (num_pages(total, per_page) - 1) * per_page < total,
        total == 0 ==> num_pages(total, per_page) == 0,
{
    let q = total / per_page;
    let r = total % per_page;
    assert(total == q * per_page + r && 0 <= r < per_page && q >= 0) by (nonlinear_arith)
        requires
            q == total / per_page,
            r == total % per_page,
            0 <= total,
            1 <= per_page,
    ;
    assert((q + 1) * per_page == q * per_page + per_page) by (nonlinear_arith);
    assert((q - 1) * per_page == q * per_page - per_page) by (nonlinear_arith);
}

/// The first `pages` pages of a listing are its first rows, as many as
/// the pages hold.
proof fn lemma_joined_is_prefix<T>(rows: Seq<T>, pages: nat, per_page: int)
    requires
        1 <= per_page,
    ensures
        pages_joined(rows, pages, per_page) == rows.subrange(
            0,
            if pages * per_page < rows.len() {
                pages * per_page
            } else {
                rows.len() as int
            },
        ),
    decreases pages,
{
    if pages == 0 {
        assert(0 * per_page == 0) by (nonlinear_arith);
        assert(pages_joined(rows, pages, per_page) =~= rows.subrange(0, 0));
    } else {
        let before = (pages - 1) as nat;
        lemma_joined_is_prefix(rows, before, per_page);
        assert(pages * per_page == before * per_page + per_page) by (nonlinear_arith)
            requires
                before == pages - 1,
        ;
        assert(0 <= before * per_page) by (nonlinear_arith)
            requires
                0 <= before,
                1 <= per_page,
        ;
        let start = page_start(pages as int, per_page, rows.len() as int);
        let end = page_end(pages as int, per_page, rows.len() as int);
        assert(pages_joined(rows, pages, per_page) =~= rows.subrange(0, start) + rows.subrange(
            start,
            end,
        ));
        assert(rows.subrange(0, start) + rows.subrange(start, end) =~= rows.subrange(0, end));
    }
}

/// The pages of a listing, one after the other, are the listing: no row
/// is skipped and none comes twice.
pub proof fn lemma_pages_rejoin<T>(rows: Seq<T>, per_page: int)
    requires
        1 <= per_page,
    ensures
        pages_joined(rows, num_pages(rows.len() as int, per_page) as nat, per_page) == rows,
{
    let pages = num_pages(rows.len() as int, per_page);
    lemma_num_pages_is_ceiling(rows.len() as int, per_page);
    lemma_joined_is_prefix(rows, pages as nat, per_page);
    assert(rows.subrange(0, rows.len() as int) =~= rows);
}

/// A page holds no more rows than asked for; each page before the last
/// is full, and a page beyond the last is empty.
pub proof fn lemma_page_sizes<T>(rows: Seq<T>, page: int, per_page: int)
    requires
        1 <= page,
        1 <= per_page,
    ensures
        page_rows(rows, page, per_page).len() <= per_page,
        page < num_pages(rows.len() as int, per_page) ==> page_rows(rows, page, per_page).len()
            == per_page,
        page == num_pages(rows.len() as int, per_page) ==> page_rows(rows, page, per_page).len()
            >= 1,
        page > num_pages(rows.len() as int, per_page) ==> page_rows(rows, page, per_page)
            == Seq::<T>::empty(),
{
    let total = rows.len() as int;
    let pages = num_pages(total, per_page);
    lemma_num_pages_is_ceiling(total, per_page);
    assert(0 <= (page - 1) * per_page) by (nonlinear_arith)
        requires
            1 <= page,
            1 <= per_page,
    ;
    assert(page * per_page == (page - 1) * per_page + per_page) by (nonlinear_arith);
    if page < pages {
        assert(page * per_page <= (pages - 1) * per_page) by (nonlinear_arith)
            requires
                page <= pages - 1,
                1 <= per_page,
        ;
    } else if page == pages {
    } else {
        assert(pages * per_page <= (page - 1) * per_page) by (nonlinear_arith)
            requires
                pages <= page - 1,
                1 <= per_page,
        ;
        assert(page_rows(rows, page, per_page) =~= Seq::<T>::empty());
    }
}

/// In a listing ordered by identifier each page is ordered by identifier,
/// and every row of a page comes before every row of a later page.
pub proof fn lemma_pages_keep_order(
    rows: Seq<ModelView>,
    earlier: int,
    later: int,
    per_page: int,
)
    requires
        1 <= earlier < later,
        1 <= per_page,
        ordered_by_id(rows),
    ensures
        ordered_by_id(page_rows(rows, earlier, per_page)),
        ordered_by_id(page_rows(rows, later, per_page)),
        forall|i: int, j: int|
            0 <= i < page_rows(rows, earlier, per_page).len() && 0 <= j < page_rows(
                rows,
                later,
                per_page,
            ).len() ==> (#[trigger] page_rows(rows, earlier, per_page)[i]).id < (
            #[trigger] page_rows(rows, later, per_page)[j]).id,
{
    let total = rows.len() as int;
    assert(0 <= (earlier - 1) * per_page) by (nonlinear_arith)
        requires
            1 <= earlier,
            1 <= per_page,
    ;
    assert((earlier - 1) * per_page + per_page <= (later - 1) * per_page) by (nonlinear_arith)
        requires
            earlier <= later - 1,
            1 <= per_page,
    ;
    assert(page_end(earlier, per_page, total) <= page_start(later, per_page, total));
}

/// A sweep removes exactly the rows that have expired and leaves exactly
/// those that have not: each row of the table is in one of the two parts,
/// by its expiration alone, and nothing else is in either.
pub proof fn lemma_sweep_parts(rows: Seq<ModelView>, now: int)
    ensures
        forall|row: ModelView| #[trigger]
            unexpired(rows, now).contains(row) <==> rows.contains(row) && !row.is_expired_at(now),
        forall|row: ModelView| #[trigger]
            expired(rows, now).contains(row) <==> rows.contains(row) && row.is_expired_at(now),
        unexpired(rows, now).len() + expired(rows, now).len() == rows.len(),
    decreases rows.len(),
{
    if rows.len() == 0 {
        reveal(Seq::filter);
    } else {
        let rest = rows.drop_last();
        let last = rows.last();
        lemma_sweep_parts(rest, now);
        lemma_sweep_push(rest, last, now);
        assert(rest.push(last) =~= rows);
        assert forall|row: ModelView| #[trigger]
            unexpired(rows, now).contains(row) <==> rows.contains(row) && !row.is_expired_at(
                now,
            ) by {
            lemma_push_contains(rest, last, row);
            lemma_push_contains(unexpired(rest, now), last, row);
        }
        assert forall|row: ModelView| #[trigger]
            expired(rows, now).contains(row) <==> rows.contains(row) && row.is_expired_at(now) by {
            lemma_push_contains(rest, last, row);
            lemma_push_contains(expired(rest, now), last, row);
        }
    }
}

/// What a sequence with one more element holds.
proof fn lemma_push_contains(rows: Seq<ModelView>, last: ModelView, row: ModelView)
    ensures
        rows.push(last).contains(row) <==> rows.contains(row) || row == last,
{
    let longer = rows.push(last);
    if rows.contains(row) {
        let i = choose|i: int| 0 <= i < rows.len() && rows[i] == row;
        assert(longer[i] == row);
    }
    if row == last {
        assert(longer[rows.len() as int] == row);
    }
    if longer.contains(row) {
        let i = choose|i: int| 0 <= i < longer.len() && longer[i] == row;
        if i < rows.len() {
            assert(rows[i] == row);
        }
    }
}

/// A table in which no row has expired is left by a sweep as it is.
pub proof fn lemma_sweep_spares_unexpired(rows: Seq<ModelView>, now: int)
    requires
        forall|i: int| 0 <= i < rows.len() ==> !(#[trigger] rows[i]).is_expired_at(now),
    ensures
        unexpired(rows, now) == rows,
        expired(rows, now) == Seq::<ModelView>::empty(),
    decreases rows.len(),
{
    if rows.len() == 0 {
        reveal(Seq::filter);
        assert(unexpired(rows, now) =~= rows);
        assert(expired(rows, now) =~= Seq::<ModelView>::empty());
    } else {
        let rest = rows.drop_last();
        let last = rows.last();
        assert forall|i: int| 0 <= i < rest.len() implies !(#[trigger] rest[i]).is_expired_at(
            now,
        ) by {
            assert(rest[i] == rows[i]);
        }
        lemma_sweep_spares_unexpired(rest, now);
        lemma_sweep_push(rest, last, now);
        assert(rest.push(last) =~= rows);
    }
}

/// A sweep is idempotent: a second sweep at the same time finds nothing
/// to remove and leaves what the first one left.
pub proof fn lemma_sweep_is_idempotent(rows: Seq<ModelView>, now: int)
    ensures
        unexpired(unexpired(rows, now), now) == unexpired(rows, now),
        expired(unexpired(rows, now), now) == Seq::<ModelView>::empty(),
{
    let left = unexpired(rows, now);
    lemma_sweep_parts(rows, now);
    assert forall|i: int| 0 <= i < left.len() implies !(#[trigger] left[i]).is_expired_at(now) by {
        assert(left.contains(left[i]));
    }
    lemma_sweep_spares_unexpired(left, now);
}

} // verus!
