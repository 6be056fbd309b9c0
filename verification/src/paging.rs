//! Pagination arithmetic: where each page of a line sequence begins and how
//! many lines it holds.

use vstd::prelude::*;

verus! {

/// Index of the last page that navigation can reach: `total_lines / page_size`.
///
/// When `total_lines` is an exact multiple of `page_size` this page lies just
/// past the final line and shows nothing.
pub open spec fn last_page(total_lines: nat, page_size: nat) -> nat
    recommends
        page_size > 0,
{
    total_lines / page_size
}

/// Position of the first line of `page`, clamped to the end of the content.
pub open spec fn page_start(total_lines: nat, page_size: nat, page: nat) -> nat {
    if page * page_size <= total_lines {
        page * page_size
    } else {
        total_lines
    }
}

/// Number of lines shown on `page`: a full page where enough lines remain,
/// the remainder on the final page, and nothing past the end.
pub open spec fn page_len(total_lines: nat, page_size: nat, page: nat) -> nat {
    if page * page_size > total_lines {
        0
    } else if total_lines - page * page_size < page_size {
        (total_lines - page * page_size) as nat
    } else {
        page_size
    }
}

/// The lines shown on `page` when `lines` is cut into pages of `page_size`.
pub open spec fn page_of<A>(lines: Seq<A>, page_size: nat, page: nat) -> Seq<A> {
    lines.subrange(
        page_start(lines.len(), page_size, page) as int,
        (page_start(lines.len(), page_size, page) + page_len(lines.len(), page_size, page)) as int,
    )
}

/// Computes where `page` begins and how many lines it holds.
pub fn page_bounds(total_lines: usize, page_size: usize, page: usize) -> (bounds: (usize, usize))
    ensures
        bounds.0 == page_start(total_lines as nat, page_size as nat, page as nat),
        bounds.1 == page_len(total_lines as nat, page_size as nat, page as nat),
        bounds.0 + bounds.1 <= total_lines,
        bounds.1 <= page_size,
{
    match page.checked_mul(page_size) {
        Some(start) => {
            if start > total_lines {
                (total_lines, 0)
            } else if total_lines - start < page_size {
                (start, total_lines - start)
            } else {
                (start, page_size)
            }
        },
        None => (total_lines, 0),
    }
}

/// Pages `0` up to, but not including, `count`, one after the other.
pub open spec fn pages_before<A>(lines: Seq<A>, page_size: nat, count: nat) -> Seq<A>
    decreases count,
{
    if count == 0 {
        Seq::empty()
    } else {
        pages_before(lines, page_size, (count - 1) as nat) + page_of(
            lines,
            page_size,
            (count - 1) as nat,
        )
    }
}

/// Each page ends where the next one begins.
pub proof fn lemma_pages_are_adjacent(total_lines: nat, page_size: nat, page: nat)
    ensures
        page_start(total_lines, page_size, page) + page_len(total_lines, page_size, page)
            == page_start(total_lines, page_size, page + 1),
{
    assert((page + 1) * page_size == page * page_size + page_size) by (nonlinear_arith);
}

/// A page never holds more than `page_size` lines, and holds exactly
/// `min(page_size, total_lines - page * page_size)` of them when that is not
/// negative.
pub proof fn lemma_page_len_is_clamped_remainder(total_lines: nat, page_size: nat, page: nat)
    ensures
        page_len(total_lines, page_size, page) <= page_size,
        total_lines - page * page_size >= 0 ==> page_len(total_lines, page_size, page)
            == vstd::math::min(page_size as int, total_lines - page * page_size),
        total_lines - page * page_size < 0 ==> page_len(total_lines, page_size, page) == 0,
{
}

/// The first `count` pages, read in order, are the lines before page `count`:
/// nothing is skipped and nothing is shown twice.
pub proof fn lemma_pages_cover_prefix<A>(lines: Seq<A>, page_size: nat, count: nat)
    ensures
        pages_before(lines, page_size, count) == lines.subrange(
            0,
            page_start(lines.len(), page_size, count) as int,
        ),
    decreases count,
{
    if count > 0 {
        let before = (count - 1) as nat;
        lemma_pages_cover_prefix(lines, page_size, before);
        lemma_pages_are_adjacent(lines.len(), page_size, before);
        assert(pages_before(lines, page_size, count) =~= lines.subrange(
            0,
            page_start(lines.len(), page_size, count) as int,
        ));
    }
}

/// Every page past the last reachable one begins at the end of the content.
pub proof fn lemma_start_past_last_page(total_lines: nat, page_size: nat, page: nat)
    requires
        page_size > 0,
        page > last_page(total_lines, page_size),
    ensures
        page * page_size > total_lines,
        page_start(total_lines, page_size, page) == total_lines,
        page_len(total_lines, page_size, page) == 0,
{
    let last = total_lines / page_size;
    assert(total_lines == last * page_size + total_lines % page_size) by (nonlinear_arith)
        requires
            page_size > 0,
            last == total_lines / page_size,
    ;
    assert(total_lines % page_size < page_size) by (nonlinear_arith)
        requires
            page_size > 0,
    ;
    assert(page * page_size >= (last + 1) * page_size) by (nonlinear_arith)
        requires
            page >= last + 1,
    ;
    assert((last + 1) * page_size == last * page_size + page_size) by (nonlinear_arith);
}

/// Every reachable page begins within the content, at line
/// `page * page_size`.
pub proof fn lemma_start_of_reachable_page(total_lines: nat, page_size: nat, page: nat)
    requires
        page_size > 0,
        page <= last_page(total_lines, page_size),
    ensures
        page * page_size <= total_lines,
        page_start(total_lines, page_size, page) == page * page_size,
        page < last_page(total_lines, page_size) ==> page_len(total_lines, page_size, page)
            == page_size,
        page * page_size < total_lines ==> page_len(total_lines, page_size, page) > 0,
{
    let last = total_lines / page_size;
    assert(total_lines == last * page_size + total_lines % page_size) by (nonlinear_arith)
        requires
            page_size > 0,
            last == total_lines / page_size,
    ;
    assert(total_lines % page_size >= 0) by (nonlinear_arith)
        requires
            page_size > 0,
    ;
    assert(page * page_size <= last * page_size) by (nonlinear_arith)
        requires
            page <= last,
    ;
    if page < last {
        assert((page + 1) * page_size <= last * page_size) by (nonlinear_arith)
            requires
                page + 1 <= last,
        ;
        assert((page + 1) * page_size == page * page_size + page_size) by (nonlinear_arith);
    }
}

/// Reading every page in order, from page zero through the last reachable
/// page or beyond, gives back the lines exactly: none is missing, none is
/// repeated, and their order is kept.
pub proof fn lemma_pages_reproduce_lines<A>(lines: Seq<A>, page_size: nat, count: nat)
    requires
        page_size > 0,
        count > last_page(lines.len(), page_size),
    ensures
        pages_before(lines, page_size, count) == lines,
{
    lemma_pages_cover_prefix(lines, page_size, count);
    lemma_start_past_last_page(lines.len(), page_size, count);
}

} // verus!
