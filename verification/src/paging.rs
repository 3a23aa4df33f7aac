//! Pages of a listing.

use vstd::prelude::*;

verus! {

/// The rows of a listing that make up one page.
#[derive(Debug, Clone, Copy, PartialEq, Eq, Structural)]
pub struct Window {
    /// How many rows to skip.
    pub offset: u64,
    /// How many rows to take.
    pub limit: u64,
}

/// The page size of a listing that names none.
pub const DEFAULT_PAGE_SIZE: u64 = 20;

/// The page size of the artist listing when it names none.
pub const ARTIST_PAGE_SIZE: u64 = 10;

/// The window of page `page`, counted from 1, with `size` rows a page, if
/// there is such a page and its offset fits 64 bits.
pub open spec fn window_of(page: u64, size: u64) -> Option<Window> {
    if page >= 1 && (page - 1) * size <= u64::MAX {
        Some(Window { offset: ((page - 1) * size) as u64, limit: size })
    } else {
        None
    }
}

/// The window of a listing that always pages: the first page and
/// [`DEFAULT_PAGE_SIZE`] rows where the query names none.
pub open spec fn listing_window(page: Option<u64>, size: Option<u64>) -> Option<Window> {
    window_of(
        match page {
            Some(p) => p,
            None => 1,
        },
        match size {
            Some(s) => s,
            None => DEFAULT_PAGE_SIZE,
        },
    )
}

/// Computes the window of a page.
pub fn page_window(page: u64, size: u64) -> (w: Option<Window>)
    ensures
        w == window_of(page, size),
{
    if page < 1 {
        return None;
    }
    match (page - 1).checked_mul(size) {
        Some(offset) => Some(Window { offset, limit: size }),
        None => None,
    }
}

/// Computes the window of a listing of albums, songs or users.
pub fn listing_page(page: Option<u64>, size: Option<u64>) -> (w: Option<Window>)
    ensures
        w == listing_window(page, size),
{
    let page: u64 = match page {
        Some(p) => p,
        None => 1,
    };
    let size: u64 = match size {
        Some(s) => s,
        None => DEFAULT_PAGE_SIZE,
    };
    page_window(page, size)
}

/// Computes the window of the artist listing, which pages only when the
/// query names a page: the outer `None` stands for the whole listing, the
/// inner one for a page that does not exist.
pub fn artist_page(page: Option<u64>, size: Option<u64>) -> (w: Option<Option<Window>>)
    ensures
        page is None ==> w is None,
        page matches Some(p) ==> w == Some(
            window_of(
                p,
                match size {
                    Some(s) => s,
                    None => ARTIST_PAGE_SIZE,
                },
            ),
        ),
{
    match page {
        None => None,
        Some(p) => {
            let size: u64 = match size {
                Some(s) => s,
                None => ARTIST_PAGE_SIZE,
            };
            Some(page_window(p, size))
        },
    }
}

/// Pages do not overlap and leave no gap: each page starts where the one
/// before it ends.
pub proof fn lemma_pages_are_adjacent(page: u64, size: u64)
    requires
        page >= 1,
        window_of((page + 1) as u64, size) is Some,
        page < u64::MAX,
    ensures
        window_of(page, size) matches Some(w) && window_of((page + 1) as u64, size)->0.offset
            == w.offset + w.limit,
        window_of(1, size) == Some(Window { offset: 0, limit: size }),
{
    assert((page - 1) * size + size == page * size) by (nonlinear_arith);
    assert((page - 1) * size <= page * size) by (nonlinear_arith)
        requires
            page >= 1,
            size >= 0,
    ;
}

} // verus!
