use vstd::prelude::*;
use crate::schema::FilterOptions;

verus! {

/// Page size used when a listing names none.
pub const DEFAULT_LIMIT: usize = 10;

/// Largest value a statement parameter can carry (a signed 64-bit integer).
pub const MAX_PARAM: u64 = 0x7fff_ffff_ffff_ffff;

/// The rows a listing asks for: at most `limit` rows after skipping `offset`.
#[derive(Debug)]
pub struct PageWindow {
    pub limit: u64,
    pub offset: u64,
}

/// The requested page size, defaulting to ten.
pub open spec fn requested_limit(opts: FilterOptions) -> nat {
    match opts.limit {
        Some(l) => l as nat,
        None => DEFAULT_LIMIT as nat,
    }
}

/// The requested 1-based page: absent means the first, and zero is clamped to one.
pub open spec fn requested_page(opts: FilterOptions) -> nat {
    match opts.page {
        Some(p) => if p == 0 { 1 } else { p as nat },
        None => 1,
    }
}

/// How many rows precede the requested page.
pub open spec fn requested_offset(opts: FilterOptions) -> nat {
    ((requested_page(opts) - 1) * requested_limit(opts)) as nat
}

/// A count capped at what a statement parameter can carry; a table never
/// holds that many rows, so the cap does not change which rows are selected.
pub open spec fn capped(n: nat) -> nat {
    if n > MAX_PARAM { MAX_PARAM as nat } else { n }
}

/// Computes the window of a listing: `offset = (page - 1) * limit`, with
/// `page` defaulting to 1 (and 0 taken as 1) and `limit` defaulting to 10.
pub fn page_window(opts: &FilterOptions) -> (w: PageWindow)
    ensures
        w.limit == capped(requested_limit(*opts)),
        w.offset == capped(requested_offset(*opts)),
        w.limit <= MAX_PARAM,
        w.offset <= MAX_PARAM,
{
    let limit: usize = match opts.limit {
        Some(l) => l,
        None => DEFAULT_LIMIT,
    };
    let page: usize = match opts.page {
        Some(p) => if p == 0 { 1 } else { p },
        None => 1,
    };
    let skipped: u64 = (page - 1) as u64;
    let wide_limit: u64 = limit as u64;
    let capped_limit: u64 = if wide_limit > MAX_PARAM { MAX_PARAM } else { wide_limit };
    let capped_offset: u64 = match skipped.checked_mul(wide_limit) {
        Some(offset) => if offset > MAX_PARAM { MAX_PARAM } else { offset },
        None => MAX_PARAM,
    };
    PageWindow { limit: capped_limit, offset: capped_offset }
}

} // verus!
