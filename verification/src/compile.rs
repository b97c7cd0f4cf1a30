//! Decision logic of the image compilation entry points.
//!
//! Rendering itself happens outside; this module fixes which slice of
//! the compiled pages a requested page range denotes.

use vstd::prelude::*;

verus! {

/// A requested page index clamped into a document of `len` pages: a
/// negative request means the first page, one past the end means the
/// end.
pub open spec fn clamp_page_model(x: i32, len: int) -> int {
    if x < 0 {
        0
    } else if x as int <= len {
        x as int
    } else {
        len
    }
}

/// Clamps one requested page index.
fn clamp_page(x: i32, page_count: usize) -> (r: usize)
    ensures
        r as int == clamp_page_model(x, page_count as int),
{
    if x < 0 {
        0
    } else {
        let xu = x as usize;
        if xu <= page_count {
            xu
        } else {
            page_count
        }
    }
}

/// The slice of a document's pages that a requested range denotes,
/// with both ends clamped into the document. The caller extracts
/// `start..end` when the range is nonempty.
pub fn page_slice_bounds(from: i32, to: i32, page_count: usize) -> (r: (usize, usize))
    ensures
        r.0 as int == clamp_page_model(from, page_count as int),
        r.1 as int == clamp_page_model(to, page_count as int),
        r.0 <= page_count,
        r.1 <= page_count,
        from >= 0 && to >= from && (to as int) <= page_count as int ==> r.0 == from && r.1 == to,
{
    (clamp_page(from, page_count), clamp_page(to, page_count))
}

} // verus!
