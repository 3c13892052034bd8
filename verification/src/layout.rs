//! Where the items of a list lie, and how far a list must scroll.
//!
//! Items are stacked downwards without gaps. Positions here are measured
//! from the top of the first item, in rows.

use vstd::prelude::*;

verus! {

/// The row at which the item at `index` begins: the heights of all items
/// before it, added up.
pub open spec fn item_top(heights: Seq<i32>, index: int) -> int
    decreases index,
{
    if index <= 0 {
        0
    } else {
        item_top(heights, index - 1) + heights[index - 1]
    }
}

/// The row just past the item at `index`.
pub open spec fn item_bottom(heights: Seq<i32>, index: int) -> int {
    item_top(heights, index) + heights[index]
}

/// The scroll offset that shows an item lying from row `top` up to row
/// `bottom`, in a viewport of `viewport_height` rows that now begins at row
/// `offset`.
///
/// An item that begins above the viewport, or is taller than the viewport,
/// has its top put on the viewport's top; otherwise one that ends below the
/// viewport has its bottom put on the viewport's bottom; otherwise nothing
/// moves.
pub open spec fn scroll_to_show(offset: int, top: int, bottom: int, viewport_height: int) -> int {
    if top < offset || bottom - top > viewport_height {
        top
    } else if bottom > offset + viewport_height {
        bottom - viewport_height
    } else {
        offset
    }
}

/// Whether an item lying from row `top` up to row `bottom` lies inside a
/// viewport of `viewport_height` rows that begins at row `offset`.
pub open spec fn shows(offset: int, top: int, bottom: int, viewport_height: int) -> bool {
    offset <= top && bottom <= offset + viewport_height
}

/// Whether rows `top` up to `bottom` and rows `first` up to `end` have a row
/// in common, as a list tests it: the one must end after the other begins,
/// both ways.
pub open spec fn overlaps(top: int, bottom: int, first: int, end: int) -> bool {
    bottom > first && top < end
}

/// No item begins further from the first item's top than its index times
/// the greatest height.
pub proof fn lemma_item_top_bounds(heights: Seq<i32>, index: int)
    requires
        0 <= index <= heights.len(),
    ensures
        index * i32::MIN <= item_top(heights, index) <= index * i32::MAX,
    decreases index,
{
    if index > 0 {
        lemma_item_top_bounds(heights, index - 1);
    }
}

/// After scrolling to an item that is no taller than the viewport, and not
/// of negative height, the item lies inside the viewport.
pub proof fn lemma_scroll_shows(offset: int, top: int, bottom: int, viewport_height: int)
    requires
        0 <= bottom - top <= viewport_height,
    ensures
        shows(scroll_to_show(offset, top, bottom, viewport_height), top, bottom, viewport_height),
{
}

/// After scrolling to an item that is taller than the viewport, the item's
/// top lies on the viewport's top.
pub proof fn lemma_scroll_aligns_oversized(offset: int, top: int, bottom: int, viewport_height: int)
    requires
        bottom - top > viewport_height,
    ensures
        scroll_to_show(offset, top, bottom, viewport_height) == top,
{
}

/// Scrolling to an item a second time moves nothing.
pub proof fn lemma_scroll_twice(offset: int, top: int, bottom: int, viewport_height: int)
    ensures
        scroll_to_show(
            scroll_to_show(offset, top, bottom, viewport_height),
            top,
            bottom,
            viewport_height,
        ) == scroll_to_show(offset, top, bottom, viewport_height),
{
}

} // verus!
