//! The list: selection and scrolling over a source.

use crate::layout::{
    item_bottom, item_top, lemma_item_top_bounds, lemma_scroll_shows, lemma_scroll_twice,
    scroll_to_show, shows,
};
use crate::list_source::ListSource;
use crate::viewport::{Rect, Viewport};
use vstd::prelude::*;

verus! {

/// What a list can report as wrong.
#[derive(Clone, Copy, Debug, PartialEq, Eq, Structural)]
pub enum ListError {
    /// Something is more than a list can take: a viewport that reaches
    /// beyond the coordinates of the display, or more items than a list can
    /// count.
    OutOfBounds,
}

/// The model of a [`List`]: its viewport, the heights of the items of its
/// source, the index of the current item and the scroll offset.
pub struct ListModel {
    /// The rectangle of the display in which the list is shown.
    pub viewport: Rect,
    /// The heights of the items, first to last.
    pub heights: Seq<i32>,
    /// The index of the current item.
    pub current: int,
    /// The row of the list, counted from the top of the first item, that is
    /// shown in the top row of the viewport.
    pub scroll_offset: int,
}

impl ListModel {
    /// The index that becomes current when `index` is asked for: `index`
    /// itself where the source has such an item, else that of the first
    /// item.
    pub open spec fn selected(self, index: int) -> int {
        if index < self.heights.len() {
            index
        } else {
            0
        }
    }

    /// Whether the current item is not of negative height and no taller than
    /// the viewport.
    pub open spec fn current_fits(self) -> bool {
        0 <= self.heights[self.current] <= self.viewport.height
    }

    /// Whether the current item is taller than the viewport.
    pub open spec fn current_is_oversized(self) -> bool {
        self.heights[self.current] > self.viewport.height
    }

    /// Whether the current item begins in the top row of the viewport.
    pub open spec fn aligns_current(self) -> bool {
        self.scroll_offset == item_top(self.heights, self.current)
    }

    /// Whether the current item lies inside the viewport, top to bottom.
    pub open spec fn shows_current(self) -> bool {
        shows(
            self.scroll_offset,
            item_top(self.heights, self.current),
            item_bottom(self.heights, self.current),
            self.viewport.height,
        )
    }

    /// The list after `index` was asked for as the current item: the
    /// selection moves as `selected` says, and the list scrolls to show the
    /// item selected. Over a source without items nothing scrolls.
    pub open spec fn select(self, index: int) -> ListModel {
        let current = self.selected(index);
        ListModel {
            current,
            scroll_offset: if self.heights.len() == 0 {
                self.scroll_offset
            } else {
                scroll_to_show(
                    self.scroll_offset,
                    item_top(self.heights, current),
                    item_bottom(self.heights, current),
                    self.viewport.height,
                )
            },
            ..self
        }
    }
}

impl ListModel {
    /// Asking once more for the item that was just selected changes
    /// nothing, neither the selection nor the scroll offset.
    ///
    /// In particular, asking for the current item twice in a row leaves the
    /// list where asking for it once has left it.
    pub proof fn lemma_reselect_changes_nothing(self, index: int)
        requires
            0 <= index,
        ensures
            self.select(index).select(self.select(index).current) == self.select(index),
    {
        let once = self.select(index);
        if self.heights.len() > 0 {
            lemma_scroll_twice(
                self.scroll_offset,
                item_top(self.heights, once.current),
                item_bottom(self.heights, once.current),
                self.viewport.height,
            );
        }
    }

}

/// The furthest that a list can be scrolled, either way: beyond what 255
/// items of the greatest height and the tallest viewport add up to.
pub const SCROLL_LIMIT: i64 = 0x100_0000_0000;

/// A list of items stacked downwards, of which one is current, shown through
/// a viewport that scrolls to keep the current item in sight.
pub struct List<'a, S: ListSource> {
    viewport: Viewport,
    current: u8,
    scroll_offset: i64,
    source: &'a S,
}

impl<'a, S: ListSource> View for List<'a, S> {
    type V = ListModel;

    closed spec fn view(&self) -> ListModel {
        ListModel {
            viewport: self.viewport@,
            heights: self.source.heights(),
            current: self.current as int,
            scroll_offset: self.scroll_offset as int,
        }
    }
}

impl<'a, S: ListSource> List<'a, S> {
    #[verifier::type_invariant]
    spec fn well_formed(self) -> bool {
        &&& -SCROLL_LIMIT <= self.scroll_offset <= SCROLL_LIMIT
        &&& self@.current == self@.selected(self@.current)
        &&& self@.heights.len() > 0 && self@.current_fits() ==> self@.shows_current()
        &&& self@.heights.len() > 0 && self@.current_is_oversized() ==> self@.aligns_current()
    }

    /// The source that the list is over.
    pub closed spec fn spec_source(&self) -> &'a S {
        self.source
    }

    /// A list over `source`, shown in `viewport`: the first item is current
    /// and the list is not scrolled.
    pub fn new(viewport: Viewport, source: &'a S) -> (list: Self)
        ensures
            list.spec_source() == source,
            list@ == (ListModel {
                viewport: viewport@,
                heights: source.heights(),
                current: 0,
                scroll_offset: 0,
            }),
    {
        List { viewport, current: 0, scroll_offset: 0, source }
    }

    /// Makes the item at `index` the current one, or the first item where
    /// the source has no item at `index`, and scrolls the list so far that
    /// it shows that item.
    ///
    /// The list scrolls no further than it must: it stays where it is if
    /// the item already lies inside the viewport. An item taller than the
    /// viewport cannot lie inside it: its top is put on the viewport's top,
    /// and its bottom is left to reach below the viewport.
    pub fn set_current(&mut self, index: u8)
        ensures
            final(self).spec_source() == old(self).spec_source(),
            final(self)@ == old(self)@.select(index as int),
            index >= old(self)@.heights.len() ==> final(self)@.current == 0,
            index < old(self)@.heights.len() && 0 <= old(self)@.heights[index as int]
                <= old(self)@.viewport.height ==> final(self)@.shows_current(),
            index < old(self)@.heights.len() && old(self)@.heights[index as int] > old(
                self,
            )@.viewport.height ==> final(self)@.aligns_current(),
    {
        let current: u8 = if index >= self.source.total_count() {
            0
        } else {
            index
        };
        self.update_scroll_offset(current);
    }

    /// Makes `current` the current item and scrolls the list to show it.
    ///
    /// Walks the source from its first item down to the current one, adding
    /// up the heights on the way, to find the rows at which the current item
    /// begins and ends.
    fn update_scroll_offset(&mut self, current: u8)
        requires
            current == old(self)@.selected(current as int),
        ensures
            final(self).spec_source() == old(self).spec_source(),
            final(self)@ == old(self)@.select(current as int),
            final(self)@.heights.len() > 0 && final(self)@.current_fits()
                ==> final(self)@.shows_current(),
            final(self)@.heights.len() > 0 && final(self)@.current_is_oversized()
                ==> final(self)@.aligns_current(),
    {
        proof {
            use_type_invariant(&*self);
        }
        let count = self.source.total_count();
        let ghost heights = self.source.heights();
        let mut total_height: i64 = 0;
        let mut current_item_top: i64 = 0;
        let mut current_item_bottom: i64 = 0;
        let mut found = false;
        let mut i: u8 = 0;
        while i < count
            invariant_except_break
                i <= count,
                total_height == item_top(heights, i as int),
                !found,
                i <= current,
            invariant
                count == heights.len(),
                heights == self.source.heights(),
                count > 0 ==> current < count,
            ensures
                found == (count > 0),
                found ==> current_item_top == item_top(heights, current as int)
                    && current_item_bottom == item_bottom(heights, current as int),
            decreases count - i,
        {
            let item_height = self.source.height_for_index(i);
            proof {
                lemma_item_top_bounds(heights, i as int);
            }
            if i == current {
                current_item_top = total_height;
                current_item_bottom = total_height + item_height as i64;
                found = true;
                break;
            }
            total_height += item_height as i64;
            i += 1;
        }
        if !found {
            return;
        }
        let viewport_height = self.viewport.height() as i64;
        let viewport_top = self.scroll_offset;
        let viewport_bottom = self.scroll_offset + viewport_height;

        let scroll_offset = if current_item_top < viewport_top || current_item_bottom
            - current_item_top > viewport_height {
            current_item_top
        } else if current_item_bottom > viewport_bottom {
            current_item_bottom - viewport_height
        } else {
            self.scroll_offset
        };
        proof {
            lemma_item_top_bounds(heights, current as int);
            if 0 <= heights[current as int] <= viewport_height {
                lemma_scroll_shows(
                    self.scroll_offset as int,
                    current_item_top as int,
                    current_item_bottom as int,
                    viewport_height as int,
                );
            }
        }
        *self = List { viewport: self.viewport, current, scroll_offset, source: self.source };
    }

    /// The index of the current item.
    ///
    /// It is the index of an item of the source, unless the source has none.
    pub fn current(&self) -> (index: u8)
        ensures
            index == self@.current,
            self@.heights.len() > 0 ==> index < self@.heights.len(),
    {
        proof {
            use_type_invariant(self);
        }
        self.current
    }

    /// The scroll offset: the row of the list that is shown in the top row
    /// of the viewport.
    ///
    /// The current item lies inside the viewport, unless it is taller than
    /// the viewport or of negative height. One that is taller begins in the
    /// top row of the viewport.
    pub fn scroll_offset(&self) -> (offset: i64)
        ensures
            offset == self@.scroll_offset,
            -SCROLL_LIMIT <= offset <= SCROLL_LIMIT,
            self@.heights.len() > 0 && self@.current_fits() ==> self@.shows_current(),
            self@.heights.len() > 0 && self@.current_is_oversized() ==> self@.aligns_current(),
    {
        proof {
            use_type_invariant(self);
        }
        self.scroll_offset
    }

    /// The viewport.
    pub fn viewport(&self) -> (viewport: Viewport)
        ensures
            viewport@ == self@.viewport,
    {
        self.viewport
    }

    /// The source that the list is over.
    pub fn source(&self) -> (source: &'a S)
        ensures
            source == self.spec_source(),
            source.heights() == self@.heights,
    {
        self.source
    }

}

} // verus!
