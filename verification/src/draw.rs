//! Drawing a list: which items are drawn, and where.

use crate::layout::{item_top, lemma_item_top_bounds, overlaps};
use crate::list::{List, ListModel, SCROLL_LIMIT};
use crate::list_source::ListSource;
use vstd::prelude::*;

verus! {

/// One item to draw: which item, whether it is the current one, and where
/// on the display its top left corner goes.
#[derive(Clone, Copy, Debug, PartialEq, Eq, Structural)]
pub struct DrawCall {
    /// The index of the item in the source.
    pub index: u8,
    /// Whether the item is the current one.
    pub is_active: bool,
    /// The column of the item's left edge.
    pub x: i32,
    /// The row of the item's top edge.
    pub y: i32,
}

/// A row as a coordinate of the display: the row itself where it is one,
/// else the coordinate nearest to it.
pub open spec fn to_coordinate(row: int) -> i32 {
    if row < i32::MIN {
        i32::MIN
    } else if row > i32::MAX {
        i32::MAX
    } else {
        row as i32
    }
}

impl ListModel {
    /// The row of the display at which the item at `index` begins.
    pub open spec fn row_of(self, index: int) -> int {
        self.viewport.y - self.scroll_offset + item_top(self.heights, index)
    }

    /// Whether the item at `index` is drawn: whether its rows overlap those
    /// of the viewport, from the top row up to, and without, the row at
    /// which the viewport ends. An item of which only a part lies in the
    /// viewport is drawn. The viewport's width plays no part.
    pub open spec fn is_visible(self, index: int) -> bool {
        overlaps(
            self.row_of(index),
            self.row_of(index) + self.heights[index],
            self.viewport.y,
            self.viewport.bottom(),
        )
    }

    /// How the item at `index` is drawn.
    pub open spec fn call_for(self, index: int) -> DrawCall {
        DrawCall {
            index: index as u8,
            is_active: index == self.current,
            x: self.viewport.x as i32,
            y: to_coordinate(self.row_of(index)),
        }
    }

    /// The items drawn from the item at `index` on, in the order of the
    /// source: those that are visible, and no others.
    pub open spec fn calls_from(self, index: int) -> Seq<DrawCall>
        decreases self.heights.len() - index,
    {
        if index < 0 || index >= self.heights.len() {
            Seq::empty()
        } else if self.is_visible(index) {
            seq![self.call_for(index)] + self.calls_from(index + 1)
        } else {
            self.calls_from(index + 1)
        }
    }

    /// The items drawn in one pass over the list.
    pub open spec fn draw_calls(self) -> Seq<DrawCall> {
        self.calls_from(0)
    }
}

impl ListModel {
    /// What the items drawn from the item at `from` on are: each of them is
    /// a visible item at `from` or after it, drawn as `call_for` says; they
    /// come in the order of the source, so none comes twice; and every
    /// visible item at `from` or after it is among them.
    pub proof fn lemma_calls_from(self, from: int)
        requires
            0 <= from,
            self.heights.len() <= u8::MAX,
        ensures
            forall|k: int|
                0 <= k < self.calls_from(from).len() ==> {
                    let call = #[trigger] self.calls_from(from)[k];
                    &&& from <= call.index < self.heights.len()
                    &&& self.is_visible(call.index as int)
                    &&& call == self.call_for(call.index as int)
                },
            forall|j: int, k: int|
                0 <= j < k < self.calls_from(from).len() ==> (#[trigger] self.calls_from(
                    from,
                )[j]).index < (#[trigger] self.calls_from(from)[k]).index,
            forall|index: int|
                from <= index < self.heights.len() && #[trigger] self.is_visible(index)
                    ==> exists|k: int|
                    0 <= k < self.calls_from(from).len() && (#[trigger] self.calls_from(
                        from,
                    )[k]).index == index,
        decreases self.heights.len() - from,
    {
        if from < self.heights.len() {
            self.lemma_calls_from(from + 1);
            let rest = self.calls_from(from + 1);
            let calls = self.calls_from(from);
            if self.is_visible(from) {
                assert(calls[0] == self.call_for(from));
                assert forall|k: int| 0 < k < calls.len() implies #[trigger] calls[k] == rest[k
                    - 1] by {}
                assert forall|index: int|
                    from <= index < self.heights.len() && #[trigger] self.is_visible(
                        index,
                    ) implies exists|k: int|
                    0 <= k < calls.len() && (#[trigger] calls[k]).index == index by {
                    if index == from {
                        assert(calls[0].index == index);
                    } else {
                        let k = choose|k: int|
                            0 <= k < rest.len() && (#[trigger] rest[k]).index == index;
                        assert(calls[k + 1].index == index);
                    }
                }
            }
        }
    }

    /// In one pass over a list, every item that is visible is drawn exactly
    /// once, and no other item is drawn: the calls are those of the visible
    /// items, each as `call_for` says, in the order of the source.
    pub proof fn lemma_draws_visible_items_once(self)
        requires
            self.heights.len() <= u8::MAX,
        ensures
            forall|k: int|
                0 <= k < self.draw_calls().len() ==> {
                    let call = #[trigger] self.draw_calls()[k];
                    &&& call.index < self.heights.len()
                    &&& self.is_visible(call.index as int)
                    &&& call == self.call_for(call.index as int)
                },
            forall|j: int, k: int|
                0 <= j < k < self.draw_calls().len() ==> (#[trigger] self.draw_calls()[j]).index
                    < (#[trigger] self.draw_calls()[k]).index,
            forall|index: int|
                0 <= index < self.heights.len() && #[trigger] self.is_visible(index)
                    ==> exists|k: int|
                    0 <= k < self.draw_calls().len() && (#[trigger] self.draw_calls()[k]).index
                        == index,
    {
        self.lemma_calls_from(0);
        let calls = self.draw_calls();
        assert forall|index: int|
            0 <= index < self.heights.len() && #[trigger] self.is_visible(index) implies exists|
            k: int,
        |
            0 <= k < calls.len() && (#[trigger] calls[k]).index == index by {
            let k = choose|k: int|
                0 <= k < self.calls_from(0).len() && (#[trigger] self.calls_from(0)[k]).index
                    == index;
            assert(calls[k].index == index);
        }
    }

    /// The current item is drawn, and drawn inside the rows of the viewport,
    /// if it lies inside the viewport and has a row at all.
    pub proof fn lemma_shown_item_is_drawn(self)
        requires
            0 <= self.current < self.heights.len(),
            self.heights[self.current] > 0,
            self.shows_current(),
        ensures
            self.is_visible(self.current),
            self.viewport.y <= self.row_of(self.current),
            self.row_of(self.current) + self.heights[self.current] <= self.viewport.bottom(),
    {
    }

    /// If the current item is visible, one call of the pass is active, and
    /// it is the call for the current item; no other call is active.
    pub proof fn lemma_current_item_is_the_active_call(self)
        requires
            self.heights.len() <= u8::MAX,
            0 <= self.current < self.heights.len(),
            self.is_visible(self.current),
        ensures
            exists|k: int|
                0 <= k < self.draw_calls().len() && (#[trigger] self.draw_calls()[k])
                    == self.call_for(self.current) && self.draw_calls()[k].is_active,
            forall|k: int|
                0 <= k < self.draw_calls().len() && (#[trigger] self.draw_calls()[k]).is_active
                    ==> self.draw_calls()[k].index == self.current,
    {
        self.lemma_draws_visible_items_once();
        let calls = self.draw_calls();
        let k = choose|k: int| 0 <= k < calls.len() && (#[trigger] calls[k]).index == self.current;
        assert(calls[k] == self.call_for(self.current));
    }

    /// Over a source without items nothing is drawn.
    pub proof fn lemma_empty_source_draws_nothing(self)
        requires
            self.heights.len() == 0,
        ensures
            self.draw_calls().len() == 0,
    {
    }

    /// A visible item is drawn at the very row at which it begins, if the
    /// viewport's top row is not negative and its last row is a coordinate
    /// of the display: no row of such a viewport's items is out of the
    /// display's coordinates.
    pub proof fn lemma_visible_row_is_exact(self, index: int)
        requires
            0 <= index < self.heights.len(),
            self.is_visible(index),
            0 <= self.viewport.y,
            self.viewport.bottom() <= i32::MAX,
        ensures
            self.call_for(index).y == self.row_of(index),
    {
    }
}

impl<'a, S: ListSource> List<'a, S> {
    /// Begins a pass over the list that hands out, one by one, the items
    /// to draw.
    ///
    /// Over a source without items the pass hands out nothing.
    pub fn draw_pass<'l>(&'l self) -> (pass: DrawPass<'l, 'a, S>)
        ensures
            pass.list() == self,
            pass@ == self@.draw_calls(),
            self@.heights.len() == 0 ==> pass@.len() == 0,
    {
        let viewport = self.viewport();
        let row = viewport.y() as i64 - self.scroll_offset();
        DrawPass { list: self, bottom: viewport.bottom(), next: 0, row }
    }
}

/// A pass over a list, top to bottom, that hands out the items to draw.
///
/// The model of a pass is the sequence of the items that it has yet to hand
/// out. The pass itself draws nothing: whoever holds the display asks for
/// one item after the other, draws each, and stops where drawing fails.
pub struct DrawPass<'l, 'a, S: ListSource> {
    list: &'l List<'a, S>,
    bottom: i64,
    next: u8,
    row: i64,
}

impl<'l, 'a, S: ListSource> View for DrawPass<'l, 'a, S> {
    type V = Seq<DrawCall>;

    closed spec fn view(&self) -> Seq<DrawCall> {
        self.list@.calls_from(self.next as int)
    }
}

/// The row `row` as a coordinate of the display.
fn coordinate(row: i64) -> (coordinate: i32)
    ensures
        coordinate == to_coordinate(row as int),
{
    if row < i32::MIN as i64 {
        i32::MIN
    } else if row > i32::MAX as i64 {
        i32::MAX
    } else {
        row as i32
    }
}

impl<'l, 'a, S: ListSource> DrawPass<'l, 'a, S> {
    #[verifier::type_invariant]
    spec fn well_formed(self) -> bool {
        &&& self.next <= self.list@.heights.len()
        &&& self.row == self.list@.row_of(self.next as int)
        &&& self.bottom == self.list@.viewport.bottom()
        &&& -SCROLL_LIMIT <= self.list@.scroll_offset <= SCROLL_LIMIT
    }

    /// The list that the pass goes over.
    pub closed spec fn list(&self) -> &'l List<'a, S> {
        self.list
    }

    /// The next item to draw, if there is one left.
    ///
    /// Skips the items that are not visible, which takes one query of the
    /// source for each.
    pub fn next_call(&mut self) -> (call: Option<DrawCall>)
        ensures
            final(self).list() == old(self).list(),
            call == (if old(self)@.len() > 0 {
                Some(old(self)@[0])
            } else {
                None
            }),
            final(self)@ == (if old(self)@.len() > 0 {
                old(self)@.drop_first()
            } else {
                Seq::empty()
            }),
    {
        proof {
            use_type_invariant(&*self);
        }
        let list = self.list;
        let source = list.source();
        let viewport = list.viewport();
        let current = list.current();
        let bottom = self.bottom;
        let top = viewport.y();
        let count = source.total_count();
        let ghost model = list@;
        let mut next = self.next;
        let mut row = self.row;
        while next < count
            invariant
                list == old(self).list(),
                model == list@,
                count == model.heights.len(),
                model.heights == source.heights(),
                current == model.current,
                viewport@ == model.viewport,
                next <= count,
                row == model.row_of(next as int),
                model.calls_from(next as int) == old(self)@,
                -SCROLL_LIMIT <= model.scroll_offset <= SCROLL_LIMIT,
                top == model.viewport.y,
                bottom == model.viewport.bottom(),
            decreases count - next,
        {
            let item_height = source.height_for_index(next);
            proof {
                lemma_item_top_bounds(model.heights, next as int);
            }
            let item_end = row + item_height as i64;
            if item_end > top as i64 && row < bottom {
                let call = DrawCall {
                    index: next,
                    is_active: current == next,
                    x: viewport.x(),
                    y: coordinate(row),
                };
                *self = DrawPass { list, bottom, next: next + 1, row: item_end };
                proof {
                    assert(model.calls_from(next as int) =~= seq![call] + model.calls_from(
                        next + 1,
                    ));
                    assert(old(self)@.drop_first() =~= model.calls_from(next + 1));
                }
                return Some(call);
            }
            row = item_end;
            next += 1;
        }
        *self = DrawPass { list, bottom, next: count, row };
        None
    }
}

} // verus!
