//! The sequence of items behind a list.

use vstd::prelude::*;

verus! {

/// An ordered, index-addressed sequence of items of individual heights.
///
/// The model of a source is the sequence of its items' heights. The two
/// queries must answer from that model: a list reads them several times
/// during one operation and relies on getting the same answers. What is
/// proved of a list holds over the sources that keep to this; nothing holds
/// an implementation outside verified code to it.
///
/// A height is a number of rows and should not be negative. A list takes a
/// negative one as it comes, but does not promise to show such an item.
pub trait ListSource {
    /// The heights of the items, first to last. An implementation outside
    /// verified code leaves this as it is: the heights are then whatever the
    /// two queries answer.
    open spec fn heights(&self) -> Seq<i32> {
        arbitrary()
    }

    /// The number of items.
    fn total_count(&self) -> (count: u8)
        ensures
            count as int == self.heights().len(),
    ;

    /// The height of the item at `index`.
    fn height_for_index(&self, index: u8) -> (height: i32)
        requires
            (index as int) < self.heights().len(),
        ensures
            height == self.heights()[index as int],
    ;
}

} // verus!
