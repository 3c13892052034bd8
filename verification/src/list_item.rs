//! One item of a list, and a run of items as the source of a list.

use crate::list::ListError;
use crate::list_source::ListSource;
use vstd::prelude::*;

verus! {

/// Something that a list can show as one of its items.
///
/// The model of an item is its height. The query must answer from that
/// model: the height must not change while a list works with the item.
/// Nothing holds an implementation outside verified code to this.
pub trait ListItem {
    /// The height of the item, in rows. An implementation outside verified
    /// code leaves this as it is: the height is then whatever `height`
    /// answers.
    open spec fn rows(&self) -> i32 {
        arbitrary()
    }

    /// The height of the item, in rows.
    fn height(&self) -> (height: i32)
        ensures
            height == self.rows(),
    ;
}

/// A number of rows by itself is an item of that height: blank space among
/// other items, or a stand-in where only the layout matters.
impl ListItem for i32 {
    open spec fn rows(&self) -> i32 {
        *self
    }

    fn height(&self) -> (height: i32) {
        *self
    }
}

/// The greatest number of items that a source can have.
pub const MAX_ITEMS: usize = 255;

/// A run of items, borrowed, as the source of a list.
pub struct Items<'a, T: ListItem> {
    items: &'a [T],
}

impl<'a, T: ListItem> View for Items<'a, T> {
    type V = Seq<T>;

    closed spec fn view(&self) -> Seq<T> {
        self.items@
    }
}

impl<'a, T: ListItem> Items<'a, T> {
    #[verifier::type_invariant]
    spec fn well_formed(self) -> bool {
        self.items@.len() <= MAX_ITEMS
    }

    /// The source made of `items`, in their order.
    ///
    /// Refused with `OutOfBounds` exactly when there are more than
    /// `MAX_ITEMS` items: a list counts its items in eight bits.
    pub fn new(items: &'a [T]) -> (made: Result<Self, ListError>)
        ensures
            match made {
                Ok(source) => source@ == items@ && items@.len() <= MAX_ITEMS,
                Err(error) => error == ListError::OutOfBounds && items@.len() > MAX_ITEMS,
            },
    {
        if items.len() > MAX_ITEMS {
            Err(ListError::OutOfBounds)
        } else {
            Ok(Items { items })
        }
    }

    /// The items.
    pub fn items(&self) -> (items: &'a [T])
        ensures
            items@ == self@,
            items@.len() <= MAX_ITEMS,
    {
        proof {
            use_type_invariant(self);
        }
        self.items
    }
}

impl<'a, T: ListItem> ListSource for Items<'a, T> {
    open spec fn heights(&self) -> Seq<i32> {
        Seq::new(self@.len(), |index: int| self@[index].rows())
    }

    fn total_count(&self) -> (count: u8) {
        proof {
            use_type_invariant(self);
        }
        self.items.len() as u8
    }

    fn height_for_index(&self, index: u8) -> (height: i32) {
        self.items[index as usize].height()
    }
}

} // verus!
