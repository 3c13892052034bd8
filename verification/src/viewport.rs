//! The on-screen rectangle of a list.

use crate::list::ListError;
use vstd::prelude::*;

verus! {

/// A rectangle in display coordinates, as plain numbers: the model of a
/// [`Viewport`].
pub struct Rect {
    /// The column of the left edge.
    pub x: int,
    /// The row of the top edge.
    pub y: int,
    /// The number of columns.
    pub width: int,
    /// The number of rows.
    pub height: int,
}

impl Rect {
    /// Whether the rectangle holds no pixel at all.
    pub open spec fn is_empty(self) -> bool {
        self.width <= 0 || self.height <= 0
    }

    /// Whether the rectangle can be a viewport: an empty one always, any
    /// other one if its width and its height are no greater than the
    /// greatest coordinate, and the column and the row just past it are
    /// coordinates of the display too.
    pub open spec fn fits(self) -> bool {
        !self.is_empty() ==> {
            &&& self.width <= i32::MAX
            &&& self.height <= i32::MAX
            &&& self.x + self.width <= i32::MAX
            &&& self.y + self.height <= i32::MAX
        }
    }

    /// The row at which the rectangle ends, itself no longer part of it: the
    /// row below its last row. Whether the rectangle has any column plays no
    /// part in this.
    pub open spec fn bottom(self) -> int {
        self.y + self.height
    }
}

/// The fixed rectangle of the display inside which a list is shown.
#[derive(Clone, Copy, Debug)]
pub struct Viewport {
    x: i32,
    y: i32,
    width: u32,
    height: u32,
}

impl View for Viewport {
    type V = Rect;

    closed spec fn view(&self) -> Rect {
        Rect { x: self.x as int, y: self.y as int, width: self.width as int, height: self.height as int }
    }
}

/// The bottom right corner of a rectangle, by
/// `embedded_graphics::primitives::Rectangle::bottom_right`.
///
/// Trusted: a rectangle without width or without height has no corner;
/// otherwise the corner is the last pixel inside, the top left corner moved
/// by the size less one in both directions. The outside function turns the
/// size into coordinates and adds it whole to the top left corner before it
/// takes the one off, so the width, the height and both sums must be
/// coordinates themselves.
#[verifier::external_body]
fn bottom_right_corner(x: i32, y: i32, width: u32, height: u32) -> (corner: Option<(i32, i32)>)
    requires
        width > 0 && height > 0 ==> width <= i32::MAX && height <= i32::MAX && x + width
            <= i32::MAX && y + height <= i32::MAX,
    ensures
        corner == (if width > 0 && height > 0 {
            Some(((x + width - 1) as i32, (y + height - 1) as i32))
        } else {
            None
        }),
{
    let rect = embedded_graphics::primitives::Rectangle::new(
        embedded_graphics::geometry::Point::new(x, y),
        embedded_graphics::geometry::Size::new(width, height),
    );
    match rect.bottom_right() {
        Some(point) => Some((point.x, point.y)),
        None => None,
    }
}

impl Viewport {
    #[verifier::type_invariant]
    spec fn well_formed(self) -> bool {
        self@.fits()
    }

    /// A viewport with its top left corner at column `x` and row `y`.
    ///
    /// Refused with `OutOfBounds` exactly when the rectangle is not empty
    /// and is wider or taller than the greatest coordinate, or reaches the
    /// last column or row that a coordinate can name, or beyond it.
    pub fn new(x: i32, y: i32, width: u32, height: u32) -> (made: Result<Viewport, ListError>)
        ensures
            match made {
                Ok(viewport) => viewport@ == (Rect {
                    x: x as int,
                    y: y as int,
                    width: width as int,
                    height: height as int,
                }) && viewport@.fits(),
                Err(error) => error == ListError::OutOfBounds && !(Rect {
                    x: x as int,
                    y: y as int,
                    width: width as int,
                    height: height as int,
                }).fits(),
            },
    {
        if width > 0 && height > 0 {
            let right: i64 = x as i64 + width as i64;
            let below: i64 = y as i64 + height as i64;
            if width > i32::MAX as u32 || height > i32::MAX as u32 || right > i32::MAX as i64
                || below > i32::MAX as i64 {
                return Err(ListError::OutOfBounds);
            }
        }
        Ok(Viewport { x, y, width, height })
    }

    /// The column of the left edge.
    pub fn x(&self) -> (x: i32)
        ensures
            x == self@.x,
    {
        self.x
    }

    /// The row of the top edge.
    pub fn y(&self) -> (y: i32)
        ensures
            y == self@.y,
    {
        self.y
    }

    /// The number of columns.
    pub fn width(&self) -> (width: u32)
        ensures
            width == self@.width,
    {
        self.width
    }

    /// The number of rows.
    pub fn height(&self) -> (height: u32)
        ensures
            height == self@.height,
    {
        self.height
    }

    /// The row at which the viewport ends, itself no longer part of it.
    ///
    /// Below a viewport without width or of great height this need not be a
    /// coordinate of the display, so it comes in 64 bits.
    pub fn bottom(&self) -> (row: i64)
        ensures
            row == self@.bottom(),
    {
        proof {
            use_type_invariant(self);
        }
        match bottom_right_corner(self.x, self.y, self.width, self.height) {
            Some(corner) => corner.1 as i64 + 1,
            None => self.y as i64 + self.height as i64,
        }
    }
}

} // verus!
