//! A scrollable, single-selection list for small displays: the viewport,
//! selection and scrolling rules, verified.

pub mod draw;
pub mod layout;
pub mod list;
pub mod list_item;
pub mod list_source;
pub mod viewport;

pub use draw::{DrawCall, DrawPass};
pub use list::{List, ListError, ListModel};
pub use list_item::{Items, ListItem};
pub use list_source::ListSource;
pub use viewport::{Rect, Viewport};
