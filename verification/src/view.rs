//! Layout and spatial navigation.
//!
//! A [`Layout`] is a row of [`Column`]s, each a stack of elements. An element
//! is either simple, selected as a whole, or a group whose children are
//! selected one by one. One coordinate, an [`ElPos`], says what is selected.
//! Columns have unrelated row counts, so moving left or right goes through
//! the screen: the centre of what is selected decides the row that is entered
//! in the next column.

pub mod column;
pub mod element;
pub mod event;
pub mod laws;
pub mod layout;
pub mod scene;
pub mod stack;
pub mod surface;

pub use crate::geometry::{centre_of, Constraint, Dims, Direction, Rect};
pub use column::{ColPos, Column};
pub use element::{El, ElGroup, ElSimp};
pub use event::{Event, HandleResult, KeyCode, KeyEvent, KeyKind, Occasion};
pub use layout::{Arrangement, ElPos, Layout, LayoutRenderMode, Navigation};
pub use scene::Scene;
pub use stack::SceneStackItem;
