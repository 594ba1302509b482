//! Scrollable panes, a draggable scrollbar thumb, a typewriter text reveal and
//! the small rules behind the widgets of a visual-novel user interface.
//!
//! Layout quantities are whole pixels and durations are nanoseconds, so that
//! every rule here is stated and proved over exact integers.
pub mod scroll;
pub mod drag;
pub mod typing;
pub mod text;
pub mod images;
pub mod dropdown;
pub mod widgets;
pub mod config;
