//! The native shell of the Shirt Tracker desktop application, as decisions.
//!
//! The shell declares a two-level application menu, decides what the
//! activation of a menu item does from the start of a run to its quit, and
//! decides the order of the steps that bring the application up. It
//! performs none of this itself: every function here takes plain values and
//! returns plain values, and the program around the library carries the
//! decisions out against the windowing toolkit.

pub mod dispatch;
pub mod event;
pub mod laws;
pub mod menu;
pub mod session;
pub mod setup;
pub mod text;
