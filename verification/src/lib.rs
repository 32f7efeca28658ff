//! Navigation core of a terminal file browser.
//!
//! The library models storage volumes, a lazily populated directory tree,
//! and the state machine that maps navigation commands to state changes.
//! All filesystem access and terminal drawing happen outside the library:
//! callers hand in directory listings as plain values and render the
//! `Layout` that `build_view` returns.

pub mod entry;
pub mod input;
pub mod listing;
pub mod nav;
pub mod node;
pub mod order;
pub mod path;
pub mod view;
pub mod volume;
