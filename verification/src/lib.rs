//! Tracking of windows that a client has created but that are not on screen yet.
//!
//! A window starts out not configured. The compositor decides its placement once, when it
//! sends the initial configure, and the decision stays with the window until it is mapped.
//!
//! The window and the outputs belong to the windowing side. This crate never looks inside
//! them, so it takes their handles as type parameters and only moves them around.

pub mod layout;
pub mod window;

pub use layout::ColumnWidth;
pub use window::{InitialConfigureState, ResolvedWindowRules, Unmapped};
