//! Navigation and view-state engine of a keyboard-driven directory browser.
//!
//! The crate holds the data model of the browser's panes, the ordering and
//! filtering of directory listings, the cursor and scroll arithmetic of the
//! scrolling viewport, the per-directory memory and the two-mode key
//! dispatcher. Reading directories, drawing and spawning programs are left to
//! the caller, which hands plain values in and takes plain values back.

pub mod control;
pub mod cursor;
pub mod entry;
pub mod error;
pub mod memory;
pub mod order;
pub mod path;
pub mod policy;
pub mod sorting;
pub mod state;
pub mod style;
