//! A navigable, filterable, scrollable table of mounted filesystems,
//! rendered into a fixed-size terminal region.
//!
//! The crate holds the panel's logic: the master list with its selection
//! and scroll model, the derived filter overlay, the width-adaptive column
//! layout, the row composition for the renderer, and the command state
//! machine. Terminal drawing, mount enumeration and fuzzy pattern scoring
//! stay with the host.

pub mod command;
pub mod ext;
pub mod filter;
pub mod layout;
pub mod mount;
pub mod render;
pub mod scroll;
pub mod state;
