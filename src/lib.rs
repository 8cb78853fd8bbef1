//! The core of a terminal file browser: running outside programs on the
//! selection while the terminal is handed back and forth, and a per-tab cache of
//! directory listings behind navigation and the preview pane.
use vstd::prelude::*;

pub mod cache;
pub mod config;
pub mod context;
pub mod invoker;
pub mod listing;
pub mod preview;
pub mod reload;
pub mod sub_process;
pub mod terminal;

verus! {

} // verus!
