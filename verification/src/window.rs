//! Persisted window geometry. Saving and restoring go through the
//! key-value store and the windowing host outside this crate; the record
//! itself lives here.

use vstd::prelude::*;

verus! {

/// Persisted window position and size.
#[derive(Clone, Copy, Debug, PartialEq, Eq, Structural)]
pub struct WindowState {
    pub x: i32,
    pub y: i32,
    pub width: u32,
    pub height: u32,
    pub maximized: bool,
}

} // verus!
