//! Points in window-local pixel space.

use vstd::prelude::*;

verus! {

/// A point in window-local pixels, with the coordinate width of Xlib's
/// `XPoint`.
#[derive(Clone, Copy, Debug, PartialEq, Eq, Structural)]
pub struct XPoint {
    pub x: i16,
    pub y: i16,
}

} // verus!
