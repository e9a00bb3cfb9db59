//! The requests that an input context asks its driver to perform.
//!
//! [`CreateIc`] is answered with a handle. Every [`ImeRequest`] is answered
//! with success or an error of the connection; the calls into Xlib among
//! them cannot fail by themselves.

use vstd::prelude::*;
use crate::point::XPoint;

verus! {

/// Xlib's `XIMPreeditNothing`: the input method draws no pre-edit text.
pub const XIM_PREEDIT_NOTHING: i32 = 0x0008;

/// Xlib's `XIMStatusNothing`: the input method draws no status area.
pub const XIM_STATUS_NOTHING: i32 = 0x0400;

/// The input style of every context, as the bit mask that `XCreateIC` takes
/// under `XNInputStyle`: neither pre-edit text nor status is drawn by the
/// input method, since the toolkit draws its own.
pub open spec fn spec_input_style() -> i32 {
    0x0408
}

/// The input style of every context: `XIM_PREEDIT_NOTHING` and
/// `XIM_STATUS_NOTHING` together.
pub fn input_style() -> (style: i32)
    ensures
        style == spec_input_style(),
        style == XIM_PREEDIT_NOTHING | XIM_STATUS_NOTHING,
{
    assert(0x0008i32 | 0x0400i32 == 0x0408i32) by (bit_vector);
    XIM_PREEDIT_NOTHING | XIM_STATUS_NOTHING
}

/// The nested attribute list sent under `XNPreeditAttributes`. It has one
/// entry, `XNSpotLocation`, whose value is the pre-edit spot.
#[derive(Clone, Copy, Debug, PartialEq, Eq, Structural)]
pub struct PreEditAttr {
    pub spot_location: XPoint,
}

/// Builds the nested pre-edit attribute list that names `ic_spot` as the spot
/// location.
pub fn create_pre_edit_attr(ic_spot: &XPoint) -> (attr: PreEditAttr)
    ensures
        attr == (PreEditAttr { spot_location: *ic_spot }),
{
    PreEditAttr { spot_location: *ic_spot }
}

/// The `XCreateIC` request: create an input context on the input method `im`
/// for `client_window`, with the given input style and, where present, the
/// pre-edit attributes. Its reply is the new context's handle.
///
/// Handles are the addresses that Xlib gave out; zero is the null handle.
#[derive(Clone, Copy, Debug, PartialEq, Eq)]
pub struct CreateIc {
    pub im: usize,
    pub input_style: i32,
    pub client_window: u64,
    pub pre_edit_attr: Option<PreEditAttr>,
}

/// A request on an existing input context, or a poll of the display
/// connection. Its reply is at most an error.
#[derive(Clone, Copy, Debug, PartialEq, Eq)]
pub enum ImeRequest {
    /// `XSetICFocus` on the context `ic`. Xlib replies nothing.
    SetIcFocus { ic: usize },
    /// `XUnsetICFocus` on the context `ic`. Xlib replies nothing.
    UnsetIcFocus { ic: usize },
    /// `XSetICValues` on the context `ic`, replacing its pre-edit
    /// attributes. What Xlib replies is not looked at.
    SetIcValues { ic: usize, pre_edit_attr: PreEditAttr },
    /// Poll the display connection for protocol errors queued since the last
    /// poll, and clear them. The reply is the error found, if any.
    CheckErrors,
}

} // verus!
