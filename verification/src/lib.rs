//! Input-method context bookkeeping for one X11 window, kept apart from the
//! native calls.
//!
//! An input context is a handle into an X input method together with the
//! spot at which the input method anchors its pre-edit overlay. This crate
//! decides which requests go to Xlib and to the display connection, in which
//! order, and what their replies mean; it never touches the display itself.
//! A driver performs each request and hands the reply back.

pub mod context;
pub mod point;
pub mod request;

pub use context::{CreatedIc, ImeContext, ImeContextCreationError, PendingIc};
pub use point::XPoint;
pub use request::{CreateIc, ImeRequest, PreEditAttr};
