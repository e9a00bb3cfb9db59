//! An input context: its handle, the pre-edit spot last sent for it, and the
//! steps that make one.
//!
//! A creation takes three steps. [`ImeContext::new`] hands out the
//! `XCreateIC` request. The handle that comes back goes to
//! [`PendingIc::created`], which either gives up or asks for a poll of the
//! connection. The poll's reply goes to [`CreatedIc::checked`], which yields
//! the context.

use vstd::prelude::*;
use crate::point::XPoint;
use crate::request::{
    create_pre_edit_attr, input_style, spec_input_style, CreateIc, ImeRequest, PreEditAttr,
};

verus! {

/// Why an input context could not be created. `E` is the error type of the
/// display connection.
#[derive(Debug, PartialEq, Eq)]
pub enum ImeContextCreationError<E> {
    /// `XCreateIC` returned a handle, and the display connection then
    /// reported this protocol error.
    Error(E),
    /// `XCreateIC` returned the null handle.
    Null,
}

/// The input context of one window. Its handle is never null.
///
/// A context never asks for its handle to be destroyed, and dropping it
/// releases nothing: whoever manages the input method knows whether the
/// server still holds the context, and destroys it there.
#[derive(Debug)]
pub struct ImeContext {
    ic: usize,
    ic_spot: XPoint,
}

/// A creation whose `XCreateIC` request is out and whose handle is awaited.
#[derive(Debug)]
pub struct PendingIc {
    ic_spot: Option<XPoint>,
}

/// A creation whose handle is there, and not null, and whose poll is
/// awaited.
#[derive(Debug)]
pub struct CreatedIc {
    ic: usize,
    ic_spot: Option<XPoint>,
}

/// The request that creates a context on `im` for `window`: no pre-edit
/// attributes without a spot, the spot as the one pre-edit attribute with one.
pub open spec fn creation_request(im: usize, window: u64, ic_spot: Option<XPoint>) -> CreateIc {
    CreateIc {
        im,
        input_style: spec_input_style(),
        client_window: window,
        pre_edit_attr: match ic_spot {
            Some(spot) => Some(PreEditAttr { spot_location: spot }),
            None => None,
        },
    }
}

/// The spot that a new context stores: the one it was created with, or the
/// window's origin.
pub open spec fn initial_spot(ic_spot: Option<XPoint>) -> XPoint {
    match ic_spot {
        Some(spot) => spot,
        None => XPoint { x: 0, y: 0 },
    }
}

impl ImeContext {
    /// Holds of every context: a creation yields one only for a handle that
    /// is not null, and nothing changes the handle afterwards.
    #[verifier::type_invariant]
    spec fn handle_is_not_null(&self) -> bool {
        self.ic != 0
    }

    /// The handle that `XCreateIC` returned.
    pub closed spec fn spec_ic(&self) -> usize {
        self.ic
    }

    /// The spot last sent to the input method as the pre-edit anchor.
    pub closed spec fn spec_ic_spot(&self) -> XPoint {
        self.ic_spot
    }

    /// The handle that `XCreateIC` returned, for whoever destroys the
    /// context in the end.
    #[verifier::when_used_as_spec(spec_ic)]
    pub fn ic(&self) -> (ic: usize)
        ensures
            ic == self.spec_ic(),
            ic != 0,
    {
        proof {
            use_type_invariant(self);
        }
        self.ic
    }

    /// The spot last sent to the input method as the pre-edit anchor.
    #[verifier::when_used_as_spec(spec_ic_spot)]
    pub fn ic_spot(&self) -> (ic_spot: XPoint)
        ensures
            ic_spot == self.spec_ic_spot(),
    {
        self.ic_spot
    }

    /// The pending creation and the request that `new` returns.
    pub closed spec fn spec_new(im: usize, window: u64, ic_spot: Option<XPoint>) -> (
        PendingIc,
        CreateIc,
    ) {
        (PendingIc { ic_spot }, creation_request(im, window, ic_spot))
    }

    /// Begins the creation of a context on the input method `im` for
    /// `window`, with `ic_spot` as the initial pre-edit spot if there is one.
    ///
    /// Returns the `XCreateIC` request to perform, and the pending creation
    /// that takes its reply.
    pub fn new(im: usize, window: u64, ic_spot: Option<XPoint>) -> (r: (PendingIc, CreateIc))
        ensures
            r == ImeContext::spec_new(im, window, ic_spot),
            r.0.ic_spot() == ic_spot,
            r.1 == creation_request(im, window, ic_spot),
    {
        let request = if let Some(ic_spot) = ic_spot {
            ImeContext::create_ic_with_spot(im, window, ic_spot)
        } else {
            ImeContext::create_ic(im, window)
        };
        (PendingIc { ic_spot }, request)
    }

    /// The request for a context that starts without a spot.
    fn create_ic(im: usize, window: u64) -> (request: CreateIc)
        ensures
            request == creation_request(im, window, None),
    {
        CreateIc { im, input_style: input_style(), client_window: window, pre_edit_attr: None }
    }

    /// The request for a context that starts with the spot `ic_spot`.
    fn create_ic_with_spot(im: usize, window: u64, ic_spot: XPoint) -> (request: CreateIc)
        ensures
            request == creation_request(im, window, Some(ic_spot)),
    {
        let pre_edit_attr = create_pre_edit_attr(&ic_spot);
        CreateIc {
            im,
            input_style: input_style(),
            client_window: window,
            pre_edit_attr: Some(pre_edit_attr),
        }
    }

    /// Gives this context the input focus: one `XSetICFocus` on its handle,
    /// then one poll of the connection. The poll's reply is the outcome.
    pub fn focus(&self) -> (requests: Vec<ImeRequest>)
        ensures
            requests@ == seq![(ImeRequest::SetIcFocus { ic: self.ic() }), ImeRequest::CheckErrors],
            self.ic() != 0,
    {
        proof {
            use_type_invariant(self);
        }
        vec![ImeRequest::SetIcFocus { ic: self.ic }, ImeRequest::CheckErrors]
    }

    /// Takes the input focus from this context: one `XUnsetICFocus` on its
    /// handle, then one poll of the connection. The poll's reply is the
    /// outcome. Whether the context had the focus is left to the server.
    pub fn unfocus(&self) -> (requests: Vec<ImeRequest>)
        ensures
            requests@ == seq![
                (ImeRequest::UnsetIcFocus { ic: self.ic() }),
                ImeRequest::CheckErrors,
            ],
            self.ic() != 0,
    {
        proof {
            use_type_invariant(self);
        }
        vec![ImeRequest::UnsetIcFocus { ic: self.ic }, ImeRequest::CheckErrors]
    }

    /// Whether the stored spot is `(x, y)`.
    pub open spec fn spot_is(&self, x: i16, y: i16) -> bool {
        self.ic_spot() == (XPoint { x, y })
    }

    /// The request that tells the input method of the spot `(x, y)`.
    pub open spec fn spot_request(&self, x: i16, y: i16) -> ImeRequest {
        ImeRequest::SetIcValues {
            ic: self.ic(),
            pre_edit_attr: PreEditAttr { spot_location: XPoint { x, y } },
        }
    }

    /// The context after `set_spot(x, y)`, and the request that it returns.
    pub closed spec fn spec_set_spot(self, x: i16, y: i16) -> (ImeContext, Option<ImeRequest>) {
        if self.spot_is(x, y) {
            (self, None)
        } else {
            (ImeContext { ic: self.ic, ic_spot: XPoint { x, y } }, Some(self.spot_request(x, y)))
        }
    }

    /// Moves the pre-edit spot to `(x, y)`.
    ///
    /// Where the stored spot is `(x, y)` already, nothing changes and there
    /// is nothing to send. Otherwise the spot is stored first and the
    /// returned `XSetICValues` request carries it; no poll follows, and the
    /// stored spot stands whatever becomes of the request.
    pub fn set_spot(&mut self, x: i16, y: i16) -> (request: Option<ImeRequest>)
        ensures
            (*final(self), request) == old(self).spec_set_spot(x, y),
            old(self).spot_is(x, y) ==> *final(self) == *old(self) && request is None,
            !old(self).spot_is(x, y) ==> request == Some(old(self).spot_request(x, y)),
            final(self).ic() == old(self).ic(),
            final(self).ic_spot() == (XPoint { x, y }),
    {
        proof {
            use_type_invariant(&*self);
        }
        if self.ic_spot.x == x && self.ic_spot.y == y {
            return None;
        }
        self.ic_spot = XPoint { x, y };
        let pre_edit_attr = create_pre_edit_attr(&self.ic_spot);
        Some(ImeRequest::SetIcValues { ic: self.ic, pre_edit_attr })
    }

    /// Moving the spot to where it is changes nothing and sends nothing.
    /// Moving it elsewhere keeps the handle, stores the new spot, and sends
    /// the one request that carries it.
    pub proof fn lemma_set_spot(self, x: i16, y: i16)
        ensures
            self.spot_is(x, y) ==> self.spec_set_spot(x, y) == (self, None::<ImeRequest>),
            !self.spot_is(x, y) ==> self.spec_set_spot(x, y).1 == Some(self.spot_request(x, y)),
            self.spec_set_spot(x, y).0.ic() == self.ic(),
            self.spec_set_spot(x, y).0.ic_spot() == (XPoint { x, y }),
    {
    }

    /// Sending the same spot again is a no-op: after `set_spot(x, y)`, a
    /// second `set_spot(x, y)` changes nothing and sends nothing.
    pub proof fn lemma_set_spot_idempotent(self, x: i16, y: i16)
        ensures
            self.spec_set_spot(x, y).0.spec_set_spot(x, y) == (
                self.spec_set_spot(x, y).0,
                None::<ImeRequest>,
            ),
    {
    }
}

impl PendingIc {
    /// The spot that the request carried, if any.
    pub closed spec fn ic_spot(&self) -> Option<XPoint> {
        self.ic_spot
    }

    /// The next step that `created` returns for the handle `ic`.
    pub closed spec fn spec_created<E>(self, ic: usize) -> Result<
        (CreatedIc, ImeRequest),
        ImeContextCreationError<E>,
    > {
        if ic == 0 {
            Err(ImeContextCreationError::Null)
        } else {
            Ok((CreatedIc { ic, ic_spot: self.ic_spot }, ImeRequest::CheckErrors))
        }
    }

    /// Takes the handle `ic` that `XCreateIC` returned.
    ///
    /// A null handle ends the creation with `Null`, and the connection is
    /// not polled. Any other handle is kept, and the returned request polls
    /// the connection.
    pub fn created<E>(self, ic: usize) -> (r: Result<
        (CreatedIc, ImeRequest),
        ImeContextCreationError<E>,
    >)
        ensures
            r == self.spec_created::<E>(ic),
            r is Err <==> ic == 0,
            r matches Err(e) ==> e is Null,
            r matches Ok((created, request)) ==> created.ic() == ic && created.ic_spot()
                == self.ic_spot() && request == ImeRequest::CheckErrors,
    {
        if ic == 0 {
            Err(ImeContextCreationError::Null)
        } else {
            Ok((CreatedIc { ic, ic_spot: self.ic_spot }, ImeRequest::CheckErrors))
        }
    }
}

impl CreatedIc {
    /// Holds of every such step: a null handle ends the creation before it.
    #[verifier::type_invariant]
    spec fn handle_is_not_null(&self) -> bool {
        self.ic != 0
    }

    /// The handle that `XCreateIC` returned.
    pub closed spec fn ic(&self) -> usize {
        self.ic
    }

    /// The spot that the request carried, if any.
    pub closed spec fn ic_spot(&self) -> Option<XPoint> {
        self.ic_spot
    }

    /// The outcome that `checked` returns for the poll's reply `errors`.
    pub closed spec fn spec_checked<E>(self, errors: Result<(), E>) -> Result<
        ImeContext,
        ImeContextCreationError<E>,
    > {
        match errors {
            Ok(_) => Ok(ImeContext { ic: self.ic, ic_spot: initial_spot(self.ic_spot) }),
            Err(e) => Err(ImeContextCreationError::Error(e)),
        }
    }

    /// Takes the reply `errors` of the poll that followed `XCreateIC`.
    ///
    /// An error ends the creation with that error, though a handle was
    /// obtained. Otherwise the context is there: it holds the handle, and
    /// the spot it was created with or, without one, the origin.
    pub fn checked<E>(self, errors: Result<(), E>) -> (r: Result<
        ImeContext,
        ImeContextCreationError<E>,
    >)
        ensures
            r == self.spec_checked(errors),
            r is Ok <==> errors is Ok,
            errors matches Err(e) ==> r == Err::<ImeContext, _>(ImeContextCreationError::Error(e)),
            r matches Ok(context) ==> context.ic() == self.ic() && context.ic() != 0
                && context.ic_spot() == initial_spot(self.ic_spot()),
    {
        proof {
            use_type_invariant(&self);
        }
        match errors {
            Ok(_) => {
                let ic_spot = match self.ic_spot {
                    Some(spot) => spot,
                    None => XPoint { x: 0, y: 0 },
                };
                Ok(ImeContext { ic: self.ic, ic_spot })
            },
            Err(e) => Err(ImeContextCreationError::Error(e)),
        }
    }
}

/// A whole creation, where `XCreateIC` replies `ic` and the poll, if it comes
/// to one, replies `errors`: the `XCreateIC` request, the requests that
/// follow it, and the outcome.
pub open spec fn creation<E>(
    im: usize,
    window: u64,
    ic_spot: Option<XPoint>,
    ic: usize,
    errors: Result<(), E>,
) -> (CreateIc, Seq<ImeRequest>, Result<ImeContext, ImeContextCreationError<E>>) {
    let (pending, create) = ImeContext::spec_new(im, window, ic_spot);
    match pending.spec_created::<E>(ic) {
        Err(e) => (create, seq![], Err(e)),
        Ok((created, poll)) => (create, seq![poll], created.spec_checked(errors)),
    }
}

/// Where `XCreateIC` returns the null handle, the creation fails with `Null`
/// and no request follows: the connection is not polled.
pub proof fn lemma_null_handle_is_not_polled<E>(
    im: usize,
    window: u64,
    ic_spot: Option<XPoint>,
    errors: Result<(), E>,
)
    ensures
        creation(im, window, ic_spot, 0, errors) == (
            creation_request(im, window, ic_spot),
            Seq::<ImeRequest>::empty(),
            Err::<ImeContext, _>(ImeContextCreationError::<E>::Null),
        ),
{
}

/// Where `XCreateIC` returns a handle and the poll then reports an error,
/// the creation fails with that error. The poll is the one request that
/// follows `XCreateIC`.
pub proof fn lemma_protocol_error_fails_creation<E>(
    im: usize,
    window: u64,
    ic_spot: Option<XPoint>,
    ic: usize,
    e: E,
)
    requires
        ic != 0,
    ensures
        creation(im, window, ic_spot, ic, Err(e)) == (
            creation_request(im, window, ic_spot),
            seq![ImeRequest::CheckErrors],
            Err::<ImeContext, _>(ImeContextCreationError::Error(e)),
        ),
{
}

/// Where `XCreateIC` returns a handle and the poll reports nothing, the
/// creation yields a context with that handle. Its spot is the one given, or
/// the origin where none was given.
pub proof fn lemma_creation_succeeds<E>(im: usize, window: u64, ic_spot: Option<XPoint>, ic: usize)
    requires
        ic != 0,
    ensures
        creation(im, window, ic_spot, ic, Ok::<(), E>(())).0 == creation_request(
            im,
            window,
            ic_spot,
        ),
        creation(im, window, ic_spot, ic, Ok::<(), E>(())).1 == seq![ImeRequest::CheckErrors],
        creation(im, window, ic_spot, ic, Ok::<(), E>(())).2 matches Ok(context) && context.ic()
            == ic && context.ic_spot() == initial_spot(ic_spot),
        ic_spot is None ==> initial_spot(ic_spot) == (XPoint { x: 0, y: 0 }),
        ic_spot matches Some(spot) ==> initial_spot(ic_spot) == spot,
{
}

} // verus!
