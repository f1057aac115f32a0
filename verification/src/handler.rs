//! Requests, responses, and the handler interface that the decorator wraps.
//!
//! A handler is any unit of request-to-response computation. Its behaviour
//! is pinned down by three specification functions: which requests it may
//! be given (`pre`), what it turns into after handling one (`next`), and
//! what it answers (`answer`). The executable `call` must follow them
//! exactly, so a decorated handler can promise to pass results through
//! unchanged.

use vstd::prelude::*;

verus! {

/// An incoming request, reduced to what the handlers here read: its path.
pub struct Request {
    pub path: String,
}

impl View for Request {
    type V = Seq<char>;

    open spec fn view(&self) -> Seq<char> {
        self.path@
    }
}

/// A plain-text response: a status code and a body.
pub struct Response {
    pub status: u16,
    pub body: String,
}

/// The mathematical value of a `Response`.
pub struct ResponseModel {
    pub status: int,
    pub body: Seq<char>,
}

impl View for Response {
    type V = ResponseModel;

    open spec fn view(&self) -> ResponseModel {
        ResponseModel { status: self.status as int, body: self.body@ }
    }
}

/// An error a handler may answer with, carrying its message.
pub struct HandlerError {
    pub message: String,
}

impl View for HandlerError {
    type V = Seq<char>;

    open spec fn view(&self) -> Seq<char> {
        self.message@
    }
}

/// The mathematical value of a handler's outcome: the response or the
/// error, each taken by its view.
pub open spec fn outcome_view(r: Result<Response, HandlerError>) -> Result<
    ResponseModel,
    Seq<char>,
> {
    match r {
        Ok(resp) => Ok(resp@),
        Err(e) => Err(e@),
    }
}

/// A unit of request-to-response computation.
///
/// `answer` fixes the outcome of every call, so anything that wraps a
/// handler and claims to be transparent can be held to returning exactly
/// that outcome: a successful response unchanged, an error unchanged.
pub trait Handler: Sized {
    /// Which requests this handler accepts in its current state.
    spec fn pre(self, req: Request) -> bool;

    /// The state the handler is in after handling `req`.
    spec fn next(self, req: Request) -> Self;

    /// The outcome the handler produces for `req`.
    spec fn answer(self, req: Request) -> Result<ResponseModel, Seq<char>>;

    /// Whether the handler is ready to accept a call, or the error it
    /// reports instead.
    spec fn readiness(self) -> Result<(), Seq<char>>;

    /// Handles one request.
    fn call(&mut self, req: Request) -> (r: Result<Response, HandlerError>)
        requires
            old(self).pre(req),
        ensures
            *final(self) == old(self).next(req),
            outcome_view(r) == old(self).answer(req),
    ;

    /// Reports whether the handler can accept a request right now.
    fn poll_ready(&self) -> (r: Result<(), HandlerError>)
        ensures
            (match r {
                Ok(u) => self.readiness() == Ok::<(), Seq<char>>(u),
                Err(e) => self.readiness() == Err::<(), Seq<char>>(e@),
            }),
    ;
}

/// A handler that always produces the same preset outcome: a response with
/// `status` and `body`, or, when `fail` is set, an error whose message is
/// `body`. Handy as the innermost element of a decorator chain.
pub struct FixedHandler {
    pub status: u16,
    pub body: String,
    pub fail: bool,
}

impl Handler for FixedHandler {
    open spec fn pre(self, req: Request) -> bool {
        true
    }

    open spec fn next(self, req: Request) -> Self {
        self
    }

    open spec fn answer(self, req: Request) -> Result<ResponseModel, Seq<char>> {
        if self.fail {
            Err(self.body@)
        } else {
            Ok(ResponseModel { status: self.status as int, body: self.body@ })
        }
    }

    open spec fn readiness(self) -> Result<(), Seq<char>> {
        Ok(())
    }

    fn call(&mut self, req: Request) -> (r: Result<Response, HandlerError>) {
        if self.fail {
            Err(HandlerError { message: self.body.clone() })
        } else {
            Ok(Response { status: self.status, body: self.body.clone() })
        }
    }

    fn poll_ready(&self) -> (r: Result<(), HandlerError>) {
        Ok(())
    }
}

} // verus!
