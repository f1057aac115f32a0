//! A greeting decorator: it wraps an inner handler, prints a line naming
//! the requested path before delegating, prints a line after a successful
//! completion, and returns the inner handler's result unchanged. It never
//! retries and never touches the request or the response.

use vstd::prelude::*;

use crate::handler::{Handler, HandlerError, Request, Response, ResponseModel};

use std::io::Write;

verus! {

/// Relies on `std::io::Stdout::write_fmt` (through `writeln`): prints one
/// line to standard output. Nothing is promised of it; the decorator is
/// purely observational.
#[verifier::external_body]
fn log_line(s: &str) {
    let mut out = std::io::stdout();
    let _ = writeln!(out, "{}", s);
}

/// The greeting printed before the inner handler runs, naming the path.
pub open spec fn start_text(path: Seq<char>) -> Seq<char> {
    "Hi from start. You requested: "@ + path
}

/// Builds the greeting line for a request to `path`.
pub fn start_message(path: &str) -> (r: String)
    ensures
        r@ == start_text(path@),
{
    let mut s = String::from_str("Hi from start. You requested: ");
    s.append(path);
    proof {
        assert(s@ =~= start_text(path@));
    }
    s
}

/// The decorator factory: given the next handler in the chain, it produces
/// the wrapped handler.
pub struct SayHi;

impl SayHi {
    /// Wraps `service` in the greeting decorator. Wrapping itself cannot
    /// fail; the `Result` mirrors a factory interface whose initialisation
    /// may.
    pub fn new_transform<S: Handler>(&self, service: S) -> (r: Result<SayHiMiddleware<S>, ()>)
        ensures
            (match r {
                Ok(m) => m == (SayHiMiddleware { service: service }),
                Err(u) => false,
            }),
    {
        Ok(SayHiMiddleware { service })
    }
}

/// A decorated handler: it holds the inner handler it forwards every
/// request to, and greets around each delegation.
pub struct SayHiMiddleware<S: Handler> {
    pub service: S,
}

impl<S: Handler> Handler for SayHiMiddleware<S> {
    open spec fn pre(self, req: Request) -> bool {
        self.service.pre(req)
    }

    open spec fn next(self, req: Request) -> Self {
        SayHiMiddleware { service: self.service.next(req) }
    }

    open spec fn answer(self, req: Request) -> Result<ResponseModel, Seq<char>> {
        self.service.answer(req)
    }

    open spec fn readiness(self) -> Result<(), Seq<char>> {
        self.service.readiness()
    }

    fn call(&mut self, req: Request) -> (r: Result<Response, HandlerError>) {
        let msg = start_message(req.path.as_str());
        log_line(msg.as_str());
        let res = self.service.call(req);
        if res.is_ok() {
            log_line("Hi from response");
        }
        res
    }

    fn poll_ready(&self) -> (r: Result<(), HandlerError>) {
        self.service.poll_ready()
    }
}

/// Law: a decorated handler that wraps an inner handler answering a
/// request with a successful response answers that request with the exact
/// same response.
pub proof fn lemma_decorator_passes_success<S: Handler>(
    m: SayHiMiddleware<S>,
    req: Request,
    resp: ResponseModel,
)
    requires
        m.service.answer(req) == Ok::<ResponseModel, Seq<char>>(resp),
    ensures
        m.answer(req) == Ok::<ResponseModel, Seq<char>>(resp),
{
}

/// Law: a decorated handler that wraps an inner handler answering a
/// request with an error propagates that exact error, without retrying.
pub proof fn lemma_decorator_propagates_error<S: Handler>(
    m: SayHiMiddleware<S>,
    req: Request,
    e: Seq<char>,
)
    requires
        m.service.answer(req) == Err::<ResponseModel, Seq<char>>(e),
    ensures
        m.answer(req) == Err::<ResponseModel, Seq<char>>(e),
{
}

} // verus!
