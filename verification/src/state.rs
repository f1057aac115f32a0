//! The shared-state demonstration: three counters of different visibility
//! — a lock-guarded process-wide one, a per-worker local one, and a
//! lock-free process-wide one — all bumped by one handler that then reports
//! their current values in a plain-text status line.
//!
//! The counters live here as plain integers; the caller owns the
//! synchronisation primitive appropriate to each (a mutex guard, a
//! worker-local cell, an atomic) and hands the handler exclusive access
//! for the duration of one request.

use vstd::prelude::*;

use crate::handler::{Handler, HandlerError, Request, Response, ResponseModel};
use crate::render::{body_text, render_body};

verus! {

/// Handles one request against the three injected counter handles: bumps
/// each by one, then renders the status line from the fresh values.
pub fn index(
    mutex_counter: &mut usize,
    local_counter: &mut u32,
    atomic_counter: &mut usize,
    req: &Request,
) -> (r: Response)
    requires
        *old(mutex_counter) < usize::MAX,
        *old(local_counter) < u32::MAX,
        *old(atomic_counter) < usize::MAX,
    ensures
        *final(mutex_counter) == *old(mutex_counter) + 1,
        *final(local_counter) == *old(local_counter) + 1,
        *final(atomic_counter) == *old(atomic_counter) + 1,
        r.status == 200,
        r.body@ == body_text(
            (*old(mutex_counter) + 1) as nat,
            (*old(local_counter) + 1) as nat,
            (*old(atomic_counter) + 1) as nat,
        ),
{
    *mutex_counter = *mutex_counter + 1;
    *local_counter = *local_counter + 1;
    *atomic_counter = *atomic_counter + 1;
    let body = render_body(*mutex_counter, *local_counter as usize, *atomic_counter);
    Response { status: 200, body }
}

/// One worker's view of the three counters: the two globals as this worker
/// currently holds them, and its own local counter.
pub struct AppCounters {
    pub mutex_counter: usize,
    pub local_counter: u32,
    pub atomic_counter: usize,
}

/// `c` after one handled request: every counter one higher.
pub open spec fn bumped(c: AppCounters) -> AppCounters {
    AppCounters {
        mutex_counter: (c.mutex_counter + 1) as usize,
        local_counter: (c.local_counter + 1) as u32,
        atomic_counter: (c.atomic_counter + 1) as usize,
    }
}

/// The counter handler packaged as a `Handler`, so it can stand at the end
/// of a decorator chain. It owns one worker's view of the counters.
pub struct IndexHandler {
    pub counters: AppCounters,
}

impl Handler for IndexHandler {
    open spec fn pre(self, req: Request) -> bool {
        self.counters.mutex_counter < usize::MAX && self.counters.local_counter < u32::MAX
            && self.counters.atomic_counter < usize::MAX
    }

    open spec fn next(self, req: Request) -> Self {
        IndexHandler { counters: bumped(self.counters) }
    }

    open spec fn answer(self, req: Request) -> Result<ResponseModel, Seq<char>> {
        Ok(
            ResponseModel {
                status: 200,
                body: body_text(
                    (self.counters.mutex_counter + 1) as nat,
                    (self.counters.local_counter + 1) as nat,
                    (self.counters.atomic_counter + 1) as nat,
                ),
            },
        )
    }

    open spec fn readiness(self) -> Result<(), Seq<char>> {
        Ok(())
    }

    fn call(&mut self, req: Request) -> (r: Result<Response, HandlerError>) {
        let resp = index(
            &mut self.counters.mutex_counter,
            &mut self.counters.local_counter,
            &mut self.counters.atomic_counter,
            &req,
        );
        Ok(resp)
    }

    fn poll_ready(&self) -> (r: Result<(), HandlerError>) {
        Ok(())
    }
}

} // verus!
