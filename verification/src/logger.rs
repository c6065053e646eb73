//! Logger capability: the append-only sink the protocol session calls
//! once per conversational turn.
//!
//! A `log` call is one best-effort publish: check the readiness gate
//! first (fail fast with `NotReady` before any other work), resolve
//! the destination thread (a creation failure becomes
//! `ThreadUnavailable`), format the entry, and dispatch it (a
//! transport failure becomes `DispatchFailed`). The asynchronous
//! runtime that owns the network calls drives these steps: `log_begin`
//! decides what to do, `thread_created` and `dispatch_done` fold the
//! outcome of each outside call back into the state and the caller's
//! result.

use vstd::prelude::*;
use crate::gate::ReadinessGate;
use crate::gate::set_spec;
use crate::resolver::ResolverState;
use crate::resolver::ThreadResolver;
use crate::resolver::ThreadStep;
use crate::resolver::begin_spec;
use crate::resolver::complete_spec;

verus! {

/// Why one `log` call failed.
#[derive(Clone, Copy, Debug, PartialEq, Eq, Structural)]
pub enum LogError {
    /// The gateway connection has not signalled readiness yet.
    NotReady,
    /// Creating the destination thread failed.
    ThreadUnavailable,
    /// The thread exists but sending the message failed.
    DispatchFailed,
}

/// What one `log` call must do next, once the readiness cell holds a
/// handle.
#[derive(Clone, Copy, Debug, PartialEq, Eq, Structural)]
pub enum LogPlan {
    /// No destination thread yet: this caller issues the one creation
    /// request, over the given connection handle.
    StartCreate { handle: u64 },
    /// Another caller's creation request is in flight: await it.
    AwaitCreate,
    /// Publish to the resolved thread over the given handle.
    Dispatch { handle: u64, thread: u64 },
}

/// What `log_begin` decides from the readiness and resolver states: the
/// caller's instruction (or immediate failure) and the resolver's
/// successor state.
pub open spec fn log_begin_spec(g: Option<u64>, s: ResolverState) -> (Result<
    LogPlan,
    LogError,
>, ResolverState) {
    match g {
        None => (Err(LogError::NotReady), s),
        Some(h) => {
            let st = begin_spec(s);
            let plan = match st.1 {
                ThreadStep::StartCreate => LogPlan::StartCreate { handle: h },
                ThreadStep::AwaitCreate => LogPlan::AwaitCreate,
                ThreadStep::UseThread(t) => LogPlan::Dispatch { handle: h, thread: t },
            };
            (Ok(plan), st.0)
        },
    }
}

/// The logger's shared state: the readiness gate and the memoized
/// destination thread.
pub struct LoggerCore {
    gate: ReadinessGate,
    resolver: ThreadResolver,
}

impl LoggerCore {
    /// The readiness cell's abstract state: the connection handle, if
    /// ready.
    pub closed spec fn gate_state(&self) -> Option<u64> {
        self.gate.state()
    }

    /// The resolver's abstract state.
    pub closed spec fn resolver_state(&self) -> ResolverState {
        self.resolver.state()
    }

    /// A fresh logger: not ready, no destination thread.
    pub fn new() -> (c: Self)
        ensures
            c.gate_state() is None,
            c.resolver_state() == ResolverState::Idle,
    {
        LoggerCore { gate: ReadinessGate::new(), resolver: ThreadResolver::new() }
    }

    /// The gateway signalled readiness with handle `h`. First signal
    /// wins; later ones (for instance on reconnect) are no-ops.
    pub fn connection_ready(&mut self, h: u64)
        ensures
            final(self).gate_state() == set_spec(old(self).gate_state(), h),
            final(self).resolver_state() == old(self).resolver_state(),
    {
        self.gate.set(h);
    }

    /// Step one and two of a `log` call: fail with `NotReady` while
    /// no readiness signal has arrived, touching nothing else;
    /// otherwise decide how
    /// to reach the destination thread.
    pub fn log_begin(&mut self) -> (r: Result<LogPlan, LogError>)
        ensures
            r == log_begin_spec(old(self).gate_state(), old(self).resolver_state()).0,
            final(self).resolver_state() == log_begin_spec(
                old(self).gate_state(),
                old(self).resolver_state(),
            ).1,
            final(self).gate_state() == old(self).gate_state(),
    {
        let handle = match self.gate.get() {
            None => {
                return Err(LogError::NotReady);
            },
            Some(h) => h,
        };
        match self.resolver.begin() {
            ThreadStep::StartCreate => Ok(LogPlan::StartCreate { handle }),
            ThreadStep::AwaitCreate => Ok(LogPlan::AwaitCreate),
            ThreadStep::UseThread(t) => Ok(LogPlan::Dispatch { handle, thread: t }),
        }
    }

    /// Whether this logger is waiting for a thread-creation request:
    /// the state in which `thread_created` may be called.
    pub fn creation_pending(&self) -> (r: bool)
        ensures
            r == (self.resolver_state() is InFlight),
    {
        self.resolver.in_flight()
    }

    /// The in-flight creation request finished. Success caches the
    /// identifier and hands it to the caller; failure is not cached
    /// and becomes `ThreadUnavailable`.
    pub fn thread_created(&mut self, outcome: Result<u64, ()>) -> (r: Result<u64, LogError>)
        requires
            old(self).resolver_state() is InFlight,
        ensures
            final(self).resolver_state() == complete_spec(old(self).resolver_state(), outcome),
            final(self).gate_state() == old(self).gate_state(),
            r == (match outcome {
                Ok(id) => Ok::<u64, LogError>(id),
                Err(_) => Err::<u64, LogError>(LogError::ThreadUnavailable),
            }),
    {
        self.resolver.complete(outcome);
        match outcome {
            Ok(id) => Ok(id),
            Err(_) => Err(LogError::ThreadUnavailable),
        }
    }
}

/// Step four of a `log` call: a transport failure on the send becomes
/// `DispatchFailed`; a delivered message completes the call.
pub fn dispatch_done(outcome: Result<(), ()>) -> (r: Result<(), LogError>)
    ensures
        r == (match outcome {
            Ok(_) => Ok::<(), LogError>(()),
            Err(_) => Err::<(), LogError>(LogError::DispatchFailed),
        }),
{
    match outcome {
        Ok(_) => Ok(()),
        Err(_) => Err(LogError::DispatchFailed),
    }
}

/// Pre-readiness failure: while no readiness signal has arrived, a
/// `log` call fails with `NotReady` and neither starts a thread
/// creation nor dispatches anything — the resolver state is left
/// exactly as it was, and the caller receives no plan to act on.
pub proof fn lemma_not_ready_fails_fast(s: ResolverState)
    ensures
        log_begin_spec(None, s).0 == Err::<LogPlan, LogError>(LogError::NotReady),
        log_begin_spec(None, s).1 == s,
{
}

} // verus!
