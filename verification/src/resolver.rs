//! Lazy thread resolver: memoizing, create-once initialization of the
//! destination discussion thread.
//!
//! The resolver is a small state machine driven by the runtime that
//! owns the network calls. A logical caller asks it what to do
//! (`begin`): use the cached thread, start the one creation request, or
//! wait for the request already in flight. The runtime reports the
//! request's outcome back (`complete`): success is cached forever, a
//! failure clears the state so that a later caller may try again.

use vstd::prelude::*;

verus! {

/// The resolver's state: no thread yet, one creation request in
/// flight, or the thread identifier cached for good.
#[derive(Clone, Copy, Debug, PartialEq, Eq, Structural)]
pub enum ResolverState {
    Idle,
    InFlight,
    Resolved(u64),
}

/// What one logical caller should do next.
#[derive(Clone, Copy, Debug, PartialEq, Eq, Structural)]
pub enum ThreadStep {
    /// Issue the underlying thread-creation request (the caller is the
    /// single creator; everyone else waits).
    StartCreate,
    /// A creation request is already in flight: await its outcome.
    AwaitCreate,
    /// The thread exists; publish to this identifier.
    UseThread(u64),
}

/// What `begin` does: the successor state and the caller's instruction.
pub open spec fn begin_spec(s: ResolverState) -> (ResolverState, ThreadStep) {
    match s {
        ResolverState::Idle => (ResolverState::InFlight, ThreadStep::StartCreate),
        ResolverState::InFlight => (ResolverState::InFlight, ThreadStep::AwaitCreate),
        ResolverState::Resolved(id) => (ResolverState::Resolved(id), ThreadStep::UseThread(id)),
    }
}

/// What `complete` does: cache a created identifier, forget a failure.
pub open spec fn complete_spec(s: ResolverState, outcome: Result<u64, ()>) -> ResolverState {
    match outcome {
        Ok(id) => ResolverState::Resolved(id),
        Err(_) => ResolverState::Idle,
    }
}

/// The state and the instructions after `n` consecutive `begin` calls.
pub open spec fn run_begins(s: ResolverState, n: nat) -> (ResolverState, Seq<ThreadStep>)
    decreases n,
{
    if n == 0 {
        (s, Seq::empty())
    } else {
        let first = begin_spec(s);
        let rest = run_begins(first.0, (n - 1) as nat);
        (rest.0, seq![first.1] + rest.1)
    }
}

/// How many of these instructions issue a creation request.
pub open spec fn count_creates(acts: Seq<ThreadStep>) -> nat
    decreases acts.len(),
{
    if acts.len() == 0 {
        0
    } else {
        (if acts[0] is StartCreate {
            1nat
        } else {
            0nat
        }) + count_creates(acts.drop_first())
    }
}

/// Memoizing initializer for the destination thread identifier.
pub struct ThreadResolver {
    state: ResolverState,
}

impl ThreadResolver {
    /// The resolver's abstract state.
    pub closed spec fn state(&self) -> ResolverState {
        self.state
    }

    /// A fresh resolver has no thread and no request in flight.
    pub fn new() -> (r: Self)
        ensures
            r.state() == ResolverState::Idle,
    {
        ThreadResolver { state: ResolverState::Idle }
    }

    /// One logical caller arrives: tell it what to do, and record that
    /// a creation request is in flight if it is the one to issue it.
    pub fn begin(&mut self) -> (r: ThreadStep)
        ensures
            final(self).state() == begin_spec(old(self).state()).0,
            r == begin_spec(old(self).state()).1,
    {
        match self.state {
            ResolverState::Idle => {
                self.state = ResolverState::InFlight;
                ThreadStep::StartCreate
            },
            ResolverState::InFlight => ThreadStep::AwaitCreate,
            ResolverState::Resolved(id) => ThreadStep::UseThread(id),
        }
    }

    /// The in-flight creation request finished. A created identifier
    /// is cached for the rest of the process lifetime; a failure is
    /// not cached, so a later `begin` may start a fresh attempt.
    pub fn complete(&mut self, outcome: Result<u64, ()>)
        requires
            old(self).state() is InFlight,
        ensures
            final(self).state() == complete_spec(old(self).state(), outcome),
    {
        match outcome {
            Ok(id) => {
                self.state = ResolverState::Resolved(id);
            },
            Err(_) => {
                self.state = ResolverState::Idle;
            },
        }
    }

    /// Whether a creation request is currently in flight.
    pub fn in_flight(&self) -> (r: bool)
        ensures
            r == (self.state() is InFlight),
    {
        match self.state {
            ResolverState::InFlight => true,
            _ => false,
        }
    }

    /// The cached identifier, if creation has succeeded.
    pub fn resolved(&self) -> (r: Option<u64>)
        ensures
            r == (match self.state() {
                ResolverState::Resolved(id) => Some(id),
                _ => None::<u64>,
            }),
    {
        match self.state {
            ResolverState::Resolved(id) => Some(id),
            _ => None,
        }
    }
}

/// Unfolding step: prepending one instruction adds its own
/// contribution to the creation count.
proof fn lemma_count_creates_cons(a: ThreadStep, rest: Seq<ThreadStep>)
    ensures
        count_creates(seq![a] + rest) == (if a is StartCreate {
            1nat
        } else {
            0nat
        }) + count_creates(rest),
{
    assert((seq![a] + rest).drop_first() =~= rest);
    assert((seq![a] + rest)[0] == a);
}

/// Once the thread exists, it is never created again and every caller
/// is told the same identifier: any number of further `begin` calls
/// leaves the state unchanged, issues no creation request, and answers
/// each caller with the cached identifier.
pub proof fn lemma_resolved_serves_all(id: u64, n: nat)
    ensures
        run_begins(ResolverState::Resolved(id), n).0 == ResolverState::Resolved(id),
        count_creates(run_begins(ResolverState::Resolved(id), n).1) == 0,
        run_begins(ResolverState::Resolved(id), n).1.len() == n,
        forall|i: int|
            0 <= i < n ==> run_begins(ResolverState::Resolved(id), n).1[i] == ThreadStep::UseThread(
                id,
            ),
    decreases n,
{
    if n > 0 {
        lemma_resolved_serves_all(id, (n - 1) as nat);
        lemma_count_creates_cons(
            ThreadStep::UseThread(id),
            run_begins(ResolverState::Resolved(id), (n - 1) as nat).1,
        );
    }
}

/// While a creation request is in flight, no second one is issued,
/// however many callers arrive.
pub proof fn lemma_in_flight_no_duplicate(n: nat)
    ensures
        run_begins(ResolverState::InFlight, n).0 == ResolverState::InFlight,
        count_creates(run_begins(ResolverState::InFlight, n).1) == 0,
    decreases n,
{
    if n > 0 {
        lemma_in_flight_no_duplicate((n - 1) as nat);
        lemma_count_creates_cons(
            ThreadStep::AwaitCreate,
            run_begins(ResolverState::InFlight, (n - 1) as nat).1,
        );
    }
}

/// Create-once law: however many callers arrive at a fresh resolver,
/// at most one creation request is ever issued.
pub proof fn lemma_create_once(n: nat)
    ensures
        count_creates(run_begins(ResolverState::Idle, n).1) <= 1,
{
    if n > 0 {
        lemma_in_flight_no_duplicate((n - 1) as nat);
        lemma_count_creates_cons(
            ThreadStep::StartCreate,
            run_begins(ResolverState::InFlight, (n - 1) as nat).1,
        );
    }
}

/// Create-once under concurrency, end to end: any number of callers
/// (at least one) race at a fresh resolver, the single creation
/// request they give rise to returns `id`, and from then on every
/// caller observes that same identifier. Over the whole history
/// exactly one creation request is issued.
pub proof fn lemma_concurrent_callers_one_creation(n_before: nat, id: u64, n_after: nat)
    requires
        n_before >= 1,
    ensures
        ({
            let race = run_begins(ResolverState::Idle, n_before);
            let after = run_begins(complete_spec(race.0, Ok(id)), n_after);
            &&& count_creates(race.1) == 1
            &&& count_creates(after.1) == 0
            &&& forall|i: int| 0 <= i < n_after ==> after.1[i] == ThreadStep::UseThread(id)
        }),
{
    lemma_in_flight_no_duplicate((n_before - 1) as nat);
    lemma_count_creates_cons(
        ThreadStep::StartCreate,
        run_begins(ResolverState::InFlight, (n_before - 1) as nat).1,
    );
    lemma_resolved_serves_all(id, n_after);
}

/// Retry law: a failed creation is not cached. After the in-flight
/// request fails, the next caller is told to start a fresh attempt.
pub proof fn lemma_retry_after_failure()
    ensures
        complete_spec(ResolverState::InFlight, Err(())) == ResolverState::Idle,
        begin_spec(ResolverState::Idle).1 == ThreadStep::StartCreate,
{
}

} // verus!
