//! Readiness gate: a write-once cell for the gateway connection handle.
//!
//! The cell is empty until the gateway client signals that its
//! connection is usable, after which it permanently holds the handle.
//! `set` stores a handle only when the cell is empty; later calls are
//! no-ops, so the first handle ever offered is the one every reader
//! sees for the rest of the process lifetime.

use vstd::prelude::*;

verus! {

/// What one `set` call does to the cell's state: first writer wins,
/// every later write is a no-op.
pub open spec fn set_spec(s: Option<u64>, h: u64) -> Option<u64> {
    if s is None {
        Some(h)
    } else {
        s
    }
}

/// The state after a whole sequence of further `set` calls.
pub open spec fn run_sets(s: Option<u64>, hs: Seq<u64>) -> Option<u64>
    decreases hs.len(),
{
    if hs.len() == 0 {
        s
    } else {
        run_sets(set_spec(s, hs[0]), hs.drop_first())
    }
}

/// Write-once cell holding the gateway connection handle once the
/// connection has become usable.
pub struct ReadinessGate {
    handle: Option<u64>,
}

impl ReadinessGate {
    /// The stored handle, or `None` while the connection is not ready.
    pub closed spec fn state(&self) -> Option<u64> {
        self.handle
    }

    /// A fresh gate is empty.
    pub fn new() -> (g: Self)
        ensures
            g.state() is None,
    {
        ReadinessGate { handle: None }
    }

    /// Store `h` if the cell is still empty; otherwise leave the cell
    /// unchanged.
    pub fn set(&mut self, h: u64)
        ensures
            final(self).state() == set_spec(old(self).state(), h),
    {
        if self.handle.is_none() {
            self.handle = Some(h);
        }
    }

    /// Non-blocking read: the stored handle, or `None`.
    pub fn get(&self) -> (r: Option<u64>)
        ensures
            r == self.state(),
    {
        self.handle
    }
}

/// Write-once law: after the first `set` stores `h1`, any further
/// sequence of `set` calls leaves the cell holding `h1`.
pub proof fn lemma_write_once(s: Option<u64>, h1: u64, hs: Seq<u64>)
    requires
        s is None,
    ensures
        run_sets(set_spec(s, h1), hs) == Some(h1),
    decreases hs.len(),
{
    if hs.len() > 0 {
        lemma_sets_keep_value(set_spec(s, h1), hs);
    }
}

/// A non-empty cell is never changed by further `set` calls.
pub proof fn lemma_sets_keep_value(s: Option<u64>, hs: Seq<u64>)
    requires
        s is Some,
    ensures
        run_sets(s, hs) == s,
    decreases hs.len(),
{
    if hs.len() > 0 {
        lemma_sets_keep_value(set_spec(s, hs[0]), hs.drop_first());
    }
}

} // verus!
