use std::sync::atomic::{AtomicBool, Ordering};
use std::sync::Arc;
use vstd::prelude::*;

verus! {

/// A handle on the process-wide termination cell.
///
/// The cell itself is an atomic boolean shared with the signal handler; the
/// handle remembers whether it has ever seen the cell set (or set it itself),
/// so that the answers of one handle never go from `true` back to `false`.
pub struct TerminationFlag {
    cell: Arc<AtomicBool>,
    observed: bool,
}

/// One call on a flag handle: `set` (`Raise`), or `is_set` (`Query`) when the
/// shared cell reads the given value.
pub enum FlagCall {
    Raise,
    Query(bool),
}

/// What the handle remembers after a call.
pub open spec fn after_call(observed: bool, call: FlagCall) -> bool {
    match call {
        FlagCall::Raise => true,
        FlagCall::Query(cell) => observed || cell,
    }
}

/// What the handle remembers after the first `n` calls of `calls`.
pub open spec fn observed_after(start: bool, calls: Seq<FlagCall>, n: nat) -> bool
    decreases n,
{
    if n == 0 || n > calls.len() {
        start
    } else {
        after_call(observed_after(start, calls, (n - 1) as nat), calls[n - 1])
    }
}

/// Once a handle has been set, every later `is_set` on it answers `true`:
/// the answer of call `j` is what the handle remembers after it.
pub proof fn lemma_set_is_permanent(start: bool, calls: Seq<FlagCall>, i: nat, j: nat)
    requires
        i < j,
        j <= calls.len(),
        calls[i as int] is Raise,
    ensures
        observed_after(start, calls, j),
    decreases j,
{
    if j == i + 1 {
    } else {
        lemma_set_is_permanent(start, calls, i, (j - 1) as nat);
    }
}

impl TerminationFlag {
    pub closed spec fn observed(&self) -> bool {
        self.observed
    }

    /// A fresh flag, not set.
    pub fn new() -> (r: TerminationFlag)
        ensures
            !r.observed(),
    {
        TerminationFlag { cell: Arc::new(AtomicBool::new(false)), observed: false }
    }

    /// Marks termination as requested. Setting twice is the same as once.
    pub fn set(&mut self)
        ensures
            final(self).observed() == after_call(old(self).observed(), FlagCall::Raise),
            final(self).observed(),
    {
        self.cell.store(true, Ordering::SeqCst);
        self.observed = true;
    }

    /// Whether termination was requested, through this handle or through the
    /// shared cell.
    pub fn is_set(&mut self) -> (r: bool)
        ensures
            old(self).observed() ==> r,
            r == final(self).observed(),
            exists|cell: bool| r == #[trigger] after_call(old(self).observed(), FlagCall::Query(cell)),
    {
        let cell = self.cell.load(Ordering::SeqCst);
        self.observe(cell)
    }

    /// Takes one reading of the shared cell: the handle is set from now on if
    /// it was before or if the cell reads `true`.
    pub fn observe(&mut self, cell: bool) -> (r: bool)
        ensures
            r == (old(self).observed() || cell),
            final(self).observed() == after_call(old(self).observed(), FlagCall::Query(cell)),
            final(self).observed() == r,
    {
        self.observed = self.observed || cell;
        self.observed
    }

    /// The shared cell, to be handed to whatever writes it on signal delivery.
    pub fn shared_cell(&self) -> (r: Arc<AtomicBool>) {
        share(&self.cell)
    }
}

/// Relies on `Arc::clone`: a second owner of the same cell.
#[verifier::external_body]
fn share(cell: &Arc<AtomicBool>) -> (r: Arc<AtomicBool>) {
    Arc::clone(cell)
}

} // verus!
