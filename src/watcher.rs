use crate::flag::{after_call, FlagCall, TerminationFlag};
use vstd::prelude::*;

verus! {

/// What the watcher asks for after one look at the flag.
#[derive(PartialEq, Eq, Structural, Debug, Clone, Copy)]
pub enum WatchStep {
    /// Termination was observed: the watcher is done.
    Finish,
    /// Not yet: suspend for this many milliseconds, then look again.
    Sleep(u64),
}

/// Polls a termination flag at a fixed cadence.
pub struct Watcher {
    poll_interval_ms: u64,
}

/// The time at which a watcher that first looks at time `t` and then every
/// `interval` returns, when the flag becomes set at time `set_at`.
pub open spec fn return_time(interval: nat, set_at: nat, t: nat) -> nat
    recommends
        interval > 0,
    decreases set_at + interval - t,
    when interval > 0
{
    if t >= set_at {
        t
    } else {
        return_time(interval, set_at, t + interval)
    }
}

/// The number of sleeps the same watcher makes before it returns.
pub open spec fn sleeps_before_return(interval: nat, set_at: nat, t: nat) -> nat
    recommends
        interval > 0,
    decreases set_at + interval - t,
    when interval > 0
{
    if t >= set_at {
        0
    } else {
        1 + sleeps_before_return(interval, set_at, t + interval)
    }
}

/// A watcher returns no earlier than the flag is set, and less than one
/// polling interval after it.
pub proof fn lemma_bounded_latency(interval: nat, set_at: nat, t: nat)
    requires
        interval > 0,
        t < set_at + interval,
    ensures
        set_at <= return_time(interval, set_at, t),
        return_time(interval, set_at, t) < set_at + interval,
        return_time(interval, set_at, t) == t + sleeps_before_return(interval, set_at, t) * interval,
    decreases set_at + interval - t,
{
    if t < set_at {
        lemma_bounded_latency(interval, set_at, t + interval);
        let k = sleeps_before_return(interval, set_at, t + interval);
        assert(sleeps_before_return(interval, set_at, t) == 1 + k);
        assert((1 + k) * interval == interval + k * interval) by (nonlinear_arith);
    } else {
        assert(0 * interval == 0);
    }
}

/// A flag that is set before the watcher first looks makes it return at once,
/// without sleeping.
pub proof fn lemma_early_set(interval: nat, set_at: nat, t: nat)
    requires
        interval > 0,
        set_at <= t,
    ensures
        return_time(interval, set_at, t) == t,
        sleeps_before_return(interval, set_at, t) == 0,
{
}

impl Watcher {
    pub closed spec fn interval(&self) -> nat {
        self.poll_interval_ms as nat
    }

    /// A watcher that looks again every `poll_interval_ms` milliseconds.
    pub fn new(poll_interval_ms: u64) -> (r: Watcher)
        requires
            poll_interval_ms > 0,
        ensures
            r.interval() == poll_interval_ms,
    {
        Watcher { poll_interval_ms }
    }

    pub fn poll_interval_ms(&self) -> (r: u64)
        ensures
            r == self.interval(),
    {
        self.poll_interval_ms
    }

    /// One look at the flag: finish as soon as it is set, else sleep one
    /// interval.
    pub fn poll(&self, flag: &mut TerminationFlag) -> (r: WatchStep)
        ensures
            old(flag).observed() ==> r == WatchStep::Finish,
            r == WatchStep::Finish <==> final(flag).observed(),
            r != WatchStep::Finish ==> (r matches WatchStep::Sleep(d) && d == self.interval()),
            exists|cell: bool| final(flag).observed() == #[trigger] after_call(old(flag).observed(), FlagCall::Query(cell)),
    {
        self.step(flag.is_set())
    }

    /// The decision for one reading of the flag.
    pub fn step(&self, flag_set: bool) -> (r: WatchStep)
        ensures
            r == (if flag_set { WatchStep::Finish } else { WatchStep::Sleep(self.interval() as u64) }),
    {
        if flag_set {
            WatchStep::Finish
        } else {
            WatchStep::Sleep(self.poll_interval_ms)
        }
    }
}

} // verus!
