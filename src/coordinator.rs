use crate::operation::{failure_text, lemma_failure_text_holds_both, Cli, OperationError, SelectionError};
use crate::watcher::{lemma_bounded_latency, return_time};
use vstd::prelude::*;

verus! {

/// Where one process lifetime stands.
#[derive(PartialEq, Eq, Structural, Debug, Clone, Copy)]
pub enum Phase {
    /// The command line has not been turned into an operation yet.
    Selecting,
    /// The watcher and the operation are both running.
    Racing,
    /// The outcome is decided; whatever still runs is abandoned.
    Done,
}

/// The completion of one of the two racing tasks.
#[derive(Debug)]
pub enum RaceEvent {
    WatcherFinished,
    OperationFinished(Result<(), OperationError>),
}

/// What the host does with the command line's selection.
#[derive(Debug)]
pub enum Start<Op> {
    /// Start the watcher, polling at this interval, and run this operation.
    Launch { operation: Op, poll_interval_ms: u64 },
    /// No operation was selected: report the usage error; nothing is started.
    Reject(SelectionError),
}

/// What the host does on a task's completion.
#[derive(Debug)]
pub enum Action {
    /// Termination won the race: tell the user the operation is abandoned.
    Abandon,
    /// The operation won the race and succeeded.
    Succeed,
    /// The operation won the race and failed: report this text.
    Fail(String),
    /// The race is already decided: this late completion is not reported.
    Ignore,
}

/// The notice printed when termination wins the race.
pub const ABANDON_NOTICE: &'static str = "termination observed, operation task abandoned";

/// The decisions of one process lifetime: select, race, report once.
pub struct Coordinator {
    phase: Phase,
    poll_interval_ms: u64,
    launches: u64,
    watchers: u64,
}

impl<Op> Start<Op> {
    pub open spec fn exit_code_spec(&self) -> i32 {
        if self is Reject {
            2
        } else {
            0
        }
    }

    /// The process exit status when the lifetime ends here: non-zero for a
    /// rejected selection.
    pub fn exit_code(&self) -> (r: i32)
        ensures
            r == self.exit_code_spec(),
    {
        match self {
            Start::Reject(_) => 2,
            Start::Launch { .. } => 0,
        }
    }
}

impl Action {
    /// The process exit status that goes with this action: non-zero for a
    /// failed operation.
    pub fn exit_code(&self) -> (r: i32)
        ensures
            r == (if self is Fail { 1i32 } else { 0i32 }),
    {
        match self {
            Action::Fail(_) => 1,
            _ => 0,
        }
    }
}

impl Coordinator {
    pub closed spec fn phase_spec(&self) -> Phase {
        self.phase
    }

    /// How many times the operation has been handed out to run.
    pub closed spec fn launches_spec(&self) -> nat {
        self.launches as nat
    }

    /// How many watchers have been started.
    pub closed spec fn watchers_spec(&self) -> nat {
        self.watchers as nat
    }

    pub closed spec fn interval(&self) -> nat {
        self.poll_interval_ms as nat
    }

    /// The counts of a coordinator always agree with its phase.
    pub open spec fn wf(&self) -> bool {
        &&& self.launches_spec() == self.watchers_spec()
        &&& self.launches_spec() <= 1
        &&& (self.phase_spec() == Phase::Selecting ==> self.launches_spec() == 0)
        &&& (self.phase_spec() == Phase::Racing ==> self.launches_spec() == 1)
    }

    /// A coordinator that will poll for termination every `poll_interval_ms`.
    pub fn new(poll_interval_ms: u64) -> (r: Coordinator)
        requires
            poll_interval_ms > 0,
        ensures
            r.wf(),
            r.phase_spec() == Phase::Selecting,
            r.launches_spec() == 0,
            r.interval() == poll_interval_ms,
    {
        Coordinator { phase: Phase::Selecting, poll_interval_ms, launches: 0, watchers: 0 }
    }

    pub fn phase(&self) -> (r: Phase)
        ensures
            r == self.phase_spec(),
    {
        self.phase
    }

    pub fn launches(&self) -> (r: u64)
        ensures
            r == self.launches_spec(),
    {
        self.launches
    }

    pub fn watchers(&self) -> (r: u64)
        ensures
            r == self.watchers_spec(),
    {
        self.watchers
    }

    /// Takes the outcome of parsing the command line. An operation starts the
    /// race; a failure ends the lifetime before any task is started.
    pub fn on_selection<Op>(&mut self, selection: Result<Op, SelectionError>) -> (r: Start<Op>)
        requires
            old(self).wf(),
            old(self).phase_spec() == Phase::Selecting,
        ensures
            final(self).wf(),
            final(self).interval() == old(self).interval(),
            match selection {
                Ok(op) => {
                    &&& r matches Start::Launch { operation, poll_interval_ms }
                        && operation == op && poll_interval_ms == old(self).interval()
                    &&& final(self).phase_spec() == Phase::Racing
                    &&& final(self).launches_spec() == 1
                },
                Err(e) => {
                    &&& r == Start::<Op>::Reject(e)
                    &&& final(self).phase_spec() == Phase::Done
                    &&& final(self).launches_spec() == 0
                    &&& final(self).watchers_spec() == 0
                },
            },
    {
        match selection {
            Ok(operation) => {
                self.phase = Phase::Racing;
                self.launches = 1;
                self.watchers = 1;
                Start::Launch { operation, poll_interval_ms: self.poll_interval_ms }
            },
            Err(e) => {
                self.phase = Phase::Done;
                Start::Reject(e)
            },
        }
    }

    /// Takes the command line's selection among the registered operations.
    /// None is registered, so the selection always fails here: the lifetime
    /// ends with the usage error, and neither a watcher nor an operation starts.
    pub fn on_cli_selection(&mut self, selection: Result<Cli, SelectionError>) -> (r: Start<Cli>)
        requires
            old(self).wf(),
            old(self).phase_spec() == Phase::Selecting,
        ensures
            final(self).wf(),
            final(self).interval() == old(self).interval(),
            selection is Err,
            r == Start::<Cli>::Reject(selection->Err_0),
            r.exit_code_spec() != 0,
            final(self).phase_spec() == Phase::Done,
            final(self).launches_spec() == 0,
            final(self).watchers_spec() == 0,
    {
        match &selection {
            Ok(Cli::Unregistered(v)) => {
                proof {
                    use_type_invariant(v);
                }
            },
            Err(_) => {},
        }
        self.on_selection(selection)
    }

    /// Takes the completion of a task. The first completion during the race
    /// decides; every later one is ignored.
    pub fn on_event(&mut self, event: RaceEvent) -> (r: Action)
        requires
            old(self).wf(),
        ensures
            Self::advances(*old(self), *final(self)),
            Self::step(old(self).phase_spec(), event, r),
    {
        if self.phase != Phase::Racing {
            return Action::Ignore;
        }
        self.phase = Phase::Done;
        match event {
            RaceEvent::WatcherFinished => Action::Abandon,
            RaceEvent::OperationFinished(Ok(())) => Action::Succeed,
            RaceEvent::OperationFinished(Err(e)) => Action::Fail(e.message()),
        }
    }

    /// How a completion moves a coordinator: the race ends at the first one,
    /// and nothing else changes.
    pub open spec fn advances(before: Coordinator, after: Coordinator) -> bool {
        &&& after.wf()
        &&& after.launches_spec() == before.launches_spec()
        &&& after.watchers_spec() == before.watchers_spec()
        &&& after.interval() == before.interval()
        &&& after.phase_spec() == (if before.phase_spec() == Phase::Racing {
            Phase::Done
        } else {
            before.phase_spec()
        })
    }

    /// Whether `action` is what a coordinator in `phase` does on `event`.
    pub open spec fn step(phase: Phase, event: RaceEvent, action: Action) -> bool {
        if phase != Phase::Racing {
            action is Ignore
        } else {
            match event {
                RaceEvent::WatcherFinished => action is Abandon,
                RaceEvent::OperationFinished(Ok(())) => action is Succeed,
                RaceEvent::OperationFinished(Err(e)) => action matches Action::Fail(text)
                    && text@ == failure_text(e.operation@, e.cause@),
            }
        }
    }
}

/// The order in which the two tasks complete: the operation at `op_at`, the
/// watcher (polling every `interval` from time zero) once it sees a flag set at
/// `set_at`, if ever. On a tie the operation is taken first.
pub open spec fn completion_order(
    interval: nat,
    set_at: Option<nat>,
    op_at: nat,
    result: Result<(), OperationError>,
) -> Seq<RaceEvent> {
    match set_at {
        None => seq![RaceEvent::OperationFinished(result)],
        Some(s) => if return_time(interval, s, 0) < op_at {
            seq![RaceEvent::WatcherFinished, RaceEvent::OperationFinished(result)]
        } else {
            seq![RaceEvent::OperationFinished(result), RaceEvent::WatcherFinished]
        },
    }
}

/// The phase in which a coordinator meets the `i`-th completion of a race.
pub open spec fn phase_at(i: int) -> Phase {
    if i == 0 {
        Phase::Racing
    } else {
        Phase::Done
    }
}

/// `actions` are a racing coordinator's answers to `events`, one each.
pub open spec fn answers(events: Seq<RaceEvent>, actions: Seq<Action>) -> bool {
    &&& actions.len() == events.len()
    &&& forall|i: int| 0 <= i < events.len() ==> Coordinator::step(phase_at(i), #[trigger] events[i], actions[i])
}

/// `action` reports `result`: success silently, a failure with its text.
pub open spec fn reports(action: Action, result: Result<(), OperationError>) -> bool {
    match result {
        Ok(()) => action is Succeed,
        Err(e) => action matches Action::Fail(text) && text@ == failure_text(e.operation@, e.cause@),
    }
}

/// An operation that completes before the flag is ever set has its result
/// reported and no abandonment notice is given. When the watcher returns
/// before the operation completes, the notice is given first and the result
/// is never reported.
pub proof fn lemma_race_outcome(
    interval: nat,
    set_at: Option<nat>,
    op_at: nat,
    result: Result<(), OperationError>,
    actions: Seq<Action>,
)
    requires
        interval > 0,
        answers(completion_order(interval, set_at, op_at, result), actions),
    ensures
        (set_at is None || op_at < set_at->0) ==> {
            &&& reports(actions[0], result)
            &&& forall|i: int| 0 <= i < actions.len() ==> !(#[trigger] actions[i] is Abandon)
        },
        (set_at is Some && return_time(interval, set_at->0, 0) < op_at) ==> {
            &&& actions[0] is Abandon
            &&& forall|i: int| 1 <= i < actions.len() ==> #[trigger] actions[i] is Ignore
        },
{
    let events = completion_order(interval, set_at, op_at, result);
    assert(Coordinator::step(phase_at(0), events[0], actions[0]));
    if events.len() > 1 {
        assert(Coordinator::step(phase_at(1), events[1], actions[1]));
    }
    if let Some(s) = set_at {
        lemma_bounded_latency(interval, s, 0);
    }
}

proof fn lemma_launched_once_at(states: Seq<Coordinator>, i: int)
    requires
        0 <= i < states.len(),
        states[0].wf(),
        states[0].phase_spec() == Phase::Racing,
        forall|k: int| 0 <= k < states.len() - 1 ==> Coordinator::advances(#[trigger] states[k], states[k + 1]),
    ensures
        states[i].launches_spec() == 1,
        states[i].watchers_spec() == 1,
        states[i].phase_spec() != Phase::Selecting,
    decreases i,
{
    if i > 0 {
        lemma_launched_once_at(states, i - 1);
        assert(Coordinator::advances(states[i - 1], states[i]));
    }
}

/// An operation that fails during the race is reported by a text that holds
/// the attempted operation's name and the whole cause.
pub proof fn lemma_failure_reported_with_context(error: OperationError, action: Action)
    requires
        Coordinator::step(Phase::Racing, RaceEvent::OperationFinished(Err(error)), action),
    ensures
        action is Fail,
        ({
            let text = action->Fail_0@;
            let start: int = "failed to run "@.len() as int;
            &&& text.subrange(start, start + error.operation@.len()) == error.operation@
            &&& text.subrange(text.len() - error.cause@.len(), text.len() as int) == error.cause@
        }),
{
    lemma_failure_text_holds_both(error.operation@, error.cause@);
}

/// A lifetime whose selection launched the operation keeps that single launch
/// whatever completions follow, and never returns to selecting, the only
/// phase in which an operation is handed out.
pub proof fn lemma_launched_once(states: Seq<Coordinator>)
    requires
        states.len() > 0,
        states[0].wf(),
        states[0].phase_spec() == Phase::Racing,
        forall|i: int| 0 <= i < states.len() - 1 ==> Coordinator::advances(#[trigger] states[i], states[i + 1]),
    ensures
        forall|i: int| 0 <= i < states.len() ==> {
            &&& (#[trigger] states[i]).launches_spec() == 1
            &&& states[i].watchers_spec() == 1
            &&& states[i].phase_spec() != Phase::Selecting
        },
{
    assert forall|i: int| 0 <= i < states.len() implies {
        &&& (#[trigger] states[i]).launches_spec() == 1
        &&& states[i].watchers_spec() == 1
        &&& states[i].phase_spec() != Phase::Selecting
    } by {
        lemma_launched_once_at(states, i);
    }
}

} // verus!
