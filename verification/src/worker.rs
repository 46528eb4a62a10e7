//! The worker loop as a state machine: from its state and what happened, the next state and
//! what to do. Waiting and logging are left to the caller.

use vstd::prelude::*;

use crate::settings::UNKNOWN;

verus! {

/// Where the worker stands.
#[derive(Debug, Clone, Copy, PartialEq, Eq, Structural)]
pub enum WorkerState {
    /// Not started yet.
    Idle,
    /// Reporting, then waiting for the interval to elapse or for a shutdown.
    Running,
    /// Shut down; nothing more happens.
    Stopped,
}

/// What happened.
#[derive(Debug, Clone, Copy, PartialEq, Eq, Structural)]
pub enum WorkerEvent {
    /// The worker is asked to start.
    Start,
    /// The interval between two reports elapsed.
    IntervalElapsed,
    /// A shutdown was signalled (SIGINT or SIGTERM), or its sender is gone.
    ShutdownSignalled,
}

/// What the worker does next, in order.
#[derive(Debug, Clone, Copy, PartialEq, Eq, Structural)]
pub enum WorkerAction {
    /// Log that the worker started, with its configuration.
    LogStarted,
    /// Log the greeting, the runtime and the build provenance.
    LogIteration,
    /// Wait this many seconds, unless a shutdown comes first.
    Wait(u64),
    /// Log that the worker is stopping.
    LogStopping,
}

/// The next state and the actions for an event, with `interval_seconds` between reports:
/// a start reports at once and waits; each elapsed interval reports again and waits; a
/// shutdown of a running worker stops it. Any other event leaves the state as it is and does
/// nothing.
pub open spec fn transition(state: WorkerState, event: WorkerEvent, interval_seconds: u64) -> (
    WorkerState,
    Seq<WorkerAction>,
) {
    match (state, event) {
        (WorkerState::Idle, WorkerEvent::Start) => (
            WorkerState::Running,
            seq![WorkerAction::LogStarted, WorkerAction::LogIteration, WorkerAction::Wait(interval_seconds)],
        ),
        (WorkerState::Running, WorkerEvent::IntervalElapsed) => (
            WorkerState::Running,
            seq![WorkerAction::LogIteration, WorkerAction::Wait(interval_seconds)],
        ),
        (WorkerState::Running, WorkerEvent::ShutdownSignalled) => (
            WorkerState::Stopped,
            seq![WorkerAction::LogStopping],
        ),
        _ => (state, Seq::empty()),
    }
}

/// Takes one step of the worker loop.
pub fn step(state: WorkerState, event: WorkerEvent, interval_seconds: u64) -> (r: (
    WorkerState,
    Vec<WorkerAction>,
))
    ensures
        (r.0, r.1@) == transition(state, event, interval_seconds),
{
    match (state, event) {
        (WorkerState::Idle, WorkerEvent::Start) => (
            WorkerState::Running,
            vec![WorkerAction::LogStarted, WorkerAction::LogIteration, WorkerAction::Wait(interval_seconds)],
        ),
        (WorkerState::Running, WorkerEvent::IntervalElapsed) => (
            WorkerState::Running,
            vec![WorkerAction::LogIteration, WorkerAction::Wait(interval_seconds)],
        ),
        (WorkerState::Running, WorkerEvent::ShutdownSignalled) => (
            WorkerState::Stopped,
            vec![WorkerAction::LogStopping],
        ),
        _ => (state, Vec::new()),
    }
}


/// The program name that the reports carry: the file name of the running executable where it
/// is known, [`UNKNOWN`] otherwise.
pub fn executable_name(file_name: Option<String>) -> (r: String)
    ensures
        r@ == (match file_name {
            Some(name) => name@,
            None => UNKNOWN@,
        }),
{
    match file_name {
        Some(name) => name,
        None => UNKNOWN.to_owned(),
    }
}

/// The final state and every action, in order, of a worker that starts in `state` and sees
/// `events` one after the other.
pub open spec fn run(state: WorkerState, events: Seq<WorkerEvent>, interval_seconds: u64) -> (
    WorkerState,
    Seq<WorkerAction>,
)
    decreases events.len(),
{
    if events.len() == 0 {
        (state, Seq::empty())
    } else {
        let (next, actions) = transition(state, events[0], interval_seconds);
        let (last, rest) = run(next, events.drop_first(), interval_seconds);
        (last, actions + rest)
    }
}

/// A stopped worker stays stopped and does nothing more, whatever happens.
pub proof fn stopped_worker_stays_stopped(events: Seq<WorkerEvent>, interval_seconds: u64)
    ensures
        run(WorkerState::Stopped, events, interval_seconds) == (WorkerState::Stopped, Seq::<WorkerAction>::empty()),
    decreases events.len(),
{
    if events.len() > 0 {
        stopped_worker_stays_stopped(events.drop_first(), interval_seconds);
        assert(Seq::<WorkerAction>::empty() + Seq::<WorkerAction>::empty() =~= Seq::<WorkerAction>::empty());
    }
}

/// A shutdown stops a running worker cleanly: it logs that it stops, and nothing follows,
/// whatever happens afterwards.
pub proof fn shutdown_stops_the_worker(later: Seq<WorkerEvent>, interval_seconds: u64)
    ensures
        run(WorkerState::Running, seq![WorkerEvent::ShutdownSignalled] + later, interval_seconds)
            == (WorkerState::Stopped, seq![WorkerAction::LogStopping]),
{
    let events = seq![WorkerEvent::ShutdownSignalled] + later;
    assert(events[0] == WorkerEvent::ShutdownSignalled);
    assert(events.drop_first() =~= later);
    stopped_worker_stays_stopped(later, interval_seconds);
    assert(seq![WorkerAction::LogStopping] + Seq::<WorkerAction>::empty() =~= seq![WorkerAction::LogStopping]);
}

/// Every wait of the worker lasts the configured interval.
pub proof fn every_wait_lasts_the_interval(
    state: WorkerState,
    events: Seq<WorkerEvent>,
    interval_seconds: u64,
)
    ensures
        forall|i: int|
            0 <= i < run(state, events, interval_seconds).1.len() ==> (#[trigger] run(
                state,
                events,
                interval_seconds,
            ).1[i] matches WorkerAction::Wait(seconds) ==> seconds == interval_seconds),
    decreases events.len(),
{
    if events.len() > 0 {
        let (next, actions) = transition(state, events[0], interval_seconds);
        every_wait_lasts_the_interval(next, events.drop_first(), interval_seconds);
        let rest = run(next, events.drop_first(), interval_seconds).1;
        assert forall|i: int| 0 <= i < (actions + rest).len() implies (#[trigger] (actions
            + rest)[i] matches WorkerAction::Wait(seconds) ==> seconds == interval_seconds) by {
            if i >= actions.len() {
                assert((actions + rest)[i] == rest[i - actions.len()]);
            }
        }
    }
}

/// The worker reports before every wait: in any run, each `Wait` comes right after a
/// `LogIteration`, so every elapsed interval of a running worker logs the greeting and the
/// provenance again.
pub proof fn every_wait_follows_a_report(
    state: WorkerState,
    events: Seq<WorkerEvent>,
    interval_seconds: u64,
)
    ensures
        forall|i: int|
            0 <= i < run(state, events, interval_seconds).1.len() && #[trigger] run(
                state,
                events,
                interval_seconds,
            ).1[i] is Wait ==> i > 0 && run(state, events, interval_seconds).1[i - 1]
                == WorkerAction::LogIteration,
    decreases events.len(),
{
    if events.len() > 0 {
        let (next, actions) = transition(state, events[0], interval_seconds);
        every_wait_follows_a_report(next, events.drop_first(), interval_seconds);
        let rest = run(next, events.drop_first(), interval_seconds).1;
        let all = actions + rest;
        assert forall|i: int| 0 <= i < all.len() && #[trigger] all[i] is Wait implies i > 0
            && all[i - 1] == WorkerAction::LogIteration by {
            if i >= actions.len() {
                assert(all[i] == rest[i - actions.len()]);
                assert(all[i - 1] == rest[i - 1 - actions.len()]);
            }
        }
    }
}

/// `n` elapsed intervals, one after the other.
pub open spec fn elapsed_intervals(n: nat) -> Seq<WorkerEvent> {
    Seq::new(n, |i: int| WorkerEvent::IntervalElapsed)
}

/// A running worker that sees `n` elapsed intervals stays running and, for each of them,
/// reports and then waits the interval.
pub proof fn running_worker_reports_every_interval(n: nat, interval_seconds: u64)
    ensures
        run(WorkerState::Running, elapsed_intervals(n), interval_seconds).0
            == WorkerState::Running,
        run(WorkerState::Running, elapsed_intervals(n), interval_seconds).1.len()
            == 2 * n,
        forall|k: int|
            0 <= k < n ==> {
                &&& #[trigger] run(
                    WorkerState::Running,
                    elapsed_intervals(n),
                    interval_seconds,
                ).1[2 * k] == WorkerAction::LogIteration
                &&& run(
                    WorkerState::Running,
                    elapsed_intervals(n),
                    interval_seconds,
                ).1[2 * k + 1] == WorkerAction::Wait(interval_seconds)
            },
    decreases n,
{
    let events = elapsed_intervals(n);
    if n > 0 {
        let m = (n - 1) as nat;
        running_worker_reports_every_interval(m, interval_seconds);
        let tail = elapsed_intervals(m);
        assert(events.drop_first() =~= tail);
        assert(events[0] == WorkerEvent::IntervalElapsed);
        let head = seq![WorkerAction::LogIteration, WorkerAction::Wait(interval_seconds)];
        let rest = run(WorkerState::Running, tail, interval_seconds).1;
        assert(run(WorkerState::Running, events, interval_seconds).1 == head + rest);
        assert forall|k: int| 0 <= k < n implies {
            &&& #[trigger] (head + rest)[2 * k] == WorkerAction::LogIteration
            &&& (head + rest)[2 * k + 1] == WorkerAction::Wait(interval_seconds)
        } by {
            if k > 0 {
                assert((head + rest)[2 * k] == rest[2 * (k - 1)]);
                assert((head + rest)[2 * k + 1] == rest[2 * (k - 1) + 1]);
            }
        }
    } else {
        assert(events.len() == 0);
    }
}

/// A worker that starts reports at once, before any shutdown can stop it.
pub proof fn start_reports_at_once(interval_seconds: u64)
    ensures
        transition(WorkerState::Idle, WorkerEvent::Start, interval_seconds).1.take(2)
            == seq![WorkerAction::LogStarted, WorkerAction::LogIteration],
{
    assert(transition(WorkerState::Idle, WorkerEvent::Start, interval_seconds).1.take(2)
        =~= seq![WorkerAction::LogStarted, WorkerAction::LogIteration]);
}

} // verus!
