use multi_arch_container_rust::worker::{executable_name, step, WorkerAction, WorkerEvent, WorkerState};

#[test]
fn start_reports_then_waits() {
    let (state, actions) = step(WorkerState::Idle, WorkerEvent::Start, 3);
    assert_eq!(state, WorkerState::Running);
    assert_eq!(
        actions,
        vec![
            WorkerAction::LogStarted,
            WorkerAction::LogIteration,
            WorkerAction::Wait(3)
        ]
    );
}

#[test]
fn elapsed_interval_reports_again() {
    let (state, actions) = step(WorkerState::Running, WorkerEvent::IntervalElapsed, 10);
    assert_eq!(state, WorkerState::Running);
    assert_eq!(actions, vec![WorkerAction::LogIteration, WorkerAction::Wait(10)]);
}

#[test]
fn shutdown_stops() {
    let (state, actions) = step(WorkerState::Running, WorkerEvent::ShutdownSignalled, 10);
    assert_eq!(state, WorkerState::Stopped);
    assert_eq!(actions, vec![WorkerAction::LogStopping]);
}

#[test]
fn stopped_worker_does_nothing() {
    for event in [
        WorkerEvent::Start,
        WorkerEvent::IntervalElapsed,
        WorkerEvent::ShutdownSignalled,
    ] {
        let (state, actions) = step(WorkerState::Stopped, event, 3);
        assert_eq!(state, WorkerState::Stopped);
        assert!(actions.is_empty());
    }
}

#[test]
fn unexpected_events_change_nothing() {
    let (state, actions) = step(WorkerState::Idle, WorkerEvent::IntervalElapsed, 3);
    assert_eq!(state, WorkerState::Idle);
    assert!(actions.is_empty());
    let (state, actions) = step(WorkerState::Running, WorkerEvent::Start, 3);
    assert_eq!(state, WorkerState::Running);
    assert!(actions.is_empty());
}

#[test]
fn a_whole_run() {
    let events = [
        WorkerEvent::Start,
        WorkerEvent::IntervalElapsed,
        WorkerEvent::ShutdownSignalled,
        WorkerEvent::IntervalElapsed,
    ];
    let mut state = WorkerState::Idle;
    let mut all = Vec::new();
    for event in events {
        let (next, actions) = step(state, event, 5);
        state = next;
        all.extend(actions);
    }
    assert_eq!(state, WorkerState::Stopped);
    assert_eq!(
        all,
        vec![
            WorkerAction::LogStarted,
            WorkerAction::LogIteration,
            WorkerAction::Wait(5),
            WorkerAction::LogIteration,
            WorkerAction::Wait(5),
            WorkerAction::LogStopping
        ]
    );
}

#[test]
fn executable_name_falls_back_to_placeholder() {
    assert_eq!(executable_name(Some("worker".to_owned())), "worker");
    assert_eq!(executable_name(None), "n/a");
}
