use daphne_interop::pump::{
    pump_step, HandleState, PumpAction, PumpEvent, PumpState, ShutdownCoordinator,
};

fn run(events: &[PumpEvent]) -> (PumpState, Vec<PumpAction>) {
    let mut state = PumpState::Running;
    let mut actions = Vec::new();
    for ev in events {
        let (next, action) = pump_step(state, *ev);
        state = next;
        actions.push(action);
    }
    (state, actions)
}

#[test]
fn ticks_send_maintenance_while_running() {
    let (state, actions) = run(&[PumpEvent::Tick, PumpEvent::Tick, PumpEvent::Tick]);
    assert_eq!(state, PumpState::Running);
    assert_eq!(
        actions,
        vec![
            PumpAction::SendMaintenance,
            PumpAction::SendMaintenance,
            PumpAction::SendMaintenance,
        ]
    );
}

#[test]
fn cancellation_stops_within_one_observation() {
    let (state, actions) = run(&[PumpEvent::Tick, PumpEvent::CancelRequested]);
    assert_eq!(state, PumpState::Stopped);
    assert_eq!(actions[1], PumpAction::ReportStopped);
}

#[test]
fn no_maintenance_after_cancellation() {
    let events = [
        PumpEvent::Tick,
        PumpEvent::Tick,
        PumpEvent::CancelRequested,
        PumpEvent::Tick,
        PumpEvent::Tick,
        PumpEvent::CancelRequested,
        PumpEvent::Tick,
    ];
    let (state, actions) = run(&events);
    assert_eq!(state, PumpState::Stopped);
    let cancel_at = 2;
    let maintenance_after = actions[cancel_at + 1..]
        .iter()
        .filter(|a| **a == PumpAction::SendMaintenance)
        .count();
    assert_eq!(maintenance_after, 0);
    // Ticks before the cancellation (already in flight) did send.
    assert_eq!(actions[0], PumpAction::SendMaintenance);
    assert_eq!(actions[1], PumpAction::SendMaintenance);
}

#[test]
fn coordinator_handshake_runs_in_order() {
    let mut coordinator = ShutdownCoordinator::new();
    assert_eq!(coordinator.state, HandleState::Running);
    assert!(!coordinator.is_stopped());
    coordinator.request_stop();
    assert_eq!(coordinator.state, HandleState::ShutdownRequested);
    assert!(!coordinator.is_stopped());
    coordinator.mark_stopped();
    assert_eq!(coordinator.state, HandleState::Stopped);
    assert!(coordinator.is_stopped());
}
