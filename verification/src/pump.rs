//! The liveness pump and its shutdown handshake, as a state machine.
//!
//! A concurrent task ticks on a fixed period and issues a best-effort
//! maintenance request on each tick, while watching a one-shot cancellation
//! signal. The owner tears the instance down by requesting cancellation and
//! waiting until the pump reports completion, so that no maintenance request
//! is issued concurrently with, or after, the instance's removal. The
//! decisions of both sides live here; the caller performs the requests,
//! delivers the events and runs the channels.

use vstd::prelude::*;

verus! {

/// State of the pump task itself.
#[derive(Clone, Copy, Debug, PartialEq, Eq, Structural)]
pub enum PumpState {
    /// Ticking and issuing maintenance requests.
    Running,
    /// Cancellation observed; the pump has reported completion and issues
    /// nothing further.
    Stopped,
}

/// What the pump observes on one iteration: its periodic tick fired, or the
/// cancellation signal arrived. When both are ready the scheduler picks one;
/// no priority between them is assumed.
#[derive(Clone, Copy, Debug, PartialEq, Eq, Structural)]
pub enum PumpEvent {
    Tick,
    CancelRequested,
}

/// What the pump does right after an observation.
#[derive(Clone, Copy, Debug, PartialEq, Eq, Structural)]
pub enum PumpAction {
    /// Issue one best-effort maintenance request; a failed request changes
    /// nothing and the next tick simply retries.
    SendMaintenance,
    /// Report completion over the rendezvous channel and terminate.
    ReportStopped,
    /// Do nothing.
    Idle,
}

/// The transition of the pump: a tick while running issues maintenance;
/// cancellation stops the pump at once, which reports completion; a stopped
/// pump does nothing ever after.
pub open spec fn spec_pump_step(st: PumpState, ev: PumpEvent) -> (PumpState, PumpAction) {
    match (st, ev) {
        (PumpState::Running, PumpEvent::Tick) => (PumpState::Running, PumpAction::SendMaintenance),
        (PumpState::Running, PumpEvent::CancelRequested) => (
            PumpState::Stopped,
            PumpAction::ReportStopped,
        ),
        (PumpState::Stopped, _) => (PumpState::Stopped, PumpAction::Idle),
    }
}

/// One observation of the pump: the next state and the action to perform.
pub fn pump_step(st: PumpState, ev: PumpEvent) -> (r: (PumpState, PumpAction))
    ensures
        r == spec_pump_step(st, ev),
{
    match (st, ev) {
        (PumpState::Running, PumpEvent::Tick) => (PumpState::Running, PumpAction::SendMaintenance),
        (PumpState::Running, PumpEvent::CancelRequested) => (
            PumpState::Stopped,
            PumpAction::ReportStopped,
        ),
        (PumpState::Stopped, _) => (PumpState::Stopped, PumpAction::Idle),
    }
}

/// The state after the pump has observed a sequence of events.
pub open spec fn spec_pump_run(st: PumpState, evs: Seq<PumpEvent>) -> PumpState
    decreases evs.len(),
{
    if evs.len() == 0 {
        st
    } else {
        spec_pump_run(spec_pump_step(st, evs.first()).0, evs.drop_first())
    }
}

/// The actions the pump performs while observing a sequence of events, in
/// order.
pub open spec fn spec_pump_actions(st: PumpState, evs: Seq<PumpEvent>) -> Seq<PumpAction>
    decreases evs.len(),
{
    if evs.len() == 0 {
        Seq::empty()
    } else {
        seq![spec_pump_step(st, evs.first()).1] + spec_pump_actions(
            spec_pump_step(st, evs.first()).0,
            evs.drop_first(),
        )
    }
}

/// A run observes one action per event.
pub proof fn lemma_pump_actions_len(st: PumpState, evs: Seq<PumpEvent>)
    ensures
        spec_pump_actions(st, evs).len() == evs.len(),
    decreases evs.len(),
{
    if evs.len() > 0 {
        lemma_pump_actions_len(spec_pump_step(st, evs.first()).0, evs.drop_first());
    }
}

/// Law: a stopped pump stays stopped and never issues maintenance again,
/// whatever it observes.
pub proof fn lemma_stopped_is_terminal(evs: Seq<PumpEvent>)
    ensures
        spec_pump_run(PumpState::Stopped, evs) == PumpState::Stopped,
        forall|j: int|
            0 <= j < spec_pump_actions(PumpState::Stopped, evs).len() ==> #[trigger] spec_pump_actions(
                PumpState::Stopped,
                evs,
            )[j] != PumpAction::SendMaintenance,
    decreases evs.len(),
{
    if evs.len() > 0 {
        lemma_stopped_is_terminal(evs.drop_first());
        assert forall|j: int| 0 <= j < spec_pump_actions(PumpState::Stopped, evs).len() implies #[trigger] spec_pump_actions(
            PumpState::Stopped,
            evs,
        )[j] != PumpAction::SendMaintenance by {
            if j > 0 {
                assert(spec_pump_actions(PumpState::Stopped, evs)[j] == spec_pump_actions(
                    PumpState::Stopped,
                    evs.drop_first(),
                )[j - 1]);
            }
        }
    }
}

/// Law: cancellation terminates the pump within one observation. In
/// whatever state the cancellation signal is observed, the next state is
/// stopped, and a running pump reports completion at that observation; so
/// the owner's wait for the completion report is bounded by one tick
/// interval.
pub proof fn lemma_cancel_stops_at_once(st: PumpState)
    ensures
        spec_pump_step(st, PumpEvent::CancelRequested).0 == PumpState::Stopped,
        st == PumpState::Running ==> spec_pump_step(st, PumpEvent::CancelRequested).1
            == PumpAction::ReportStopped,
{
}

/// Law: after the observation of a cancellation no maintenance is ever
/// issued: every later action of the run differs from maintenance. A tick
/// observed before the cancellation (one already in flight when it was
/// requested) is not suppressed; nothing follows the cancellation.
pub proof fn lemma_no_maintenance_after_cancel(st: PumpState, evs: Seq<PumpEvent>, i: int)
    requires
        0 <= i < evs.len(),
        evs[i] == PumpEvent::CancelRequested,
    ensures
        spec_pump_run(st, evs) == PumpState::Stopped,
        forall|j: int|
            i < j < spec_pump_actions(st, evs).len() ==> #[trigger] spec_pump_actions(st, evs)[j]
                != PumpAction::SendMaintenance,
    decreases evs.len(),
{
    lemma_pump_actions_len(st, evs);
    let st1 = spec_pump_step(st, evs.first()).0;
    if i == 0 {
        assert(st1 == PumpState::Stopped);
        lemma_stopped_is_terminal(evs.drop_first());
        lemma_pump_actions_len(PumpState::Stopped, evs.drop_first());
        assert forall|j: int| 0 < j < spec_pump_actions(st, evs).len() implies #[trigger] spec_pump_actions(
            st,
            evs,
        )[j] != PumpAction::SendMaintenance by {
            assert(spec_pump_actions(st, evs)[j] == spec_pump_actions(
                PumpState::Stopped,
                evs.drop_first(),
            )[j - 1]);
        }
    } else {
        assert(evs.drop_first()[i - 1] == evs[i]);
        lemma_no_maintenance_after_cancel(st1, evs.drop_first(), i - 1);
        lemma_pump_actions_len(st1, evs.drop_first());
        assert forall|j: int| i < j < spec_pump_actions(st, evs).len() implies #[trigger] spec_pump_actions(
            st,
            evs,
        )[j] != PumpAction::SendMaintenance by {
            assert(spec_pump_actions(st, evs)[j] == spec_pump_actions(
                st1,
                evs.drop_first(),
            )[j - 1]);
        }
    }
}

/// The teardown handshake as the owning handle sees it: teardown requests
/// cancellation, then blocks until the pump reports completion, and only
/// then may resources be released.
#[derive(Clone, Copy, Debug, PartialEq, Eq, Structural)]
pub enum HandleState {
    /// The pump is attached and may be issuing maintenance.
    Running,
    /// Cancellation has been sent; the completion report is awaited.
    ShutdownRequested,
    /// The pump has reported completion; releasing resources is safe.
    Stopped,
}

/// The owner's side of the shutdown handshake. The contracts force the
/// order: request cancellation first, then await the completion report,
/// each exactly once.
pub struct ShutdownCoordinator {
    pub state: HandleState,
}

impl ShutdownCoordinator {
    /// A coordinator for a freshly attached pump.
    pub fn new() -> (r: ShutdownCoordinator)
        ensures
            r.state == HandleState::Running,
    {
        ShutdownCoordinator { state: HandleState::Running }
    }

    /// Records that the cancellation signal has been sent to the pump.
    pub fn request_stop(&mut self)
        requires
            old(self).state == HandleState::Running,
        ensures
            final(self).state == HandleState::ShutdownRequested,
    {
        self.state = HandleState::ShutdownRequested;
    }

    /// Records that the pump has reported completion over the rendezvous
    /// channel. Only from here on may the instance be removed: together
    /// with [`lemma_no_maintenance_after_cancel`] this is the guarantee
    /// that no maintenance request is issued concurrently with, or after,
    /// the removal.
    pub fn mark_stopped(&mut self)
        requires
            old(self).state == HandleState::ShutdownRequested,
        ensures
            final(self).state == HandleState::Stopped,
    {
        self.state = HandleState::Stopped;
    }

    /// Whether the pump has reported completion.
    pub fn is_stopped(&self) -> (r: bool)
        ensures
            r == (self.state == HandleState::Stopped),
    {
        match self.state {
            HandleState::Stopped => true,
            _ => false,
        }
    }
}

} // verus!
