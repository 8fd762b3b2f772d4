use vstd::prelude::*;

verus! {

/// Where a task that runs a guest on its own stack stands.
#[derive(Debug, Clone, Copy, PartialEq, Eq, Structural)]
pub enum Phase {
    /// The guest has not been entered yet.
    NotStarted,
    /// Control is on the guest stack.
    Running,
    /// The guest waits, suspended, for an inner future.
    SuspendedAwait,
    /// The guest has returned its result.
    Finished,
}

/// What the host side learns next.
#[derive(Debug, Clone, Copy, PartialEq, Eq, Structural)]
pub enum PollEvent {
    /// The executor polls the task.
    Poll,
    /// Control came back from the guest because it suspended on a future.
    GuestSuspended,
    /// Control came back from the guest because it returned.
    GuestReturned,
    /// The inner future was polled and is ready; its value has been stashed
    /// for the guest.
    InnerReady,
    /// The inner future was polled and is pending.
    InnerPending,
}

/// What the host side does next.
#[derive(Debug, Clone, Copy, PartialEq, Eq, Structural)]
pub enum PollAction {
    /// Park the stack for the fault handler and switch to the guest.
    SwitchToGuest,
    /// Poll the inner future with the executor's waker.
    PollInner,
    /// Answer the executor's poll with "pending".
    ReportPending,
    /// Answer the executor's poll with the guest's result.
    ReportReady,
}

/// The events that can come in each phase. A poll never arrives while the
/// guest runs; control comes back from the guest only while it runs; an
/// inner future is polled only while the guest waits on one.
pub open spec fn event_expected(p: Phase, e: PollEvent) -> bool {
    match e {
        PollEvent::Poll => !(p is Running),
        PollEvent::GuestSuspended | PollEvent::GuestReturned => p is Running,
        PollEvent::InnerReady | PollEvent::InnerPending => p is SuspendedAwait,
    }
}

/// The next phase and action for event `e` in phase `p`.
pub open spec fn transition(p: Phase, e: PollEvent) -> (Phase, PollAction) {
    match (p, e) {
        (Phase::NotStarted, PollEvent::Poll) => (Phase::Running, PollAction::SwitchToGuest),
        (Phase::SuspendedAwait, PollEvent::Poll) => (Phase::SuspendedAwait, PollAction::PollInner),
        (Phase::Finished, PollEvent::Poll) => (Phase::Finished, PollAction::ReportReady),
        (_, PollEvent::GuestSuspended) => (Phase::SuspendedAwait, PollAction::PollInner),
        (_, PollEvent::GuestReturned) => (Phase::Finished, PollAction::ReportReady),
        (_, PollEvent::InnerReady) => (Phase::Running, PollAction::SwitchToGuest),
        (_, _) => (Phase::SuspendedAwait, PollAction::ReportPending),
    }
}

/// The host side of the suspend/resume protocol.
///
/// The executor's poll drives it: the guest is entered, or the inner future
/// it waits on is polled; a ready inner future resumes the guest, a pending
/// one ends the poll with "pending", and the guest's return ends it with
/// "ready". Once finished, every further poll reports ready again.
pub struct PollState {
    phase: Phase,
}

impl View for PollState {
    type V = Phase;

    closed spec fn view(&self) -> Phase {
        self.phase
    }
}

impl PollState {
    /// A task whose guest has not been entered.
    pub fn new() -> (r: PollState)
        ensures
            r@ == Phase::NotStarted,
    {
        PollState { phase: Phase::NotStarted }
    }

    /// The current phase.
    pub fn phase(&self) -> (r: Phase)
        ensures
            r == self@,
    {
        self.phase
    }

    /// Whether an inner future is held, which dropping the task drops with
    /// it. The guest's own frames are released without being resumed, so
    /// their destructors do not run.
    pub fn holds_inner_future(&self) -> (r: bool)
        ensures
            r == (self@ is SuspendedAwait),
    {
        match self.phase {
            Phase::SuspendedAwait => true,
            _ => false,
        }
    }

    /// Moves to the next phase on `event` and says what to do.
    pub fn step(&mut self, event: PollEvent) -> (r: PollAction)
        requires
            event_expected(old(self)@, event),
        ensures
            (final(self)@, r) == transition(old(self)@, event),
    {
        let (next, action) = match (self.phase, event) {
            (Phase::NotStarted, PollEvent::Poll) => (Phase::Running, PollAction::SwitchToGuest),
            (Phase::SuspendedAwait, PollEvent::Poll) => (Phase::SuspendedAwait, PollAction::PollInner),
            (Phase::Finished, PollEvent::Poll) => (Phase::Finished, PollAction::ReportReady),
            (_, PollEvent::GuestSuspended) => (Phase::SuspendedAwait, PollAction::PollInner),
            (_, PollEvent::GuestReturned) => (Phase::Finished, PollAction::ReportReady),
            (_, PollEvent::InnerReady) => (Phase::Running, PollAction::SwitchToGuest),
            (_, _) => (Phase::SuspendedAwait, PollAction::ReportPending),
        };
        self.phase = next;
        action
    }
}

/// Polling a finished task is defined: it reports ready and stays finished,
/// however often it is repeated.
pub proof fn lemma_finished_poll_stable()
    ensures
        transition(Phase::Finished, PollEvent::Poll) == (Phase::Finished, PollAction::ReportReady),
        event_expected(Phase::Finished, PollEvent::Poll),
        forall|e: PollEvent|
            event_expected(Phase::Finished, e) ==> e == PollEvent::Poll,
{
}

} // verus!
