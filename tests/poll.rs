use stackpp::{Phase, PollAction, PollEvent, PollState};

#[test]
fn trivial_completion() {
    let mut st = PollState::new();
    assert_eq!(st.step(PollEvent::Poll), PollAction::SwitchToGuest);
    assert_eq!(st.step(PollEvent::GuestReturned), PollAction::ReportReady);
    assert_eq!(st.phase(), Phase::Finished);
}

#[test]
fn single_suspension_on_ready_future() {
    let mut st = PollState::new();
    assert_eq!(st.step(PollEvent::Poll), PollAction::SwitchToGuest);
    assert_eq!(st.step(PollEvent::GuestSuspended), PollAction::PollInner);
    assert!(st.holds_inner_future());
    assert_eq!(st.step(PollEvent::InnerReady), PollAction::SwitchToGuest);
    assert_eq!(st.phase(), Phase::Running);
    assert_eq!(st.step(PollEvent::GuestReturned), PollAction::ReportReady);
}

#[test]
fn pending_then_ready() {
    let mut st = PollState::new();
    let mut reports = Vec::new();
    assert_eq!(st.step(PollEvent::Poll), PollAction::SwitchToGuest);
    assert_eq!(st.step(PollEvent::GuestSuspended), PollAction::PollInner);
    let a = st.step(PollEvent::InnerPending);
    reports.push(a);
    assert_eq!(st.phase(), Phase::SuspendedAwait);
    assert_eq!(st.step(PollEvent::Poll), PollAction::PollInner);
    assert_eq!(st.step(PollEvent::InnerReady), PollAction::SwitchToGuest);
    reports.push(st.step(PollEvent::GuestReturned));
    assert_eq!(reports, vec![PollAction::ReportPending, PollAction::ReportReady]);
}

#[test]
fn polling_finished_task_reports_ready_again() {
    let mut st = PollState::new();
    st.step(PollEvent::Poll);
    st.step(PollEvent::GuestReturned);
    for _ in 0..3 {
        assert_eq!(st.step(PollEvent::Poll), PollAction::ReportReady);
        assert_eq!(st.phase(), Phase::Finished);
    }
}

#[test]
fn drop_while_suspended_holds_inner_future() {
    let mut st = PollState::new();
    assert!(!st.holds_inner_future());
    st.step(PollEvent::Poll);
    st.step(PollEvent::GuestSuspended);
    st.step(PollEvent::InnerPending);
    assert!(st.holds_inner_future());
}
