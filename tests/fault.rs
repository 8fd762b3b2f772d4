use stackpp::{
    classify_fault, finish_fault, CommitRange, CurrentStack, FaultAction, PreAllocatedStack,
};

const BASE: usize = 0x40000;

fn fresh() -> PreAllocatedStack {
    let total = PreAllocatedStack::reservation_size(4 * 4096).unwrap();
    PreAllocatedStack::new(BASE, total).unwrap()
}

#[test]
fn slot_round_trip_returns_same_stack() {
    let mut slot = CurrentStack::new();
    assert!(!slot.is_occupied());
    assert_eq!(slot.give(fresh()), None);
    assert!(slot.is_occupied());
    assert_eq!(slot.take(), Some(fresh()));
    assert!(!slot.is_occupied());
    assert_eq!(slot.take(), None);
}

#[test]
fn slot_give_hands_back_previous() {
    let mut slot = CurrentStack::new();
    slot.give(fresh());
    let other = PreAllocatedStack::new(BASE * 2, 8 * 4096).unwrap();
    assert_eq!(slot.give(other), Some(fresh()));
    assert_eq!(slot.take().unwrap().guard_top(), BASE * 2);
}

#[test]
fn fault_outside_guard_is_unrelated() {
    let mut s = fresh();
    assert_eq!(classify_fault(&s, BASE + 7 * 4096), FaultAction::Unrelated);
    assert_eq!(classify_fault(&s, BASE - 8), FaultAction::Unrelated);
    assert!(!finish_fault(&mut s, 8, true));
    assert_eq!(s.top(), BASE + 7 * 4096);
}

#[test]
fn fault_in_guard_grows() {
    let mut s = fresh();
    let addr = BASE + 7 * 4096 - 16;
    assert_eq!(
        classify_fault(&s, addr),
        FaultAction::Grow(CommitRange { start: BASE + 6 * 4096, len: 4096 })
    );
    assert!(finish_fault(&mut s, addr, true));
    assert_eq!(s.top(), BASE + 6 * 4096);
}

#[test]
fn fault_with_failed_commit_is_not_handled() {
    let mut s = fresh();
    assert!(!finish_fault(&mut s, BASE, false));
    assert_eq!(s.top(), BASE + 7 * 4096);
}

#[test]
fn deep_recursion_takes_three_faults() {
    let mut s = fresh();
    let mut grows = 0;
    // the guest keeps pushing until it has used seven and a half pages
    let deepest = BASE + 2048;
    let mut sp = s.bottom();
    while sp > deepest {
        sp -= 512;
        if s.stack_pointer_inside_guard(sp) {
            assert!(finish_fault(&mut s, sp, true));
            grows += 1;
        }
    }
    assert_eq!(grows, 3);
    assert_eq!(s.usable_size(), 8 * 4096);
}

#[test]
fn overflow_is_not_handled() {
    let mut s = PreAllocatedStack::new(BASE, 6 * 4096).unwrap();
    assert!(finish_fault(&mut s, BASE + 5 * 4096 - 1, true));
    assert!(finish_fault(&mut s, BASE + 4 * 4096 - 1, true));
    assert_eq!(s.top(), BASE + 2 * 4096);
    assert_eq!(classify_fault(&s, BASE), FaultAction::Overflow);
    assert!(!finish_fault(&mut s, BASE, true));
    assert_eq!(s.top(), BASE + 2 * 4096);
    assert_eq!(s.total_size(), 6 * 4096);
}
