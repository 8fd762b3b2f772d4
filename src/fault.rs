use vstd::prelude::*;

use crate::stack::{CommitRange, Layout, PreAllocatedStack};

verus! {

/// What a guard-page fault calls for.
#[derive(Debug, Clone, Copy, PartialEq, Eq, Structural)]
pub enum FaultAction {
    /// The address is outside the guard area: not this stack's fault.
    Unrelated,
    /// The address is in the guard area, but the stack may not grow further.
    Overflow,
    /// The address is in the guard area: commit this range, then grow.
    Grow(CommitRange),
}

/// The action for a fault at `addr` on a stack laid out as `l`.
pub open spec fn fault_action_of(l: Layout, addr: int) -> FaultAction {
    if !l.in_guard(addr) {
        FaultAction::Unrelated
    } else if !l.can_grow() {
        FaultAction::Overflow
    } else {
        FaultAction::Grow(
            CommitRange { start: (l.top - l.usable()) as usize, len: l.usable() as usize },
        )
    }
}

/// Decides what a guard-page fault at `fault_addr` calls for on `stack`,
/// the stack that the faulting thread had parked for its handler.
pub fn classify_fault(stack: &PreAllocatedStack, fault_addr: usize) -> (r: FaultAction)
    requires
        stack.wf(),
    ensures
        r == fault_action_of(stack@, fault_addr as int),
{
    if !stack.stack_pointer_inside_guard(fault_addr) {
        FaultAction::Unrelated
    } else {
        match stack.grow_range() {
            Ok(range) => FaultAction::Grow(range),
            Err(_) => FaultAction::Overflow,
        }
    }
}

/// Completes the handling of a fault once `action`'s range, if any, has been
/// committed (`committed` says whether that worked), and reports whether the
/// fault was handled. Only a grow that went through handles it; in every
/// other case the stack is unchanged and the fault is left to the runtime,
/// which raises a trap.
pub fn finish_fault(stack: &mut PreAllocatedStack, fault_addr: usize, committed: bool) -> (r: bool)
    requires
        old(stack).wf(),
    ensures
        final(stack).wf(),
        r == (fault_action_of(old(stack)@, fault_addr as int) is Grow && committed),
        r ==> final(stack)@ == old(stack)@.grown(),
        !r ==> final(stack)@ == old(stack)@,
{
    match classify_fault(stack, fault_addr) {
        FaultAction::Grow(_) => {
            let grown = stack.grow(committed);
            match grown {
                Ok(()) => true,
                Err(_) => false,
            }
        }
        _ => false,
    }
}

} // verus!
