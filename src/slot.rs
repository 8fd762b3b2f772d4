use vstd::prelude::*;

use crate::stack::PreAllocatedStack;

verus! {

/// What the slot holds after `give`.
pub open spec fn after_give(s: PreAllocatedStack) -> Option<PreAllocatedStack> {
    Some(s)
}

/// What `take` returns, and what the slot holds afterwards.
pub open spec fn after_take(held: Option<PreAllocatedStack>) -> (
    Option<PreAllocatedStack>,
    Option<PreAllocatedStack>,
) {
    (held, None)
}

/// The holder of the stack that a fault handler may grow.
///
/// Fault delivery carries no user data, so the thread about to run guest
/// code parks its stack here (`give`) and takes it back afterwards (`take`);
/// the handler takes it out, grows it and gives it back. At most one stack
/// is held, and it is owned by the slot while it is there.
pub struct CurrentStack {
    held: Option<PreAllocatedStack>,
}

impl View for CurrentStack {
    type V = Option<PreAllocatedStack>;

    closed spec fn view(&self) -> Option<PreAllocatedStack> {
        self.held
    }
}

impl CurrentStack {
    /// An empty slot.
    pub fn new() -> (r: CurrentStack)
        ensures
            r@ is None,
    {
        CurrentStack { held: None }
    }

    /// Whether a stack is held.
    pub fn is_occupied(&self) -> (r: bool)
        ensures
            r == self@ is Some,
    {
        self.held.is_some()
    }

    /// Parks `stack` in the slot. A stack that was still there is handed
    /// back to the caller, which owns it again.
    pub fn give(&mut self, stack: PreAllocatedStack) -> (r: Option<PreAllocatedStack>)
        ensures
            final(self)@ == after_give(stack),
            r == old(self)@,
    {
        let previous = self.held.take();
        self.held = Some(stack);
        previous
    }

    /// Takes the held stack out, leaving the slot empty.
    pub fn take(&mut self) -> (r: Option<PreAllocatedStack>)
        ensures
            (r, final(self)@) == after_take(old(self)@),
    {
        self.held.take()
    }
}

/// Giving a stack to the slot and taking it back yields that same stack,
/// and leaves the slot empty.
pub proof fn lemma_give_take_round_trip(s: PreAllocatedStack)
    ensures
        after_take(after_give(s)) == (Some(s), None::<PreAllocatedStack>),
{
}

} // verus!
