//! Growable, guard-page backed stacks: the address bookkeeping of a large
//! virtual reservation whose committed part doubles on demand, the decisions
//! a fault handler makes when the guest touches the guard area, the
//! per-thread slot that hands the current stack to that handler, and the
//! poll protocol of a task that runs a guest on such a stack.
mod fault;
mod page;
mod slot;
mod stack;
mod wormhole;

pub use fault::{classify_fault, fault_action_of, finish_fault, FaultAction};
pub use page::{page_size, PAGE_SIZE};
pub use slot::{after_give, after_take, lemma_give_take_round_trip, CurrentStack};
pub use stack::{
    lemma_grown_wf, lemma_layout_aligned, lemma_usable_after_grows, CommitRange, Layout,
    PreAllocatedStack, StackError, GUARD_PAGES,
};
pub use wormhole::{
    event_expected, lemma_finished_poll_stable, transition, Phase, PollAction, PollEvent,
    PollState,
};
