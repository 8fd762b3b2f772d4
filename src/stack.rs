use vstd::arithmetic::power2::{lemma_pow2_unfold, pow2};
use vstd::prelude::*;

use crate::page::PAGE_SIZE;

verus! {

/// Pages reserved beyond the requested size, so that a handler still has
/// stack to run on when the guest has used all of the requested size.
pub const GUARD_PAGES: usize = 4;

/// Why a stack could not be set up or grown.
#[derive(Debug, Clone, Copy, PartialEq, Eq, Structural)]
pub enum StackError {
    /// The address range could not be reserved.
    Alloc,
    /// Part of the range could not be made readable and writable.
    Commit,
    /// Doubling the usable area would exceed the reservation of this many bytes.
    MaxSizeReached(usize),
}

/// The address range `[start, start + len)` that is to be made readable and
/// writable.
#[derive(Debug, Clone, Copy, PartialEq, Eq, Structural)]
pub struct CommitRange {
    pub start: usize,
    pub len: usize,
}

/// The three addresses of a stack, as mathematical integers.
pub struct Layout {
    pub guard_top: nat,
    pub top: nat,
    pub bottom: nat,
}

impl Layout {
    /// Size of the committed area `[top, bottom)`.
    pub open spec fn usable(self) -> int {
        self.bottom - self.top
    }

    /// Size of the whole reservation `[guard_top, bottom)`.
    pub open spec fn total(self) -> int {
        self.bottom - self.guard_top
    }

    /// The ordering and alignment that every stack keeps.
    pub open spec fn wf(self) -> bool {
        &&& self.guard_top <= self.top
        &&& self.top < self.bottom
        &&& self.bottom <= usize::MAX
        &&& self.guard_top % (PAGE_SIZE as nat) == 0
        &&& self.top % (PAGE_SIZE as nat) == 0
        &&& self.bottom % (PAGE_SIZE as nat) == 0
    }

    /// A freshly created stack: exactly one committed page.
    pub open spec fn fresh(self) -> bool {
        self.usable() == PAGE_SIZE as int
    }

    /// The doubling policy admits another grow.
    pub open spec fn can_grow(self) -> bool {
        2 * self.usable() <= self.total()
    }

    /// The layout after a successful grow: the committed area doubles downward.
    pub open spec fn grown(self) -> Layout {
        Layout { top: (self.top - self.usable()) as nat, ..self }
    }

    /// The layout after `k` successful grows.
    pub open spec fn grown_times(self, k: nat) -> Layout
        decreases k,
    {
        if k == 0 {
            self
        } else {
            self.grown_times((k - 1) as nat).grown()
        }
    }

    /// Every one of the first `k` grows was admitted by the doubling policy.
    pub open spec fn grows_admitted(self, k: nat) -> bool {
        forall|i: nat| i < k ==> (#[trigger] self.grown_times(i)).can_grow()
    }

    /// The address lies in the uncommitted part `[guard_top, top)`.
    pub open spec fn in_guard(self, addr: int) -> bool {
        self.guard_top <= addr && addr < self.top
    }
}

/// A stack carved out of one reserved address range.
///
/// `[top, bottom)` is the usable, committed area; `[guard_top, top)` is not
/// committed, so that touching it faults. The stack grows from `bottom`
/// toward `guard_top`.
#[derive(Debug, PartialEq, Eq, Structural)]
pub struct PreAllocatedStack {
    guard_top: usize,
    top: usize,
    bottom: usize,
}

impl View for PreAllocatedStack {
    type V = Layout;

    closed spec fn view(&self) -> Layout {
        Layout { guard_top: self.guard_top as nat, top: self.top as nat, bottom: self.bottom as nat }
    }
}

impl PreAllocatedStack {
    pub open spec fn wf(&self) -> bool {
        self@.wf()
    }

    /// Size of the reservation for a stack of `requested` usable bytes: the
    /// request plus the extra guard pages. `Alloc` where that size does not
    /// fit in an address.
    pub fn reservation_size(requested: usize) -> (r: Result<usize, StackError>)
        ensures
            requested + GUARD_PAGES * PAGE_SIZE <= usize::MAX ==> r == Ok::<usize, StackError>(
                (requested + GUARD_PAGES * PAGE_SIZE) as usize,
            ),
            requested + GUARD_PAGES * PAGE_SIZE > usize::MAX ==> r == Err::<usize, StackError>(
                StackError::Alloc,
            ),
    {
        match requested.checked_add(GUARD_PAGES * PAGE_SIZE) {
            Some(total) => Ok(total),
            None => Err(StackError::Alloc),
        }
    }

    /// Takes over the reservation `[guard_top, guard_top + total_size)` and
    /// makes its highest page the usable area; that page is then to be
    /// committed (see `usable_range`).
    ///
    /// `Alloc` where the reservation is not one the system could have made
    /// (an unaligned start, or a range past the end of the address space);
    /// `Commit` where its end is not page-aligned, so that its last page
    /// cannot be committed, or where it holds no page at all.
    pub fn new(guard_top: usize, total_size: usize) -> (r: Result<PreAllocatedStack, StackError>)
        ensures
            guard_top as int % PAGE_SIZE as int != 0 || guard_top + total_size > usize::MAX
                ==> r == Err::<PreAllocatedStack, StackError>(StackError::Alloc),
            guard_top as int % PAGE_SIZE as int == 0 && guard_top + total_size <= usize::MAX
                && (total_size as int % PAGE_SIZE as int != 0 || total_size < PAGE_SIZE)
                ==> r == Err::<PreAllocatedStack, StackError>(StackError::Commit),
            guard_top as int % PAGE_SIZE as int == 0 && guard_top + total_size <= usize::MAX
                && total_size as int % PAGE_SIZE as int == 0 && total_size >= PAGE_SIZE
                ==> r is Ok,
            r matches Ok(s) ==> s.wf() && s@.fresh() && s@.guard_top == guard_top
                && s@.bottom == guard_top + total_size,
    {
        if guard_top % PAGE_SIZE != 0 {
            return Err(StackError::Alloc);
        }
        let bottom = match guard_top.checked_add(total_size) {
            Some(b) => b,
            None => return Err(StackError::Alloc),
        };
        if total_size % PAGE_SIZE != 0 || total_size < PAGE_SIZE {
            return Err(StackError::Commit);
        }
        proof {
            assert(bottom as int % PAGE_SIZE as int == 0) by {
                vstd::arithmetic::div_mod::lemma_add_mod_noop(
                    guard_top as int,
                    total_size as int,
                    PAGE_SIZE as int,
                );
            }
        }
        let top = bottom - PAGE_SIZE;
        proof {
            vstd::arithmetic::div_mod::lemma_sub_mod_noop(bottom as int, PAGE_SIZE as int, PAGE_SIZE as int);
        }
        Ok(PreAllocatedStack { guard_top, top, bottom })
    }

    /// Highest address of the reservation: the base the stack grows down from.
    pub fn bottom(&self) -> (r: usize)
        ensures
            r == self@.bottom,
    {
        self.bottom
    }

    /// Lowest committed address.
    pub fn top(&self) -> (r: usize)
        ensures
            r == self@.top,
    {
        self.top
    }

    /// Lowest address of the reservation.
    pub fn guard_top(&self) -> (r: usize)
        ensures
            r == self@.guard_top,
    {
        self.guard_top
    }

    /// Size of the committed area.
    pub fn usable_size(&self) -> (r: usize)
        requires
            self.wf(),
        ensures
            r == self@.usable(),
    {
        self.bottom - self.top
    }

    /// Size of the whole reservation, the amount to release when the stack
    /// is torn down.
    pub fn total_size(&self) -> (r: usize)
        requires
            self.wf(),
        ensures
            r == self@.total(),
    {
        self.bottom - self.guard_top
    }

    /// The committed area `[top, bottom)`.
    pub fn usable_range(&self) -> (r: CommitRange)
        requires
            self.wf(),
        ensures
            r.start == self@.top,
            r.len == self@.usable(),
    {
        CommitRange { start: self.top, len: self.bottom - self.top }
    }

    /// Whether `sp` lies in the uncommitted part `[guard_top, top)`.
    pub fn stack_pointer_inside_guard(&self, sp: usize) -> (r: bool)
        ensures
            r == self@.in_guard(sp as int),
    {
        self.guard_top <= sp && sp < self.top
    }

    /// The range that the next grow commits: as many bytes as are usable
    /// now, directly below `top`. `MaxSizeReached` with the reservation's size
    /// where the doubled area would not fit in it.
    pub fn grow_range(&self) -> (r: Result<CommitRange, StackError>)
        requires
            self.wf(),
        ensures
            !self@.can_grow() ==> r == Err::<CommitRange, StackError>(
                StackError::MaxSizeReached(self@.total() as usize),
            ),
            self@.can_grow() ==> r == Ok::<CommitRange, StackError>(
                CommitRange {
                    start: (self@.top - self@.usable()) as usize,
                    len: self@.usable() as usize,
                },
            ),
    {
        let usable = self.bottom - self.top;
        let total = self.bottom - self.guard_top;
        if usable > total - usable {
            Err(StackError::MaxSizeReached(total))
        } else {
            Ok(CommitRange { start: self.top - usable, len: usable })
        }
    }

    /// Doubles the usable area, once the range of `grow_range` has been
    /// committed; `committed` says whether that worked.
    ///
    /// Where the doubling policy refuses, the result is `MaxSizeReached` with
    /// the reservation's size; where the commit failed, `Commit`. Either way
    /// the stack is left as it was.
    pub fn grow(&mut self, committed: bool) -> (r: Result<(), StackError>)
        requires
            old(self).wf(),
        ensures
            final(self).wf(),
            !old(self)@.can_grow() ==> r == Err::<(), StackError>(
                StackError::MaxSizeReached(old(self)@.total() as usize),
            ) && final(self)@ == old(self)@,
            old(self)@.can_grow() && !committed ==> r == Err::<(), StackError>(StackError::Commit)
                && final(self)@ == old(self)@,
            old(self)@.can_grow() && committed ==> r is Ok && final(self)@ == old(self)@.grown(),
    {
        let usable = self.bottom - self.top;
        let total = self.bottom - self.guard_top;
        if usable > total - usable {
            Err(StackError::MaxSizeReached(total))
        } else if !committed {
            Err(StackError::Commit)
        } else {
            proof {
                vstd::arithmetic::div_mod::lemma_sub_mod_noop(
                    self.top as int,
                    usable as int,
                    PAGE_SIZE as int,
                );
                vstd::arithmetic::div_mod::lemma_sub_mod_noop(
                    self.bottom as int,
                    self.top as int,
                    PAGE_SIZE as int,
                );
            }
            self.top = self.top - usable;
            Ok(())
        }
    }
}

/// Every stack keeps `guard_top <= top <= bottom`, all three page-aligned,
/// so that the reservation is a whole number of pages.
pub proof fn lemma_layout_aligned(s: &PreAllocatedStack)
    requires
        s.wf(),
    ensures
        s@.guard_top <= s@.top <= s@.bottom,
        s@.guard_top % (PAGE_SIZE as nat) == 0,
        s@.top % (PAGE_SIZE as nat) == 0,
        s@.bottom % (PAGE_SIZE as nat) == 0,
        s@.total() % (PAGE_SIZE as int) == 0,
{
    vstd::arithmetic::div_mod::lemma_sub_mod_noop(
        s@.bottom as int,
        s@.guard_top as int,
        PAGE_SIZE as int,
    );
}

/// A successful grow keeps the layout well formed.
pub proof fn lemma_grown_wf(l: Layout)
    requires
        l.wf(),
        l.can_grow(),
    ensures
        l.grown().wf(),
        l.grown().usable() == 2 * l.usable(),
        l.grown().total() == l.total(),
{
    vstd::arithmetic::div_mod::lemma_sub_mod_noop(l.bottom as int, l.top as int, PAGE_SIZE as int);
    vstd::arithmetic::div_mod::lemma_sub_mod_noop(
        l.top as int,
        l.usable(),
        PAGE_SIZE as int,
    );
}

/// After `k` successful grows of a fresh stack, the usable area is
/// `2^k` pages.
pub proof fn lemma_usable_after_grows(l: Layout, k: nat)
    requires
        l.wf(),
        l.fresh(),
        l.grows_admitted(k),
    ensures
        l.grown_times(k).wf(),
        l.grown_times(k).usable() == pow2(k) * PAGE_SIZE,
    decreases k,
{
    if k == 0 {
        vstd::arithmetic::power2::lemma2_to64();
    } else {
        let j = (k - 1) as nat;
        assert(l.grows_admitted(j));
        lemma_usable_after_grows(l, j);
        assert(l.grown_times(j).can_grow());
        lemma_grown_wf(l.grown_times(j));
        lemma_pow2_unfold(k);
        assert(pow2(k) * PAGE_SIZE == 2 * (pow2(j) * PAGE_SIZE)) by (nonlinear_arith)
            requires
                pow2(k) == 2 * pow2(j),
        ;
    }
}

} // verus!
