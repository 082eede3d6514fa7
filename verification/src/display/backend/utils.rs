//! Double-buffered storage for one producer and one consumer.

use vstd::prelude::*;

verus! {

/// Two copies of `T` and a selector. The selected copy is the active one,
/// which the consumer reads; the other is the inactive one, which the
/// producer writes. `swap` is the only operation that moves the selector.
pub struct DoubleBuffer<T> {
    bufs: [T; 2],
    second_active: bool,
}

impl<T: Clone> DoubleBuffer<T> {
    /// A double buffer whose two slots both start as `init`: the active slot
    /// holds a clone of it, the inactive slot `init` itself.
    pub fn new(init: T) -> (db: Self)
        ensures
            cloned(init, db.active_view()),
            db.inactive_view() == init,
            db.active_slot() == 0,
    {
        let first = init.clone();
        DoubleBuffer { bufs: [first, init], second_active: false }
    }
}

impl<T> DoubleBuffer<T> {
    /// Index of the active slot: 0 or 1.
    pub closed spec fn active_slot(&self) -> int {
        if self.second_active {
            1
        } else {
            0
        }
    }

    /// Contents of the active buffer.
    pub closed spec fn active_view(&self) -> T {
        self.bufs[self.active_slot()]
    }

    /// Contents of the inactive buffer.
    pub closed spec fn inactive_view(&self) -> T {
        self.bufs[1 - self.active_slot()]
    }

    /// `after` is this double buffer after the producer has worked on the
    /// inactive buffer: the active buffer and the selector are as they were.
    pub open spec fn written_to(&self, after: &Self) -> bool {
        &&& after.active_view() == self.active_view()
        &&& after.active_slot() == self.active_slot()
    }

    /// `after` is this double buffer after one swap: the two buffers have
    /// changed roles.
    pub open spec fn swapped_to(&self, after: &Self) -> bool {
        &&& after.active_view() == self.inactive_view()
        &&& after.inactive_view() == self.active_view()
        &&& after.active_slot() == 1 - self.active_slot()
    }

    fn active_index(&self) -> (idx: usize)
        ensures
            idx == self.active_slot(),
            idx < 2,
    {
        if self.second_active {
            1
        } else {
            0
        }
    }

    fn inactive_index(&self) -> (idx: usize)
        ensures
            idx == 1 - self.active_slot(),
            idx < 2,
    {
        1 - self.active_index()
    }

    /// Runs `f` on the active buffer, read-only, and returns its result.
    pub fn with_active<R>(&self, f: impl FnOnce(&T) -> R) -> (r: R)
        requires
            call_requires(f, (&self.active_view(),)),
        ensures
            call_ensures(f, (&self.active_view(),), r),
    {
        let idx = self.active_index();
        f(&self.bufs[idx])
    }

    /// Runs `f` on the inactive buffer, which it may change, and returns its
    /// result. The active buffer is not touched.
    pub fn with_inactive<R>(&mut self, f: impl FnOnce(&mut T) -> R) -> (r: R)
        requires
            forall|buf: &mut T| *buf == old(self).inactive_view() ==> call_requires(f, (buf,)),
        ensures
            old(self).written_to(final(self)),
            exists|buf: &mut T|
                {
                    &&& *buf == old(self).inactive_view()
                    &&& *final(buf) == final(self).inactive_view()
                    &&& #[trigger] call_ensures(f, (buf,), r)
                },
    {
        let idx = self.inactive_index();
        f(&mut self.bufs[idx])
    }

    /// Makes the inactive buffer the active one and the active one the
    /// inactive one.
    pub fn swap(&mut self)
        ensures
            old(self).swapped_to(final(self)),
    {
        self.second_active = !self.second_active;
    }
}

/// Every swap toggles the roles of the two buffers exactly once, and the
/// consumer sees only finished work: while the producer writes, the active
/// buffer stays what it was; the swap that follows shows exactly what the
/// producer had written by then and takes the buffer shown before out of
/// sight; a second swap brings the first assignment back.
pub proof fn lemma_swap_publishes_finished_work<T>(
    start: DoubleBuffer<T>,
    written: DoubleBuffer<T>,
    shown: DoubleBuffer<T>,
    back: DoubleBuffer<T>,
)
    requires
        start.written_to(&written),
        written.swapped_to(&shown),
        shown.swapped_to(&back),
    ensures
        written.active_view() == start.active_view(),
        shown.active_view() == written.inactive_view(),
        shown.inactive_view() == start.active_view(),
        shown.active_slot() != written.active_slot(),
        back.active_slot() == written.active_slot(),
        back.active_view() == written.active_view(),
        back.inactive_view() == written.inactive_view(),
{
}

} // verus!
