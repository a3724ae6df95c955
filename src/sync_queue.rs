//! The blocking queue: a payload queue and a queue of parked waiters.
//!
//! A blocking pop is a loop of rounds: register the caller as a waiter, then
//! try the payload queue; when that finds nothing the caller parks until a
//! push wakes it, and starts the next round. Registering before trying means
//! that a push that lands between the try and the park still finds the caller
//! among the waiters, so no wakeup is lost. The parking itself belongs to the
//! caller; this type holds the two queues and decides each round.
use vstd::prelude::*;
use crate::async_queue::{AsyncQueue, after_pop, popped, pushed};

verus! {

/// A queue of payloads of type `T` and of waiter handles of type `W`.
pub struct SyncQueue<T, W> {
    inner: AsyncQueue<T>,
    waiters: AsyncQueue<W>,
}

impl<T, W> SyncQueue<T, W> {
    /// Both queues are well formed.
    pub closed spec fn wf(&self) -> bool {
        self.inner.wf() && self.waiters.wf()
    }

    /// The payloads, front first.
    pub closed spec fn items(&self) -> Seq<T> {
        self.inner@
    }

    /// The registered waiters, earliest first.
    pub closed spec fn waiting(&self) -> Seq<W> {
        self.waiters@
    }

    /// Creates a queue with no payloads and no waiters.
    pub fn new() -> (q: Self)
        ensures
            q.wf(),
            q.items() == Seq::<T>::empty(),
            q.waiting() == Seq::<W>::empty(),
    {
        SyncQueue { inner: AsyncQueue::new(), waiters: AsyncQueue::new() }
    }

    /// Appends `elem`, then takes the earliest registered waiter, if any, and
    /// returns it: the caller wakes it.
    pub fn push(&mut self, elem: T) -> (woken: Option<W>)
        requires
            old(self).wf(),
        ensures
            final(self).wf(),
            final(self).items() == pushed(old(self).items(), elem),
            woken == popped(old(self).waiting()),
            final(self).waiting() == after_pop(old(self).waiting()),
    {
        self.inner.push(elem);
        self.waiters.pop()
    }

    /// One round of a blocking pop by `waiter`: registers it, then takes the
    /// front payload. `None` means that the queue was empty: the caller parks
    /// until woken and then calls again.
    pub fn pop(&mut self, waiter: W) -> (r: Option<T>)
        requires
            old(self).wf(),
        ensures
            final(self).wf(),
            final(self).waiting() == pushed(old(self).waiting(), waiter),
            r == popped(old(self).items()),
            final(self).items() == after_pop(old(self).items()),
    {
        self.waiters.push(waiter);
        self.inner.pop()
    }
}

/// A single push wakes a pending pop: when a waiter has found the queue
/// empty and no waiter registered before it, the next push wakes that waiter,
/// and its next round returns the value pushed.
pub proof fn lemma_push_wakes<T, W>(items: Seq<T>, waiting: Seq<W>, w: W, v: T)
    requires
        items.len() == 0,
        waiting.len() == 0,
    ensures
        popped(items) is None,
        popped(pushed(waiting, w)) == Some(w),
        popped(pushed(after_pop(items), v)) == Some(v),
{
    assert(pushed(waiting, w)[0] == w);
    assert(pushed(after_pop(items), v)[0] == v);
}

} // verus!
