//! The channel: a payload queue, a queue of parked waiters, and the counts of
//! live senders and receivers that decide when the channel is disconnected.
//!
//! The sender and receiver handles share one `ChannelQueue`; cloning a handle
//! and dropping it adjust the counts through the methods here, and the
//! handles wake or park threads as these methods direct.
use vstd::prelude::*;
use crate::async_queue::{AsyncQueue, after_pop, popped, pushed};

verus! {

/// The error of a send when no receiver is left.
#[derive(Debug, PartialEq, Eq, Structural)]
pub enum SendError {
    Disconnected,
}

/// The error of a receive when no sender is left and the queue is empty.
#[derive(Debug, PartialEq, Eq, Structural)]
pub enum RecvError {
    Disconnected,
}

/// The state that the two ends of a channel share.
pub struct ChannelQueue<T, W> {
    queue: AsyncQueue<T>,
    waiters: AsyncQueue<W>,
    senders: usize,
    receivers: usize,
}

impl<T, W> ChannelQueue<T, W> {
    /// Both queues are well formed.
    pub closed spec fn wf(&self) -> bool {
        self.queue.wf() && self.waiters.wf()
    }

    /// The messages sent and not yet received, earliest first.
    pub closed spec fn items(&self) -> Seq<T> {
        self.queue@
    }

    /// The registered waiters, earliest first.
    pub closed spec fn waiting(&self) -> Seq<W> {
        self.waiters@
    }

    /// The number of live senders.
    pub closed spec fn sender_count(&self) -> nat {
        self.senders as nat
    }

    /// The number of live receivers.
    pub closed spec fn receiver_count(&self) -> nat {
        self.receivers as nat
    }

    /// Creates the state of a new channel: empty, with one sender and one
    /// receiver.
    pub fn new() -> (c: Self)
        ensures
            c.wf(),
            c.items() == Seq::<T>::empty(),
            c.waiting() == Seq::<W>::empty(),
            c.sender_count() == 1,
            c.receiver_count() == 1,
    {
        ChannelQueue { queue: AsyncQueue::new(), waiters: AsyncQueue::new(), senders: 1, receivers: 1 }
    }

    /// Sends `message`. With no receiver left it fails and the message is
    /// not queued; otherwise the message is queued and the earliest waiter,
    /// if any, is taken and returned for the caller to wake.
    pub fn send(&mut self, message: T) -> (r: Result<Option<W>, SendError>)
        requires
            old(self).wf(),
        ensures
            final(self).wf(),
            final(self).sender_count() == old(self).sender_count(),
            final(self).receiver_count() == old(self).receiver_count(),
            r is Err <==> old(self).receiver_count() == 0,
            r is Err ==> final(self).items() == old(self).items() && final(self).waiting()
                == old(self).waiting(),
            r is Ok ==> final(self).items() == pushed(old(self).items(), message) && r == Ok::<
                Option<W>,
                SendError,
            >(popped(old(self).waiting())) && final(self).waiting() == after_pop(old(self).waiting()),
    {
        if self.receivers == 0 {
            Err(SendError::Disconnected)
        } else {
            self.queue.push(message);
            Ok(self.waiters.pop())
        }
    }

    /// One round of a blocking receive by `waiter`: registers it, then takes
    /// the front message. With the queue empty it fails when no sender is
    /// left, and otherwise returns `Ok(None)`: the caller parks until woken
    /// and then calls again.
    pub fn recv(&mut self, waiter: W) -> (r: Result<Option<T>, RecvError>)
        requires
            old(self).wf(),
        ensures
            final(self).wf(),
            final(self).sender_count() == old(self).sender_count(),
            final(self).receiver_count() == old(self).receiver_count(),
            final(self).waiting() == pushed(old(self).waiting(), waiter),
            final(self).items() == after_pop(old(self).items()),
            old(self).items().len() > 0 ==> r == Ok::<Option<T>, RecvError>(popped(old(self).items())),
            old(self).items().len() == 0 && old(self).sender_count() == 0 ==> r == Err::<
                Option<T>,
                RecvError,
            >(RecvError::Disconnected),
            old(self).items().len() == 0 && old(self).sender_count() > 0 ==> r == Ok::<
                Option<T>,
                RecvError,
            >(None),
    {
        self.waiters.push(waiter);
        match self.queue.pop() {
            Some(elem) => Ok(Some(elem)),
            None => {
                if self.senders == 0 {
                    Err(RecvError::Disconnected)
                } else {
                    Ok(None)
                }
            },
        }
    }

    /// Counts one more sender, for a clone of a sender handle.
    pub fn add_sender(&mut self)
        requires
            old(self).sender_count() < usize::MAX,
        ensures
            final(self).wf() == old(self).wf(),
            final(self).items() == old(self).items(),
            final(self).waiting() == old(self).waiting(),
            final(self).receiver_count() == old(self).receiver_count(),
            final(self).sender_count() == old(self).sender_count() + 1,
    {
        self.senders = self.senders + 1;
    }

    /// Counts one more receiver, for a clone of a receiver handle.
    pub fn add_receiver(&mut self)
        requires
            old(self).receiver_count() < usize::MAX,
        ensures
            final(self).wf() == old(self).wf(),
            final(self).items() == old(self).items(),
            final(self).waiting() == old(self).waiting(),
            final(self).sender_count() == old(self).sender_count(),
            final(self).receiver_count() == old(self).receiver_count() + 1,
    {
        self.receivers = self.receivers + 1;
    }

    /// Counts one sender fewer, for a dropped sender handle. When that was
    /// the last sender, every registered waiter is taken and returned, so
    /// that the caller wakes them all and blocked receivers see the
    /// disconnect; otherwise nothing is returned.
    pub fn drop_sender(&mut self) -> (woken: Vec<W>)
        requires
            old(self).wf(),
            old(self).sender_count() > 0,
        ensures
            final(self).wf(),
            final(self).sender_count() == old(self).sender_count() - 1,
            final(self).receiver_count() == old(self).receiver_count(),
            final(self).items() == old(self).items(),
            old(self).sender_count() == 1 ==> woken@ == old(self).waiting() && final(self).waiting()
                == Seq::<W>::empty(),
            old(self).sender_count() > 1 ==> woken@ == Seq::<W>::empty() && final(self).waiting()
                == old(self).waiting(),
    {
        self.senders = self.senders - 1;
        let mut woken: Vec<W> = Vec::new();
        if self.senders == 0 {
            let ghost all = self.waiters@;
            loop
                invariant
                    self.wf(),
                    self.senders == old(self).senders - 1,
                    self.receivers == old(self).receivers,
                    self.queue == old(self).queue,
                    woken@ + self.waiters@ == all,
                ensures
                    self.wf(),
                    self.queue == old(self).queue,
                    woken@ == all,
                    self.waiters@ == Seq::<W>::empty(),
                decreases self.waiters@.len(),
            {
                match self.waiters.pop() {
                    Some(w) => {
                        woken.push(w);
                        assert(woken@ + self.waiters@ =~= all);
                    },
                    None => {
                        assert(self.waiters@ =~= Seq::<W>::empty());
                        assert(woken@ =~= all);
                        break;
                    },
                }
            }
        }
        woken
    }

    /// Counts one receiver fewer, for a dropped receiver handle.
    pub fn drop_receiver(&mut self)
        requires
            old(self).receiver_count() > 0,
        ensures
            final(self).wf() == old(self).wf(),
            final(self).items() == old(self).items(),
            final(self).waiting() == old(self).waiting(),
            final(self).sender_count() == old(self).sender_count(),
            final(self).receiver_count() == old(self).receiver_count() - 1,
    {
        self.receivers = self.receivers - 1;
    }

    /// The number of live senders.
    pub fn senders(&self) -> (n: usize)
        ensures
            n == self.sender_count(),
    {
        self.senders
    }

    /// The number of live receivers.
    pub fn receivers(&self) -> (n: usize)
        ensures
            n == self.receiver_count(),
    {
        self.receivers
    }
}

} // verus!
