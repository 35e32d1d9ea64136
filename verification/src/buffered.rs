//! The bounded buffering sink: a fixed-capacity FIFO queue in front of the
//! one-item-per-second sink, decoupling arrival rate from completion rate.
//! Backpressure reaches the caller only when the queue is full and the
//! downstream sink is making no progress.
use vstd::prelude::*;
use crate::delayed_series;
use crate::protocol::{
    ExtendedAsync,
    ExtendedAsyncSink,
    ExtendedPoll,
    ExtendedSink,
    TaskHandle,
};
use std::collections::VecDeque;

verus! {

pub const BUFFER_CAPACITY: usize = 10;

/// One send against the queue while the downstream sink makes no progress:
/// a queue with room appends the item and accepts; a full queue rejects it
/// unchanged.
pub open spec fn send_step(queue: Seq<u8>, item: u8) -> (Seq<u8>, bool) {
    if queue.len() < BUFFER_CAPACITY {
        (queue.push(item), true)
    } else {
        (queue, false)
    }
}

/// A burst of sends in immediate succession, while the downstream sink makes
/// no progress: the resulting queue, and whether every send was accepted.
pub open spec fn send_burst(queue: Seq<u8>, items: Seq<u8>) -> (Seq<u8>, bool)
    decreases items.len(),
{
    if items.len() == 0 {
        (queue, true)
    } else {
        let first = send_step(queue, items[0]);
        let rest = send_burst(first.0, items.drop_first());
        (rest.0, first.1 && rest.1)
    }
}

/// A sink that consumes one item every second, but which can buffer up to
/// `BUFFER_CAPACITY` items in arrival order.
pub struct Consumer {
    buffer: VecDeque<u8>,
    inner: delayed_series::Consumer,
}

impl Consumer {
    /// The items waiting in the queue, in arrival order.
    pub closed spec fn queued(self) -> Seq<u8> {
        self.buffer@
    }

    /// Every item handed on to the downstream sink, in order: the fully
    /// consumed ones followed by the one still in flight.
    pub closed spec fn downstream_log(self) -> Seq<u8> {
        self.inner.log()
    }

    /// The items whose consumption has fully completed, in order.
    pub closed spec fn consumed(self) -> Seq<u8> {
        self.inner.done()
    }

    /// Whether the downstream sink has an item in flight.
    pub closed spec fn downstream_idle(self) -> bool {
        self.inner.idle()
    }

    /// Every item this sink has accepted, in arrival order: first those
    /// already handed downstream, then those still queued.
    pub open spec fn log(self) -> Seq<u8> {
        self.downstream_log() + self.queued()
    }

    /// The queue never exceeds its capacity.
    pub open spec fn wf(self) -> bool {
        self.queued().len() <= BUFFER_CAPACITY
    }

    /// Nothing is pending: the queue is empty and no downstream item is in
    /// flight.
    pub open spec fn idle(self) -> bool {
        self.queued().len() == 0 && self.downstream_idle()
    }

    pub fn new() -> (r: Consumer)
        ensures
            r.wf(),
            r.idle(),
            r.log() == Seq::<u8>::empty(),
    {
        let consumer = Consumer {
            buffer: VecDeque::with_capacity(BUFFER_CAPACITY + 1),
            inner: delayed_series::Consumer::new(),
        };
        proof {
            assert(consumer.log() =~= Seq::<u8>::empty());
        }
        consumer
    }

    /// A snapshot of the items waiting in the queue, in arrival order.
    pub fn queued_items(&self) -> (r: Vec<u8>)
        ensures
            r@ == self.queued(),
    {
        let mut items: Vec<u8> = Vec::new();
        let mut i: usize = 0;
        while i < self.buffer.len()
            invariant
                i <= self.buffer@.len(),
                items@ == self.buffer@.take(i as int),
            decreases self.buffer@.len() - i,
        {
            let item = self.buffer[i];
            items.push(item);
            i = i + 1;
            proof {
                assert(items@ =~= self.buffer@.take(i as int));
            }
        }
        proof {
            assert(items@ =~= self.buffer@);
        }
        items
    }

    /// The drain: move queued items into the downstream sink, head first,
    /// until the queue is empty or the downstream sink rejects one; a
    /// rejected head is put back, so arrival order is preserved.
    fn try_empty_buffer(&mut self, task_handle: &mut TaskHandle) -> (r: ExtendedPoll<
        (),
        void::Void,
    >)
        ensures
            r is Ok,
            final(self).log() == old(self).log(),
            final(self).queued().len() <= old(self).queued().len(),
            final(self).queued() == old(self).queued().skip(
                old(self).queued().len() - final(self).queued().len(),
            ),
            r matches Ok(ExtendedAsync::Ready(_)) ==> final(self).queued().len() == 0,
            r matches Ok(ExtendedAsync::NotReady(_)) ==> final(self).queued().len() > 0,
            final(self).downstream_log() == old(self).downstream_log()
                + old(self).queued().take(
                old(self).queued().len() - final(self).queued().len(),
            ),
            final(self).downstream_log() == old(self).downstream_log() ==> final(self).queued()
                == old(self).queued(),
            old(self).downstream_log().is_prefix_of(final(self).downstream_log()),
            old(self).consumed().is_prefix_of(final(self).consumed()),
            old(self).queued().len() == 0 ==> (r matches Ok(ExtendedAsync::Ready(_)))
                && *final(self) == *old(self),
    {
        while self.buffer.len() > 0
            invariant
                self.inner.log() + self.buffer@ == old(self).inner.log() + old(self).buffer@,
                self.buffer@.len() <= old(self).buffer@.len(),
                self.buffer@ == old(self).buffer@.skip(
                    old(self).buffer@.len() - self.buffer@.len(),
                ),
                self.inner.log() == old(self).inner.log() ==> self.buffer@ == old(self).buffer@,
                old(self).inner.log().is_prefix_of(self.inner.log()),
                old(self).inner.done().is_prefix_of(self.inner.done()),
                old(self).buffer@.len() == 0 ==> *self == *old(self),
            decreases self.buffer@.len(),
        {
            let ghost entry = *self;
            let item = self.buffer.pop_front().unwrap();
            match self.inner.extended_start_send(task_handle, item) {
                Ok(ExtendedAsyncSink::NotReady(item, agreement_to_notify)) => {
                    self.buffer.push_front(item);
                    proof {
                        assert(self.buffer@ =~= entry.buffer@);
                    }
                    // pursue the consumption already in flight before
                    // handing the suspension upward; a token it may return
                    // is absorbed, as the send's token already covers the
                    // suspension being reported
                    match self.inner.extended_poll_complete(task_handle) {
                        Ok(ExtendedAsync::Ready(())) => {},
                        Ok(ExtendedAsync::NotReady(already_arranged)) => {
                            already_arranged.absorb();
                        },
                        Err(err) => {
                            return Err(err);
                        },
                    }
                    proof {
                        let consumed = old(self).buffer@.len() - self.buffer@.len();
                        let flushed = self.inner.log().len() as int;
                        assert(self.inner.log() + self.buffer@ == old(self).inner.log() + old(
                            self,
                        ).buffer@);
                        assert((self.inner.log() + self.buffer@).take(flushed)
                            =~= self.inner.log());
                        assert((old(self).inner.log() + old(self).buffer@).take(flushed)
                            =~= old(self).inner.log() + old(self).buffer@.take(consumed));
                        assert(self.inner.log() =~= old(self).inner.log()
                            + old(self).buffer@.take(consumed));
                    }
                    return Ok(ExtendedAsync::NotReady(agreement_to_notify));
                },
                Ok(ExtendedAsyncSink::Ready) => {
                    proof {
                        assert(self.inner.log() + self.buffer@ =~= entry.inner.log()
                            + entry.buffer@);
                        assert(self.buffer@ =~= old(self).buffer@.skip(
                            old(self).buffer@.len() - self.buffer@.len(),
                        ));
                    }
                },
                Err(err) => {
                    return Err(err);
                },
            }
        }
        proof {
            assert(self.inner.log() =~= old(self).inner.log() + old(self).buffer@.take(
                old(self).buffer@.len() - self.buffer@.len(),
            ));
        }
        Ok(ExtendedAsync::Ready(()))
    }
}

impl ExtendedSink for Consumer {
    type SinkItem = u8;

    type SinkError = void::Void;

    fn extended_start_send(&mut self, task_handle: &mut TaskHandle, item: u8) -> (r: Result<
        ExtendedAsyncSink<u8>,
        void::Void,
    >)
        ensures
            r is Ok,
            old(self).wf() ==> final(self).wf(),
            r matches Ok(ExtendedAsyncSink::Ready) ==> final(self).log() == old(
                self,
            ).log().push(item),
            r matches Ok(ExtendedAsyncSink::NotReady(it, _)) ==> it == item && final(self).log()
                == old(self).log() && old(self).queued().len() >= BUFFER_CAPACITY,
            old(self).wf() && (r matches Ok(ExtendedAsyncSink::NotReady(_, _)))
                ==> final(self).queued() == old(self).queued(),
            old(self).queued().len() < BUFFER_CAPACITY ==> r matches Ok(ExtendedAsyncSink::Ready),
            final(self).downstream_log() == old(self).downstream_log() ==> final(self).queued()
                == send_step(old(self).queued(), item).0 && ((r matches Ok(
                ExtendedAsyncSink::Ready,
            )) <==> send_step(old(self).queued(), item).1),
            old(self).downstream_log().is_prefix_of(final(self).downstream_log()),
            old(self).consumed().is_prefix_of(final(self).consumed()),
    {
        match self.try_empty_buffer(task_handle) {
            Ok(ExtendedAsync::NotReady(agreement_to_notify)) => {
                if self.buffer.len() < BUFFER_CAPACITY {
                    // the queue still has room: the item is taken in despite
                    // the suspended drain, whose token is absorbed — its
                    // wakeup is already arranged and will drive the drain on
                    self.buffer.push_back(item);
                    agreement_to_notify.absorb();
                    proof {
                        assert(self.log() =~= old(self).log().push(item));
                    }
                    Ok(ExtendedAsyncSink::Ready)
                } else {
                    Ok(ExtendedAsyncSink::NotReady(item, agreement_to_notify))
                }
            },
            Ok(ExtendedAsync::Ready(())) => {
                self.buffer.push_back(item);
                proof {
                    assert(self.log() =~= old(self).log().push(item));
                }
                Ok(ExtendedAsyncSink::Ready)
            },
            Err(err) => Err(err),
        }
    }

    fn extended_poll_complete(&mut self, task_handle: &mut TaskHandle) -> (r: ExtendedPoll<
        (),
        void::Void,
    >)
        ensures
            r is Ok,
            final(self).log() == old(self).log(),
            old(self).wf() ==> final(self).wf(),
            old(self).idle() ==> (r matches Ok(ExtendedAsync::Ready(_))) && *final(self) == *old(
                self,
            ),
            r matches Ok(ExtendedAsync::Ready(_)) ==> final(self).idle(),
            old(self).downstream_log().is_prefix_of(final(self).downstream_log()),
            old(self).consumed().is_prefix_of(final(self).consumed()),
    {
        match self.try_empty_buffer(task_handle) {
            Ok(ExtendedAsync::NotReady(agreement_to_notify)) => {
                return Ok(ExtendedAsync::NotReady(agreement_to_notify));
            },
            Ok(ExtendedAsync::Ready(())) => {},
            Err(err) => {
                return Err(err);
            },
        }
        self.inner.extended_poll_complete(task_handle)
    }
}

/// Law: a buffer whose queue has room for them accepts an immediate burst of
/// items in full, even while the downstream sink makes no progress, queueing
/// them in arrival order behind what was already queued.
pub proof fn lemma_burst_accepted(queue: Seq<u8>, items: Seq<u8>)
    requires
        queue.len() + items.len() <= BUFFER_CAPACITY,
    ensures
        send_burst(queue, items).1,
        send_burst(queue, items).0 == queue + items,
    decreases items.len(),
{
    if items.len() == 0 {
        assert(queue + items =~= queue);
    } else {
        lemma_burst_accepted(queue.push(items[0]), items.drop_first());
        assert(queue.push(items[0]) + items.drop_first() =~= queue + items);
    }
}

/// Law: from an empty queue, a burst of at most the capacity is accepted in
/// full; and once a burst has filled the queue to capacity, the next send,
/// with the downstream sink still making no progress, is rejected with the
/// queue unchanged.
pub proof fn lemma_backpressure(items: Seq<u8>, extra: u8)
    requires
        items.len() <= BUFFER_CAPACITY,
    ensures
        send_burst(Seq::empty(), items).1,
        send_burst(Seq::empty(), items).0 == items,
        items.len() == BUFFER_CAPACITY ==> send_step(items, extra) == (items, false),
{
    lemma_burst_accepted(Seq::empty(), items);
    assert(Seq::<u8>::empty() + items =~= items);
}

/// Law: arrival order is preserved end to end — at every state, what has
/// been handed to the downstream sink is exactly the earliest-sent prefix
/// of all accepted items, and what has fully completed consumption is in
/// turn a prefix of that.
pub proof fn lemma_fifo_order(consumer: Consumer)
    ensures
        consumer.downstream_log() == consumer.log().take(consumer.downstream_log().len() as int),
        consumer.consumed().is_prefix_of(consumer.downstream_log()),
        consumer.consumed().is_prefix_of(consumer.log()),
{
    assert(consumer.downstream_log() =~= consumer.log().take(
        consumer.downstream_log().len() as int,
    ));
    assert(consumer.consumed() =~= consumer.downstream_log().subrange(
        0,
        consumer.consumed().len() as int,
    ));
    assert(consumer.consumed() =~= consumer.log().subrange(0, consumer.consumed().len() as int));
}

} // verus!
