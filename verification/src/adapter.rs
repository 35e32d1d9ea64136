//! Routing glue over a repeating source and sink: bytes pulled from the
//! source are split by parity — odd bytes are handed to the caller, even
//! bytes are queued for the underlying sink, together with everything the
//! caller sends, in arrival order.
use vstd::prelude::*;
use crate::delayed_series;
use crate::notify;
use crate::protocol::{
    ExtendedAsync,
    ExtendedAsyncSink,
    ExtendedPoll,
    ExtendedSink,
    ExtendedStream,
    TaskHandle,
};
use std::collections::VecDeque;

verus! {

/// A byte routed to the caller: always odd.
#[derive(Debug)]
pub struct Incoming(pub u8);

/// A byte the caller routes to the underlying sink.
#[derive(Debug)]
pub struct Outgoing(pub u8);

pub struct Adapter {
    buffer: VecDeque<u8>,
    stream: delayed_series::Producer,
    sink: delayed_series::Consumer,
}

impl Adapter {
    /// The bytes queued for the underlying sink, in arrival order.
    pub closed spec fn queued(self) -> Seq<u8> {
        self.buffer@
    }

    /// Every byte handed on to the underlying sink, in order.
    pub closed spec fn routed_log(self) -> Seq<u8> {
        self.sink.log()
    }

    /// Every byte the underlying stream has yielded, in order.
    pub closed spec fn received(self) -> Seq<u8> {
        self.stream.produced()
    }

    /// Whether the underlying sink has an item in flight.
    pub closed spec fn sink_idle(self) -> bool {
        self.sink.idle()
    }

    /// Every byte bound for the underlying sink, in order: those already
    /// handed on, then those still queued.
    pub open spec fn routed(self) -> Seq<u8> {
        self.routed_log() + self.queued()
    }

    /// Nothing is pending for the underlying sink.
    pub open spec fn idle(self) -> bool {
        self.queued().len() == 0 && self.sink_idle()
    }

    pub fn new() -> (r: Adapter)
        ensures
            r.idle(),
            r.routed() == Seq::<u8>::empty(),
            r.received() == Seq::<u8>::empty(),
    {
        let adapter = Adapter {
            buffer: VecDeque::new(),
            stream: delayed_series::Producer::new(),
            sink: delayed_series::Consumer::new(),
        };
        proof {
            assert(adapter.routed() =~= Seq::<u8>::empty());
        }
        adapter
    }

    /// The drain: move queued bytes into the underlying sink, head first,
    /// until the queue is empty or the sink rejects one; a rejected head is
    /// put back, so arrival order is preserved.
    fn try_empty_buffer(&mut self, task_handle: &mut TaskHandle) -> (r: ExtendedPoll<
        (),
        void::Void,
    >)
        ensures
            r is Ok,
            final(self).routed() == old(self).routed(),
            final(self).received() == old(self).received(),
            r matches Ok(ExtendedAsync::Ready(_)) ==> final(self).queued().len() == 0,
            old(self).queued().len() == 0 ==> (r matches Ok(ExtendedAsync::Ready(_)))
                && *final(self) == *old(self),
            old(self).routed_log().is_prefix_of(final(self).routed_log()),
    {
        while self.buffer.len() > 0
            invariant
                self.sink.log() + self.buffer@ == old(self).sink.log() + old(self).buffer@,
                self.stream == old(self).stream,
                old(self).sink.log().is_prefix_of(self.sink.log()),
                old(self).buffer@.len() == 0 ==> *self == *old(self),
            decreases self.buffer@.len(),
        {
            let ghost entry = *self;
            let item = self.buffer.pop_front().unwrap();
            match self.sink.extended_start_send(task_handle, item) {
                Ok(ExtendedAsyncSink::NotReady(item, agreement_to_notify)) => {
                    self.buffer.push_front(item);
                    proof {
                        assert(self.buffer@ =~= entry.buffer@);
                    }
                    // pursue the consumption already in flight before
                    // handing the suspension upward; a token it may return
                    // is absorbed, as the send's token already covers the
                    // suspension being reported
                    match self.sink.extended_poll_complete(task_handle) {
                        Ok(ExtendedAsync::Ready(())) => {},
                        Ok(ExtendedAsync::NotReady(already_arranged)) => {
                            already_arranged.absorb();
                        },
                        Err(err) => {
                            return Err(err);
                        },
                    }
                    return Ok(ExtendedAsync::NotReady(agreement_to_notify));
                },
                Ok(ExtendedAsyncSink::Ready) => {
                    proof {
                        assert(self.sink.log() + self.buffer@ =~= entry.sink.log()
                            + entry.buffer@);
                    }
                },
                Err(err) => {
                    return Err(err);
                },
            }
        }
        Ok(ExtendedAsync::Ready(()))
    }
}

impl ExtendedStream for Adapter {
    type Item = Incoming;

    type Error = void::Void;

    fn extended_poll(&mut self, task_handle: &mut TaskHandle) -> (r: ExtendedPoll<
        Option<Incoming>,
        void::Void,
    >)
        ensures
            r is Ok,
            !(r matches Ok(ExtendedAsync::Ready(None::<Incoming>))),
            r matches Ok(ExtendedAsync::Ready(Some(incoming))) ==> incoming.0 % 2 == 1
                && final(self).received() == old(self).received().push(incoming.0),
            old(self).received().is_prefix_of(final(self).received()),
            final(self).routed() == old(self).routed() + final(self).received().skip(
                old(self).received().len() as int,
            ).filter(|b: u8| b % 2 == 0),
    {
        match self.try_empty_buffer(task_handle) {
            Ok(ExtendedAsync::Ready(())) => {},
            Ok(ExtendedAsync::NotReady(already_arranged)) => {
                // the drain suspended, but the stream may still have a value
                // ready, so it is polled this round all the same; the drain's
                // token is absorbed — its wakeup is already arranged and will
                // drive the drain on
                already_arranged.absorb();
            },
            Err(err) => {
                return Err(err);
            },
        }
        match self.stream.extended_poll(task_handle) {
            Ok(ExtendedAsync::Ready(Some(byte))) => {
                proof {
                    lemma_even_filter_unit(byte);
                }
                if byte % 2 == 0 {
                    self.buffer.push_back(byte);
                    // The byte went to the sink queue, not to the caller:
                    // suspend, with the wakeup delivered at once so that the
                    // driver promptly polls again for the next byte.
                    let (task, agreement_to_notify) = task_handle.i_will_notify();
                    notify::notify_task(&task);
                    proof {
                        assert(self.received().skip(old(self).received().len() as int)
                            =~= seq![byte]);
                        assert(self.routed() =~= old(self).routed() + seq![byte]);
                    }
                    Ok(ExtendedAsync::NotReady(agreement_to_notify))
                } else {
                    proof {
                        assert(self.received().skip(old(self).received().len() as int)
                            =~= seq![byte]);
                        assert(self.routed() =~= old(self).routed() + Seq::<u8>::empty());
                    }
                    Ok(ExtendedAsync::Ready(Some(Incoming(byte))))
                }
            },
            Ok(ExtendedAsync::Ready(None)) => Ok(ExtendedAsync::Ready(None)),
            Ok(ExtendedAsync::NotReady(agreement_to_notify)) => {
                proof {
                    lemma_even_filter_unit(0);
                    assert(self.received().skip(old(self).received().len() as int)
                        =~= Seq::<u8>::empty());
                    assert(self.routed() =~= old(self).routed() + Seq::<u8>::empty());
                }
                Ok(ExtendedAsync::NotReady(agreement_to_notify))
            },
            Err(err) => Err(err),
        }
    }
}

/// The even-byte bookkeeping for one byte yielded by the stream: filtering
/// a single byte keeps it exactly when it is even, and filtering nothing
/// yields nothing.
proof fn lemma_even_filter_unit(byte: u8)
    ensures
        byte % 2 == 0 ==> seq![byte].filter(|b: u8| b % 2 == 0) == seq![byte],
        byte % 2 != 0 ==> seq![byte].filter(|b: u8| b % 2 == 0) == Seq::<u8>::empty(),
        Seq::<u8>::empty().filter(|b: u8| b % 2 == 0) == Seq::<u8>::empty(),
{
    reveal_with_fuel(Seq::filter, 2);
    assert(seq![byte].drop_last() =~= Seq::<u8>::empty());
    assert(seq![byte].last() == byte);
    assert(Seq::<u8>::empty().push(byte) =~= seq![byte]);
    assert(seq![byte].len() == 1);
}

impl ExtendedSink for Adapter {
    type SinkItem = Outgoing;

    type SinkError = void::Void;

    fn extended_start_send(&mut self, task_handle: &mut TaskHandle, item: Outgoing) -> (r: Result<
        ExtendedAsyncSink<Outgoing>,
        void::Void,
    >)
        ensures
            r matches Ok(ExtendedAsyncSink::Ready),
            final(self).routed() == old(self).routed().push(item.0),
            final(self).received() == old(self).received(),
    {
        match self.try_empty_buffer(task_handle) {
            Ok(ExtendedAsync::Ready(())) => {},
            Ok(ExtendedAsync::NotReady(already_arranged)) => {
                // the item is queued despite the suspended drain, whose token
                // is absorbed — its wakeup is already arranged and will drive
                // the drain on
                already_arranged.absorb();
            },
            Err(err) => {
                return Err(err);
            },
        }
        self.buffer.push_back(item.0);
        proof {
            assert(self.routed() =~= old(self).routed().push(item.0));
        }
        Ok(ExtendedAsyncSink::Ready)
    }

    fn extended_poll_complete(&mut self, task_handle: &mut TaskHandle) -> (r: ExtendedPoll<
        (),
        void::Void,
    >)
        ensures
            r is Ok,
            final(self).routed() == old(self).routed(),
            final(self).received() == old(self).received(),
            r matches Ok(ExtendedAsync::Ready(_)) ==> final(self).idle(),
            old(self).idle() ==> (r matches Ok(ExtendedAsync::Ready(_))) && *final(self) == *old(
                self,
            ),
    {
        match self.try_empty_buffer(task_handle) {
            Ok(ExtendedAsync::NotReady(agreement_to_notify)) => {
                return Ok(ExtendedAsync::NotReady(agreement_to_notify));
            },
            Ok(ExtendedAsync::Ready(())) => {},
            Err(err) => {
                return Err(err);
            },
        }
        self.sink.extended_poll_complete(task_handle)
    }
}

} // verus!
