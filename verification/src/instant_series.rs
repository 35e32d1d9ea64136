//! The repeating source and single-slot sink over the instantaneous
//! components: the source re-arms itself on every completion and never ends
//! the sequence; the sink accepts one in-flight item at a time.
use vstd::prelude::*;
use crate::instant;
use crate::protocol::{
    ExtendedAsync,
    ExtendedAsyncSink,
    ExtendedFuture,
    ExtendedPoll,
    ExtendedSink,
    ExtendedStream,
    TaskHandle,
};

verus! {

/// A stream that produces fresh values with no delay, one per poll, and
/// never signals end of sequence.
pub struct Producer {
    next: instant::Producer,
    produced_log: Ghost<Seq<u8>>,
}

impl Producer {
    /// Every value this stream has yielded, in order.
    pub closed spec fn produced(self) -> Seq<u8> {
        self.produced_log@
    }

    pub fn new() -> (r: Producer)
        ensures
            r.produced() == Seq::<u8>::empty(),
    {
        Producer { next: instant::Producer::new(), produced_log: Ghost(Seq::empty()) }
    }
}

impl ExtendedStream for Producer {
    type Item = u8;

    type Error = void::Void;

    fn extended_poll(&mut self, task_handle: &mut TaskHandle) -> (r: ExtendedPoll<
        Option<u8>,
        void::Void,
    >)
        ensures
            r matches Ok(ExtendedAsync::Ready(Some(v))) && final(self).produced() == old(
                self,
            ).produced().push(v),
    {
        match self.next.extended_poll(task_handle) {
            Ok(ExtendedAsync::Ready(next)) => {
                self.next = instant::Producer::new();
                self.produced_log = Ghost(self.produced_log@.push(next));
                Ok(ExtendedAsync::Ready(Some(next)))
            },
            Ok(ExtendedAsync::NotReady(agreement_to_notify)) => Ok(
                ExtendedAsync::NotReady(agreement_to_notify),
            ),
            Err(err) => Err(err),
        }
    }
}

/// A sink that consumes values with no delay, holding at most one in-flight
/// item. Every item it has taken in is remembered in ghost state, in order.
pub struct Consumer {
    sending: Option<instant::Consumer>,
    done_log: Ghost<Seq<u8>>,
}

impl Consumer {
    /// The item currently in flight, if any.
    pub closed spec fn slot(self) -> Option<u8> {
        match self.sending {
            Some(consumer) => Some(consumer.item()),
            None => None,
        }
    }

    /// The items whose consumption has fully completed, in order of receipt.
    pub closed spec fn done(self) -> Seq<u8> {
        self.done_log@
    }

    /// The in-flight item as a sequence: empty, or a single element.
    pub open spec fn slot_seq(self) -> Seq<u8> {
        match self.slot() {
            Some(v) => seq![v],
            None => Seq::empty(),
        }
    }

    /// Every item this sink has accepted, in order: first the completed
    /// ones, then the one still in flight.
    pub open spec fn log(self) -> Seq<u8> {
        self.done() + self.slot_seq()
    }

    /// Nothing is pending: no item is in flight.
    pub open spec fn idle(self) -> bool {
        self.slot() is None
    }

    pub fn new() -> (r: Consumer)
        ensures
            r.idle(),
            r.done() == Seq::<u8>::empty(),
    {
        Consumer { sending: None, done_log: Ghost(Seq::empty()) }
    }
}

impl ExtendedSink for Consumer {
    type SinkItem = u8;

    type SinkError = void::Void;

    fn extended_start_send(&mut self, task_handle: &mut TaskHandle, item: u8) -> (r: Result<
        ExtendedAsyncSink<u8>,
        void::Void,
    >)
        ensures
            r == Ok::<ExtendedAsyncSink<u8>, void::Void>(ExtendedAsyncSink::Ready),
            final(self).log() == old(self).log().push(item),
            final(self).slot() == Some(item),
            old(self).done().is_prefix_of(final(self).done()),
    {
        match self.extended_poll_complete(task_handle) {
            Ok(ExtendedAsync::NotReady(agreement_to_notify)) => {
                return Ok(ExtendedAsyncSink::NotReady(item, agreement_to_notify));
            },
            Ok(ExtendedAsync::Ready(())) => {},
            Err(err) => {
                return Err(err);
            },
        }
        self.sending = Some(instant::Consumer::new(item));
        Ok(ExtendedAsyncSink::Ready)
    }

    fn extended_poll_complete(&mut self, task_handle: &mut TaskHandle) -> (r: ExtendedPoll<
        (),
        void::Void,
    >)
        ensures
            r == Ok::<ExtendedAsync<()>, void::Void>(ExtendedAsync::Ready(())),
            final(self).idle(),
            final(self).log() == old(self).log(),
            old(self).done().is_prefix_of(final(self).done()),
            old(self).idle() ==> *final(self) == *old(self),
    {
        let mut finished = false;
        match &mut self.sending {
            Some(consumer) => {
                match consumer.extended_poll(task_handle) {
                    Ok(ExtendedAsync::Ready(())) => {
                        finished = true;
                    },
                    Ok(ExtendedAsync::NotReady(agreement_to_notify)) => {
                        return Ok(ExtendedAsync::NotReady(agreement_to_notify));
                    },
                    Err(err) => {
                        return Err(err);
                    },
                }
            },
            None => {},
        }
        if finished {
            self.done_log = Ghost(self.done_log@ + self.slot_seq());
            self.sending = None;
        }
        Ok(ExtendedAsync::Ready(()))
    }
}

} // verus!
