//! The repeating source and single-slot sink over the timer-gated relay:
//! one value is produced, or one in-flight item consumed, per completed
//! one-second delay. The source re-arms itself on every completion and
//! never ends the sequence.
use vstd::prelude::*;
use crate::delayed;
use crate::protocol::{
    ExtendedAsync,
    ExtendedAsyncSink,
    ExtendedFuture,
    ExtendedPoll,
    ExtendedSink,
    ExtendedStream,
    TaskHandle,
};

verus! {

/// A stream that produces a fresh value every second and never signals end
/// of sequence: exactly one value is yielded per ready poll, and none is
/// skipped or duplicated across re-arm boundaries.
pub struct Producer {
    next: delayed::Producer,
    produced_log: Ghost<Seq<u8>>,
    last_retired: Ghost<Option<delayed::Producer>>,
}

impl Producer {
    /// Every value this stream has yielded, in order.
    pub closed spec fn produced(self) -> Seq<u8> {
        self.produced_log@
    }

    /// The relay currently armed for the next value.
    pub closed spec fn armed(self) -> delayed::Producer {
        self.next
    }

    /// Whether the armed relay has been observed complete.
    pub open spec fn armed_completed(self) -> bool {
        self.armed().completed()
    }

    /// The relay that produced the latest yield, kept as evidence that every
    /// yield came from a relay that had actually completed.
    pub closed spec fn retired(self) -> Option<delayed::Producer> {
        self.last_retired@
    }

    pub fn new() -> (r: Producer)
        ensures
            r.produced() == Seq::<u8>::empty(),
            !r.armed_completed(),
            r.armed().drawn() == Seq::<u8>::empty(),
            r.armed().duration() == delayed::NANOS_PER_SECOND,
            r.retired() is None,
    {
        Producer {
            next: delayed::Producer::new(),
            produced_log: Ghost(Seq::empty()),
            last_retired: Ghost(None),
        }
    }
}

impl ExtendedStream for Producer {
    type Item = u8;

    type Error = void::Void;

    fn extended_poll(&mut self, task_handle: &mut TaskHandle) -> (r: ExtendedPoll<
        Option<u8>,
        void::Void,
    >)
        ensures
            r is Ok,
            !(r matches Ok(ExtendedAsync::Ready(None::<u8>))),
            r matches Ok(ExtendedAsync::Ready(Some(v))) ==> final(self).produced() == old(
                self,
            ).produced().push(v) && (final(self).retired() matches Some(relay)
                && relay.completed() && relay.drawn() == old(self).armed().drawn().push(v))
                && !final(self).armed_completed() && final(self).armed().drawn()
                == Seq::<u8>::empty(),
            r matches Ok(ExtendedAsync::NotReady(_)) ==> final(self).produced() == old(
                self,
            ).produced() && !final(self).armed_completed() && final(self).armed().drawn() == old(
                self,
            ).armed().drawn() && final(self).retired() == old(self).retired(),
    {
        match self.next.extended_poll(task_handle) {
            Ok(ExtendedAsync::Ready(next)) => {
                let ghost finished_relay = self.next;
                self.last_retired = Ghost(Some(finished_relay));
                self.next = delayed::Producer::new();
                self.produced_log = Ghost(self.produced_log@.push(next));
                Ok(ExtendedAsync::Ready(Some(next)))
            },
            Ok(ExtendedAsync::NotReady(agreement_to_notify)) => Ok(
                ExtendedAsync::NotReady(agreement_to_notify),
            ),
            Err(err) => Err(err),
        }
    }
}

/// A sink that consumes one item per second, holding at most one in-flight
/// item. Every item it has accepted is remembered in ghost state, in order.
pub struct Consumer {
    sending: Option<delayed::Consumer>,
    done_log: Ghost<Seq<u8>>,
    last_retired: Ghost<Option<delayed::Consumer>>,
}

impl Consumer {
    /// The item currently in flight, if any.
    pub closed spec fn slot(self) -> Option<u8> {
        match self.sending {
            Some(consumer) => Some(consumer.item()),
            None => None,
        }
    }

    /// The items whose consumption has fully completed, in order of receipt.
    pub closed spec fn done(self) -> Seq<u8> {
        self.done_log@
    }

    /// The in-flight item as a sequence: empty, or a single element.
    pub open spec fn slot_seq(self) -> Seq<u8> {
        match self.slot() {
            Some(v) => seq![v],
            None => Seq::empty(),
        }
    }

    /// Every item this sink has accepted, in order: first the completed
    /// ones, then the one still in flight.
    pub open spec fn log(self) -> Seq<u8> {
        self.done() + self.slot_seq()
    }

    /// Nothing is pending: no item is in flight.
    pub open spec fn idle(self) -> bool {
        self.slot() is None
    }

    /// The consumer that finished the latest completed consumption, kept as
    /// evidence that an item is marked done only once its timer-gated
    /// consumption actually completed.
    pub closed spec fn retired(self) -> Option<delayed::Consumer> {
        self.last_retired@
    }

    pub fn new() -> (r: Consumer)
        ensures
            r.idle(),
            r.done() == Seq::<u8>::empty(),
            r.retired() is None,
    {
        Consumer { sending: None, done_log: Ghost(Seq::empty()), last_retired: Ghost(None) }
    }
}

impl ExtendedSink for Consumer {
    type SinkItem = u8;

    type SinkError = void::Void;

    fn extended_start_send(&mut self, task_handle: &mut TaskHandle, item: u8) -> (r: Result<
        ExtendedAsyncSink<u8>,
        void::Void,
    >)
        ensures
            r is Ok,
            old(self).idle() ==> r == Ok::<ExtendedAsyncSink<u8>, void::Void>(
                ExtendedAsyncSink::Ready,
            ),
            r matches Ok(ExtendedAsyncSink::Ready) ==> final(self).log() == old(
                self,
            ).log().push(item) && final(self).slot() == Some(item),
            r matches Ok(ExtendedAsyncSink::NotReady(it, _)) ==> it == item && final(self).log()
                == old(self).log() && final(self).slot() == old(self).slot(),
            old(self).done().is_prefix_of(final(self).done()),
            ((r matches Ok(ExtendedAsyncSink::Ready)) && old(self).slot() is Some)
                ==> (final(self).retired() matches Some(consumer) && consumer.completed()
                && Some(consumer.item()) == old(self).slot()),
    {
        match self.extended_poll_complete(task_handle) {
            Ok(ExtendedAsync::NotReady(agreement_to_notify)) => {
                return Ok(ExtendedAsyncSink::NotReady(item, agreement_to_notify));
            },
            Ok(ExtendedAsync::Ready(())) => {},
            Err(err) => {
                return Err(err);
            },
        }
        let ghost drained = *self;
        self.sending = Some(delayed::Consumer::new(item));
        proof {
            assert(drained.done() =~= old(self).log());
            assert(self.log() =~= old(self).log().push(item));
        }
        Ok(ExtendedAsyncSink::Ready)
    }

    fn extended_poll_complete(&mut self, task_handle: &mut TaskHandle) -> (r: ExtendedPoll<
        (),
        void::Void,
    >)
        ensures
            r is Ok,
            old(self).idle() ==> r == Ok::<ExtendedAsync<()>, void::Void>(ExtendedAsync::Ready(()))
                && *final(self) == *old(self),
            r matches Ok(ExtendedAsync::Ready(_)) ==> final(self).idle(),
            r matches Ok(ExtendedAsync::NotReady(_)) ==> final(self).slot() == old(self).slot()
                && final(self).retired() == old(self).retired(),
            final(self).log() == old(self).log(),
            old(self).done().is_prefix_of(final(self).done()),
            ((r matches Ok(ExtendedAsync::Ready(_))) && old(self).slot() is Some)
                ==> (final(self).retired() matches Some(consumer) && consumer.completed()
                && Some(consumer.item()) == old(self).slot()),
    {
        let mut finished = false;
        let ghost mut finished_consumer: Option<delayed::Consumer> = None;
        match &mut self.sending {
            Some(consumer) => {
                match consumer.extended_poll(task_handle) {
                    Ok(ExtendedAsync::Ready(())) => {
                        finished = true;
                        proof {
                            finished_consumer = Some(*consumer);
                        }
                    },
                    Ok(ExtendedAsync::NotReady(agreement_to_notify)) => {
                        return Ok(ExtendedAsync::NotReady(agreement_to_notify));
                    },
                    Err(err) => {
                        return Err(err);
                    },
                }
            },
            None => {},
        }
        if finished {
            self.last_retired = Ghost(finished_consumer);
            self.done_log = Ghost(self.done_log@ + self.slot_seq());
            self.sending = None;
        }
        Ok(ExtendedAsync::Ready(()))
    }
}

} // verus!
