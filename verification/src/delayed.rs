//! The single-item relay over a timer: one value is produced, or one value
//! consumed, once a one-second sleep has completed. The sleep suspends with
//! a wake token; the token is forwarded through exactly this one layer.
use vstd::prelude::*;
use crate::instant;
use crate::protocol::{ExtendedAsync, ExtendedFuture, ExtendedPoll, TaskHandle};
use crate::sleeper::Sleeper;

verus! {

pub const NANOS_PER_SECOND: u64 = 1_000_000_000;

/// A future that produces a fresh value after a delay of one second.
pub struct Producer {
    inner: instant::Producer,
    sleeper: Sleeper,
}

impl Producer {
    /// The duration, in nanoseconds, of the delay gating the value.
    pub closed spec fn duration(self) -> u64 {
        self.sleeper.duration()
    }

    /// Whether the most recent poll found the gating delay elapsed.
    pub closed spec fn completed(self) -> bool {
        self.sleeper.completed()
    }

    /// Every value drawn and yielded by this relay, in order.
    pub closed spec fn drawn(self) -> Seq<u8> {
        self.inner.drawn()
    }

    pub fn new() -> (r: Producer)
        ensures
            r.duration() == NANOS_PER_SECOND,
            !r.completed(),
            r.drawn() == Seq::<u8>::empty(),
    {
        Producer { inner: instant::Producer::new(), sleeper: Sleeper::new(NANOS_PER_SECOND) }
    }
}

impl ExtendedFuture for Producer {
    type Item = u8;

    type Error = void::Void;

    fn extended_poll(&mut self, task_handle: &mut TaskHandle) -> (r: ExtendedPoll<
        u8,
        void::Void,
    >)
        ensures
            r is Ok,
            final(self).duration() == old(self).duration(),
            (r matches Ok(ExtendedAsync::Ready(_))) <==> final(self).completed(),
            r matches Ok(ExtendedAsync::Ready(v)) ==> final(self).drawn() == old(
                self,
            ).drawn().push(v),
            r matches Ok(ExtendedAsync::NotReady(_)) ==> final(self).drawn() == old(self).drawn(),
    {
        match self.sleeper.extended_poll(task_handle) {
            Ok(ExtendedAsync::Ready(())) => self.inner.extended_poll(task_handle),
            Ok(ExtendedAsync::NotReady(agreement_to_notify)) => Ok(
                ExtendedAsync::NotReady(agreement_to_notify),
            ),
            Err(err) => Err(err),
        }
    }
}

/// A future that consumes a value after a delay of one second. The value is
/// remembered in ghost state, so that order of receipt can be reasoned about.
pub struct Consumer {
    inner: instant::Consumer,
    sleeper: Sleeper,
}

impl Consumer {
    /// The value this consumer was given.
    pub closed spec fn item(self) -> u8 {
        self.inner.item()
    }

    /// The duration, in nanoseconds, of the delay gating the consumption.
    pub closed spec fn duration(self) -> u64 {
        self.sleeper.duration()
    }

    /// Whether the most recent poll found the gating delay elapsed.
    pub closed spec fn completed(self) -> bool {
        self.sleeper.completed()
    }

    pub fn new(value: u8) -> (r: Consumer)
        ensures
            r.item() == value,
            r.duration() == NANOS_PER_SECOND,
            !r.completed(),
    {
        Consumer { inner: instant::Consumer::new(value), sleeper: Sleeper::new(NANOS_PER_SECOND) }
    }
}

impl ExtendedFuture for Consumer {
    type Item = ();

    type Error = void::Void;

    fn extended_poll(&mut self, task_handle: &mut TaskHandle) -> (r: ExtendedPoll<
        (),
        void::Void,
    >)
        ensures
            r is Ok,
            final(self).item() == old(self).item(),
            final(self).duration() == old(self).duration(),
            (r matches Ok(ExtendedAsync::Ready(_))) <==> final(self).completed(),
    {
        match self.sleeper.extended_poll(task_handle) {
            Ok(ExtendedAsync::Ready(())) => self.inner.extended_poll(task_handle),
            Ok(ExtendedAsync::NotReady(agreement_to_notify)) => Ok(
                ExtendedAsync::NotReady(agreement_to_notify),
            ),
            Err(err) => Err(err),
        }
    }
}

} // verus!
