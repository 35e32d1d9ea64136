//! The instantaneous producer and consumer: a fresh value is produced, or a
//! value consumed, on the very first poll.
use vstd::prelude::*;
use crate::protocol::{ExtendedAsync, ExtendedFuture, ExtendedPoll, TaskHandle};

verus! {

/// Relies on rand::random: draws a fresh value; nothing is promised of it.
#[verifier::external_body]
fn random_u8() -> u8 {
    rand::random()
}

/// A future that produces a fresh value with no delay. Every value it has
/// drawn is remembered in ghost state, so that yields can be traced to it.
pub struct Producer {
    drawn_log: Ghost<Seq<u8>>,
}

impl Producer {
    /// Every value this producer has drawn, in order.
    pub closed spec fn drawn(self) -> Seq<u8> {
        self.drawn_log@
    }

    pub fn new() -> (r: Producer)
        ensures
            r.drawn() == Seq::<u8>::empty(),
    {
        Producer { drawn_log: Ghost(Seq::empty()) }
    }
}

impl ExtendedFuture for Producer {
    type Item = u8;

    type Error = void::Void;

    fn extended_poll(&mut self, _task_handle: &mut TaskHandle) -> (r: ExtendedPoll<
        u8,
        void::Void,
    >)
        ensures
            r matches Ok(ExtendedAsync::Ready(v)) && final(self).drawn() == old(
                self,
            ).drawn().push(v),
    {
        let value = random_u8();
        self.drawn_log = Ghost(self.drawn_log@.push(value));
        Ok(ExtendedAsync::Ready(value))
    }
}

/// A future that consumes a value with no delay. The value it was given is
/// remembered in ghost state, so that order of receipt can be reasoned about.
pub struct Consumer {
    value: Ghost<u8>,
}

impl Consumer {
    /// The value this consumer was given.
    pub closed spec fn item(self) -> u8 {
        self.value@
    }

    pub fn new(value: u8) -> (r: Consumer)
        ensures
            r.item() == value,
    {
        Consumer { value: Ghost(value) }
    }
}

impl ExtendedFuture for Consumer {
    type Item = ();

    type Error = void::Void;

    fn extended_poll(&mut self, _task_handle: &mut TaskHandle) -> (r: ExtendedPoll<
        (),
        void::Void,
    >)
        ensures
            r == Ok::<ExtendedAsync<()>, void::Void>(ExtendedAsync::Ready(())),
            *final(self) == *old(self),
    {
        Ok(ExtendedAsync::Ready(()))
    }
}

} // verus!
