//! A future which resolves once a given duration has elapsed: the sole
//! originator of asynchronous wakeups. While the deadline lies ahead, each
//! poll arms a background timeout for the remaining time and suspends.
use vstd::prelude::*;
use crate::clock;
use crate::notify;
use crate::protocol::{AgreementToNotify, ExtendedAsync, ExtendedFuture, ExtendedPoll, TaskHandle};

verus! {

pub struct Sleeper {
    started: std::time::Instant,
    duration_nanos: u64,
    finished: Ghost<bool>,
    // The most recently armed timeout. Held so that its registration stays
    // alive until the sleeper resolves or is abandoned: dropping it cancels
    // the wakeup, and each re-poll re-arms one for the remaining time.
    pending: Option<futures_timer::Delay>,
}

impl Sleeper {
    /// The duration, in nanoseconds, after which this sleeper resolves.
    pub closed spec fn duration(self) -> u64 {
        self.duration_nanos
    }

    /// Whether the most recent poll found the duration elapsed.
    pub closed spec fn completed(self) -> bool {
        self.finished@
    }

    pub fn new(duration_nanos: u64) -> (r: Sleeper)
        ensures
            r.duration() == duration_nanos,
            !r.completed(),
    {
        Sleeper {
            started: clock::instant_now(),
            duration_nanos,
            finished: Ghost(false),
            pending: None,
        }
    }

    /// The polling decision at a sampled elapsed time: ready exactly when the
    /// duration has elapsed; otherwise a suspension, with a background
    /// notification arranged for the remaining time.
    pub fn poll_at(&mut self, task_handle: &mut TaskHandle, elapsed_nanos: u64) -> (r:
        ExtendedPoll<(), void::Void>)
        ensures
            final(self).duration() == old(self).duration(),
            r == Ok::<ExtendedAsync<()>, void::Void>(ExtendedAsync::Ready(())) <==> elapsed_nanos
                >= old(self).duration(),
            elapsed_nanos < old(self).duration() ==> r matches Ok(ExtendedAsync::NotReady(_)),
            final(self).completed() == (elapsed_nanos >= old(self).duration()),
            (r matches Ok(ExtendedAsync::Ready(_))) <==> final(self).completed(),
    {
        self.finished = Ghost(elapsed_nanos >= self.duration_nanos);
        if elapsed_nanos >= self.duration_nanos {
            Ok(ExtendedAsync::Ready(()))
        } else {
            let remaining = self.duration_nanos - elapsed_nanos;
            let (task, agreement_to_notify) = task_handle.i_will_notify();
            let mut delay = notify::new_delay(remaining);
            if notify::arm_delay(&mut delay) {
                // The timeout fired before it could register the wakeup:
                // deliver the notification directly, so the driver re-polls.
                notify::notify_task(&task);
            }
            self.pending = Some(delay);
            Ok(ExtendedAsync::NotReady(agreement_to_notify))
        }
    }
}

impl ExtendedFuture for Sleeper {
    type Item = ();

    type Error = void::Void;

    fn extended_poll(&mut self, task_handle: &mut TaskHandle) -> (r: ExtendedPoll<
        (),
        void::Void,
    >)
        ensures
            r is Ok,
            final(self).duration() == old(self).duration(),
            (r matches Ok(ExtendedAsync::Ready(_))) <==> final(self).completed(),
    {
        let elapsed = clock::elapsed_nanos(&self.started);
        self.poll_at(task_handle, elapsed)
    }
}

} // verus!
