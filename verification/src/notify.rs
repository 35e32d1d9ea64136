//! Trusted boundary to the task-notification machinery: the reference to the
//! driving task, and the background timer that delivers a wakeup later.
use vstd::prelude::*;

verus! {

/// `futures::task::Task` is the opaque, clonable reference to whoever is
/// driving the current poll chain; notifications are delivered through it,
/// from any thread.
#[verifier::external_type_specification]
#[verifier::external_body]
pub struct ExTask(futures::task::Task);

/// `futures_timer::Delay` is a timeout registered with a background timer
/// thread; polling it arranges that the current task is notified once the
/// timeout has elapsed. Dropping it cancels the registration.
#[verifier::external_type_specification]
#[verifier::external_body]
pub struct ExDelay(futures_timer::Delay);

/// Relies on futures::task::current: returns a reference to the task driving
/// the current poll. Panics in the outside crate if no poll is in progress;
/// every call here happens inside one.
#[verifier::external_body]
pub(crate) fn current_task() -> futures::task::Task {
    futures::task::current()
}

/// Relies on futures::task::Task::notify: schedules the task for another
/// poll. Duplicate or extraneous notifications are harmless no-ops.
#[verifier::external_body]
pub(crate) fn notify_task(task: &futures::task::Task) {
    task.notify()
}

/// Relies on futures_timer::Delay::new: registers a timeout that fires once
/// the given number of nanoseconds has elapsed from now.
#[verifier::external_body]
pub(crate) fn new_delay(nanos: u64) -> futures_timer::Delay {
    futures_timer::Delay::new(std::time::Duration::from_nanos(nanos))
}

/// Relies on futures_timer::Delay's Future impl: polling registers the
/// current task to be notified when the timeout fires. Returns whether the
/// timeout has already fired (in which case no notification will follow);
/// a failed timer is reported as fired, so that the caller re-polls instead
/// of stalling.
#[verifier::external_body]
pub(crate) fn arm_delay(delay: &mut futures_timer::Delay) -> bool {
    match futures::Future::poll(delay) {
        Ok(futures::Async::Ready(())) => true,
        Ok(futures::Async::NotReady) => false,
        Err(_) => true,
    }
}

} // verus!
