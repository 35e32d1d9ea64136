//! The polling protocol: outcome types, the notification-obligation token,
//! the capability traits for sources and sinks, and the boundary adapters
//! that derive the conventional token-free polling convention.
use vstd::prelude::*;
use crate::notify;

verus! {

/// `void::Void` is the uninhabited error type of every component here: their
/// error channels exist structurally but are never populated.
#[verifier::external_type_specification]
#[verifier::external_body]
pub struct ExVoid(void::Void);

/// A handle to the current task, re-obtained on every poll. A component asks
/// it for a wake token when the component itself is the origin of a wait.
pub struct TaskHandle {
    _private: (),
}

/// An object representing an agreement to notify the current task.
///
/// To construct an `ExtendedAsync::NotReady` or `ExtendedAsyncSink::NotReady`
/// the component must provide an `AgreementToNotify`: either one obtained
/// from a child component (which then carries the obligation), or one minted
/// through `TaskHandle::i_will_notify`, in which case the component must
/// itself arrange the future notification.
pub struct AgreementToNotify {
    _private: (),
}

impl TaskHandle {
    /// A handle for one poll or send call, for a driver that invokes the
    /// extended API directly rather than through the boundary adapters.
    pub fn new() -> TaskHandle {
        TaskHandle { _private: () }
    }

    /// Mint a wake token, together with a reference to the driving task
    /// through which the notification must later be delivered.
    ///
    /// Panics if no poll is in progress: the task reference comes from the
    /// ambient polling context, so calling this outside one is a usage
    /// error, reported fatally.
    pub fn i_will_notify(&mut self) -> (futures::task::Task, AgreementToNotify) {
        (notify::current_task(), AgreementToNotify { _private: () })
    }
}

impl AgreementToNotify {
    /// Explicitly consume a token obtained from a child component whose
    /// notification is already arranged, where this component absorbs the
    /// suspension instead of forwarding it: it reports progress of its own,
    /// and the child's wakeup will still drive the next poll. A token must
    /// never be dropped without either this, being forwarded upward, or
    /// being discarded at the outermost token-free boundary.
    pub fn absorb(self) {
        let AgreementToNotify { _private: () } = self;
    }
}

/// The result of a single poll attempt: a value, or a suspension carrying
/// the obligation to notify the driver later.
pub enum ExtendedAsync<T> {
    Ready(T),
    NotReady(AgreementToNotify),
}

/// The result of handing an item to a sink: accepted, or rejected with the
/// original item returned unchanged together with a wake token.
pub enum ExtendedAsyncSink<T> {
    NotReady(T, AgreementToNotify),
    Ready,
}

/// The result type of every poll: the error side is never populated by the
/// components of this crate.
pub type ExtendedPoll<Item, Error> = Result<ExtendedAsync<Item>, Error>;

/// A component that produces one value, polled repeatedly until ready.
pub trait ExtendedFuture {
    type Item;

    type Error;

    fn extended_poll(&mut self, task_handle: &mut TaskHandle) -> Result<
        ExtendedAsync<Self::Item>,
        Self::Error,
    >;
}

/// A component that accepts a sequence of values, fed one at a time, with
/// explicit completion draining through `extended_poll_complete`.
pub trait ExtendedSink {
    type SinkItem;

    type SinkError;

    /// A send is all-or-nothing: a rejection hands back exactly the item
    /// that was offered, never a substitute.
    fn extended_start_send(
        &mut self,
        task_handle: &mut TaskHandle,
        item: Self::SinkItem,
    ) -> (r: Result<ExtendedAsyncSink<Self::SinkItem>, Self::SinkError>)
        ensures
            r matches Ok(ExtendedAsyncSink::NotReady(it, _)) ==> it == item,
    ;

    fn extended_poll_complete(&mut self, task_handle: &mut TaskHandle) -> Result<
        ExtendedAsync<()>,
        Self::SinkError,
    >;
}

/// A component that yields a sequence of values over time; `Ready(None)`
/// signals permanent end of the sequence.
pub trait ExtendedStream {
    type Item;

    type Error;

    fn extended_poll(&mut self, task_handle: &mut TaskHandle) -> Result<
        ExtendedAsync<Option<Self::Item>>,
        Self::Error,
    >;
}

/// The token-free reading of a poll outcome: a ready value is passed
/// through exactly, a suspension becomes `None` with its token discarded at
/// this boundary, and an error is passed through unchanged.
pub fn poll_to_option<I, E>(outcome: ExtendedPoll<I, E>) -> (r: Result<Option<I>, E>)
    ensures
        outcome matches Ok(ExtendedAsync::Ready(v)) ==> r == Ok::<Option<I>, E>(Some(v)),
        outcome matches Ok(ExtendedAsync::NotReady(_)) ==> r == Ok::<Option<I>, E>(None::<I>),
        outcome matches Err(e) ==> r == Err::<Option<I>, E>(e),
{
    match outcome {
        Ok(ExtendedAsync::Ready(value)) => Ok(Some(value)),
        Ok(ExtendedAsync::NotReady(agreement_to_notify)) => {
            agreement_to_notify.absorb();
            Ok(None)
        },
        Err(err) => Err(err),
    }
}

/// The token-free reading of a completion poll: `true` exactly for a ready
/// outcome, `false` for a suspension (token discarded at this boundary), an
/// error passed through unchanged.
pub fn complete_to_bool<E>(outcome: ExtendedPoll<(), E>) -> (r: Result<bool, E>)
    ensures
        outcome matches Ok(ExtendedAsync::Ready(_)) ==> r == Ok::<bool, E>(true),
        outcome matches Ok(ExtendedAsync::NotReady(_)) ==> r == Ok::<bool, E>(false),
        outcome matches Err(e) ==> r == Err::<bool, E>(e),
{
    match outcome {
        Ok(ExtendedAsync::Ready(())) => Ok(true),
        Ok(ExtendedAsync::NotReady(agreement_to_notify)) => {
            agreement_to_notify.absorb();
            Ok(false)
        },
        Err(err) => Err(err),
    }
}

/// The token-free reading of a send outcome: acceptance becomes `None`, a
/// rejection hands back exactly the item the sink returned (its token
/// discarded at this boundary), an error is passed through unchanged.
pub fn send_to_option<I, E>(outcome: Result<ExtendedAsyncSink<I>, E>) -> (r: Result<Option<I>, E>)
    ensures
        outcome matches Ok(ExtendedAsyncSink::Ready) ==> r == Ok::<Option<I>, E>(None::<I>),
        outcome matches Ok(ExtendedAsyncSink::NotReady(it, _)) ==> r == Ok::<Option<I>, E>(
            Some(it),
        ),
        outcome matches Err(e) ==> r == Err::<Option<I>, E>(e),
{
    match outcome {
        Ok(ExtendedAsyncSink::Ready) => Ok(None),
        Ok(ExtendedAsyncSink::NotReady(item, agreement_to_notify)) => {
            agreement_to_notify.absorb();
            Ok(Some(item))
        },
        Err(err) => Err(err),
    }
}

/// Derives the conventional polling convention for a future: one poll with
/// a fresh handle, mapped by [`poll_to_option`].
pub fn future_adapter<T, I, E>(extended_future: &mut T) -> Result<Option<I>, E> where
    T: ExtendedFuture<Item = I, Error = E>,
{
    poll_to_option(extended_future.extended_poll(&mut TaskHandle { _private: () }))
}

/// Derives the conventional polling convention for a stream: one poll with
/// a fresh handle, mapped by [`poll_to_option`] — the outer `Option` is
/// readiness, the inner `Option` is end-of-sequence.
pub fn stream_adapter<T, I, E>(extended_stream: &mut T) -> Result<Option<Option<I>>, E> where
    T: ExtendedStream<Item = I, Error = E>,
{
    poll_to_option(extended_stream.extended_poll(&mut TaskHandle { _private: () }))
}

/// Derives the conventional `poll_complete` convention for a sink: one
/// completion poll with a fresh handle, mapped by [`complete_to_bool`].
pub fn sink_poll_complete_adapter<T, E>(extended_sink: &mut T) -> Result<bool, E> where
    T: ExtendedSink<SinkError = E>,
{
    complete_to_bool(extended_sink.extended_poll_complete(&mut TaskHandle { _private: () }))
}

/// Derives the conventional `start_send` convention for a sink: one send
/// with a fresh handle, mapped by [`send_to_option`]. A rejection hands
/// back exactly the original item.
pub fn sink_start_send_adapter<T, I, E>(extended_sink: &mut T, item: I) -> (r: Result<
    Option<I>,
    E,
>) where T: ExtendedSink<SinkItem = I, SinkError = E>
    ensures
        r matches Ok(Some(it)) ==> it == item,
{
    send_to_option(extended_sink.extended_start_send(&mut TaskHandle { _private: () }, item))
}

} // verus!
