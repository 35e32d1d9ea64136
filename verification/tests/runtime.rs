use std::cell::RefCell;
use std::collections::HashSet;
use std::sync::Arc;
use std::time::{Duration, Instant};

use futures::{Future, Sink, Stream};
use pollwake::protocol::{
    future_adapter, sink_poll_complete_adapter, sink_start_send_adapter, stream_adapter,
    ExtendedAsync, ExtendedFuture, ExtendedSink, ExtendedStream, TaskHandle,
};

const SECOND: u64 = 1_000_000_000;

/// Binds an extended-API future to the conventional futures API, discarding
/// the wake token at the boundary.
struct FutureWrap<T>(T);

impl<T> std::fmt::Debug for FutureWrap<T> {
    fn fmt(&self, f: &mut std::fmt::Formatter) -> std::fmt::Result {
        f.write_str("FutureWrap")
    }
}

impl<T, I> Future for FutureWrap<T>
where
    T: ExtendedFuture<Item = I, Error = void::Void>,
{
    type Item = I;
    type Error = void::Void;

    fn poll(&mut self) -> futures::Poll<I, void::Void> {
        match future_adapter(&mut self.0) {
            Ok(Some(value)) => Ok(futures::Async::Ready(value)),
            Ok(None) => Ok(futures::Async::NotReady),
            Err(err) => Err(err),
        }
    }
}

struct StreamWrap<T>(T);

impl<T> std::fmt::Debug for StreamWrap<T> {
    fn fmt(&self, f: &mut std::fmt::Formatter) -> std::fmt::Result {
        f.write_str("StreamWrap")
    }
}

impl<T, I> Stream for StreamWrap<T>
where
    T: ExtendedStream<Item = I, Error = void::Void>,
{
    type Item = I;
    type Error = void::Void;

    fn poll(&mut self) -> futures::Poll<Option<I>, void::Void> {
        match stream_adapter(&mut self.0) {
            Ok(Some(value)) => Ok(futures::Async::Ready(value)),
            Ok(None) => Ok(futures::Async::NotReady),
            Err(err) => Err(err),
        }
    }
}

struct SinkWrap<T>(T);

impl<T> std::fmt::Debug for SinkWrap<T> {
    fn fmt(&self, f: &mut std::fmt::Formatter) -> std::fmt::Result {
        f.write_str("SinkWrap")
    }
}

impl<T, I> Sink for SinkWrap<T>
where
    T: ExtendedSink<SinkItem = I, SinkError = void::Void>,
{
    type SinkItem = I;
    type SinkError = void::Void;

    fn start_send(&mut self, item: I) -> futures::StartSend<I, void::Void> {
        match sink_start_send_adapter(&mut self.0, item) {
            Ok(None) => Ok(futures::AsyncSink::Ready),
            Ok(Some(item)) => Ok(futures::AsyncSink::NotReady(item)),
            Err(err) => Err(err),
        }
    }

    fn poll_complete(&mut self) -> futures::Poll<(), void::Void> {
        match sink_poll_complete_adapter(&mut self.0) {
            Ok(true) => Ok(futures::Async::Ready(())),
            Ok(false) => Ok(futures::Async::NotReady),
            Err(err) => Err(err),
        }
    }
}

/// Binds the routing adapter to both conventional traits, so that it can be
/// split into a stream half and a sink half.
struct DuplexWrap(pollwake::adapter::Adapter);

impl Stream for DuplexWrap {
    type Item = pollwake::adapter::Incoming;
    type Error = void::Void;

    fn poll(&mut self) -> futures::Poll<Option<pollwake::adapter::Incoming>, void::Void> {
        match stream_adapter(&mut self.0) {
            Ok(Some(value)) => Ok(futures::Async::Ready(value)),
            Ok(None) => Ok(futures::Async::NotReady),
            Err(err) => Err(err),
        }
    }
}

impl Sink for DuplexWrap {
    type SinkItem = pollwake::adapter::Outgoing;
    type SinkError = void::Void;

    fn start_send(
        &mut self,
        item: pollwake::adapter::Outgoing,
    ) -> futures::StartSend<pollwake::adapter::Outgoing, void::Void> {
        match sink_start_send_adapter(&mut self.0, item) {
            Ok(None) => Ok(futures::AsyncSink::Ready),
            Ok(Some(item)) => Ok(futures::AsyncSink::NotReady(item)),
            Err(err) => Err(err),
        }
    }

    fn poll_complete(&mut self) -> futures::Poll<(), void::Void> {
        match sink_poll_complete_adapter(&mut self.0) {
            Ok(true) => Ok(futures::Async::Ready(())),
            Ok(false) => Ok(futures::Async::NotReady),
            Err(err) => Err(err),
        }
    }
}

#[test]
fn sleeper_with_core() {
    let mut core = tokio_core::reactor::Core::new().unwrap();
    let start = Instant::now();
    let sleeper = FutureWrap(pollwake::sleeper::Sleeper::new(SECOND));
    core.run(sleeper).unwrap();
    let elapsed = start.elapsed();
    assert!(elapsed < Duration::new(1, 200_000_000));
    assert!(elapsed > Duration::new(0, 800_000_000));
}

#[test]
fn sleeper_with_wait() {
    let start = Instant::now();
    let sleeper = FutureWrap(pollwake::sleeper::Sleeper::new(SECOND));
    sleeper.wait().unwrap();
    let elapsed = start.elapsed();
    assert!(elapsed < Duration::new(1, 200_000_000));
    assert!(elapsed > Duration::new(0, 800_000_000));
}

#[test]
fn instant_producer_completes_quickly() {
    let start = Instant::now();
    FutureWrap(pollwake::instant::Producer::new()).wait().unwrap();
    assert!(start.elapsed() < Duration::new(0, 200_000_000));
}

#[test]
fn instant_producer_returns_all_values() {
    let mut seen = HashSet::new();
    let expected = 2usize.pow(8);

    while seen.len() < expected {
        seen.insert(FutureWrap(pollwake::instant::Producer::new()).wait().unwrap());
    }
}

#[test]
fn instant_consumer_completes_quickly() {
    let start = Instant::now();
    FutureWrap(pollwake::instant::Consumer::new(0)).wait().unwrap();
    assert!(start.elapsed() < Duration::new(0, 200_0000_000));
}

#[test]
fn delayed_producer_completes_in_about_one_second() {
    let mut core = tokio_core::reactor::Core::new().unwrap();
    let start = Instant::now();
    let producer = FutureWrap(pollwake::delayed::Producer::new());
    core.run(producer).unwrap();
    let elapsed = start.elapsed();
    assert!(elapsed < Duration::new(1, 200_000_000));
    assert!(elapsed > Duration::new(0, 800_000_000));
}

#[test]
fn delayed_producer_returns_all_values() {
    let mut core = tokio_core::reactor::Core::new().unwrap();
    let handle = core.handle();
    let seen = Arc::new(RefCell::new(HashSet::new()));
    let expected = 2usize.pow(8);
    let outstanding = Arc::new(RefCell::new(0u64));

    loop {
        if seen.borrow().len() == expected {
            break;
        }

        while *outstanding.borrow() < 1000 {
            let producer = {
                let seen = seen.clone();
                let outstanding = outstanding.clone();
                FutureWrap(pollwake::delayed::Producer::new())
                    .map(move |value| {
                        *outstanding.borrow_mut() -= 1;
                        seen.borrow_mut().insert(value);
                        ()
                    })
                    .map_err(|err| panic!("got error: {}", err))
            };
            *outstanding.borrow_mut() += 1;
            handle.spawn(producer);
        }

        core.turn(Some(Duration::new(0, 100_000_000)));
    }
}

#[test]
fn delayed_consumer_completes_in_about_one_second() {
    let mut core = tokio_core::reactor::Core::new().unwrap();
    let start = Instant::now();
    let consumer = FutureWrap(pollwake::delayed::Consumer::new(0));
    core.run(consumer).unwrap();
    let elapsed = start.elapsed();
    assert!(elapsed < Duration::new(1, 200_000_000));
    assert!(elapsed > Duration::new(0, 800_000_000));
}

#[test]
fn instant_series_producer_returns_all_values() {
    let mut seen = HashSet::new();
    let expected = 2usize.pow(8);
    let mut producer = StreamWrap(pollwake::instant_series::Producer::new()).into_future();

    while seen.len() < expected {
        let (value, next) = producer.wait().unwrap();
        seen.insert(value.unwrap());
        producer = next.into_future();
    }
}

#[test]
fn instant_series_forward_to_consumer() {
    let expected = 10000;
    let mut produced = 0;
    {
        let producer = StreamWrap(pollwake::instant_series::Producer::new())
            .inspect(|_| produced += 1)
            .take(expected);
        let consumer = SinkWrap(pollwake::instant_series::Consumer::new());

        producer.forward(consumer).wait().unwrap();
    }
    assert_eq!(produced, expected);
}

#[test]
fn delayed_series_values_take_one_second_to_produce() {
    let mut core = tokio_core::reactor::Core::new().unwrap();
    let start = Instant::now();
    let producer = StreamWrap(pollwake::delayed_series::Producer::new()).take(5);
    let consumer = SinkWrap(pollwake::instant_series::Consumer::new());
    core.run(producer.forward(consumer)).unwrap();

    let elapsed = start.elapsed();
    assert!(elapsed < Duration::new(5, 500_000_000));
    assert!(elapsed > Duration::new(4, 500_000_000));
}

#[test]
fn delayed_series_values_take_one_second_to_consume() {
    let mut core = tokio_core::reactor::Core::new().unwrap();
    let start = Instant::now();
    let producer = StreamWrap(pollwake::instant_series::Producer::new()).take(5);
    let consumer = SinkWrap(pollwake::delayed_series::Consumer::new());

    core.run(producer.forward(consumer)).unwrap();

    let elapsed = start.elapsed();
    assert!(elapsed < Duration::new(5, 500_000_000));
    assert!(elapsed > Duration::new(4, 500_000_000));
}

#[test]
fn delayed_series_production_and_consumption_are_concurrent() {
    let mut core = tokio_core::reactor::Core::new().unwrap();
    let start = Instant::now();
    let producer = StreamWrap(pollwake::delayed_series::Producer::new()).take(5);
    let consumer = SinkWrap(pollwake::delayed_series::Consumer::new());

    core.run(producer.forward(consumer)).unwrap();

    let elapsed = start.elapsed();
    assert!(elapsed < Duration::new(6, 500_000_000));
    assert!(elapsed > Duration::new(5, 500_000_000));
}

#[test]
fn buffered_production_and_consumption_are_concurrent() {
    let mut core = tokio_core::reactor::Core::new().unwrap();
    let start = Instant::now();
    let producer = StreamWrap(pollwake::delayed_series::Producer::new()).take(5);
    let consumer = SinkWrap(pollwake::buffered::Consumer::new());

    core.run(producer.forward(consumer)).unwrap();

    let elapsed = start.elapsed();
    assert!(elapsed < Duration::new(6, 500_000_000));
    assert!(elapsed > Duration::new(5, 500_000_000));
}

#[test]
fn basic() {
    let adapter = DuplexWrap(pollwake::adapter::Adapter::new());
    let (sink, stream) = adapter.split();
    stream
        .take(7)
        .inspect(|x| println!("from stream: {:?}", x))
        .map(|x| pollwake::adapter::Outgoing(x.0))
        .forward(sink)
        .wait()
        .unwrap();
}

#[test]
fn boundary_mapping_preserves_outcomes() {
    assert_eq!(
        pollwake::protocol::poll_to_option::<u8, ()>(Ok(ExtendedAsync::Ready(5))),
        Ok(Some(5))
    );
    assert_eq!(pollwake::protocol::poll_to_option::<u8, ()>(Err(())), Err(()));
    assert_eq!(
        pollwake::protocol::complete_to_bool::<()>(Ok(ExtendedAsync::Ready(()))),
        Ok(true)
    );
    assert_eq!(
        pollwake::protocol::send_to_option::<u8, ()>(Ok(
            pollwake::protocol::ExtendedAsyncSink::Ready
        )),
        Ok(None)
    );
    assert_eq!(pollwake::protocol::send_to_option::<u8, ()>(Err(())), Err(()));
}

#[test]
fn timer_decision_matches_deadline() {
    let mut task_handle = TaskHandle::new();
    let mut sleeper = pollwake::sleeper::Sleeper::new(SECOND);
    match sleeper.poll_at(&mut task_handle, SECOND) {
        Ok(ExtendedAsync::Ready(())) => {}
        _ => panic!("a timer whose duration has elapsed must be ready"),
    }

    futures::future::lazy(|| {
        let mut task_handle = TaskHandle::new();
        let mut sleeper = pollwake::sleeper::Sleeper::new(SECOND);
        match sleeper.poll_at(&mut task_handle, SECOND - 1) {
            Ok(ExtendedAsync::NotReady(_)) => {}
            _ => panic!("a timer short of its deadline must suspend"),
        }
        Ok::<(), ()>(())
    })
    .wait()
    .unwrap();
}

#[test]
fn zero_duration_sleeper_is_immediately_ready() {
    let start = Instant::now();
    FutureWrap(pollwake::sleeper::Sleeper::new(0)).wait().unwrap();
    assert!(start.elapsed() < Duration::new(0, 200_000_000));
}

#[test]
fn repeating_source_yields_one_value_per_poll() {
    let mut producer = pollwake::instant_series::Producer::new();
    let mut count = 0usize;
    for _ in 0..100 {
        match stream_adapter(&mut producer) {
            Ok(Some(Some(_))) => count += 1,
            Ok(Some(None)) => panic!("a repeating source must not end its sequence"),
            Ok(None) => {}
            Err(err) => panic!("got error: {}", err),
        }
    }
    assert_eq!(count, 100);
}

#[test]
fn idle_sink_completes_immediately() {
    let mut buffered = pollwake::buffered::Consumer::new();
    assert!(sink_poll_complete_adapter(&mut buffered).unwrap());
    assert!(sink_poll_complete_adapter(&mut buffered).unwrap());

    let mut single = pollwake::delayed_series::Consumer::new();
    assert!(sink_poll_complete_adapter(&mut single).unwrap());
    assert!(sink_poll_complete_adapter(&mut single).unwrap());
}

#[test]
fn full_buffer_rejects_with_original_item() {
    futures::future::lazy(|| {
        let mut consumer = pollwake::buffered::Consumer::new();
        // The downstream sink takes a second per item, so nothing completes
        // during this burst: one item goes into the downstream slot, ten
        // fill the queue, and the twelfth is turned away unchanged.
        for i in 0..11u8 {
            assert_eq!(sink_start_send_adapter(&mut consumer, 100 + i).unwrap(), None);
        }
        assert_eq!(sink_start_send_adapter(&mut consumer, 42).unwrap(), Some(42));
        Ok::<(), ()>(())
    })
    .wait()
    .unwrap();
}

#[test]
fn buffered_preserves_arrival_order() {
    futures::future::lazy(|| {
        let mut consumer = pollwake::buffered::Consumer::new();
        for value in [3u8, 1, 4, 1, 5] {
            assert_eq!(sink_start_send_adapter(&mut consumer, value).unwrap(), None);
        }
        // The first item went on to the downstream sink at once; the rest
        // wait in the queue in exactly the order they arrived.
        assert_eq!(consumer.queued_items(), vec![1, 4, 1, 5]);
        Ok::<(), ()>(())
    })
    .wait()
    .unwrap();
}

#[test]
fn single_slot_sink_rejects_second_item_with_original() {
    futures::future::lazy(|| {
        let mut consumer = pollwake::delayed_series::Consumer::new();
        assert_eq!(sink_start_send_adapter(&mut consumer, 7).unwrap(), None);
        assert_eq!(sink_start_send_adapter(&mut consumer, 9).unwrap(), Some(9));
        Ok::<(), ()>(())
    })
    .wait()
    .unwrap();
}
