//! The batching recorder: spans that end are queued without blocking, and a
//! collector thread delivers what is queued, in batches, to a user's
//! collector.
//!
//! A batch is due when the queue has reached the size threshold or when the
//! time threshold has passed since the last collection. The producer wakes
//! the collector when its own push brings the queue to the size threshold.
//!
//! The queue is shared between threads, so nothing is promised of what it
//! holds at any moment. The decisions are stated exactly, over the numbers
//! they depend on, and [`crate::recorder::pipeline::Pipeline`] states what
//! they amount to while no span arrives between the collector's look at the
//! queue and its drain.

use vstd::prelude::*;
use std::sync::Arc;
use crate::clock::epoch_nanos;
use crate::schema::{SpanBatch, SpanData};

verus! {

#[verifier::external_type_specification]
#[verifier::external_body]
#[verifier::reject_recursive_types(T)]
pub struct ExQueue<T>(scc::Queue<T>);

#[verifier::external_type_specification]
#[verifier::external_body]
#[verifier::reject_recursive_types(T)]
pub struct ExSender<T>(std::sync::mpsc::Sender<T>);

#[verifier::external_type_specification]
#[verifier::external_body]
#[verifier::reject_recursive_types(T)]
pub struct ExReceiver<T>(std::sync::mpsc::Receiver<T>);

/// What a producer or the recorder tells the collector thread.
#[derive(Debug, Clone, Copy, PartialEq, Eq, Structural)]
pub enum ThreadAction {
    /// The queue has reached the size threshold.
    Wake,
    /// The recorder is gone: the thread is to end.
    Shutdown,
}

/// Makes an empty queue with `scc::Queue::default`.
#[verifier::external_body]
fn new_queue() -> scc::Queue<SpanData> {
    scc::Queue::default()
}

/// Puts `span` at the end of the queue with `scc::Queue::push`. Other
/// threads push and pop meanwhile, so nothing is said of what the queue
/// holds afterwards.
#[verifier::external_body]
fn push_span(queue: &scc::Queue<SpanData>, span: SpanData) {
    queue.push(span);
}

/// Takes the oldest span off the queue with `scc::Queue::pop`, if the queue
/// holds one at that moment, and hands out a copy of it.
#[verifier::external_body]
fn pop_span(queue: &scc::Queue<SpanData>) -> Option<SpanData> {
    match queue.pop() {
        Some(entry) => Some(SpanData::clone(&entry)),
        None => None,
    }
}

/// Counts with `scc::Queue::len` the spans that the queue holds at that
/// moment.
#[verifier::external_body]
fn queued_spans(queue: &scc::Queue<SpanData>) -> usize {
    queue.len()
}

/// Opens with `std::sync::mpsc::channel` the channel by which the collector
/// thread is told to wake or to end.
#[verifier::external_body]
fn new_channel() -> (std::sync::mpsc::Sender<ThreadAction>, std::sync::mpsc::Receiver<ThreadAction>) {
    std::sync::mpsc::channel()
}

/// Sends `action` with `std::sync::mpsc::Sender::send`, which does not block
/// and fails only where the receiver is gone; that failure is dropped.
#[verifier::external_body]
fn notify(tx: &std::sync::mpsc::Sender<ThreadAction>, action: ThreadAction)
    opens_invariants none
    no_unwind
{
    tx.send(action).ok();
}

/// Whether a push that brought the queue to `queued` spans wakes the
/// collector.
pub open spec fn wake_is_due(queued: nat, size_threshold: nat) -> bool {
    queued == size_threshold
}

/// Whether a push that brought the queue to `queued` spans wakes the
/// collector: it does when the queue has just reached the size threshold.
pub fn wake_due(queued: usize, batch_size_threshold: usize) -> (due: bool)
    ensures
        due == wake_is_due(queued as nat, batch_size_threshold as nat),
{
    queued == batch_size_threshold
}

/// Whether a collection is due at time `now` with `queued` spans in the
/// queue: it is when the queue has reached the size threshold or the time of
/// the next collection has come.
pub open spec fn collection_is_due(
    queued: nat,
    size_threshold: nat,
    now: nat,
    next_collect_time: nat,
) -> bool {
    queued >= size_threshold || now >= next_collect_time
}

/// The time at which the next collection is due by time, when one was made
/// at `now`: `batch_time_threshold` later, or the end of time if that is
/// sooner.
pub fn next_deadline(now: u128, batch_time_threshold: u128) -> (deadline: u128)
    ensures
        deadline == if now + batch_time_threshold <= u128::MAX {
            now + batch_time_threshold
        } else {
            u128::MAX as int
        },
{
    if now <= u128::MAX - batch_time_threshold {
        now + batch_time_threshold
    } else {
        u128::MAX
    }
}

/// The batch that holds what a drain took off the queue, in that order, or
/// none where it took nothing.
pub fn batch_of(spans: Vec<SpanData>) -> (batch: Option<SpanBatch>)
    ensures
        spans@.len() == 0 ==> batch is None,
        spans@.len() > 0 ==> batch is Some && batch->0.spans == spans,
{
    if spans.len() == 0 {
        None
    } else {
        Some(SpanBatch { spans })
    }
}

/// Puts what a pop took off the queue behind what was drained before, and
/// says whether the drain goes on: it ends at the first pop that finds the
/// queue empty.
pub fn keep_drained(spans: &mut Vec<SpanData>, popped: Option<SpanData>) -> (more: bool)
    ensures
        more == popped is Some,
        popped is Some ==> final(spans)@ == old(spans)@.push(popped->0),
        popped is None ==> final(spans)@ == old(spans)@,
{
    match popped {
        Some(span) => {
            spans.push(span);
            true
        },
        None => false,
    }
}

/// Takes off the queue what it holds, oldest first, until it is found
/// empty.
fn drain(queue: &scc::Queue<SpanData>) -> (spans: Vec<SpanData>) {
    let mut spans: Vec<SpanData> = Vec::new();
    // No vector holds more than `usize::MAX` spans, so this bound never cuts
    // a drain short.
    let mut room: usize = usize::MAX;
    while room > 0
        decreases room,
    {
        if !keep_drained(&mut spans, pop_span(queue)) {
            return spans;
        }
        room = room - 1;
    }
    spans
}

/// What a user implements to receive batches, on the collector thread. A
/// collector is handed to that thread, so it has to be `Send`.
pub trait BatchCollector: Send {
    fn collect(&self, batch: SpanBatch);
}

/// When batches are due.
pub struct BatchCollectionOptions {
    batch_size_threshold: usize,
    batch_time_threshold: u128,
}

impl BatchCollectionOptions {
    /// The number of queued spans at which a batch is due.
    pub closed spec fn size_threshold(&self) -> usize {
        self.batch_size_threshold
    }

    /// The nanoseconds after a collection at which the next one is due.
    pub closed spec fn time_threshold(&self) -> u128 {
        self.batch_time_threshold
    }

    /// The number of queued spans at which a batch is due.
    pub fn batch_size_threshold(&self) -> (threshold: usize)
        ensures
            threshold == self.size_threshold(),
    {
        self.batch_size_threshold
    }

    /// The nanoseconds after a collection at which the next one is due.
    pub fn batch_time_threshold_nanos(&self) -> (threshold: u128)
        ensures
            threshold == self.time_threshold(),
    {
        self.batch_time_threshold
    }

    /// The same options, but for the size threshold.
    pub fn with_batch_size_threshold(self, batch_size_threshold: usize) -> (options: Self)
        ensures
            options.size_threshold() == batch_size_threshold,
            options.time_threshold() == self.time_threshold(),
    {
        BatchCollectionOptions {
            batch_size_threshold,
            batch_time_threshold: self.batch_time_threshold,
        }
    }

    /// The same options, but for the time threshold, which is given in
    /// nanoseconds: the count that `Duration::as_nanos` gives.
    pub fn with_batch_time_threshold(self, batch_time_threshold: u128) -> (options: Self)
        ensures
            options.size_threshold() == self.size_threshold(),
            options.time_threshold() == batch_time_threshold,
    {
        BatchCollectionOptions {
            batch_size_threshold: self.batch_size_threshold,
            batch_time_threshold,
        }
    }
}

impl Default for BatchCollectionOptions {
    /// A batch is due at 4096 queued spans, or a minute after the last one.
    fn default() -> (options: Self)
        ensures
            options.size_threshold() == 4096,
            options.time_threshold() == 60_000_000_000u128,
    {
        BatchCollectionOptions { batch_size_threshold: 4096, batch_time_threshold: 60_000_000_000 }
    }
}

/// The producers' end of the batching pipeline.
pub struct BatchingSpanRecorder {
    batch: Arc<scc::Queue<SpanData>>,
    batch_size_threshold: usize,
    thread_tx: std::sync::mpsc::Sender<ThreadAction>,
}

/// The collector's end of the batching pipeline: what the collector thread
/// owns.
pub struct CollectThread {
    collector: Box<dyn BatchCollector>,
    thread_rx: std::sync::mpsc::Receiver<ThreadAction>,
    batch_size_threshold: usize,
    batch_time_threshold: u128,
    next_collect_time: u128,
    batch: Arc<scc::Queue<SpanData>>,
}

impl BatchingSpanRecorder {
    /// The number of queued spans at which a batch is due.
    pub closed spec fn size_threshold(&self) -> usize {
        self.batch_size_threshold
    }

    /// Makes the two ends of a pipeline that delivers to `collector`: the
    /// recorder, and what a thread needs to collect for it. The first
    /// collection by time is due one time threshold from now.
    pub fn connect(collector: Box<dyn BatchCollector>, options: BatchCollectionOptions) -> (ends:
        (BatchingSpanRecorder, CollectThread))
        ensures
            ends.0.size_threshold() == options.size_threshold(),
            ends.1.size_threshold() == options.size_threshold(),
            ends.1.time_threshold() == options.time_threshold(),
    {
        let batch = Arc::new(new_queue());
        let (thread_tx, thread_rx) = new_channel();
        let now: u128 = epoch_nanos(&std::time::SystemTime::now());
        let thread = CollectThread {
            collector,
            thread_rx,
            batch_size_threshold: options.batch_size_threshold,
            batch_time_threshold: options.batch_time_threshold,
            next_collect_time: next_deadline(now, options.batch_time_threshold),
            batch: Arc::clone(&batch),
        };
        let recorder = BatchingSpanRecorder {
            batch,
            batch_size_threshold: options.batch_size_threshold,
            thread_tx,
        };
        (recorder, thread)
    }

    /// Queues `span`, and wakes the collector if that brought the queue to
    /// the size threshold.
    pub fn record_span(&self, span: SpanData) {
        push_span(&self.batch, span);
        if wake_due(queued_spans(&self.batch), self.batch_size_threshold) {
            notify(&self.thread_tx, ThreadAction::Wake);
        }
    }
}

impl Drop for BatchingSpanRecorder {
    /// Tells the collector thread to end. What is queued then is not
    /// collected.
    fn drop(&mut self)
        opens_invariants none
        no_unwind
    {
        notify(&self.thread_tx, ThreadAction::Shutdown);
    }
}

impl CollectThread {
    /// The number of queued spans at which a batch is due.
    pub closed spec fn size_threshold(&self) -> usize {
        self.batch_size_threshold
    }

    /// The nanoseconds after a collection at which the next one is due.
    pub closed spec fn time_threshold(&self) -> u128 {
        self.batch_time_threshold
    }

    /// The time, in nanoseconds since the Unix epoch, at which the next
    /// collection is due whatever the queue holds.
    pub closed spec fn next_collect_time(&self) -> u128 {
        self.next_collect_time
    }

    /// The channel on which the thread waits to be told to wake or to end.
    pub closed spec fn channel(&self) -> std::sync::mpsc::Receiver<ThreadAction> {
        self.thread_rx
    }

    /// The channel on which the thread waits to be told to wake or to end.
    pub fn signals(&self) -> (receiver: &std::sync::mpsc::Receiver<ThreadAction>)
        ensures
            *receiver == self.channel(),
    {
        &self.thread_rx
    }

    /// How long the thread waits for a signal at most, in nanoseconds.
    pub fn wait_nanos(&self) -> (nanos: u128)
        ensures
            nanos == self.time_threshold(),
    {
        self.batch_time_threshold
    }

    /// Whether a collection is due at time `now` with `queued` spans in the
    /// queue.
    pub fn collection_due(&self, queued: usize, now: u128) -> (due: bool)
        ensures
            due == collection_is_due(
                queued as nat,
                self.size_threshold() as nat,
                now as nat,
                self.next_collect_time() as nat,
            ),
    {
        queued >= self.batch_size_threshold || now >= self.next_collect_time
    }

    /// Sets the time of the next collection, after one made at `now`.
    pub fn collected_at(&mut self, now: u128)
        ensures
            final(self).size_threshold() == old(self).size_threshold(),
            final(self).time_threshold() == old(self).time_threshold(),
            final(self).next_collect_time() == if now + old(self).time_threshold() <= u128::MAX {
                now + old(self).time_threshold()
            } else {
                u128::MAX as int
            },
    {
        self.next_collect_time = next_deadline(now, self.batch_time_threshold);
    }

    /// One turn of the collector thread, on the signal that ended its wait
    /// (none where the wait timed out). It answers whether the thread goes
    /// on.
    ///
    /// Told to shut down, the thread ends at once. Else, if a collection is
    /// due, the queue is drained, what it held is delivered as one batch
    /// unless it held nothing, and the next collection is scheduled.
    pub fn handle(&mut self, signal: Option<ThreadAction>) -> (running: bool)
        ensures
            running == (signal != Some(ThreadAction::Shutdown)),
            final(self).size_threshold() == old(self).size_threshold(),
            final(self).time_threshold() == old(self).time_threshold(),
            !running ==> final(self).next_collect_time() == old(self).next_collect_time(),
    {
        match signal {
            Some(ThreadAction::Shutdown) => {
                return false;
            },
            _ => {},
        }
        let queued = queued_spans(&self.batch);
        let now: u128 = epoch_nanos(&std::time::SystemTime::now());
        if self.collection_due(queued, now) {
            match batch_of(drain(&self.batch)) {
                Some(batch) => self.collector.collect(batch),
                None => {},
            }
            let later: u128 = epoch_nanos(&std::time::SystemTime::now());
            self.collected_at(later);
        }
        true
    }
}

} // verus!
