use std::sync::mpsc::TryRecvError;
use std::sync::{Arc, Mutex};
use std::time::Duration;

use chronograph::recorder::batch::{batch_of, keep_drained, next_deadline, wake_due};
use chronograph::recorder::batch::{BatchCollectionOptions, BatchCollector, BatchingSpanRecorder};
use chronograph::recorder::batch::{CollectThread, ThreadAction};
use chronograph::recorder::{RecordSpan, SpanRecorder};
use chronograph::schema::{SpanBatch, SpanData};
use chronograph::Chronograph;

struct Shelf {
    batches: Arc<Mutex<Vec<SpanBatch>>>,
}

impl BatchCollector for Shelf {
    fn collect(&self, batch: SpanBatch) {
        self.batches.lock().unwrap().push(batch);
    }
}

fn span(span_id: u64) -> SpanData {
    SpanData { span_id, start_unix_time: 0, start_instant: 1, end_instant: 2, records: Vec::new() }
}

fn pipeline(
    options: BatchCollectionOptions,
) -> (Arc<Mutex<Vec<SpanBatch>>>, BatchingSpanRecorder, CollectThread) {
    let batches = Arc::new(Mutex::new(Vec::new()));
    let shelf = Shelf { batches: Arc::clone(&batches) };
    let (recorder, thread) = BatchingSpanRecorder::connect(Box::new(shelf), options);
    (batches, recorder, thread)
}

fn an_hour() -> Duration {
    Duration::from_secs(3600)
}

fn ids(batch: &SpanBatch) -> Vec<u64> {
    batch.spans.iter().map(|span| span.span_id).collect()
}

#[test]
fn default_options_are_4096_spans_or_a_minute() {
    let options = BatchCollectionOptions::default();
    assert_eq!(options.batch_size_threshold(), 4096);
    assert_eq!(options.batch_time_threshold_nanos(), 60_000_000_000);
}

#[test]
fn each_threshold_is_set_on_its_own() {
    let options = BatchCollectionOptions::default().with_batch_size_threshold(4);
    assert_eq!(options.batch_size_threshold(), 4);
    assert_eq!(options.batch_time_threshold_nanos(), 60_000_000_000);
    let options = options.with_batch_time_threshold(Duration::from_millis(5).as_nanos());
    assert_eq!(options.batch_size_threshold(), 4);
    assert_eq!(options.batch_time_threshold_nanos(), 5_000_000);
    let options = options.with_batch_time_threshold(9).with_batch_size_threshold(0);
    assert_eq!(options.batch_size_threshold(), 0);
    assert_eq!(options.batch_time_threshold_nanos(), 9);
    let options = options.with_batch_time_threshold(Duration::MAX.as_nanos());
    assert_eq!(options.batch_time_threshold_nanos(), Duration::MAX.as_nanos());
    let options = options.with_batch_time_threshold(u128::MAX);
    assert_eq!(options.batch_time_threshold_nanos(), u128::MAX);
    assert_eq!(options.batch_size_threshold(), 0);
}

#[test]
fn wake_is_due_when_the_threshold_is_just_reached() {
    assert!(wake_due(4, 4));
    assert!(!wake_due(3, 4));
    assert!(!wake_due(5, 4));
    assert!(!wake_due(0, 4));
    assert!(wake_due(0, 0));
    assert!(wake_due(usize::MAX, usize::MAX));
}

#[test]
fn deadline_is_one_threshold_later() {
    assert_eq!(next_deadline(100, 60), 160);
    assert_eq!(next_deadline(0, 0), 0);
    assert_eq!(next_deadline(u128::MAX - 5, 5), u128::MAX);
    assert_eq!(next_deadline(u128::MAX - 5, 6), u128::MAX);
    assert_eq!(next_deadline(u128::MAX, u128::MAX), u128::MAX);
}

#[test]
fn batch_holds_what_was_drained() {
    assert_eq!(batch_of(Vec::new()), None);
    assert_eq!(batch_of(vec![span(3)]), Some(SpanBatch { spans: vec![span(3)] }));
    assert_eq!(
        batch_of(vec![span(3), span(1), span(2)]),
        Some(SpanBatch { spans: vec![span(3), span(1), span(2)] })
    );
}

#[test]
fn collection_is_due_by_size_or_by_time() {
    let options = BatchCollectionOptions::default()
        .with_batch_size_threshold(4)
        .with_batch_time_threshold(an_hour().as_nanos());
    let (_batches, _recorder, mut thread) = pipeline(options);
    assert_eq!(thread.wait_nanos(), an_hour().as_nanos());
    thread.collected_at(1_000);
    let deadline = 1_000 + an_hour().as_nanos();
    assert!(!thread.collection_due(0, 0));
    assert!(!thread.collection_due(3, deadline - 1));
    assert!(thread.collection_due(3, deadline));
    assert!(thread.collection_due(0, deadline + 1));
    assert!(thread.collection_due(4, 0));
    assert!(thread.collection_due(5, 0));
}

#[test]
fn full_batch_is_collected_at_once() {
    let options = BatchCollectionOptions::default()
        .with_batch_size_threshold(4)
        .with_batch_time_threshold(an_hour().as_nanos());
    let (batches, recorder, mut thread) = pipeline(options);
    for id in 0..3 {
        recorder.record_span(span(id));
        assert_eq!(thread.signals().try_recv(), Err(TryRecvError::Empty));
    }
    recorder.record_span(span(3));
    assert_eq!(thread.signals().try_recv(), Ok(ThreadAction::Wake));
    assert_eq!(thread.signals().try_recv(), Err(TryRecvError::Empty));
    assert!(batches.lock().unwrap().is_empty());
    assert!(thread.handle(Some(ThreadAction::Wake)));
    {
        let batches = batches.lock().unwrap();
        assert_eq!(batches.len(), 1);
        assert_eq!(ids(&batches[0]), vec![0, 1, 2, 3]);
    }
    assert!(thread.handle(None));
    assert!(thread.handle(Some(ThreadAction::Wake)));
    assert_eq!(batches.lock().unwrap().len(), 1);
}

#[test]
fn partial_batch_waits_for_the_time_threshold() {
    let options = BatchCollectionOptions::default()
        .with_batch_size_threshold(4)
        .with_batch_time_threshold(an_hour().as_nanos());
    let (batches, recorder, mut thread) = pipeline(options);
    recorder.record_span(span(0));
    recorder.record_span(span(1));
    assert_eq!(thread.signals().try_recv(), Err(TryRecvError::Empty));
    assert!(thread.handle(None));
    assert!(thread.handle(Some(ThreadAction::Wake)));
    assert!(batches.lock().unwrap().is_empty());
}

#[test]
fn partial_batch_is_collected_after_the_time_threshold() {
    let options = BatchCollectionOptions::default()
        .with_batch_size_threshold(4)
        .with_batch_time_threshold(0);
    let (batches, recorder, mut thread) = pipeline(options);
    recorder.record_span(span(7));
    recorder.record_span(span(8));
    recorder.record_span(span(9));
    assert_eq!(thread.signals().try_recv(), Err(TryRecvError::Empty));
    assert!(thread.handle(None));
    {
        let batches = batches.lock().unwrap();
        assert_eq!(batches.len(), 1);
        assert_eq!(ids(&batches[0]), vec![7, 8, 9]);
    }
    assert!(thread.handle(None));
    assert_eq!(batches.lock().unwrap().len(), 1);
}

#[test]
fn empty_queue_delivers_no_batch() {
    let options = BatchCollectionOptions::default()
        .with_batch_size_threshold(0)
        .with_batch_time_threshold(0);
    let (batches, _recorder, mut thread) = pipeline(options);
    assert!(thread.handle(None));
    assert!(thread.handle(Some(ThreadAction::Wake)));
    assert!(batches.lock().unwrap().is_empty());
}

#[test]
fn shutdown_ends_the_thread_without_a_last_drain() {
    let options = BatchCollectionOptions::default()
        .with_batch_size_threshold(1)
        .with_batch_time_threshold(0);
    let (batches, recorder, mut thread) = pipeline(options);
    recorder.record_span(span(0));
    assert!(!thread.handle(Some(ThreadAction::Shutdown)));
    assert!(batches.lock().unwrap().is_empty());
}

#[test]
fn dropping_the_recorder_tells_the_thread_to_end() {
    let (_batches, recorder, thread) = pipeline(BatchCollectionOptions::default());
    assert_eq!(thread.signals().try_recv(), Err(TryRecvError::Empty));
    drop(recorder);
    assert_eq!(thread.signals().try_recv(), Ok(ThreadAction::Shutdown));
}

#[test]
fn recorder_outlives_its_thread() {
    let options = BatchCollectionOptions::default().with_batch_size_threshold(1);
    let (_batches, recorder, thread) = pipeline(options);
    drop(thread);
    recorder.record_span(span(0));
    recorder.record_span(span(1));
}

#[test]
fn spans_of_a_chronograph_are_batched() {
    let options = BatchCollectionOptions::default()
        .with_batch_size_threshold(2)
        .with_batch_time_threshold(an_hour().as_nanos());
    let (batches, recorder, mut thread) = pipeline(options);
    let chronograph = Chronograph::builder().with_recorder(recorder).with_sample_rate(2).build();
    for _ in 0..4 {
        let mut span = chronograph.start_span();
        span.record_instant("x");
        span.end();
    }
    assert_eq!(thread.signals().try_recv(), Ok(ThreadAction::Wake));
    assert!(thread.handle(Some(ThreadAction::Wake)));
    {
        let batches = batches.lock().unwrap();
        assert_eq!(batches.len(), 1);
        assert_eq!(ids(&batches[0]), vec![0, 2]);
        assert_eq!(SpanBatch::decode(&batches[0].encode()).as_ref(), Ok(&batches[0]));
    }
    drop(chronograph);
    assert_eq!(thread.signals().try_recv(), Ok(ThreadAction::Shutdown));
}

#[test]
fn batching_recorder_is_a_recorder() {
    let options = BatchCollectionOptions::default().with_batch_size_threshold(1);
    let (batches, recorder, mut thread) = pipeline(options);
    let recorder = SpanRecorder::from(recorder);
    recorder.record_span(span(5));
    assert!(thread.handle(None));
    assert_eq!(ids(&batches.lock().unwrap()[0]), vec![5]);
    struct Nothing;
    impl RecordSpan for Nothing {
        fn record_span(&self, _span: SpanData) {}
    }
    let boxed: Box<dyn RecordSpan> = Box::new(Nothing);
    SpanRecorder::from(boxed).record_span(span(6));
    SpanRecorder::from(()).record_span(span(7));
}

#[test]
fn drain_keeps_what_was_popped_until_the_queue_is_empty() {
    let mut spans: Vec<SpanData> = vec![span(1)];
    assert!(keep_drained(&mut spans, Some(span(2))));
    assert!(keep_drained(&mut spans, Some(span(3))));
    assert_eq!(spans, vec![span(1), span(2), span(3)]);
    assert!(!keep_drained(&mut spans, None));
    assert_eq!(spans, vec![span(1), span(2), span(3)]);
}

#[test]
fn spans_are_drained_oldest_first() {
    let options = BatchCollectionOptions::default().with_batch_size_threshold(1);
    let (batches, recorder, mut thread) = pipeline(options);
    for id in [5u64, 3, 9, 1, 7] {
        recorder.record_span(span(id));
    }
    assert!(thread.handle(None));
    let batches = batches.lock().unwrap();
    assert_eq!(batches.len(), 1);
    assert_eq!(ids(&batches[0]), vec![5, 3, 9, 1, 7]);
}
