use std::sync::{Arc, Mutex};

use chronograph::processor::{ProcessSpan, SpanProcessor};
use chronograph::recorder::{RecordSpan, SpanRecorder};
use chronograph::schema::{DatapointId, RecordData, RecordValue, SpanData};
use chronograph::Chronograph;

struct Sink {
    spans: Arc<Mutex<Vec<SpanData>>>,
}

impl RecordSpan for Sink {
    fn record_span(&self, span: SpanData) {
        self.spans.lock().unwrap().push(span);
    }
}

struct Journal {
    name: String,
    lines: Arc<Mutex<Vec<String>>>,
}

impl ProcessSpan for Journal {
    fn process_span(&self, span: &SpanData) {
        self.lines.lock().unwrap().push(format!("{} saw {}", self.name, span.span_id));
    }
}

impl RecordSpan for Journal {
    fn record_span(&self, span: SpanData) {
        self.lines.lock().unwrap().push(format!("{} got {}", self.name, span.span_id));
    }
}

fn sink() -> (Arc<Mutex<Vec<SpanData>>>, Box<dyn RecordSpan>) {
    let spans = Arc::new(Mutex::new(Vec::new()));
    let recorder: Box<dyn RecordSpan> = Box::new(Sink { spans: Arc::clone(&spans) });
    (spans, recorder)
}

fn journal(name: &str, lines: &Arc<Mutex<Vec<String>>>) -> Journal {
    Journal { name: name.to_string(), lines: Arc::clone(lines) }
}

#[test]
fn every_span_reaches_the_callback_in_order() {
    let (spans, recorder) = sink();
    let chronograph = Chronograph::builder().with_recorder(recorder).with_sample_rate(1).build();
    for _ in 0..3 {
        let mut span = chronograph.start_span();
        span.record_instant("x");
        span.end();
    }
    let spans = spans.lock().unwrap();
    assert_eq!(spans.len(), 3);
    for (index, span) in spans.iter().enumerate() {
        assert_eq!(span.span_id, index as u64);
        assert_eq!(span.records.len(), 1);
        assert_eq!(span.records[0].datapoint_id, DatapointId::from("x"));
        assert!(matches!(span.records[0].value, RecordValue::Instant(_)));
        assert!(span.start_instant <= span.end_instant);
    }
}

#[test]
fn rate_of_four_samples_every_fourth_span() {
    let (spans, recorder) = sink();
    let chronograph = Chronograph::builder().with_recorder(recorder).with_sample_rate(4).build();
    for _ in 0..8 {
        let mut span = chronograph.start_span();
        span.record_value("count", 42u64);
        span.end();
    }
    let spans = spans.lock().unwrap();
    let ids: Vec<u64> = spans.iter().map(|span| span.span_id).collect();
    assert_eq!(ids, vec![0, 4]);
    for span in spans.iter() {
        assert_eq!(
            span.records,
            vec![RecordData { datapoint_id: DatapointId::from("count"), value: RecordValue::U64(42) }]
        );
    }
}

#[test]
fn unsampled_span_reaches_no_hook() {
    let lines = Arc::new(Mutex::new(Vec::new()));
    let recorder: Box<dyn RecordSpan> = Box::new(journal("recorder", &lines));
    let chronograph = Chronograph::builder()
        .with_processor(SpanProcessor::Dyn(Box::new(journal("processor", &lines))))
        .with_recorder(recorder)
        .with_sample_rate(1_000_000)
        .build();
    let mut first = chronograph.start_span();
    first.record_instant("x");
    first.end();
    assert_eq!(*lines.lock().unwrap(), vec!["processor saw 0", "recorder got 0"]);
    lines.lock().unwrap().clear();
    for _ in 0..50 {
        let mut span = chronograph.start_span();
        for round in 0..20u64 {
            span.record_instant("x").record_unix_time(round).record_value("y", round);
        }
        assert_eq!(span.finish(u64::MAX), None);
    }
    for _ in 0..50 {
        let mut span = chronograph.start_span();
        span.record_instant("x").record_unix_time("t").record_value("y", 1u32);
        span.end();
    }
    assert!(lines.lock().unwrap().is_empty());
}

#[test]
fn processors_see_the_span_in_order_before_the_recorder() {
    let lines = Arc::new(Mutex::new(Vec::new()));
    let recorder: Box<dyn RecordSpan> = Box::new(journal("recorder", &lines));
    let chronograph = Chronograph::builder()
        .with_recorder(recorder)
        .with_processor(SpanProcessor::Dyn(Box::new(journal("first", &lines))))
        .with_processor(SpanProcessor::Dyn(Box::new(journal("second", &lines))))
        .with_processor(SpanProcessor::Dyn(Box::new(journal("third", &lines))))
        .build();
    chronograph.start_span().end();
    chronograph.start_span().end();
    assert_eq!(
        *lines.lock().unwrap(),
        vec![
            "first saw 0",
            "second saw 0",
            "third saw 0",
            "recorder got 0",
            "first saw 1",
            "second saw 1",
            "third saw 1",
            "recorder got 1",
        ]
    );
}

#[test]
fn last_recorder_set_is_the_one_used() {
    let (dropped, first) = sink();
    let (kept, second) = sink();
    let chronograph = Chronograph::builder().with_recorder(first).with_recorder(second).build();
    chronograph.start_span().end();
    assert!(dropped.lock().unwrap().is_empty());
    assert_eq!(kept.lock().unwrap().len(), 1);
}

#[test]
fn default_chronograph_discards_its_spans() {
    let chronograph = Chronograph::builder().build();
    let mut span = chronograph.start_span();
    span.record_value("count", 1u32);
    span.end();
    let silent = Chronograph::builder().with_recorder(()).with_recorder(SpanRecorder::NoOp()).build();
    silent.start_span().end();
}

#[test]
fn span_keeps_its_records_in_order() {
    let chronograph = Chronograph::builder().build();
    let mut span = chronograph.span_at(12, -5, 100);
    span.record_value(1u64, 7i32)
        .record_unix_time("when")
        .record_value("name", String::from("value"))
        .record_value(DatapointId { value: 3 }, RecordValue::F64(2.5f64.to_bits()))
        .record_value(4u64, 9usize);
    let data = span.finish(250).unwrap();
    assert_eq!(
        data,
        SpanData {
            span_id: 12,
            start_unix_time: -5,
            start_instant: 100,
            end_instant: 250,
            records: vec![
                RecordData { datapoint_id: DatapointId { value: 1 }, value: RecordValue::I32(7) },
                RecordData { datapoint_id: DatapointId::from("when"), value: RecordValue::UnixTime(-5) },
                RecordData {
                    datapoint_id: DatapointId::from("name"),
                    value: RecordValue::Utf8String("value".to_string()),
                },
                RecordData {
                    datapoint_id: DatapointId { value: 3 },
                    value: RecordValue::F64(2.5f64.to_bits()),
                },
                RecordData { datapoint_id: DatapointId { value: 4 }, value: RecordValue::U64(9) },
            ],
        }
    );
}

#[test]
fn unix_time_record_is_the_start_of_the_span() {
    let chronograph = Chronograph::builder().build();
    let mut span = chronograph.start_span();
    span.record_unix_time("first");
    span.record_instant("between");
    span.record_unix_time("second");
    let data = span.finish(0).unwrap();
    assert_eq!(data.records.len(), 3);
    assert_eq!(data.records[0].value, RecordValue::UnixTime(data.start_unix_time));
    assert_eq!(data.records[2].value, RecordValue::UnixTime(data.start_unix_time));
    assert!(data.start_unix_time > 1_600_000_000_000_000_000);
}

#[test]
fn span_does_not_end_before_it_starts() {
    let chronograph = Chronograph::builder().build();
    assert_eq!(chronograph.span_at(0, 0, 100).finish(99).unwrap().end_instant, 100);
    assert_eq!(chronograph.span_at(0, 0, 100).finish(100).unwrap().end_instant, 100);
    assert_eq!(chronograph.span_at(0, 0, 100).finish(101).unwrap().end_instant, 101);
    assert_eq!(chronograph.span_at(0, 0, 100).finish(0).unwrap().start_instant, 100);
}

#[test]
fn sampling_goes_by_the_id_of_the_span() {
    let chronograph = Chronograph::builder().with_sample_rate(3).build();
    for id in 0u64..12 {
        let mut span = chronograph.span_at(id, 0, 0);
        span.record_value(1u64, 1u32);
        let data = span.finish(1);
        assert_eq!(data.is_some(), id % 3 == 0);
        if let Some(data) = data {
            assert_eq!(data.span_id, id);
            assert_eq!(data.records.len(), 1);
        }
    }
}

#[test]
fn ids_count_up_from_zero() {
    let chronograph = Chronograph::builder().build();
    for expected in 0u64..5 {
        assert_eq!(chronograph.start_span().finish(0).unwrap().span_id, expected);
    }
    let other = Chronograph::builder().build();
    assert_eq!(other.start_span().finish(0).unwrap().span_id, 0);
}

#[test]
fn instants_do_not_go_back() {
    let (spans, recorder) = sink();
    let chronograph = Chronograph::builder().with_recorder(recorder).build();
    let mut span = chronograph.start_span();
    span.record_instant("a").record_instant("b");
    span.end();
    let spans = spans.lock().unwrap();
    let span = &spans[0];
    match (&span.records[0].value, &span.records[1].value) {
        (RecordValue::Instant(a), RecordValue::Instant(b)) => {
            assert!(span.start_instant <= *a);
            assert!(a <= b);
            assert!(*b <= span.end_instant);
        }
        _ => panic!("an instant was recorded as something else"),
    }
}
