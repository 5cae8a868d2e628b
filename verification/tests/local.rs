use std::sync::{Arc, Mutex};

use chronograph::recorder::RecordSpan;
use chronograph::schema::SpanData;
use chronograph::{end_threadlocal_span, get_threadlocal_span, set_threadlocal_span};
use chronograph::{start_threadlocal_span, take_threadlocal_span};
use chronograph::{Chronograph, Span};

struct Sink {
    spans: Arc<Mutex<Vec<SpanData>>>,
}

impl RecordSpan for Sink {
    fn record_span(&self, span: SpanData) {
        self.spans.lock().unwrap().push(span);
    }
}

fn chronograph() -> (Arc<Mutex<Vec<SpanData>>>, Chronograph) {
    let spans = Arc::new(Mutex::new(Vec::new()));
    let recorder: Box<dyn RecordSpan> = Box::new(Sink { spans: Arc::clone(&spans) });
    (spans, Chronograph::builder().with_recorder(recorder).build())
}

fn ended(spans: &Arc<Mutex<Vec<SpanData>>>) -> Vec<u64> {
    spans.lock().unwrap().iter().map(|span| span.span_id).collect()
}

#[test]
fn replaced_span_is_ended_once_before_the_new_one_is_current() {
    let (spans, chronograph) = chronograph();
    let mut slot: Option<Span> = None;
    set_threadlocal_span(&mut slot, chronograph.start_span());
    assert!(ended(&spans).is_empty());
    let mut relocated = chronograph.start_span();
    relocated.record_value("from", 1u32);
    set_threadlocal_span(&mut slot, relocated);
    assert_eq!(ended(&spans), vec![0]);
    get_threadlocal_span(&mut slot, &chronograph).record_value("to", 2u32);
    assert_eq!(ended(&spans), vec![0]);
    end_threadlocal_span(&mut slot);
    assert_eq!(ended(&spans), vec![0, 1]);
    assert_eq!(spans.lock().unwrap()[1].records.len(), 2);
    end_threadlocal_span(&mut slot);
    assert_eq!(ended(&spans), vec![0, 1]);
}

#[test]
fn start_ends_the_span_that_was_current() {
    let (spans, chronograph) = chronograph();
    let mut slot: Option<Span> = None;
    start_threadlocal_span(&mut slot, &chronograph);
    assert!(slot.is_some());
    assert!(ended(&spans).is_empty());
    start_threadlocal_span(&mut slot, &chronograph);
    assert_eq!(ended(&spans), vec![0]);
    start_threadlocal_span(&mut slot, &chronograph);
    assert_eq!(ended(&spans), vec![0, 1]);
    end_threadlocal_span(&mut slot);
    assert_eq!(ended(&spans), vec![0, 1, 2]);
    assert!(slot.is_none());
}

#[test]
fn get_starts_a_span_where_there_is_none() {
    let (spans, chronograph) = chronograph();
    let mut slot: Option<Span> = None;
    get_threadlocal_span(&mut slot, &chronograph).record_value("a", 1u32);
    get_threadlocal_span(&mut slot, &chronograph).record_value("b", 2u32);
    assert!(slot.is_some());
    end_threadlocal_span(&mut slot);
    let spans = spans.lock().unwrap();
    assert_eq!(spans.len(), 1);
    assert_eq!(spans[0].span_id, 0);
    assert_eq!(spans[0].records.len(), 2);
}

#[test]
fn taken_span_is_not_ended() {
    let (spans, chronograph) = chronograph();
    let mut slot: Option<Span> = None;
    assert!(take_threadlocal_span(&mut slot).is_none());
    start_threadlocal_span(&mut slot, &chronograph);
    get_threadlocal_span(&mut slot, &chronograph).record_value("a", 1u32);
    let taken = take_threadlocal_span(&mut slot);
    assert!(slot.is_none());
    assert!(ended(&spans).is_empty());
    let mut other: Option<Span> = None;
    set_threadlocal_span(&mut other, taken.unwrap());
    get_threadlocal_span(&mut other, &chronograph).record_value("b", 2u32);
    end_threadlocal_span(&mut other);
    end_threadlocal_span(&mut slot);
    let spans = spans.lock().unwrap();
    assert_eq!(spans.len(), 1);
    assert_eq!(spans[0].records.len(), 2);
}

#[test]
fn ending_an_empty_slot_does_nothing() {
    let (spans, _chronograph) = chronograph();
    let mut slot: Option<Span> = None;
    end_threadlocal_span(&mut slot);
    assert!(slot.is_none());
    assert!(ended(&spans).is_empty());
}
