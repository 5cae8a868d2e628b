//! Where finalized spans go: nowhere, to a user's callback, or to the
//! batching recorder.

use vstd::prelude::*;
use vstd::std_specs::convert::FromSpecImpl;
use crate::recorder::batch::BatchingSpanRecorder;
use crate::schema::SpanData;

pub mod batch;
pub mod pipeline;

verus! {

/// What a user implements to receive finalized spans one by one, on the
/// thread that ends them.
pub trait RecordSpan: Send + Sync {
    fn record_span(&self, span: SpanData);
}

/// The sink of a chronograph's finalized spans.
pub enum SpanRecorder {
    /// Spans are queued and delivered in batches by a collector thread.
    Batching(BatchingSpanRecorder),
    /// Spans are handed to a user's recorder.
    Dyn(Box<dyn RecordSpan>),
    /// Spans are discarded.
    NoOp(),
}

impl SpanRecorder {
    /// Hands `span` to the sink.
    pub fn record_span(&self, span: SpanData) {
        match self {
            SpanRecorder::Batching(x) => x.record_span(span),
            SpanRecorder::Dyn(x) => x.record_span(span),
            SpanRecorder::NoOp() => {},
        }
    }
}

impl From<BatchingSpanRecorder> for SpanRecorder {
    fn from(value: BatchingSpanRecorder) -> (recorder: SpanRecorder) {
        SpanRecorder::Batching(value)
    }
}

impl FromSpecImpl<BatchingSpanRecorder> for SpanRecorder {
    open spec fn obeys_from_spec() -> bool {
        true
    }

    open spec fn from_spec(value: BatchingSpanRecorder) -> SpanRecorder {
        SpanRecorder::Batching(value)
    }
}

impl From<Box<dyn RecordSpan>> for SpanRecorder {
    fn from(value: Box<dyn RecordSpan>) -> (recorder: SpanRecorder) {
        SpanRecorder::Dyn(value)
    }
}

impl FromSpecImpl<Box<dyn RecordSpan>> for SpanRecorder {
    open spec fn obeys_from_spec() -> bool {
        true
    }

    open spec fn from_spec(value: Box<dyn RecordSpan>) -> SpanRecorder {
        SpanRecorder::Dyn(value)
    }
}

impl From<()> for SpanRecorder {
    fn from(value: ()) -> (recorder: SpanRecorder) {
        SpanRecorder::NoOp()
    }
}

impl FromSpecImpl<()> for SpanRecorder {
    open spec fn obeys_from_spec() -> bool {
        true
    }

    open spec fn from_spec(value: ()) -> SpanRecorder {
        SpanRecorder::NoOp()
    }
}

} // verus!
