//! Hooks that observe a finalized span before it is recorded.

use vstd::prelude::*;
use crate::schema::SpanData;

verus! {

/// What a user implements to observe finalized spans.
pub trait ProcessSpan: Send + Sync {
    fn process_span(&self, span: &SpanData);
}

/// A hook that observes a finalized span. It cannot change the span nor keep
/// it from being recorded.
pub enum SpanProcessor {
    Dyn(Box<dyn ProcessSpan>),
}

impl SpanProcessor {
    /// Shows `span_data` to the hook.
    pub fn post_process_span(&self, span_data: &SpanData) {
        match self {
            SpanProcessor::Dyn(x) => x.process_span(span_data),
        }
    }
}

} // verus!
