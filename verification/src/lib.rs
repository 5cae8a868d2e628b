//! A tracing library: spans collect typed, timestamped datapoints and are
//! handed to a recorder when they end.
//!
//! A [`Chronograph`] starts spans. Each span gets the next id of its
//! chronograph, and the sampling rate decides from that id whether the span
//! collects anything. A sampled span keeps what is recorded to it, in order.
//! When it ends it becomes a [`schema::SpanData`], which is shown to the
//! chronograph's processors, in the order in which they were registered, and
//! then handed to its recorder. A span that is not sampled keeps nothing and
//! hands nothing on.

use vstd::prelude::*;
use vstd::std_specs::convert::IntoSpec;
use std::sync::Arc;
use std::sync::atomic::AtomicU64;
use crate::clock::{elapsed_nanos, unix_nanos};
use crate::processor::SpanProcessor;
use crate::recorder::SpanRecorder;
use crate::sampling::{sampled, SampleRate};
use crate::schema::{records_view, DatapointId, RecordData, RecordModel, RecordValue};
use crate::schema::{SpanData, SpanModel, ValueModel};

pub mod clock;
pub mod endian;
pub mod local;
pub mod processor;
pub mod recorder;
pub mod sampling;
pub mod schema;
pub mod wire;

pub use crate::local::{end_threadlocal_span, get_threadlocal_span, set_threadlocal_span};
pub use crate::local::{start_threadlocal_span, take_threadlocal_span};

verus! {

/// What the spans of a chronograph share: where they go when they end, who
/// sees them before, and which of them are sampled.
pub struct ChronographContext {
    recorder: SpanRecorder,
    processors: Vec<SpanProcessor>,
    sample_rate: SampleRate,
}

impl ChronographContext {
    #[verifier::type_invariant]
    spec fn well_formed(self) -> bool {
        self.sample_rate.well_formed()
    }

    /// The sampling rate: zero where every span is sampled.
    pub closed spec fn sample_rate(&self) -> u64 {
        self.sample_rate.rate()
    }

    /// The processors, in the order in which they were registered.
    pub closed spec fn processors(&self) -> Seq<SpanProcessor> {
        self.processors@
    }

    /// The recorder.
    pub closed spec fn recorder(&self) -> SpanRecorder {
        self.recorder
    }

    /// Whether the span with the given id is sampled.
    fn sample(&self, span_id: u64) -> (decision: bool)
        ensures
            decision == sampled(self.sample_rate(), span_id),
    {
        proof {
            use_type_invariant(self);
        }
        self.sample_rate.sample(span_id)
    }

    /// Shows `span_data` to each processor, in the order in which they were
    /// registered, and then hands it to the recorder.
    fn deliver(&self, span_data: SpanData) {
        let mut shown: usize = 0;
        while shown < self.processors.len()
            invariant
                shown <= self.processors@.len(),
            decreases self.processors@.len() - shown,
        {
            self.processors[shown].post_process_span(&span_data);
            shown = shown + 1;
        }
        self.recorder.record_span(span_data);
    }
}

/// What a span in flight stands for.
pub struct SpanState {
    pub span_id: u64,
    /// Whether the span collects what is recorded to it.
    pub sampled: bool,
    /// Nanoseconds since the Unix epoch at which the span started.
    pub start_unix_time: i64,
    /// Nanoseconds since the chronograph was built at which the span started.
    pub start_instant: u64,
    /// What was recorded, in order.
    pub records: Seq<RecordModel>,
}

impl SpanState {
    /// The span as it starts.
    pub open spec fn started(
        rate: u64,
        span_id: u64,
        start_unix_time: i64,
        start_instant: u64,
    ) -> SpanState {
        SpanState {
            span_id,
            sampled: sampled(rate, span_id),
            start_unix_time,
            start_instant,
            records: Seq::empty(),
        }
    }

    /// The span after `record` was recorded to it: a sampled span keeps the
    /// record behind those it has, another span stays as it is.
    pub open spec fn record(self, record: RecordModel) -> SpanState {
        if self.sampled {
            SpanState {
                span_id: self.span_id,
                sampled: self.sampled,
                start_unix_time: self.start_unix_time,
                start_instant: self.start_instant,
                records: self.records.push(record),
            }
        } else {
            self
        }
    }

    /// The span after each of `records` was recorded to it, in order.
    pub open spec fn record_all(self, records: Seq<RecordModel>) -> SpanState
        decreases records.len(),
    {
        if records.len() == 0 {
            self
        } else {
            self.record(records[0]).record_all(records.drop_first())
        }
    }

    /// What the span hands on when it ends with the monotonic clock at
    /// `now`: nothing if it is not sampled. No span ends before it starts.
    pub open spec fn finish(self, now: u64) -> Option<SpanModel> {
        if self.sampled {
            Some(
                SpanModel {
                    span_id: self.span_id,
                    start_unix_time: self.start_unix_time,
                    start_instant: self.start_instant,
                    end_instant: if now < self.start_instant {
                        self.start_instant
                    } else {
                        now
                    },
                    records: self.records,
                },
            )
        } else {
            None
        }
    }
}

/// A span that is not sampled stays as it is whatever is recorded to it, and
/// hands nothing on when it ends: no processor and no recorder gets to see
/// it.
pub proof fn lemma_unsampled_span_is_inert(span: SpanState, records: Seq<RecordModel>, now: u64)
    requires
        !span.sampled,
    ensures
        span.record_all(records) == span,
        span.record_all(records).finish(now) is None,
    decreases records.len(),
{
    if records.len() > 0 {
        lemma_unsampled_span_is_inert(span, records.drop_first(), now);
    }
}

/// A sampled span hands on what was recorded to it, in the order in which it
/// was recorded, and does not end before it starts.
pub proof fn lemma_sampled_span_keeps_records(span: SpanState, records: Seq<RecordModel>, now: u64)
    requires
        span.sampled,
    ensures
        span.record_all(records).finish(now) is Some,
        span.record_all(records).finish(now)->0.records == span.records + records,
        span.record_all(records).finish(now)->0.span_id == span.span_id,
        span.record_all(records).finish(now)->0.well_formed(),
    decreases records.len(),
{
    if records.len() == 0 {
        assert(span.records + records =~= span.records);
    } else {
        let next = span.record(records[0]);
        lemma_sampled_span_keeps_records(next, records.drop_first(), now);
        assert(next.records + records.drop_first() =~= span.records + records);
    }
}

/// A span in flight. It is handed on when it is ended with [`Span::end`].
pub struct Span {
    sampled: bool,
    global_start_instant: std::time::Instant,
    context: Arc<ChronographContext>,
    span_id: u64,
    start_unix_time: i64,
    start_instant: u64,
    records: Vec<RecordData>,
}

impl View for Span {
    type V = SpanState;

    closed spec fn view(&self) -> SpanState {
        SpanState {
            span_id: self.span_id,
            sampled: self.sampled,
            start_unix_time: self.start_unix_time,
            start_instant: self.start_instant,
            records: records_view(self.records@),
        }
    }
}

impl Span {
    /// What the span shares with the other spans of its chronograph.
    pub closed spec fn context(&self) -> ChronographContext {
        *self.context
    }

    /// Puts a record behind those that the span has.
    fn record_value_no_sampling(&mut self, datapoint_id: DatapointId, value: RecordValue)
        ensures
            final(self)@ == (SpanState {
                records: old(self)@.records.push(
                    RecordModel { datapoint_id: datapoint_id.value, value: value@ },
                ),
                ..old(self)@
            }),
            final(self).context() == old(self).context(),
    {
        let ghost before = records_view(self.records@);
        let ghost record = RecordModel { datapoint_id: datapoint_id.value, value: value@ };
        self.records.push(RecordData { datapoint_id, value });
        assert(records_view(self.records@) =~= before.push(record));
    }

    /// Records the time that the monotonic clock shows now, in nanoseconds
    /// since the chronograph was built. A span that is not sampled stays as
    /// it is.
    pub fn record_instant<I: Into<DatapointId>>(&mut self, datapoint_id: I) -> (this: &mut Self)
        ensures
            !old(self)@.sampled ==> *this == *old(self),
            old(self)@.sampled ==> exists|id: u64, nanos: u64|
                this@ == #[trigger] old(self)@.record(
                    RecordModel { datapoint_id: id, value: ValueModel::Instant(nanos) },
                ) && (I::obeys_into_spec() ==> id == datapoint_id.into_spec().value),
            this.context() == old(self).context(),
            *final(self) == *final(this),
    {
        if self.sampled {
            let nanos = elapsed_nanos(&self.global_start_instant);
            let id: DatapointId = datapoint_id.into();
            self.record_value_no_sampling(id, RecordValue::Instant(nanos));
            assert(self@ == old(self)@.record(
                RecordModel { datapoint_id: id.value, value: ValueModel::Instant(nanos) },
            ));
        }
        self
    }

    /// Records the wall-clock time at which the span started, whenever this
    /// is called. A span that is not sampled stays as it is.
    pub fn record_unix_time<I: Into<DatapointId>>(&mut self, datapoint_id: I) -> (this: &mut Self)
        ensures
            !old(self)@.sampled ==> *this == *old(self),
            exists|id: u64|
                this@ == #[trigger] old(self)@.record(
                    RecordModel {
                        datapoint_id: id,
                        value: ValueModel::UnixTime(old(self)@.start_unix_time),
                    },
                ) && (I::obeys_into_spec() ==> id == datapoint_id.into_spec().value),
            this.context() == old(self).context(),
            *final(self) == *final(this),
    {
        if self.sampled {
            let id: DatapointId = datapoint_id.into();
            let start = self.start_unix_time;
            self.record_value_no_sampling(id, RecordValue::UnixTime(start));
            assert(self@ == old(self)@.record(
                RecordModel { datapoint_id: id.value, value: ValueModel::UnixTime(start) },
            ));
        } else {
            assert(self@ == old(self)@.record(
                RecordModel {
                    datapoint_id: datapoint_id.into_spec().value,
                    value: ValueModel::UnixTime(old(self)@.start_unix_time),
                },
            ));
        }
        self
    }

    /// Records `value`. A span that is not sampled stays as it is.
    pub fn record_value<I: Into<DatapointId>, V: Into<RecordValue>>(
        &mut self,
        datapoint_id: I,
        value: V,
    ) -> (this: &mut Self)
        ensures
            !old(self)@.sampled ==> *this == *old(self),
            exists|record: RecordModel|
                this@ == #[trigger] old(self)@.record(record) && (I::obeys_into_spec()
                    ==> record.datapoint_id == datapoint_id.into_spec().value) && (
                V::obeys_into_spec() ==> record.value == value.into_spec()@),
            this.context() == old(self).context(),
            *final(self) == *final(this),
    {
        if self.sampled {
            let id: DatapointId = datapoint_id.into();
            let value: RecordValue = value.into();
            let ghost record = RecordModel { datapoint_id: id.value, value: value@ };
            self.record_value_no_sampling(id, value);
            assert(self@ == old(self)@.record(record));
        } else {
            assert(self@ == old(self)@.record(
                RecordModel {
                    datapoint_id: datapoint_id.into_spec().value,
                    value: value.into_spec()@,
                },
            ));
        }
        self
    }

    /// What the span hands on when it ends with the monotonic clock at
    /// `now`, in nanoseconds since the chronograph was built: nothing if it
    /// is not sampled, else its id, its times and what was recorded to it,
    /// in order.
    pub fn finish(self, now: u64) -> (span_data: Option<SpanData>)
        ensures
            span_data is Some <==> self@.sampled,
            span_data is Some ==> self@.finish(now) == Some(span_data->0@),
            span_data is Some ==> span_data->0@.well_formed(),
    {
        if !self.sampled {
            return None;
        }
        let end_instant = if now < self.start_instant {
            self.start_instant
        } else {
            now
        };
        Some(
            SpanData {
                span_id: self.span_id,
                start_unix_time: self.start_unix_time,
                start_instant: self.start_instant,
                end_instant,
                records: self.records,
            },
        )
    }

    /// Ends the span now. A span that is not sampled ends without a trace.
    /// A sampled one is shown to each processor of its chronograph, in the
    /// order in which they were registered, and then handed to the recorder.
    pub fn end(self) {
        if self.sampled {
            let context = Arc::clone(&self.context);
            let now = elapsed_nanos(&self.global_start_instant);
            match self.finish(now) {
                Some(span_data) => context.deliver(span_data),
                None => {},
            }
        }
    }
}

/// Starts spans, and gives each of them the next id.
pub struct Chronograph {
    context: Arc<ChronographContext>,
    next_id: AtomicU64,
    global_start_instant: std::time::Instant,
}

impl Chronograph {
    /// What the spans of this chronograph share.
    pub closed spec fn context(&self) -> ChronographContext {
        *self.context
    }

    /// A builder for a chronograph that samples every span, has no
    /// processor, and discards what it records.
    pub fn builder() -> (builder: ChronographBuilder)
        ensures
            builder.context().sample_rate() == 0,
            builder.context().processors() == Seq::<SpanProcessor>::empty(),
            builder.context().recorder() == SpanRecorder::NoOp(),
    {
        ChronographBuilder {
            context: ChronographContext {
                processors: Vec::new(),
                recorder: SpanRecorder::NoOp(),
                sample_rate: SampleRate::All,
            },
        }
    }

    /// Starts the span with the given id and start times. The sampling rate
    /// decides from the id whether the span is sampled.
    pub fn span_at(&self, span_id: u64, start_unix_time: i64, start_instant: u64) -> (span: Span)
        ensures
            span@ == SpanState::started(
                self.context().sample_rate(),
                span_id,
                start_unix_time,
                start_instant,
            ),
            span.context() == self.context(),
    {
        let records: Vec<RecordData> = Vec::new();
        assert(records_view(records@) =~= Seq::<RecordModel>::empty());
        Span {
            sampled: self.context.sample(span_id),
            global_start_instant: self.global_start_instant,
            context: Arc::clone(&self.context),
            span_id,
            start_unix_time,
            start_instant,
            records,
        }
    }

    /// Starts a span now. It gets the next id of this chronograph, and the
    /// sampling rate decides from that id whether it is sampled.
    pub fn start_span(&self) -> (span: Span)
        ensures
            span@.sampled == sampled(self.context().sample_rate(), span@.span_id),
            span@.records == Seq::<RecordModel>::empty(),
            span.context() == self.context(),
    {
        let span_id = self.next_id.fetch_add(1, std::sync::atomic::Ordering::Relaxed);
        let start_unix_time = unix_nanos(&std::time::SystemTime::now());
        let start_instant = elapsed_nanos(&self.global_start_instant);
        self.span_at(span_id, start_unix_time, start_instant)
    }
}

/// Collects what a chronograph is built from.
pub struct ChronographBuilder {
    context: ChronographContext,
}

impl ChronographBuilder {
    /// What the spans of the chronograph will share.
    pub closed spec fn context(&self) -> ChronographContext {
        self.context
    }

    /// Sets the recorder, which gets each finalized span once the
    /// processors have seen it.
    pub fn with_recorder<R: Into<SpanRecorder>>(self, recorder: R) -> (builder: Self)
        ensures
            R::obeys_into_spec() ==> builder.context().recorder() == recorder.into_spec(),
            builder.context().processors() == self.context().processors(),
            builder.context().sample_rate() == self.context().sample_rate(),
    {
        proof {
            use_type_invariant(&self.context);
        }
        ChronographBuilder {
            context: ChronographContext {
                recorder: recorder.into(),
                processors: self.context.processors,
                sample_rate: self.context.sample_rate,
            },
        }
    }

    /// Adds a processor behind those already registered.
    pub fn with_processor(self, post_processor: SpanProcessor) -> (builder: Self)
        ensures
            builder.context().processors() == self.context().processors().push(post_processor),
            builder.context().recorder() == self.context().recorder(),
            builder.context().sample_rate() == self.context().sample_rate(),
    {
        proof {
            use_type_invariant(&self.context);
        }
        let mut processors = self.context.processors;
        processors.push(post_processor);
        ChronographBuilder {
            context: ChronographContext {
                recorder: self.context.recorder,
                processors,
                sample_rate: self.context.sample_rate,
            },
        }
    }

    /// Sets the sampling rate: zero samples every span, any other rate
    /// samples the spans whose id it divides.
    pub fn with_sample_rate(self, sample_rate: u64) -> (builder: Self)
        ensures
            builder.context().sample_rate() == sample_rate,
            builder.context().recorder() == self.context().recorder(),
            builder.context().processors() == self.context().processors(),
    {
        ChronographBuilder {
            context: ChronographContext {
                recorder: self.context.recorder,
                processors: self.context.processors,
                sample_rate: SampleRate::from(sample_rate),
            },
        }
    }

    /// The chronograph. Its first span gets the id zero, and its monotonic
    /// clock starts now.
    pub fn build(self) -> (chronograph: Chronograph)
        ensures
            chronograph.context() == self.context(),
    {
        Chronograph {
            context: Arc::new(self.context),
            next_id: AtomicU64::new(0),
            global_start_instant: std::time::Instant::now(),
        }
    }
}

} // verus!
