//! What batching amounts to, stated on one value.
//!
//! A [`Pipeline`] holds what is queued and the collector's schedule. Its
//! steps are those of the recorder and of the collector thread, taken one at
//! a time: it describes the pipeline while no span arrives between the
//! collector's look at the queue and its drain.

use vstd::prelude::*;
use crate::recorder::batch::{collection_is_due, wake_is_due};
use crate::schema::SpanModel;

verus! {

/// The queue and the collector's schedule.
pub struct Pipeline {
    /// What is queued, oldest first.
    pub queued: Seq<SpanModel>,
    /// The number of queued spans at which a batch is due.
    pub size_threshold: nat,
    /// The time after a collection at which the next one is due.
    pub time_threshold: nat,
    /// The time at which the next collection is due whatever is queued.
    pub next_collect_time: nat,
}

impl Pipeline {
    /// The pipeline after a producer has recorded `span`.
    pub open spec fn record(self, span: SpanModel) -> Pipeline {
        Pipeline {
            queued: self.queued.push(span),
            size_threshold: self.size_threshold,
            time_threshold: self.time_threshold,
            next_collect_time: self.next_collect_time,
        }
    }

    /// Whether the producer that records the next span wakes the collector.
    pub open spec fn wakes(self) -> bool {
        wake_is_due(self.queued.len() + 1, self.size_threshold)
    }

    /// The pipeline after `spans` have been recorded, in order.
    pub open spec fn record_all(self, spans: Seq<SpanModel>) -> Pipeline
        decreases spans.len(),
    {
        if spans.len() == 0 {
            self
        } else {
            self.record(spans[0]).record_all(spans.drop_first())
        }
    }

    /// How often the collector is woken while `spans` are recorded.
    pub open spec fn wakes_during(self, spans: Seq<SpanModel>) -> nat
        decreases spans.len(),
    {
        if spans.len() == 0 {
            0
        } else {
            (if self.wakes() {
                1nat
            } else {
                0nat
            }) + self.record(spans[0]).wakes_during(spans.drop_first())
        }
    }

    /// Whether a collection is due at time `now`.
    pub open spec fn due(self, now: nat) -> bool {
        collection_is_due(self.queued.len(), self.size_threshold, now, self.next_collect_time)
    }

    /// The batch that a turn of the collector at time `now` delivers, if it
    /// delivers one.
    pub open spec fn delivered(self, now: nat) -> Option<Seq<SpanModel>> {
        if self.due(now) && self.queued.len() > 0 {
            Some(self.queued)
        } else {
            None
        }
    }

    /// The pipeline after a turn of the collector that began at time `now`
    /// and, if it collected, was done at time `later`.
    pub open spec fn after_turn(self, now: nat, later: nat) -> Pipeline {
        if self.due(now) {
            Pipeline {
                queued: Seq::empty(),
                size_threshold: self.size_threshold,
                time_threshold: self.time_threshold,
                next_collect_time: later + self.time_threshold,
            }
        } else {
            self
        }
    }
}

/// Recording puts the spans behind what is queued, in order, and changes
/// nothing else. The collector is woken once if the queue passes through
/// the size threshold on the way, and not at all if it does not.
pub proof fn lemma_record_all(pipeline: Pipeline, spans: Seq<SpanModel>)
    ensures
        pipeline.record_all(spans).queued == pipeline.queued + spans,
        pipeline.record_all(spans).size_threshold == pipeline.size_threshold,
        pipeline.record_all(spans).time_threshold == pipeline.time_threshold,
        pipeline.record_all(spans).next_collect_time == pipeline.next_collect_time,
        pipeline.wakes_during(spans) == if pipeline.queued.len() < pipeline.size_threshold
            <= pipeline.queued.len() + spans.len() {
            1nat
        } else {
            0nat
        },
    decreases spans.len(),
{
    if spans.len() == 0 {
        assert(pipeline.queued + spans =~= pipeline.queued);
    } else {
        let next = pipeline.record(spans[0]);
        lemma_record_all(next, spans.drop_first());
        assert(next.queued + spans.drop_first() =~= pipeline.queued + spans);
    }
}

/// Where exactly as many spans as the size threshold asks for are recorded
/// into an empty pipeline, the collector is woken once, by the last of them.
/// Its turn delivers one batch, whatever the time: the recorded spans, in the
/// order in which they were recorded. Nothing is left to deliver after it.
pub proof fn lemma_full_batch(pipeline: Pipeline, spans: Seq<SpanModel>, now: nat, later: nat)
    requires
        pipeline.queued.len() == 0,
        spans.len() == pipeline.size_threshold,
        spans.len() > 0,
    ensures
        pipeline.wakes_during(spans) == 1,
        pipeline.wakes_during(spans.drop_last()) == 0,
        pipeline.record_all(spans).delivered(now) == Some(spans),
        forall|then: nat| pipeline.record_all(spans).after_turn(now, later).delivered(then) is None,
{
    lemma_record_all(pipeline, spans);
    lemma_record_all(pipeline, spans.drop_last());
    assert(pipeline.queued + spans =~= spans);
}

/// Where fewer spans than the size threshold asks for are recorded into an
/// empty pipeline, the collector is not woken. A turn before the time of
/// the next collection delivers nothing and leaves the pipeline as it is.
/// The first turn at or after that time delivers one batch: the recorded
/// spans, in the order in which they were recorded. Nothing is left to
/// deliver after it.
pub proof fn lemma_partial_batch(pipeline: Pipeline, spans: Seq<SpanModel>, now: nat, later: nat)
    requires
        pipeline.queued.len() == 0,
        0 < spans.len() < pipeline.size_threshold,
    ensures
        pipeline.wakes_during(spans) == 0,
        now < pipeline.next_collect_time ==> pipeline.record_all(spans).delivered(now) is None
            && pipeline.record_all(spans).after_turn(now, later) == pipeline.record_all(spans),
        now >= pipeline.next_collect_time ==> pipeline.record_all(spans).delivered(now) == Some(
            spans,
        ) && forall|then: nat|
            pipeline.record_all(spans).after_turn(now, later).delivered(then) is None,
{
    lemma_record_all(pipeline, spans);
    assert(pipeline.queued + spans =~= spans);
}

} // verus!
