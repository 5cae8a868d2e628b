//! The current span of a thread.
//!
//! A thread keeps at most one current span, in a slot of its own. These
//! functions are what may be done to such a slot. A span that leaves the
//! slot without being handed out is ended then and there.

use vstd::prelude::*;
use crate::{Chronograph, Span};
use crate::schema::RecordModel;
use crate::sampling::sampled;

verus! {

/// Puts `span` in the slot. The span that was there, if any, is ended first.
pub fn set_threadlocal_span(slot: &mut Option<Span>, span: Span)
    ensures
        *final(slot) == Some(span),
{
    end_threadlocal_span(slot);
    *slot = Some(span);
}

/// Starts a span of `chronograph` and puts it in the slot. The span that was
/// there, if any, is ended first.
pub fn start_threadlocal_span(slot: &mut Option<Span>, chronograph: &Chronograph)
    ensures
        *final(slot) is Some,
        (*final(slot))->0@.records == Seq::<RecordModel>::empty(),
        (*final(slot))->0@.sampled == sampled(
            chronograph.context().sample_rate(),
            (*final(slot))->0@.span_id,
        ),
        (*final(slot))->0.context() == chronograph.context(),
{
    let span = chronograph.start_span();
    set_threadlocal_span(slot, span);
}

/// The span in the slot, to record to. Where the slot is empty, a span of
/// `chronograph` is started first and put there.
pub fn get_threadlocal_span<'a>(slot: &'a mut Option<Span>, chronograph: &Chronograph) -> (span:
    &'a mut Span)
    ensures
        *old(slot) is Some ==> *span == (*old(slot))->0,
        *old(slot) is None ==> span@.records == Seq::<RecordModel>::empty() && span@.sampled
            == sampled(chronograph.context().sample_rate(), span@.span_id) && span.context()
            == chronograph.context(),
        *final(slot) == Some(*final(span)),
{
    if slot.is_none() {
        *slot = Some(chronograph.start_span());
    }
    match slot {
        Some(span) => span,
        None => unreached(),
    }
}

/// Takes the span out of the slot without ending it, as to hand it to
/// another thread.
pub fn take_threadlocal_span(slot: &mut Option<Span>) -> (span: Option<Span>)
    ensures
        span == *old(slot),
        *final(slot) == None::<Span>,
{
    slot.take()
}

/// Ends the span in the slot, if there is one, and leaves the slot empty.
pub fn end_threadlocal_span(slot: &mut Option<Span>)
    ensures
        *final(slot) == None::<Span>,
{
    match slot.take() {
        Some(span) => span.end(),
        None => {},
    }
}

} // verus!
