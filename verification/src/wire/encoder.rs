//! Writing values in the wire format.

use vstd::prelude::*;
use vstd::std_specs::convert::FromSpecImpl;
use crate::endian::{le_bytes, lemma_radix_values, put_uint, to_unsigned};
use crate::schema::{records_view, spans_view};
use crate::schema::{RecordData, RecordModel, RecordValue, SpanBatch, SpanData, SpanModel};
use crate::wire::{batch_fits, records_fit, span_fits, spans_fit, value_fits};
use crate::wire::{encode_batch, encode_record, encode_records, encode_span, encode_span_times};
use crate::wire::{encode_spans, encode_value, MAX_COUNT};
use crate::wire::{TAG_F32, TAG_F64, TAG_I128, TAG_I32, TAG_I64, TAG_INSTANT};
use crate::wire::{TAG_U128, TAG_U32, TAG_U64, TAG_UNIX_TIME, TAG_UTF8_STRING};

verus! {

/// The two's complement of an `i32`.
fn unsigned_i32(value: i32) -> (unsigned: u32)
    ensures
        unsigned == to_unsigned(value as int, 4),
{
    proof {
        lemma_radix_values();
    }
    if value >= 0 {
        value as u32
    } else {
        (value - i32::MIN) as u32 + 0x8000_0000u32
    }
}

/// The two's complement of an `i64`.
fn unsigned_i64(value: i64) -> (unsigned: u64)
    ensures
        unsigned == to_unsigned(value as int, 8),
{
    proof {
        lemma_radix_values();
    }
    if value >= 0 {
        value as u64
    } else {
        (value - i64::MIN) as u64 + 0x8000_0000_0000_0000u64
    }
}

/// The two's complement of an `i128`.
fn unsigned_i128(value: i128) -> (unsigned: u128)
    ensures
        unsigned == to_unsigned(value as int, 16),
{
    proof {
        lemma_radix_values();
    }
    if value >= 0 {
        value as u128
    } else {
        (value - i128::MIN) as u128 + 0x8000_0000_0000_0000_0000_0000_0000_0000u128
    }
}

/// Appends `bytes` to `out`.
fn put_bytes(out: &mut Vec<u8>, bytes: &[u8])
    ensures
        final(out)@ == old(out)@ + bytes@,
{
    let mut done: usize = 0;
    while done < bytes.len()
        invariant
            done <= bytes@.len(),
            out@ == old(out)@ + bytes@.subrange(0, done as int),
        decreases bytes@.len() - done,
    {
        out.push(bytes[done]);
        done = done + 1;
        assert(out@ =~= old(out)@ + bytes@.subrange(0, done as int));
    }
    assert(bytes@.subrange(0, done as int) =~= bytes@);
}

/// Appends a tag and the `width` low bytes of `payload` to `out`.
fn put_tagged(out: &mut Vec<u8>, tag: u8, payload: u128, width: usize)
    ensures
        final(out)@ == old(out)@ + (seq![tag] + le_bytes(payload as nat, width as nat)),
{
    out.push(tag);
    put_uint(out, payload, width);
    assert(final(out)@ =~= old(out)@ + (seq![tag] + le_bytes(payload as nat, width as nat)));
}

/// Whether the format can state the value.
fn value_is_encodable(value: &RecordValue) -> (fits: bool)
    ensures
        fits == value_fits(value@),
{
    match value {
        RecordValue::Utf8String(s) => s.as_str().as_bytes().len() <= MAX_COUNT,
        _ => true,
    }
}

/// Appends the bytes of `value` to `out`.
fn put_value(out: &mut Vec<u8>, value: &RecordValue)
    requires
        value_fits(value@),
    ensures
        final(out)@ == old(out)@ + encode_value(value@),
{
    match value {
        RecordValue::Instant(x) => put_tagged(out, TAG_INSTANT, *x as u128, 8),
        RecordValue::UnixTime(x) => put_tagged(out, TAG_UNIX_TIME, unsigned_i64(*x) as u128, 8),
        RecordValue::Utf8String(s) => {
            let text = s.as_str().as_bytes();
            out.push(TAG_UTF8_STRING);
            put_uint(out, text.len() as u128, 4);
            put_bytes(out, text);
            assert(final(out)@ =~= old(out)@ + encode_value(value@));
        },
        RecordValue::I32(x) => put_tagged(out, TAG_I32, unsigned_i32(*x) as u128, 4),
        RecordValue::I64(x) => put_tagged(out, TAG_I64, unsigned_i64(*x) as u128, 8),
        RecordValue::I128(x) => put_tagged(out, TAG_I128, unsigned_i128(*x), 16),
        RecordValue::U32(x) => put_tagged(out, TAG_U32, *x as u128, 4),
        RecordValue::U64(x) => put_tagged(out, TAG_U64, *x as u128, 8),
        RecordValue::U128(x) => put_tagged(out, TAG_U128, *x, 16),
        RecordValue::F32(x) => put_tagged(out, TAG_F32, *x as u128, 4),
        RecordValue::F64(x) => put_tagged(out, TAG_F64, *x as u128, 8),
    }
}

/// Whether the format can state each of the records.
fn records_are_encodable(records: &Vec<RecordData>) -> (fits: bool)
    ensures
        fits == records_fit(records_view(records@)),
{
    let mut checked: usize = 0;
    while checked < records.len()
        invariant
            checked <= records@.len(),
            forall|i: int| 0 <= i < checked ==> value_fits(#[trigger] records@[i].value@),
        decreases records@.len() - checked,
    {
        if !value_is_encodable(&records[checked].value) {
            assert(!value_fits(records_view(records@)[checked as int].value));
            return false;
        }
        checked = checked + 1;
    }
    assert forall|i: int| 0 <= i < records_view(records@).len() implies value_fits(
        #[trigger] records_view(records@)[i].value,
    ) by {
        assert(value_fits(records@[i].value@));
    }
    true
}

/// Appends the bytes of each of the records to `out`.
fn put_records(out: &mut Vec<u8>, records: &Vec<RecordData>)
    requires
        records_fit(records_view(records@)),
    ensures
        final(out)@ == old(out)@ + encode_records(records_view(records@)),
{
    let ghost all = records_view(records@);
    let mut done: usize = 0;
    assert(all.skip(0) =~= all);
    while done < records.len()
        invariant
            done <= records@.len(),
            all == records_view(records@),
            records_fit(all),
            old(out)@ + encode_records(all) == out@ + encode_records(all.skip(done as int)),
        decreases records@.len() - done,
    {
        let ghost before = out@;
        let ghost rest = all.skip(done as int);
        let record = &records[done];
        proof {
            assert(rest[0] == record@);
            assert(rest.drop_first() =~= all.skip(done + 1));
            assert(value_fits(all[done as int].value));
        }
        put_uint(out, record.datapoint_id.value as u128, 8);
        put_value(out, &record.value);
        proof {
            assert(out@ =~= before + encode_record(record@));
            assert(before + (encode_record(record@) + encode_records(rest.drop_first())) =~= (before
                + encode_record(record@)) + encode_records(rest.drop_first()));
        }
        done = done + 1;
    }
    proof {
        assert(all.skip(done as int) =~= Seq::<RecordModel>::empty());
        assert(out@ + Seq::<u8>::empty() =~= out@);
    }
}

/// Whether the format can state the span.
fn span_is_encodable(span: &SpanData) -> (fits: bool)
    ensures
        fits == span_fits(span@),
{
    span.records.len() <= MAX_COUNT && records_are_encodable(&span.records)
}

/// Appends the bytes of `span` to `out`.
fn put_span(out: &mut Vec<u8>, span: &SpanData)
    requires
        span_fits(span@),
    ensures
        final(out)@ == old(out)@ + encode_span(span@),
{
    put_uint(out, span.span_id as u128, 8);
    put_uint(out, unsigned_i64(span.start_unix_time) as u128, 8);
    put_uint(out, span.start_instant as u128, 8);
    put_uint(out, span.end_instant as u128, 8);
    assert(out@ =~= old(out)@ + encode_span_times(span@));
    put_uint(out, span.records.len() as u128, 4);
    put_records(out, &span.records);
    assert(final(out)@ =~= old(out)@ + encode_span(span@));
}

/// Whether the format can state each of the spans.
fn spans_are_encodable(spans: &Vec<SpanData>) -> (fits: bool)
    ensures
        fits == spans_fit(spans_view(spans@)),
{
    let mut checked: usize = 0;
    while checked < spans.len()
        invariant
            checked <= spans@.len(),
            forall|i: int| 0 <= i < checked ==> span_fits(#[trigger] spans@[i]@),
        decreases spans@.len() - checked,
    {
        if !span_is_encodable(&spans[checked]) {
            assert(!span_fits(spans_view(spans@)[checked as int]));
            return false;
        }
        checked = checked + 1;
    }
    assert forall|i: int| 0 <= i < spans_view(spans@).len() implies span_fits(
        #[trigger] spans_view(spans@)[i],
    ) by {
        assert(span_fits(spans@[i]@));
    }
    true
}

/// Appends the bytes of each of the spans to `out`.
fn put_spans(out: &mut Vec<u8>, spans: &Vec<SpanData>)
    requires
        spans_fit(spans_view(spans@)),
    ensures
        final(out)@ == old(out)@ + encode_spans(spans_view(spans@)),
{
    let ghost all = spans_view(spans@);
    let mut done: usize = 0;
    assert(all.skip(0) =~= all);
    while done < spans.len()
        invariant
            done <= spans@.len(),
            all == spans_view(spans@),
            spans_fit(all),
            old(out)@ + encode_spans(all) == out@ + encode_spans(all.skip(done as int)),
        decreases spans@.len() - done,
    {
        let ghost before = out@;
        let ghost rest = all.skip(done as int);
        let span = &spans[done];
        proof {
            assert(rest[0] == span@);
            assert(rest.drop_first() =~= all.skip(done + 1));
            assert(span_fits(all[done as int]));
        }
        put_span(out, span);
        proof {
            assert(before + (encode_span(span@) + encode_spans(rest.drop_first())) =~= (before
                + encode_span(span@)) + encode_spans(rest.drop_first()));
        }
        done = done + 1;
    }
    proof {
        assert(all.skip(done as int) =~= Seq::<SpanModel>::empty());
        assert(out@ + Seq::<u8>::empty() =~= out@);
    }
}

impl SpanData {
    /// The bytes of the span in the wire format, or no bytes at all where
    /// the format cannot state it.
    pub fn encode(&self) -> (bytes: Vec<u8>)
        ensures
            span_fits(self@) ==> bytes@ == encode_span(self@),
            !span_fits(self@) ==> bytes@ == Seq::<u8>::empty(),
    {
        let mut out: Vec<u8> = Vec::new();
        if span_is_encodable(self) {
            put_span(&mut out, self);
            assert(out@ =~= encode_span(self@));
        }
        out
    }
}

impl SpanBatch {
    /// The bytes of the batch in the wire format, or no bytes at all where
    /// the format cannot state it.
    pub fn encode(&self) -> (bytes: Vec<u8>)
        ensures
            batch_fits(self@) ==> bytes@ == encode_batch(self@),
            !batch_fits(self@) ==> bytes@ == Seq::<u8>::empty(),
    {
        let mut out: Vec<u8> = Vec::new();
        if self.spans.len() <= MAX_COUNT && spans_are_encodable(&self.spans) {
            put_uint(&mut out, self.spans.len() as u128, 4);
            put_spans(&mut out, &self.spans);
            assert(out@ =~= encode_batch(self@));
        }
        out
    }
}

impl From<&SpanBatch> for Vec<u8> {
    /// The bytes of the batch, as [`SpanBatch::encode`] gives them.
    fn from(value: &SpanBatch) -> (bytes: Vec<u8>)
        ensures
            batch_fits(value@) ==> bytes@ == encode_batch(value@),
            !batch_fits(value@) ==> bytes@ == Seq::<u8>::empty(),
    {
        value.encode()
    }
}

impl FromSpecImpl<&SpanBatch> for Vec<u8> {
    /// A vector is more than the bytes it holds, so the conversion is
    /// stated by what `from` ensures of the bytes.
    open spec fn obeys_from_spec() -> bool {
        false
    }

    open spec fn from_spec(value: &SpanBatch) -> Vec<u8> {
        arbitrary()
    }
}

impl From<SpanBatch> for Vec<u8> {
    /// The bytes of the batch, as [`SpanBatch::encode`] gives them.
    fn from(value: SpanBatch) -> (bytes: Vec<u8>)
        ensures
            batch_fits(value@) ==> bytes@ == encode_batch(value@),
            !batch_fits(value@) ==> bytes@ == Seq::<u8>::empty(),
    {
        value.encode()
    }
}

impl FromSpecImpl<SpanBatch> for Vec<u8> {
    /// A vector is more than the bytes it holds, so the conversion is
    /// stated by what `from` ensures of the bytes.
    open spec fn obeys_from_spec() -> bool {
        false
    }

    open spec fn from_spec(value: SpanBatch) -> Vec<u8> {
        arbitrary()
    }
}

impl From<&SpanData> for Vec<u8> {
    /// The bytes of the span, as [`SpanData::encode`] gives them.
    fn from(value: &SpanData) -> (bytes: Vec<u8>)
        ensures
            span_fits(value@) ==> bytes@ == encode_span(value@),
            !span_fits(value@) ==> bytes@ == Seq::<u8>::empty(),
    {
        value.encode()
    }
}

impl FromSpecImpl<&SpanData> for Vec<u8> {
    /// A vector is more than the bytes it holds, so the conversion is
    /// stated by what `from` ensures of the bytes.
    open spec fn obeys_from_spec() -> bool {
        false
    }

    open spec fn from_spec(value: &SpanData) -> Vec<u8> {
        arbitrary()
    }
}

impl From<SpanData> for Vec<u8> {
    /// The bytes of the span, as [`SpanData::encode`] gives them.
    fn from(value: SpanData) -> (bytes: Vec<u8>)
        ensures
            span_fits(value@) ==> bytes@ == encode_span(value@),
            !span_fits(value@) ==> bytes@ == Seq::<u8>::empty(),
    {
        value.encode()
    }
}

impl FromSpecImpl<SpanData> for Vec<u8> {
    /// A vector is more than the bytes it holds, so the conversion is
    /// stated by what `from` ensures of the bytes.
    open spec fn obeys_from_spec() -> bool {
        false
    }

    open spec fn from_spec(value: SpanData) -> Vec<u8> {
        arbitrary()
    }
}

} // verus!
