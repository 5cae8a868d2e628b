//! Reading values in the wire format.

use vstd::prelude::*;
use vstd::std_specs::convert::TryFromSpecImpl;
use vstd::slice::slice_subrange;
use vstd::string::StringSliceAdditionalSpecFns;
use vstd::utf8::{encode_utf8_decode_utf8, valid_utf8};
use crate::endian::{get_uint, lemma_radix_values, to_signed};
use crate::schema::{records_view, spans_view};
use crate::schema::{DatapointId, RecordData, RecordModel, RecordValue, SpanBatch, SpanData};
use crate::schema::{SpanModel, ValueModel};
use crate::wire::{parse_batch, parse_record, parse_records, parse_span, parse_spans};
use crate::wire::{parse_string, parse_value, parse_whole_span, DecodeError};
use crate::wire::{TAG_F32, TAG_F64, TAG_I128, TAG_I32, TAG_I64, TAG_INSTANT};
use crate::wire::{TAG_U128, TAG_U32, TAG_U64, TAG_UNIX_TIME, TAG_UTF8_STRING};

verus! {

/// Reads `bytes` as text with `core::str::from_utf8`, which accepts a slice
/// exactly when it is valid UTF-8 and then hands out the same bytes as a
/// `str`. Where it refuses, its error is dropped.
#[verifier::external_body]
fn text_of(bytes: &[u8]) -> (text: Option<&str>)
    ensures
        text is Some <==> valid_utf8(bytes@),
        text is Some ==> text->0.spec_bytes() == bytes@,
{
    std::str::from_utf8(bytes).ok()
}

/// The `i32` that `unsigned` stands for in two's complement.
fn signed_i32(unsigned: u32) -> (value: i32)
    ensures
        value == to_signed(unsigned as nat, 4),
{
    proof {
        lemma_radix_values();
    }
    if unsigned < 0x8000_0000u32 {
        unsigned as i32
    } else {
        (unsigned - 0x8000_0000u32) as i32 + i32::MIN
    }
}

/// The `i64` that `unsigned` stands for in two's complement.
pub(crate) fn signed_i64(unsigned: u64) -> (value: i64)
    ensures
        value == to_signed(unsigned as nat, 8),
{
    proof {
        lemma_radix_values();
    }
    if unsigned < 0x8000_0000_0000_0000u64 {
        unsigned as i64
    } else {
        (unsigned - 0x8000_0000_0000_0000u64) as i64 + i64::MIN
    }
}

/// The `i128` that `unsigned` stands for in two's complement.
fn signed_i128(unsigned: u128) -> (value: i128)
    ensures
        value == to_signed(unsigned as nat, 16),
{
    proof {
        lemma_radix_values();
    }
    if unsigned < 0x8000_0000_0000_0000_0000_0000_0000_0000u128 {
        unsigned as i128
    } else {
        (unsigned - 0x8000_0000_0000_0000_0000_0000_0000_0000u128) as i128 + i128::MIN
    }
}

/// Whether a reader's result is the one that the format gives.
pub open spec fn value_read(
    got: Result<(RecordValue, usize), DecodeError>,
    want: Result<(ValueModel, int), DecodeError>,
) -> bool {
    match (got, want) {
        (Ok((value, next)), Ok((model, end))) => value@ == model && next == end,
        (Err(e), Err(f)) => e == f,
        _ => false,
    }
}

/// Whether a reader's result is the one that the format gives.
pub open spec fn record_read(
    got: Result<(RecordData, usize), DecodeError>,
    want: Result<(RecordModel, int), DecodeError>,
) -> bool {
    match (got, want) {
        (Ok((record, next)), Ok((model, end))) => record@ == model && next == end,
        (Err(e), Err(f)) => e == f,
        _ => false,
    }
}

/// Whether a reader's result is the one that the format gives.
pub open spec fn records_read(
    got: Result<(Vec<RecordData>, usize), DecodeError>,
    want: Result<(Seq<RecordModel>, int), DecodeError>,
) -> bool {
    match (got, want) {
        (Ok((records, next)), Ok((models, end))) => records_view(records@) == models && next
            == end,
        (Err(e), Err(f)) => e == f,
        _ => false,
    }
}

/// Whether a reader's result is the one that the format gives.
pub open spec fn span_read(
    got: Result<(SpanData, usize), DecodeError>,
    want: Result<(SpanModel, int), DecodeError>,
) -> bool {
    match (got, want) {
        (Ok((span, next)), Ok((model, end))) => span@ == model && next == end,
        (Err(e), Err(f)) => e == f,
        _ => false,
    }
}

/// Whether a reader's result is the one that the format gives.
pub open spec fn spans_read(
    got: Result<(Vec<SpanData>, usize), DecodeError>,
    want: Result<(Seq<SpanModel>, int), DecodeError>,
) -> bool {
    match (got, want) {
        (Ok((spans, next)), Ok((models, end))) => spans_view(spans@) == models && next == end,
        (Err(e), Err(f)) => e == f,
        _ => false,
    }
}

/// Reads the string whose payload starts at position `pos`.
fn take_string(bytes: &[u8], pos: usize) -> (got: Result<(RecordValue, usize), DecodeError>)
    ensures
        value_read(got, parse_string(bytes@, pos as int)),
{
    let count = match get_uint(bytes, pos, 4) {
        None => {
            return Err(DecodeError::Truncated);
        },
        Some(count) => count,
    };
    proof {
        lemma_radix_values();
    }
    let len: usize = bytes.len();
    let from: usize = pos + 4;
    if count > (len - from) as u128 {
        return Err(DecodeError::Truncated);
    }
    let end: usize = from + count as usize;
    let body = slice_subrange(bytes, from, end);
    match text_of(body) {
        None => Err(DecodeError::InvalidUtf8),
        Some(text) => {
            proof {
                encode_utf8_decode_utf8(text@);
            }
            Ok((RecordValue::Utf8String(text.to_owned()), end))
        },
    }
}

/// Reads the value whose tag is at position `pos`.
fn take_value(bytes: &[u8], pos: usize) -> (got: Result<(RecordValue, usize), DecodeError>)
    ensures
        value_read(got, parse_value(bytes@, pos as int)),
{
    if pos >= bytes.len() {
        return Err(DecodeError::Truncated);
    }
    let tag: u8 = bytes[pos];
    let from: usize = pos + 1;
    if tag == TAG_UTF8_STRING {
        return take_string(bytes, from);
    }
    if tag > TAG_F64 {
        return Err(DecodeError::UnknownTag);
    }
    let width: usize = if tag == TAG_I32 || tag == TAG_U32 || tag == TAG_F32 {
        4
    } else if tag == TAG_I128 || tag == TAG_U128 {
        16
    } else {
        8
    };
    let payload = match get_uint(bytes, from, width) {
        None => {
            return Err(DecodeError::Truncated);
        },
        Some(payload) => payload,
    };
    proof {
        lemma_radix_values();
    }
    let value = if tag == TAG_INSTANT {
        RecordValue::Instant(payload as u64)
    } else if tag == TAG_UNIX_TIME {
        RecordValue::UnixTime(signed_i64(payload as u64))
    } else if tag == TAG_I32 {
        RecordValue::I32(signed_i32(payload as u32))
    } else if tag == TAG_I64 {
        RecordValue::I64(signed_i64(payload as u64))
    } else if tag == TAG_I128 {
        RecordValue::I128(signed_i128(payload))
    } else if tag == TAG_U32 {
        RecordValue::U32(payload as u32)
    } else if tag == TAG_U64 {
        RecordValue::U64(payload as u64)
    } else if tag == TAG_U128 {
        RecordValue::U128(payload)
    } else if tag == TAG_F32 {
        RecordValue::F32(payload as u32)
    } else {
        RecordValue::F64(payload as u64)
    };
    Ok((value, from + width))
}

/// Reads the record that starts at position `pos`.
fn take_record(bytes: &[u8], pos: usize) -> (got: Result<(RecordData, usize), DecodeError>)
    ensures
        record_read(got, parse_record(bytes@, pos as int)),
{
    let id = match get_uint(bytes, pos, 8) {
        None => {
            return Err(DecodeError::Truncated);
        },
        Some(id) => id,
    };
    proof {
        lemma_radix_values();
    }
    match take_value(bytes, pos + 8) {
        Err(e) => Err(e),
        Ok((value, next)) => Ok(
            (RecordData { datapoint_id: DatapointId { value: id as u64 }, value }, next),
        ),
    }
}

/// Puts `read` in front of the records of a result.
pub open spec fn after_records(
    read: Seq<RecordModel>,
    rest: Result<(Seq<RecordModel>, int), DecodeError>,
) -> Result<(Seq<RecordModel>, int), DecodeError> {
    match rest {
        Err(e) => Err(e),
        Ok((records, end)) => Ok((read + records, end)),
    }
}

/// Reads the `count` records that start at position `pos`.
fn take_records(bytes: &[u8], pos: usize, count: u32) -> (got: Result<
    (Vec<RecordData>, usize),
    DecodeError,
>)
    ensures
        records_read(got, parse_records(bytes@, pos as int, count as nat)),
{
    let ghost want = parse_records(bytes@, pos as int, count as nat);
    let mut records: Vec<RecordData> = Vec::new();
    let mut at: usize = pos;
    let mut left: u32 = count;
    proof {
        assert(records_view(records@) =~= Seq::<RecordModel>::empty());
        match want {
            Ok((models, end)) => {
                assert(Seq::<RecordModel>::empty() + models =~= models);
            },
            Err(e) => {},
        }
    }
    while left > 0
        invariant
            want == parse_records(bytes@, pos as int, count as nat),
            want == after_records(
                records_view(records@),
                parse_records(bytes@, at as int, left as nat),
            ),
        decreases left,
    {
        let ghost read = records_view(records@);
        match take_record(bytes, at) {
            Err(e) => {
                return Err(e);
            },
            Ok((record, next)) => {
                records.push(record);
                proof {
                    let rest = parse_records(bytes@, next as int, (left - 1) as nat);
                    assert(records_view(records@) =~= read.push(record@));
                    match rest {
                        Ok((models, end)) => {
                            assert(read + (seq![record@] + models) =~= read.push(record@)
                                + models);
                        },
                        Err(e) => {},
                    }
                }
                at = next;
                left = left - 1;
            },
        }
    }
    proof {
        assert(records_view(records@) + Seq::<RecordModel>::empty() =~= records_view(records@));
    }
    Ok((records, at))
}

/// Reads the span that starts at position `pos`.
fn take_span(bytes: &[u8], pos: usize) -> (got: Result<(SpanData, usize), DecodeError>)
    ensures
        span_read(got, parse_span(bytes@, pos as int)),
{
    if bytes.len() < 36 || pos > bytes.len() - 36 {
        return Err(DecodeError::Truncated);
    }
    proof {
        lemma_radix_values();
    }
    let span_id = get_uint(bytes, pos, 8).unwrap() as u64;
    let start_unix_time = signed_i64(get_uint(bytes, pos + 8, 8).unwrap() as u64);
    let start_instant = get_uint(bytes, pos + 16, 8).unwrap() as u64;
    let end_instant = get_uint(bytes, pos + 24, 8).unwrap() as u64;
    let count = get_uint(bytes, pos + 32, 4).unwrap() as u32;
    match take_records(bytes, pos + 36, count) {
        Err(e) => Err(e),
        Ok((records, next)) => Ok(
            (SpanData { span_id, start_unix_time, start_instant, end_instant, records }, next),
        ),
    }
}

/// Puts `read` in front of the spans of a result.
pub open spec fn after_spans(
    read: Seq<SpanModel>,
    rest: Result<(Seq<SpanModel>, int), DecodeError>,
) -> Result<(Seq<SpanModel>, int), DecodeError> {
    match rest {
        Err(e) => Err(e),
        Ok((spans, end)) => Ok((read + spans, end)),
    }
}

/// Reads the `count` spans that start at position `pos`.
fn take_spans(bytes: &[u8], pos: usize, count: u32) -> (got: Result<
    (Vec<SpanData>, usize),
    DecodeError,
>)
    ensures
        spans_read(got, parse_spans(bytes@, pos as int, count as nat)),
{
    let ghost want = parse_spans(bytes@, pos as int, count as nat);
    let mut spans: Vec<SpanData> = Vec::new();
    let mut at: usize = pos;
    let mut left: u32 = count;
    proof {
        assert(spans_view(spans@) =~= Seq::<SpanModel>::empty());
        match want {
            Ok((models, end)) => {
                assert(Seq::<SpanModel>::empty() + models =~= models);
            },
            Err(e) => {},
        }
    }
    while left > 0
        invariant
            want == parse_spans(bytes@, pos as int, count as nat),
            want == after_spans(spans_view(spans@), parse_spans(bytes@, at as int, left as nat)),
        decreases left,
    {
        let ghost read = spans_view(spans@);
        match take_span(bytes, at) {
            Err(e) => {
                return Err(e);
            },
            Ok((span, next)) => {
                spans.push(span);
                proof {
                    let rest = parse_spans(bytes@, next as int, (left - 1) as nat);
                    assert(spans_view(spans@) =~= read.push(span@));
                    match rest {
                        Ok((models, end)) => {
                            assert(read + (seq![span@] + models) =~= read.push(span@) + models);
                        },
                        Err(e) => {},
                    }
                }
                at = next;
                left = left - 1;
            },
        }
    }
    proof {
        assert(spans_view(spans@) + Seq::<SpanModel>::empty() =~= spans_view(spans@));
    }
    Ok((spans, at))
}

/// Whether a decoder's result is the one that the format gives.
pub open spec fn span_decoded(
    got: Result<SpanData, DecodeError>,
    want: Result<SpanModel, DecodeError>,
) -> bool {
    match (got, want) {
        (Ok(span), Ok(model)) => span@ == model,
        (Err(e), Err(f)) => e == f,
        _ => false,
    }
}

/// Whether a decoder's result is the one that the format gives.
pub open spec fn batch_decoded(
    got: Result<SpanBatch, DecodeError>,
    want: Result<Seq<SpanModel>, DecodeError>,
) -> bool {
    match (got, want) {
        (Ok(batch), Ok(model)) => batch@ == model,
        (Err(e), Err(f)) => e == f,
        _ => false,
    }
}

impl SpanData {
    /// The span that `bytes` encode in the wire format, or why they encode
    /// none.
    pub fn decode(bytes: &[u8]) -> (got: Result<SpanData, DecodeError>)
        ensures
            span_decoded(got, parse_whole_span(bytes@)),
    {
        match take_span(bytes, 0) {
            Err(e) => Err(e),
            Ok((span, next)) => if next == bytes.len() {
                Ok(span)
            } else {
                Err(DecodeError::TrailingBytes)
            },
        }
    }
}

impl SpanBatch {
    /// The batch that `bytes` encode in the wire format, or why they encode
    /// none.
    pub fn decode(bytes: &[u8]) -> (got: Result<SpanBatch, DecodeError>)
        ensures
            batch_decoded(got, parse_batch(bytes@)),
    {
        let count = match get_uint(bytes, 0, 4) {
            None => {
                return Err(DecodeError::Truncated);
            },
            Some(count) => count,
        };
        proof {
            lemma_radix_values();
        }
        match take_spans(bytes, 4, count as u32) {
            Err(e) => Err(e),
            Ok((spans, next)) => if next == bytes.len() {
                Ok(SpanBatch { spans })
            } else {
                Err(DecodeError::TrailingBytes)
            },
        }
    }
}

impl TryFrom<&[u8]> for SpanBatch {
    type Error = DecodeError;

    /// The batch that the bytes encode, as [`SpanBatch::decode`] gives it.
    fn try_from(value: &[u8]) -> (got: Result<SpanBatch, DecodeError>)
        ensures
            batch_decoded(got, parse_batch(value@)),
    {
        SpanBatch::decode(value)
    }
}

impl TryFromSpecImpl<&[u8]> for SpanBatch {
    /// A batch is more than what it stands for, so the conversion is stated
    /// by what `try_from` ensures of the batch.
    open spec fn obeys_try_from_spec() -> bool {
        false
    }

    open spec fn try_from_spec(value: &[u8]) -> Result<SpanBatch, DecodeError> {
        arbitrary()
    }
}

impl TryFrom<&[u8]> for SpanData {
    type Error = DecodeError;

    /// The span that the bytes encode, as [`SpanData::decode`] gives it.
    fn try_from(value: &[u8]) -> (got: Result<SpanData, DecodeError>)
        ensures
            span_decoded(got, parse_whole_span(value@)),
    {
        SpanData::decode(value)
    }
}

impl TryFromSpecImpl<&[u8]> for SpanData {
    /// A span is more than what it stands for, so the conversion is stated
    /// by what `try_from` ensures of the span.
    open spec fn obeys_try_from_spec() -> bool {
        false
    }

    open spec fn try_from_spec(value: &[u8]) -> Result<SpanData, DecodeError> {
        arbitrary()
    }
}

} // verus!
