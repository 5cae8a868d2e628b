//! The binary format in which span batches leave the process.
//!
//! ```text
//! SpanBatch   := u32 span_count, span_count x SpanData
//! SpanData    := u64 span_id, i64 start_unix_time, u64 start_instant,
//!                u64 end_instant, u32 record_count, record_count x RecordData
//! RecordData  := u64 datapoint_id, u8 tag, payload(tag)
//! ```
//!
//! Integers are little-endian, signed ones in two's complement. A string's
//! payload is a `u32` byte count and then its UTF-8 bytes.
//!
//! The format is stated twice, as the bytes of a value (`encode_*`) and as
//! the value of bytes (`parse_*`), and the two are proved to be inverse.

use vstd::prelude::*;
use vstd::utf8::{decode_utf8, encode_utf8, valid_utf8};
use crate::endian::{holds, le_bytes, to_signed, to_unsigned, uint_at};
use crate::schema::{RecordModel, SpanModel, ValueModel};

pub mod decoder;
pub mod encoder;
pub mod laws;

verus! {

pub const TAG_INSTANT: u8 = 0;

pub const TAG_UNIX_TIME: u8 = 1;

pub const TAG_UTF8_STRING: u8 = 2;

pub const TAG_I32: u8 = 3;

pub const TAG_I64: u8 = 4;

pub const TAG_I128: u8 = 5;

pub const TAG_U32: u8 = 6;

pub const TAG_U64: u8 = 7;

pub const TAG_U128: u8 = 8;

pub const TAG_F32: u8 = 9;

pub const TAG_F64: u8 = 10;

/// The largest count that the format can state.
pub const MAX_COUNT: usize = 0xffff_ffff;

/// Why bytes are not the encoding of a value.
#[derive(Debug, Clone, Copy, PartialEq, Eq, Structural)]
pub enum DecodeError {
    /// The bytes end before the value does.
    Truncated,
    /// A record's tag names no kind of value.
    UnknownTag,
    /// A string's payload is not UTF-8.
    InvalidUtf8,
    /// Bytes follow the end of the value.
    TrailingBytes,
}

/// The bytes of a value: its tag and its payload.
pub open spec fn encode_value(value: ValueModel) -> Seq<u8> {
    match value {
        ValueModel::Instant(x) => seq![TAG_INSTANT] + le_bytes(x as nat, 8),
        ValueModel::UnixTime(x) => seq![TAG_UNIX_TIME] + le_bytes(to_unsigned(x as int, 8), 8),
        ValueModel::Utf8String(s) => seq![TAG_UTF8_STRING] + le_bytes(encode_utf8(s).len(), 4)
            + encode_utf8(s),
        ValueModel::I32(x) => seq![TAG_I32] + le_bytes(to_unsigned(x as int, 4), 4),
        ValueModel::I64(x) => seq![TAG_I64] + le_bytes(to_unsigned(x as int, 8), 8),
        ValueModel::I128(x) => seq![TAG_I128] + le_bytes(to_unsigned(x as int, 16), 16),
        ValueModel::U32(x) => seq![TAG_U32] + le_bytes(x as nat, 4),
        ValueModel::U64(x) => seq![TAG_U64] + le_bytes(x as nat, 8),
        ValueModel::U128(x) => seq![TAG_U128] + le_bytes(x as nat, 16),
        ValueModel::F32(x) => seq![TAG_F32] + le_bytes(x as nat, 4),
        ValueModel::F64(x) => seq![TAG_F64] + le_bytes(x as nat, 8),
    }
}

/// The bytes of a record: its datapoint id, then its value.
pub open spec fn encode_record(record: RecordModel) -> Seq<u8> {
    le_bytes(record.datapoint_id as nat, 8) + encode_value(record.value)
}

/// The bytes of records, one after the other.
pub open spec fn encode_records(records: Seq<RecordModel>) -> Seq<u8>
    decreases records.len(),
{
    if records.len() == 0 {
        Seq::empty()
    } else {
        encode_record(records[0]) + encode_records(records.drop_first())
    }
}

/// The four numbers that open the bytes of a span.
pub open spec fn encode_span_times(span: SpanModel) -> Seq<u8> {
    le_bytes(span.span_id as nat, 8) + le_bytes(to_unsigned(span.start_unix_time as int, 8), 8)
        + le_bytes(span.start_instant as nat, 8) + le_bytes(span.end_instant as nat, 8)
}

/// The bytes of a span: its four numbers, the count of its records, the
/// records.
pub open spec fn encode_span(span: SpanModel) -> Seq<u8> {
    encode_span_times(span) + le_bytes(span.records.len(), 4) + encode_records(span.records)
}

/// The bytes of spans, one after the other.
pub open spec fn encode_spans(spans: Seq<SpanModel>) -> Seq<u8>
    decreases spans.len(),
{
    if spans.len() == 0 {
        Seq::empty()
    } else {
        encode_span(spans[0]) + encode_spans(spans.drop_first())
    }
}

/// The bytes of a batch: the count of its spans, then the spans.
pub open spec fn encode_batch(batch: Seq<SpanModel>) -> Seq<u8> {
    le_bytes(batch.len(), 4) + encode_spans(batch)
}

/// Whether the format can state the value: a string's byte count has to fit
/// in a `u32`.
pub open spec fn value_fits(value: ValueModel) -> bool {
    value matches ValueModel::Utf8String(s) ==> encode_utf8(s).len() <= MAX_COUNT
}

/// Whether the format can state each of the records.
pub open spec fn records_fit(records: Seq<RecordModel>) -> bool {
    forall|i: int| 0 <= i < records.len() ==> value_fits(#[trigger] records[i].value)
}

/// Whether the format can state the span: its records and their count.
pub open spec fn span_fits(span: SpanModel) -> bool {
    span.records.len() <= MAX_COUNT && records_fit(span.records)
}

/// Whether the format can state each of the spans.
pub open spec fn spans_fit(spans: Seq<SpanModel>) -> bool {
    forall|i: int| 0 <= i < spans.len() ==> span_fits(#[trigger] spans[i])
}

/// Whether the format can state the batch: its spans and their count.
pub open spec fn batch_fits(batch: Seq<SpanModel>) -> bool {
    batch.len() <= MAX_COUNT && spans_fit(batch)
}

/// The number at position `pos`, on `width` bytes, and the position after it.
pub open spec fn parse_uint(bytes: Seq<u8>, pos: int, width: nat) -> Result<
    (nat, int),
    DecodeError,
> {
    if holds(bytes, pos, width as int) {
        Ok((uint_at(bytes, pos, width), pos + width))
    } else {
        Err(DecodeError::Truncated)
    }
}

/// The number of bytes in the payload of a value that is no string.
pub open spec fn payload_width(tag: u8) -> nat {
    if tag == TAG_I32 || tag == TAG_U32 || tag == TAG_F32 {
        4
    } else if tag == TAG_I128 || tag == TAG_U128 {
        16
    } else {
        8
    }
}

/// The value with the given tag, no string, whose payload spells `payload`.
pub open spec fn value_of_payload(tag: u8, payload: nat) -> ValueModel {
    if tag == TAG_INSTANT {
        ValueModel::Instant(payload as u64)
    } else if tag == TAG_UNIX_TIME {
        ValueModel::UnixTime(to_signed(payload, 8) as i64)
    } else if tag == TAG_I32 {
        ValueModel::I32(to_signed(payload, 4) as i32)
    } else if tag == TAG_I64 {
        ValueModel::I64(to_signed(payload, 8) as i64)
    } else if tag == TAG_I128 {
        ValueModel::I128(to_signed(payload, 16) as i128)
    } else if tag == TAG_U32 {
        ValueModel::U32(payload as u32)
    } else if tag == TAG_U64 {
        ValueModel::U64(payload as u64)
    } else if tag == TAG_U128 {
        ValueModel::U128(payload as u128)
    } else if tag == TAG_F32 {
        ValueModel::F32(payload as u32)
    } else {
        ValueModel::F64(payload as u64)
    }
}

/// The string whose payload starts at position `pos`, and the position
/// after it.
pub open spec fn parse_string(bytes: Seq<u8>, pos: int) -> Result<(ValueModel, int), DecodeError> {
    if !holds(bytes, pos, 4) {
        Err(DecodeError::Truncated)
    } else {
        let count = uint_at(bytes, pos, 4) as int;
        let from = pos + 4;
        if !holds(bytes, from, count) {
            Err(DecodeError::Truncated)
        } else if !valid_utf8(bytes.subrange(from, from + count)) {
            Err(DecodeError::InvalidUtf8)
        } else {
            Ok((ValueModel::Utf8String(decode_utf8(bytes.subrange(from, from + count))), from + count))
        }
    }
}

/// The value whose tag is at position `pos`, and the position after it.
pub open spec fn parse_value(bytes: Seq<u8>, pos: int) -> Result<(ValueModel, int), DecodeError> {
    if !holds(bytes, pos, 1) {
        Err(DecodeError::Truncated)
    } else {
        let tag = bytes[pos];
        let from = pos + 1;
        if tag == TAG_UTF8_STRING {
            parse_string(bytes, from)
        } else if tag > TAG_F64 {
            Err(DecodeError::UnknownTag)
        } else if !holds(bytes, from, payload_width(tag) as int) {
            Err(DecodeError::Truncated)
        } else {
            Ok(
                (
                    value_of_payload(tag, uint_at(bytes, from, payload_width(tag))),
                    from + payload_width(tag),
                ),
            )
        }
    }
}

/// The record that starts at position `pos`, and the position after it.
pub open spec fn parse_record(bytes: Seq<u8>, pos: int) -> Result<(RecordModel, int), DecodeError> {
    match parse_uint(bytes, pos, 8) {
        Err(e) => Err(e),
        Ok((id, from)) => match parse_value(bytes, from) {
            Err(e) => Err(e),
            Ok((value, end)) => Ok((RecordModel { datapoint_id: id as u64, value }, end)),
        },
    }
}

/// Puts `first` in front of the records of a result.
pub open spec fn with_first_record(
    first: RecordModel,
    rest: Result<(Seq<RecordModel>, int), DecodeError>,
) -> Result<(Seq<RecordModel>, int), DecodeError> {
    match rest {
        Err(e) => Err(e),
        Ok((records, end)) => Ok((seq![first] + records, end)),
    }
}

/// The `count` records that start at position `pos`, and the position after
/// them.
pub open spec fn parse_records(bytes: Seq<u8>, pos: int, count: nat) -> Result<
    (Seq<RecordModel>, int),
    DecodeError,
>
    decreases count,
{
    if count == 0 {
        Ok((Seq::empty(), pos))
    } else {
        match parse_record(bytes, pos) {
            Err(e) => Err(e),
            Ok((first, from)) => with_first_record(
                first,
                parse_records(bytes, from, (count - 1) as nat),
            ),
        }
    }
}

/// The span that starts at position `pos`, and the position after it.
pub open spec fn parse_span(bytes: Seq<u8>, pos: int) -> Result<(SpanModel, int), DecodeError> {
    if !holds(bytes, pos, 36) {
        Err(DecodeError::Truncated)
    } else {
        match parse_records(bytes, pos + 36, uint_at(bytes, pos + 32, 4)) {
            Err(e) => Err(e),
            Ok((records, end)) => Ok(
                (
                    SpanModel {
                        span_id: uint_at(bytes, pos, 8) as u64,
                        start_unix_time: to_signed(uint_at(bytes, pos + 8, 8), 8) as i64,
                        start_instant: uint_at(bytes, pos + 16, 8) as u64,
                        end_instant: uint_at(bytes, pos + 24, 8) as u64,
                        records,
                    },
                    end,
                ),
            ),
        }
    }
}

/// Puts `first` in front of the spans of a result.
pub open spec fn with_first_span(
    first: SpanModel,
    rest: Result<(Seq<SpanModel>, int), DecodeError>,
) -> Result<(Seq<SpanModel>, int), DecodeError> {
    match rest {
        Err(e) => Err(e),
        Ok((spans, end)) => Ok((seq![first] + spans, end)),
    }
}

/// The `count` spans that start at position `pos`, and the position after
/// them.
pub open spec fn parse_spans(bytes: Seq<u8>, pos: int, count: nat) -> Result<
    (Seq<SpanModel>, int),
    DecodeError,
>
    decreases count,
{
    if count == 0 {
        Ok((Seq::empty(), pos))
    } else {
        match parse_span(bytes, pos) {
            Err(e) => Err(e),
            Ok((first, from)) => with_first_span(
                first,
                parse_spans(bytes, from, (count - 1) as nat),
            ),
        }
    }
}

/// What is left of a result once nothing may follow the value: the value,
/// where it ends with the bytes.
pub open spec fn whole<T>(parsed: Result<(T, int), DecodeError>, len: nat) -> Result<
    T,
    DecodeError,
> {
    match parsed {
        Err(e) => Err(e),
        Ok((value, end)) => if end == len {
            Ok(value)
        } else {
            Err(DecodeError::TrailingBytes)
        },
    }
}

/// The span that `bytes` encode.
pub open spec fn parse_whole_span(bytes: Seq<u8>) -> Result<SpanModel, DecodeError> {
    whole(parse_span(bytes, 0), bytes.len())
}

/// The batch that `bytes` encode.
pub open spec fn parse_batch(bytes: Seq<u8>) -> Result<Seq<SpanModel>, DecodeError> {
    if !holds(bytes, 0, 4) {
        Err(DecodeError::Truncated)
    } else {
        whole(parse_spans(bytes, 4, uint_at(bytes, 0, 4)), bytes.len())
    }
}

} // verus!
