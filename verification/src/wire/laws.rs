//! What holds between writing and reading.

use vstd::prelude::*;
use vstd::utf8::{decode_utf8_encode_utf8, encode_utf8, encode_utf8_decode_utf8};
use vstd::utf8::encode_utf8_valid_utf8;
use crate::endian::{holds, le_bytes, radix, to_unsigned, uint_at};
use crate::endian::{lemma_le_bytes_len, lemma_le_bytes_of_value, lemma_le_value_bound};
use crate::endian::{lemma_le_value_of_bytes, lemma_radix_values};
use crate::schema::{RecordModel, SpanModel, ValueModel};
use crate::wire::{batch_fits, records_fit, span_fits, spans_fit, value_fits};
use crate::wire::{encode_batch, encode_record, encode_records, encode_span, encode_span_times};
use crate::wire::{encode_spans, encode_value};
use crate::wire::{parse_batch, parse_record, parse_records, parse_span, parse_spans};
use crate::wire::{parse_string, parse_uint, parse_value, parse_whole_span};
use crate::wire::{payload_width, value_of_payload, DecodeError};
use crate::wire::{TAG_F32, TAG_F64, TAG_I128, TAG_I32, TAG_I64, TAG_INSTANT};
use crate::wire::{TAG_U128, TAG_U32, TAG_U64, TAG_UNIX_TIME, TAG_UTF8_STRING};

verus! {

/// Whether `part` lies in `bytes` from position `pos` on.
pub open spec fn placed(bytes: Seq<u8>, pos: int, part: Seq<u8>) -> bool {
    0 <= pos && pos + part.len() <= bytes.len() && bytes.subrange(pos, pos + part.len()) == part
}

/// Where two parts lie one after the other, each lies in its place.
proof fn lemma_placed_parts(bytes: Seq<u8>, pos: int, first: Seq<u8>, second: Seq<u8>)
    requires
        placed(bytes, pos, first + second),
    ensures
        placed(bytes, pos, first),
        placed(bytes, pos + first.len(), second),
{
    let both = first + second;
    let found = bytes.subrange(pos, pos + both.len());
    assert forall|i: int| 0 <= i < first.len() implies bytes[pos + i] == first[i] by {
        assert(found[i] == both[i]);
    }
    assert forall|i: int| 0 <= i < second.len() implies bytes[pos + first.len() + i]
        == second[i] by {
        assert(found[first.len() + i] == both[first.len() + i]);
    }
    assert(bytes.subrange(pos, pos + first.len()) =~= first);
    assert(bytes.subrange(pos + first.len(), pos + first.len() + second.len()) =~= second);
}

/// A number that was laid out at a position is the number read there.
proof fn lemma_uint_placed(bytes: Seq<u8>, pos: int, value: nat, width: nat)
    requires
        placed(bytes, pos, le_bytes(value, width)),
        value < radix(width),
    ensures
        holds(bytes, pos, width as int),
        uint_at(bytes, pos, width) == value,
        parse_uint(bytes, pos, width) == Ok::<(nat, int), DecodeError>((value, pos + width)),
{
    lemma_le_bytes_len(value, width);
    lemma_le_value_of_bytes(value, width);
}

/// A value that is no string and was laid out at a position is the value
/// read there.
proof fn lemma_payload_placed(bytes: Seq<u8>, pos: int, tag: u8, payload: nat)
    requires
        tag <= TAG_F64,
        tag != TAG_UTF8_STRING,
        payload < radix(payload_width(tag)),
        placed(bytes, pos, seq![tag] + le_bytes(payload, payload_width(tag))),
    ensures
        (seq![tag] + le_bytes(payload, payload_width(tag))).len() == 1 + payload_width(tag),
        parse_value(bytes, pos) == Ok::<(ValueModel, int), DecodeError>(
            (value_of_payload(tag, payload), pos + 1 + payload_width(tag)),
        ),
{
    let width = payload_width(tag);
    lemma_le_bytes_len(payload, width);
    lemma_placed_parts(bytes, pos, seq![tag], le_bytes(payload, width));
    assert(bytes.subrange(pos, pos + 1)[0] == tag);
    lemma_uint_placed(bytes, pos + 1, payload, width);
}

/// A value that was laid out at a position is the value read there.
proof fn lemma_value_placed(bytes: Seq<u8>, pos: int, value: ValueModel)
    requires
        value_fits(value),
        placed(bytes, pos, encode_value(value)),
    ensures
        parse_value(bytes, pos) == Ok::<(ValueModel, int), DecodeError>(
            (value, pos + encode_value(value).len()),
        ),
{
    lemma_radix_values();
    match value {
        ValueModel::Instant(x) => {
            lemma_payload_placed(bytes, pos, TAG_INSTANT, x as nat);
        },
        ValueModel::UnixTime(x) => {
            lemma_payload_placed(bytes, pos, TAG_UNIX_TIME, to_unsigned(x as int, 8));
        },
        ValueModel::Utf8String(s) => {
            let text = encode_utf8(s);
            let count = le_bytes(text.len(), 4);
            lemma_le_bytes_len(text.len(), 4);
            lemma_placed_parts(bytes, pos, seq![TAG_UTF8_STRING] + count, text);
            lemma_placed_parts(bytes, pos, seq![TAG_UTF8_STRING], count);
            assert(bytes.subrange(pos, pos + 1)[0] == TAG_UTF8_STRING);
            lemma_uint_placed(bytes, pos + 1, text.len(), 4);
            encode_utf8_valid_utf8(s);
            encode_utf8_decode_utf8(s);
            assert(parse_string(bytes, pos + 1) == Ok::<(ValueModel, int), DecodeError>(
                (value, pos + 5 + text.len()),
            ));
        },
        ValueModel::I32(x) => {
            lemma_payload_placed(bytes, pos, TAG_I32, to_unsigned(x as int, 4));
        },
        ValueModel::I64(x) => {
            lemma_payload_placed(bytes, pos, TAG_I64, to_unsigned(x as int, 8));
        },
        ValueModel::I128(x) => {
            lemma_payload_placed(bytes, pos, TAG_I128, to_unsigned(x as int, 16));
        },
        ValueModel::U32(x) => {
            lemma_payload_placed(bytes, pos, TAG_U32, x as nat);
        },
        ValueModel::U64(x) => {
            lemma_payload_placed(bytes, pos, TAG_U64, x as nat);
        },
        ValueModel::U128(x) => {
            lemma_payload_placed(bytes, pos, TAG_U128, x as nat);
        },
        ValueModel::F32(x) => {
            lemma_payload_placed(bytes, pos, TAG_F32, x as nat);
        },
        ValueModel::F64(x) => {
            lemma_payload_placed(bytes, pos, TAG_F64, x as nat);
        },
    }
}

/// A record that was laid out at a position is the record read there.
proof fn lemma_record_placed(bytes: Seq<u8>, pos: int, record: RecordModel)
    requires
        value_fits(record.value),
        placed(bytes, pos, encode_record(record)),
    ensures
        parse_record(bytes, pos) == Ok::<(RecordModel, int), DecodeError>(
            (record, pos + encode_record(record).len()),
        ),
{
    lemma_radix_values();
    let id = le_bytes(record.datapoint_id as nat, 8);
    lemma_le_bytes_len(record.datapoint_id as nat, 8);
    lemma_placed_parts(bytes, pos, id, encode_value(record.value));
    lemma_uint_placed(bytes, pos, record.datapoint_id as nat, 8);
    lemma_value_placed(bytes, pos + 8, record.value);
}

/// Records that were laid out at a position are the records read there.
proof fn lemma_records_placed(bytes: Seq<u8>, pos: int, records: Seq<RecordModel>)
    requires
        records_fit(records),
        placed(bytes, pos, encode_records(records)),
    ensures
        parse_records(bytes, pos, records.len()) == Ok::<(Seq<RecordModel>, int), DecodeError>(
            (records, pos + encode_records(records).len()),
        ),
    decreases records.len(),
{
    if records.len() > 0 {
        let first = records[0];
        let rest = records.drop_first();
        assert(value_fits(records[0].value));
        assert forall|i: int| 0 <= i < rest.len() implies value_fits(#[trigger] rest[i].value) by {
            assert(value_fits(records[i + 1].value));
        }
        lemma_placed_parts(bytes, pos, encode_record(first), encode_records(rest));
        lemma_record_placed(bytes, pos, first);
        lemma_records_placed(bytes, pos + encode_record(first).len(), rest);
        assert(seq![first] + rest =~= records);
    } else {
        assert(records =~= Seq::<RecordModel>::empty());
    }
}

/// A span that was laid out at a position is the span read there.
proof fn lemma_span_placed(bytes: Seq<u8>, pos: int, span: SpanModel)
    requires
        span_fits(span),
        placed(bytes, pos, encode_span(span)),
    ensures
        parse_span(bytes, pos) == Ok::<(SpanModel, int), DecodeError>((span, pos + encode_span(span).len())),
{
    lemma_radix_values();
    let id = le_bytes(span.span_id as nat, 8);
    let unix = le_bytes(to_unsigned(span.start_unix_time as int, 8), 8);
    let start = le_bytes(span.start_instant as nat, 8);
    let end = le_bytes(span.end_instant as nat, 8);
    let count = le_bytes(span.records.len(), 4);
    let records = encode_records(span.records);
    lemma_le_bytes_len(span.span_id as nat, 8);
    lemma_le_bytes_len(to_unsigned(span.start_unix_time as int, 8), 8);
    lemma_le_bytes_len(span.start_instant as nat, 8);
    lemma_le_bytes_len(span.end_instant as nat, 8);
    lemma_le_bytes_len(span.records.len(), 4);
    lemma_placed_parts(bytes, pos, encode_span_times(span) + count, records);
    lemma_placed_parts(bytes, pos, encode_span_times(span), count);
    lemma_placed_parts(bytes, pos, id + unix + start, end);
    lemma_placed_parts(bytes, pos, id + unix, start);
    lemma_placed_parts(bytes, pos, id, unix);
    lemma_uint_placed(bytes, pos, span.span_id as nat, 8);
    lemma_uint_placed(bytes, pos + 8, to_unsigned(span.start_unix_time as int, 8), 8);
    lemma_uint_placed(bytes, pos + 16, span.start_instant as nat, 8);
    lemma_uint_placed(bytes, pos + 24, span.end_instant as nat, 8);
    lemma_uint_placed(bytes, pos + 32, span.records.len(), 4);
    lemma_records_placed(bytes, pos + 36, span.records);
}

/// Spans that were laid out at a position are the spans read there.
proof fn lemma_spans_placed(bytes: Seq<u8>, pos: int, spans: Seq<SpanModel>)
    requires
        spans_fit(spans),
        placed(bytes, pos, encode_spans(spans)),
    ensures
        parse_spans(bytes, pos, spans.len()) == Ok::<(Seq<SpanModel>, int), DecodeError>(
            (spans, pos + encode_spans(spans).len()),
        ),
    decreases spans.len(),
{
    if spans.len() > 0 {
        let first = spans[0];
        let rest = spans.drop_first();
        assert(span_fits(spans[0]));
        assert forall|i: int| 0 <= i < rest.len() implies span_fits(#[trigger] rest[i]) by {
            assert(span_fits(spans[i + 1]));
        }
        lemma_placed_parts(bytes, pos, encode_span(first), encode_spans(rest));
        lemma_span_placed(bytes, pos, first);
        lemma_spans_placed(bytes, pos + encode_span(first).len(), rest);
        assert(seq![first] + rest =~= spans);
    } else {
        assert(spans =~= Seq::<SpanModel>::empty());
    }
}

/// Decoding the bytes of a span gives the span back: the same id, the same
/// times, and the same records in the same order.
pub proof fn lemma_span_round_trip(span: SpanModel)
    requires
        span_fits(span),
    ensures
        parse_whole_span(encode_span(span)) == Ok::<SpanModel, DecodeError>(span),
{
    let bytes = encode_span(span);
    assert(bytes.subrange(0, bytes.len() as int) =~= bytes);
    lemma_span_placed(bytes, 0, span);
}

/// Decoding the bytes of a batch gives the batch back: as many spans, each
/// with the same id, the same times, and the same records in the same order.
pub proof fn lemma_batch_round_trip(batch: Seq<SpanModel>)
    requires
        batch_fits(batch),
    ensures
        parse_batch(encode_batch(batch)) == Ok::<Seq<SpanModel>, DecodeError>(batch),
{
    lemma_radix_values();
    let bytes = encode_batch(batch);
    assert(bytes.subrange(0, bytes.len() as int) =~= bytes);
    lemma_le_bytes_len(batch.len(), 4);
    lemma_placed_parts(bytes, 0, le_bytes(batch.len(), 4), encode_spans(batch));
    lemma_uint_placed(bytes, 0, batch.len(), 4);
    lemma_spans_placed(bytes, 4, batch);
}

/// The bytes from which a number was read are the number laid out.
proof fn lemma_uint_read(bytes: Seq<u8>, pos: int, width: nat)
    requires
        holds(bytes, pos, width as int),
    ensures
        uint_at(bytes, pos, width) < radix(width),
        le_bytes(uint_at(bytes, pos, width), width) == bytes.subrange(pos, pos + width),
{
    let part = bytes.subrange(pos, pos + width);
    lemma_le_value_bound(part);
    lemma_le_bytes_of_value(part);
}

/// The bytes from which a value was read are the value laid out.
proof fn lemma_value_read(bytes: Seq<u8>, pos: int)
    requires
        parse_value(bytes, pos) is Ok,
    ensures
        value_fits(parse_value(bytes, pos)->Ok_0.0),
        pos <= parse_value(bytes, pos)->Ok_0.1 <= bytes.len(),
        bytes.subrange(pos, parse_value(bytes, pos)->Ok_0.1) == encode_value(
            parse_value(bytes, pos)->Ok_0.0,
        ),
{
    lemma_radix_values();
    let tag = bytes[pos];
    let (value, end) = parse_value(bytes, pos)->Ok_0;
    if tag == TAG_UTF8_STRING {
        lemma_uint_read(bytes, pos + 1, 4);
        let count = uint_at(bytes, pos + 1, 4);
        let text = bytes.subrange(pos + 5, pos + 5 + count);
        decode_utf8_encode_utf8(text);
        assert(bytes.subrange(pos, end) =~= seq![TAG_UTF8_STRING] + bytes.subrange(
            pos + 1,
            pos + 5,
        ) + text);
    } else {
        let width = payload_width(tag);
        lemma_uint_read(bytes, pos + 1, width);
        let payload = uint_at(bytes, pos + 1, width);
        assert(bytes.subrange(pos, end) =~= seq![tag] + bytes.subrange(pos + 1, pos + 1 + width));
        assert(encode_value(value) == seq![tag] + le_bytes(payload, width));
    }
}

/// The bytes from which a record was read are the record laid out.
proof fn lemma_record_read(bytes: Seq<u8>, pos: int)
    requires
        parse_record(bytes, pos) is Ok,
    ensures
        value_fits(parse_record(bytes, pos)->Ok_0.0.value),
        pos <= parse_record(bytes, pos)->Ok_0.1 <= bytes.len(),
        bytes.subrange(pos, parse_record(bytes, pos)->Ok_0.1) == encode_record(
            parse_record(bytes, pos)->Ok_0.0,
        ),
{
    lemma_radix_values();
    let end = parse_record(bytes, pos)->Ok_0.1;
    lemma_uint_read(bytes, pos, 8);
    lemma_value_read(bytes, pos + 8);
    assert(bytes.subrange(pos, end) =~= bytes.subrange(pos, pos + 8) + bytes.subrange(
        pos + 8,
        end,
    ));
}

/// The bytes from which records were read are the records laid out, and as
/// many records were read as were asked for.
proof fn lemma_records_read(bytes: Seq<u8>, pos: int, count: nat)
    requires
        0 <= pos <= bytes.len(),
        parse_records(bytes, pos, count) is Ok,
    ensures
        parse_records(bytes, pos, count)->Ok_0.0.len() == count,
        records_fit(parse_records(bytes, pos, count)->Ok_0.0),
        pos <= parse_records(bytes, pos, count)->Ok_0.1 <= bytes.len(),
        bytes.subrange(pos, parse_records(bytes, pos, count)->Ok_0.1) == encode_records(
            parse_records(bytes, pos, count)->Ok_0.0,
        ),
    decreases count,
{
    let (records, end) = parse_records(bytes, pos, count)->Ok_0;
    if count == 0 {
        assert(bytes.subrange(pos, pos) =~= Seq::<u8>::empty());
    } else {
        let (first, from) = parse_record(bytes, pos)->Ok_0;
        let (rest, last) = parse_records(bytes, from, (count - 1) as nat)->Ok_0;
        lemma_record_read(bytes, pos);
        lemma_records_read(bytes, from, (count - 1) as nat);
        assert(records == seq![first] + rest);
        assert(records.drop_first() =~= rest);
        assert forall|i: int| 0 <= i < records.len() implies value_fits(
            #[trigger] records[i].value,
        ) by {
            if i > 0 {
                assert(value_fits(rest[i - 1].value));
            }
        }
        assert(bytes.subrange(pos, end) =~= bytes.subrange(pos, from) + bytes.subrange(from, end));
    }
}

/// The bytes from which a span was read are the span laid out.
proof fn lemma_span_read(bytes: Seq<u8>, pos: int)
    requires
        parse_span(bytes, pos) is Ok,
    ensures
        span_fits(parse_span(bytes, pos)->Ok_0.0),
        pos <= parse_span(bytes, pos)->Ok_0.1 <= bytes.len(),
        bytes.subrange(pos, parse_span(bytes, pos)->Ok_0.1) == encode_span(
            parse_span(bytes, pos)->Ok_0.0,
        ),
{
    lemma_radix_values();
    let (span, end) = parse_span(bytes, pos)->Ok_0;
    lemma_uint_read(bytes, pos, 8);
    lemma_uint_read(bytes, pos + 8, 8);
    lemma_uint_read(bytes, pos + 16, 8);
    lemma_uint_read(bytes, pos + 24, 8);
    lemma_uint_read(bytes, pos + 32, 4);
    lemma_records_read(bytes, pos + 36, uint_at(bytes, pos + 32, 4));
    assert(encode_span_times(span) == bytes.subrange(pos, pos + 8) + bytes.subrange(
        pos + 8,
        pos + 16,
    ) + bytes.subrange(pos + 16, pos + 24) + bytes.subrange(pos + 24, pos + 32));
    assert(bytes.subrange(pos, end) =~= bytes.subrange(pos, pos + 8) + bytes.subrange(
        pos + 8,
        pos + 16,
    ) + bytes.subrange(pos + 16, pos + 24) + bytes.subrange(pos + 24, pos + 32) + bytes.subrange(
        pos + 32,
        pos + 36,
    ) + bytes.subrange(pos + 36, end));
}

/// The bytes from which spans were read are the spans laid out, and as many
/// spans were read as were asked for.
proof fn lemma_spans_read(bytes: Seq<u8>, pos: int, count: nat)
    requires
        0 <= pos <= bytes.len(),
        parse_spans(bytes, pos, count) is Ok,
    ensures
        parse_spans(bytes, pos, count)->Ok_0.0.len() == count,
        spans_fit(parse_spans(bytes, pos, count)->Ok_0.0),
        pos <= parse_spans(bytes, pos, count)->Ok_0.1 <= bytes.len(),
        bytes.subrange(pos, parse_spans(bytes, pos, count)->Ok_0.1) == encode_spans(
            parse_spans(bytes, pos, count)->Ok_0.0,
        ),
    decreases count,
{
    let (spans, end) = parse_spans(bytes, pos, count)->Ok_0;
    if count == 0 {
        assert(bytes.subrange(pos, pos) =~= Seq::<u8>::empty());
    } else {
        let (first, from) = parse_span(bytes, pos)->Ok_0;
        let (rest, last) = parse_spans(bytes, from, (count - 1) as nat)->Ok_0;
        lemma_span_read(bytes, pos);
        lemma_spans_read(bytes, from, (count - 1) as nat);
        assert(spans == seq![first] + rest);
        assert(spans.drop_first() =~= rest);
        assert forall|i: int| 0 <= i < spans.len() implies span_fits(#[trigger] spans[i]) by {
            if i > 0 {
                assert(span_fits(rest[i - 1]));
            }
        }
        assert(bytes.subrange(pos, end) =~= bytes.subrange(pos, from) + bytes.subrange(from, end));
    }
}

/// Bytes that decode to a span are the bytes of that span, and of no other:
/// no two byte strings decode to the same span.
pub proof fn lemma_span_is_canonical(bytes: Seq<u8>)
    requires
        parse_whole_span(bytes) is Ok,
    ensures
        span_fits(parse_whole_span(bytes)->Ok_0),
        encode_span(parse_whole_span(bytes)->Ok_0) == bytes,
{
    lemma_span_read(bytes, 0);
    assert(bytes.subrange(0, bytes.len() as int) =~= bytes);
}

/// Bytes that decode to a batch are the bytes of that batch, and of no
/// other: no two byte strings decode to the same batch.
pub proof fn lemma_batch_is_canonical(bytes: Seq<u8>)
    requires
        parse_batch(bytes) is Ok,
    ensures
        batch_fits(parse_batch(bytes)->Ok_0),
        encode_batch(parse_batch(bytes)->Ok_0) == bytes,
{
    lemma_radix_values();
    lemma_uint_read(bytes, 0, 4);
    lemma_spans_read(bytes, 4, uint_at(bytes, 0, 4));
    assert(bytes =~= bytes.subrange(0, 4) + bytes.subrange(4, bytes.len() as int));
}

} // verus!
