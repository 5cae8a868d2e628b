//! Value and record types of a finalized span, and their mathematical models.
//!
//! Every type here has a view: a plain mathematical value that the contracts
//! of the rest of the crate speak of. Strings are viewed as sequences of
//! characters and vectors as sequences of the views of their items.

use vstd::prelude::*;
use vstd::std_specs::convert::FromSpecImpl;
use std::hash::Hasher;
use zwohash::ZwoHasher;

verus! {

/// The key of a datapoint: a 64-bit number, given directly or derived from a
/// name by hashing.
#[derive(Debug, Clone, Copy, PartialEq, Eq, Hash, Structural)]
pub struct DatapointId {
    pub value: u64,
}

/// The value of a datapoint.
#[derive(Debug, Clone, PartialEq, Eq)]
pub enum RecordValue {
    /// Monotonic instant: nanoseconds elapsed since the chronograph was built.
    Instant(u64),
    /// Wall-clock time: nanoseconds since the Unix epoch.
    UnixTime(i64),
    /// An arbitrary string.
    Utf8String(String),
    /// An arbitrary i32 value.
    I32(i32),
    /// An arbitrary i64 value.
    I64(i64),
    /// An arbitrary i128 value.
    I128(i128),
    /// An arbitrary u32 value.
    U32(u32),
    /// An arbitrary u64 value.
    U64(u64),
    /// An arbitrary u128 value.
    U128(u128),
    /// A 32-bit IEEE 754 number, held as its bit pattern.
    F32(u32),
    /// A 64-bit IEEE 754 number, held as its bit pattern.
    F64(u64),
}

/// One datapoint of a span.
#[derive(Debug, Clone, PartialEq, Eq)]
pub struct RecordData {
    pub datapoint_id: DatapointId,
    pub value: RecordValue,
}

/// A finalized span.
#[derive(Debug, Clone, PartialEq, Eq)]
pub struct SpanData {
    pub span_id: u64,
    /// Nanoseconds since the Unix epoch at which the span started.
    pub start_unix_time: i64,
    /// Nanoseconds since the chronograph was built at which the span started.
    pub start_instant: u64,
    /// Nanoseconds since the chronograph was built at which the span ended.
    pub end_instant: u64,
    /// The datapoints, in the order in which they were recorded.
    pub records: Vec<RecordData>,
}

/// Finalized spans that are delivered together.
#[derive(Debug, Clone, PartialEq, Eq)]
pub struct SpanBatch {
    pub spans: Vec<SpanData>,
}

/// What a [`RecordValue`] stands for.
pub enum ValueModel {
    Instant(u64),
    UnixTime(i64),
    Utf8String(Seq<char>),
    I32(i32),
    I64(i64),
    I128(i128),
    U32(u32),
    U64(u64),
    U128(u128),
    F32(u32),
    F64(u64),
}

/// What a [`RecordData`] stands for.
pub struct RecordModel {
    pub datapoint_id: u64,
    pub value: ValueModel,
}

/// What a [`SpanData`] stands for.
pub struct SpanModel {
    pub span_id: u64,
    pub start_unix_time: i64,
    pub start_instant: u64,
    pub end_instant: u64,
    pub records: Seq<RecordModel>,
}

impl View for RecordValue {
    type V = ValueModel;

    open spec fn view(&self) -> ValueModel {
        match *self {
            RecordValue::Instant(x) => ValueModel::Instant(x),
            RecordValue::UnixTime(x) => ValueModel::UnixTime(x),
            RecordValue::Utf8String(s) => ValueModel::Utf8String(s@),
            RecordValue::I32(x) => ValueModel::I32(x),
            RecordValue::I64(x) => ValueModel::I64(x),
            RecordValue::I128(x) => ValueModel::I128(x),
            RecordValue::U32(x) => ValueModel::U32(x),
            RecordValue::U64(x) => ValueModel::U64(x),
            RecordValue::U128(x) => ValueModel::U128(x),
            RecordValue::F32(x) => ValueModel::F32(x),
            RecordValue::F64(x) => ValueModel::F64(x),
        }
    }
}

impl View for RecordData {
    type V = RecordModel;

    open spec fn view(&self) -> RecordModel {
        RecordModel { datapoint_id: self.datapoint_id.value, value: self.value@ }
    }
}

/// The models of the items of `records`, in order.
pub open spec fn records_view(records: Seq<RecordData>) -> Seq<RecordModel> {
    Seq::new(records.len(), |i: int| records[i]@)
}

impl View for SpanData {
    type V = SpanModel;

    open spec fn view(&self) -> SpanModel {
        SpanModel {
            span_id: self.span_id,
            start_unix_time: self.start_unix_time,
            start_instant: self.start_instant,
            end_instant: self.end_instant,
            records: records_view(self.records@),
        }
    }
}

/// The models of the items of `spans`, in order.
pub open spec fn spans_view(spans: Seq<SpanData>) -> Seq<SpanModel> {
    Seq::new(spans.len(), |i: int| spans[i]@)
}

impl View for SpanBatch {
    type V = Seq<SpanModel>;

    open spec fn view(&self) -> Seq<SpanModel> {
        spans_view(self.spans@)
    }
}

impl SpanModel {
    /// A span does not end before it starts.
    pub open spec fn well_formed(self) -> bool {
        self.start_instant <= self.end_instant
    }
}

/// The 64-bit digest that the ZwoHash algorithm gives to a byte string.
pub uninterp spec fn zwo_hash(bytes: Seq<u8>) -> u64;

/// Hashes `bytes` with `zwohash::ZwoHasher`: a hasher made by `default`, one
/// `write` of the whole slice, then `finish`.
///
/// The hasher is unseeded. Its state starts at zero, and `write` and `finish`
/// read nothing but the bytes, so the digest is a function of the bytes alone
/// for a given target. That is all the contract claims: the digest is the one
/// named [`zwo_hash`].
#[verifier::external_body]
fn hash_bytes(bytes: &[u8]) -> (digest: u64)
    ensures
        digest == zwo_hash(bytes@),
{
    let mut hasher = ZwoHasher::default();
    hasher.write(bytes);
    hasher.finish()
}

impl DatapointId {
    /// The id of the datapoint called `name`: the ZwoHash digest of the UTF-8
    /// bytes of the name.
    pub open spec fn of_name(name: Seq<char>) -> DatapointId {
        DatapointId { value: zwo_hash(vstd::utf8::encode_utf8(name)) }
    }
}

impl From<u64> for DatapointId {
    fn from(value: u64) -> (id: DatapointId) {
        DatapointId { value }
    }
}

impl FromSpecImpl<u64> for DatapointId {
    open spec fn obeys_from_spec() -> bool {
        true
    }

    open spec fn from_spec(value: u64) -> DatapointId {
        DatapointId { value }
    }
}

impl From<&str> for DatapointId {
    fn from(value: &str) -> (id: DatapointId) {
        DatapointId { value: hash_bytes(value.as_bytes()) }
    }
}

impl FromSpecImpl<&str> for DatapointId {
    open spec fn obeys_from_spec() -> bool {
        true
    }

    open spec fn from_spec(value: &str) -> DatapointId {
        DatapointId::of_name(value@)
    }
}

impl From<usize> for RecordValue {
    fn from(value: usize) -> (r: RecordValue) {
        RecordValue::U64(value as u64)
    }
}

impl FromSpecImpl<usize> for RecordValue {
    open spec fn obeys_from_spec() -> bool {
        true
    }

    open spec fn from_spec(value: usize) -> RecordValue {
        RecordValue::U64(value as u64)
    }
}

impl From<String> for RecordValue {
    fn from(value: String) -> (r: RecordValue) {
        RecordValue::Utf8String(value)
    }
}

impl FromSpecImpl<String> for RecordValue {
    open spec fn obeys_from_spec() -> bool {
        true
    }

    open spec fn from_spec(value: String) -> RecordValue {
        RecordValue::Utf8String(value)
    }
}

impl From<i32> for RecordValue {
    fn from(value: i32) -> (r: RecordValue) {
        RecordValue::I32(value)
    }
}

impl FromSpecImpl<i32> for RecordValue {
    open spec fn obeys_from_spec() -> bool {
        true
    }

    open spec fn from_spec(value: i32) -> RecordValue {
        RecordValue::I32(value)
    }
}

impl From<i64> for RecordValue {
    fn from(value: i64) -> (r: RecordValue) {
        RecordValue::I64(value)
    }
}

impl FromSpecImpl<i64> for RecordValue {
    open spec fn obeys_from_spec() -> bool {
        true
    }

    open spec fn from_spec(value: i64) -> RecordValue {
        RecordValue::I64(value)
    }
}

impl From<i128> for RecordValue {
    fn from(value: i128) -> (r: RecordValue) {
        RecordValue::I128(value)
    }
}

impl FromSpecImpl<i128> for RecordValue {
    open spec fn obeys_from_spec() -> bool {
        true
    }

    open spec fn from_spec(value: i128) -> RecordValue {
        RecordValue::I128(value)
    }
}

impl From<u32> for RecordValue {
    fn from(value: u32) -> (r: RecordValue) {
        RecordValue::U32(value)
    }
}

impl FromSpecImpl<u32> for RecordValue {
    open spec fn obeys_from_spec() -> bool {
        true
    }

    open spec fn from_spec(value: u32) -> RecordValue {
        RecordValue::U32(value)
    }
}

impl From<u64> for RecordValue {
    fn from(value: u64) -> (r: RecordValue) {
        RecordValue::U64(value)
    }
}

impl FromSpecImpl<u64> for RecordValue {
    open spec fn obeys_from_spec() -> bool {
        true
    }

    open spec fn from_spec(value: u64) -> RecordValue {
        RecordValue::U64(value)
    }
}

impl From<u128> for RecordValue {
    fn from(value: u128) -> (r: RecordValue) {
        RecordValue::U128(value)
    }
}

impl FromSpecImpl<u128> for RecordValue {
    open spec fn obeys_from_spec() -> bool {
        true
    }

    open spec fn from_spec(value: u128) -> RecordValue {
        RecordValue::U128(value)
    }
}

} // verus!
