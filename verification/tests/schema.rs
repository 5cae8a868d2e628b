use std::hash::Hasher;
use std::time::{Duration, SystemTime};

use chronograph::schema::{DatapointId, RecordValue};
use zwohash::ZwoHasher;

fn digest(name: &str) -> u64 {
    let mut hasher = ZwoHasher::default();
    hasher.write(name.as_bytes());
    hasher.finish()
}

#[test]
fn number_is_used_as_the_id() {
    assert_eq!(DatapointId::from(42u64), DatapointId { value: 42 });
    assert_eq!(DatapointId::from(0u64).value, 0);
    assert_eq!(DatapointId::from(u64::MAX).value, u64::MAX);
}

#[test]
fn name_is_hashed_to_the_id() {
    for name in ["x", "", "op_start", "op_end", "a rather long name of a datapoint", "ünïcödé"] {
        assert_eq!(DatapointId::from(name).value, digest(name));
    }
}

#[test]
fn equal_names_have_equal_ids() {
    let name = String::from("my_op_start");
    assert_eq!(DatapointId::from("my_op_start"), DatapointId::from(name.as_str()));
    assert_ne!(DatapointId::from("my_op_start"), DatapointId::from("my_op_end"));
    assert_ne!(DatapointId::from("x").value, u64::from(b'x'));
}

#[test]
fn values_keep_their_kind() {
    assert_eq!(RecordValue::from(5usize), RecordValue::U64(5));
    assert_eq!(RecordValue::from(String::from("text")), RecordValue::Utf8String("text".to_string()));
    assert_eq!(RecordValue::from(-5i32), RecordValue::I32(-5));
    assert_eq!(RecordValue::from(-5i64), RecordValue::I64(-5));
    assert_eq!(RecordValue::from(-5i128), RecordValue::I128(-5));
    assert_eq!(RecordValue::from(5u32), RecordValue::U32(5));
    assert_eq!(RecordValue::from(5u64), RecordValue::U64(5));
    assert_eq!(RecordValue::from(5u128), RecordValue::U128(5));
}

#[test]
fn wall_clock_time_counts_from_the_epoch() {
    let time = SystemTime::UNIX_EPOCH + Duration::new(3, 7);
    assert_eq!(RecordValue::from(time), RecordValue::UnixTime(3_000_000_007));
    assert_eq!(RecordValue::from(SystemTime::UNIX_EPOCH), RecordValue::UnixTime(0));
}

#[test]
fn time_before_the_epoch_counts_as_the_epoch() {
    let time = SystemTime::UNIX_EPOCH - Duration::from_secs(10);
    assert_eq!(RecordValue::from(time), RecordValue::UnixTime(0));
}
