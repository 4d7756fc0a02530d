//! Everything this library takes on trust from the crates it is built on.
//!
//! The items in this module are not proved. Each one either makes an outside
//! type known to the verifier, or wraps a single outside call and states the
//! part of its documented behaviour that the rest of the library relies on.

use vstd::prelude::*;

verus! {

/// `sqlx::Error`, carried through unopened.
#[verifier::external_type_specification]
#[verifier::external_body]
pub struct ExSqlxError(sqlx::Error);

/// `redis::RedisError`, carried through unopened.
#[verifier::external_type_specification]
#[verifier::external_body]
pub struct ExRedisError(redis::RedisError);

/// `lapin::Error`, carried through unopened.
#[verifier::external_type_specification]
#[verifier::external_body]
pub struct ExLapinError(lapin::Error);

/// `serde_json::Error`, carried through unopened.
#[verifier::external_type_specification]
#[verifier::external_body]
pub struct ExSerdeJsonError(serde_json::Error);

/// `prost::DecodeError`, carried through unopened.
#[verifier::external_type_specification]
#[verifier::external_body]
pub struct ExProstDecodeError(prost::DecodeError);

/// `std::io::Error`, carried through unopened.
#[verifier::external_type_specification]
#[verifier::external_body]
pub struct ExIoError(std::io::Error);

/// `num_cpus::get`: the number of logical processors that this process may
/// use. The number depends on the machine, so nothing is claimed of it.
#[verifier::external_body]
pub(crate) fn logical_cpu_count() -> usize {
    num_cpus::get()
}

/// `uuid::Uuid::new_v4`, read as the 128 bits that `Uuid::as_u128` gives.
/// The bits are random but for six: `new_v4` sets the version field to 4 and
/// the variant field to binary 10, whatever its random source hands it.
#[verifier::external_body]
pub(crate) fn random_uuid_bits() -> (bits: u128)
    ensures
        bits & 0x0000_0000_0000_f000_c000_0000_0000_0000 == 0x0000_0000_0000_4000_8000_0000_0000_0000,
{
    uuid::Uuid::new_v4().as_u128()
}

/// `chrono::Utc::now`, read as the milliseconds since the Unix epoch that
/// `DateTime::timestamp_millis` gives. What the clock shows is not for this
/// library to say, so nothing is claimed of it.
#[verifier::external_body]
pub(crate) fn utc_now_millis() -> i64 {
    chrono::Utc::now().timestamp_millis()
}

/// `std::time::SystemTime`, carried through unopened.
#[verifier::external_type_specification]
#[verifier::external_body]
pub struct ExSystemTime(std::time::SystemTime);

/// `std::time::SystemTimeError`, carried through unopened.
#[verifier::external_type_specification]
#[verifier::external_body]
pub struct ExSystemTimeError(std::time::SystemTimeError);

/// `std::time::SystemTime::now`: what the system clock shows.
#[verifier::external_body]
pub(crate) fn system_time_now() -> std::time::SystemTime {
    std::time::SystemTime::now()
}

/// `std::time::SystemTime::duration_since`, from the Unix epoch: the time
/// from the epoch to `time`, or an error where `time` lies before it.
#[verifier::external_body]
pub(crate) fn since_unix_epoch(time: &std::time::SystemTime) -> Result<
    std::time::Duration,
    std::time::SystemTimeError,
> {
    time.duration_since(std::time::UNIX_EPOCH)
}

/// `std::time::Duration::as_millis`: the whole milliseconds of a span.
#[verifier::external_body]
pub(crate) fn whole_millis(span: &std::time::Duration) -> u128 {
    span.as_millis()
}

} // verus!
