//! The time component: the system clock read as milliseconds since the Unix
//! epoch. Nothing is promised about the value read; the encoder is verified
//! for every reading.

use vstd::prelude::*;

verus! {

#[verifier::external_type_specification]
#[verifier::external_body]
pub struct ExSystemTime(std::time::SystemTime);

#[verifier::external_type_specification]
#[verifier::external_body]
pub struct ExSystemTimeError(std::time::SystemTimeError);

/// Relies on std::time::SystemTime::now, which reads the system clock.
#[verifier::external_body]
fn system_now() -> std::time::SystemTime {
    std::time::SystemTime::now()
}

/// Relies on std::time::SystemTime::duration_since, which returns the span
/// from the given earlier time (here the Unix epoch) to this one, or an
/// error when this time precedes it.
#[verifier::external_body]
fn since_unix_epoch(t: std::time::SystemTime) -> Result<
    std::time::Duration,
    std::time::SystemTimeError,
> {
    t.duration_since(std::time::UNIX_EPOCH)
}

/// Relies on std::time::Duration::as_millis, which returns the whole
/// milliseconds the duration contains.
#[verifier::external_body]
fn duration_millis(d: &std::time::Duration) -> u128 {
    d.as_millis()
}

/// The current wall-clock time in milliseconds since the Unix epoch, reduced
/// modulo 2^64; a clock standing before the epoch reads as zero.
pub(crate) fn current_millis() -> u64 {
    match since_unix_epoch(system_now()) {
        Ok(d) => {
            let m: u128 = duration_millis(&d);
            (m % 18446744073709551616u128) as u64
        },
        Err(_) => 0,
    }
}

} // verus!
