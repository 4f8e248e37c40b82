//! The wall clock, in milliseconds since the Unix epoch.
use vstd::prelude::*;

use std::time::{Duration, SystemTime};

verus! {

/// The system clock's reading.
#[verifier::external_type_specification]
#[verifier::external_body]
pub struct ExSystemTime(SystemTime);

/// Calls `SystemTime::now`. Nothing is stated of the reading: it is the time.
#[verifier::external_body]
fn system_now() -> SystemTime {
    SystemTime::now()
}

/// Calls `SystemTime::duration_since` with `UNIX_EPOCH` and keeps the
/// duration when there is one. Nothing is stated of it: it depends on the
/// reading of the clock.
#[verifier::external_body]
fn since_unix_epoch(t: &SystemTime) -> Option<Duration> {
    t.duration_since(std::time::UNIX_EPOCH).ok()
}

/// Calls `Duration::as_millis`. Nothing is stated of the result, since the
/// duration is opaque here.
#[verifier::external_body]
fn duration_millis(d: &Duration) -> u128 {
    d.as_millis()
}

/// Milliseconds since the epoch as the clock reports them, truncated to
/// their low 64 bits; 0 when the clock reads before the epoch (`None`).
pub fn epoch_millis(ms: Option<u128>) -> (r: u64)
    ensures
        r == match ms {
            Some(m) => m as u64,
            None => 0u64,
        },
        ms matches Some(m) ==> (m <= u64::MAX ==> r == m),
{
    match ms {
        Some(m) => {
            #[verifier::truncate]
            (m as u64)
        },
        None => 0,
    }
}

/// The current time in milliseconds since the Unix epoch, truncated to 64
/// bits; 0 when the clock reads before the epoch. The reading is handed to
/// `epoch_millis`, whose contract states that conversion.
pub fn now_ms() -> u64 {
    let now = system_now();
    let ms = match since_unix_epoch(&now) {
        Some(d) => Some(duration_millis(&d)),
        None => None,
    };
    epoch_millis(ms)
}

} // verus!
