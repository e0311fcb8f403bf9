//! The wall clock, for the timestamps of events.

use std::time::{Duration, SystemTime, UNIX_EPOCH};
use vstd::prelude::*;

verus! {

#[verifier::external_type_specification]
#[verifier::external_body]
pub struct ExSystemTime(std::time::SystemTime);

/// `SystemTime::now`: the current wall-clock time. Nothing is claimed of
/// it: it depends on the clock.
#[verifier::external_body]
fn system_time_now() -> (r: SystemTime) {
    SystemTime::now()
}

/// `SystemTime::duration_since(UNIX_EPOCH)`: the time elapsed since the
/// Unix epoch, `None` when the clock reads earlier than the epoch. Nothing
/// is claimed of it: it depends on the clock.
#[verifier::external_body]
fn since_unix_epoch(t: &SystemTime) -> (r: Option<Duration>) {
    t.duration_since(UNIX_EPOCH).ok()
}

/// `Duration::as_millis`: the whole milliseconds of `d`. Nothing is claimed
/// of it: a duration is opaque here.
#[verifier::external_body]
fn whole_millis(d: &Duration) -> (r: u128) {
    d.as_millis()
}

/// The low 64 bits of the milliseconds elapsed since the Unix epoch, or 0
/// when the clock read earlier than the epoch (`None`).
pub fn epoch_millis(elapsed_ms: Option<u128>) -> (r: u64)
    ensures
        r == (match elapsed_ms {
            Some(ms) => (ms % 0x1_0000_0000_0000_0000) as u64,
            None => 0u64,
        }),
{
    match elapsed_ms {
        Some(ms) => {
            let low = ms % 0x1_0000_0000_0000_0000u128;
            low as u64
        },
        None => 0,
    }
}

/// Milliseconds since the Unix epoch by the wall clock (low 64 bits); 0
/// when the clock reads earlier than the epoch.
pub fn now_ms() -> (r: u64) {
    let now = system_time_now();
    let elapsed = match since_unix_epoch(&now) {
        Some(d) => Some(whole_millis(&d)),
        None => None,
    };
    epoch_millis(elapsed)
}

} // verus!
