//! Wall-clock timestamps for log entries.

use std::time::{Duration, SystemTime, UNIX_EPOCH};
use vstd::prelude::*;
use crate::text::{decimal, decimal_string};

verus! {

#[verifier::external_type_specification]
#[verifier::external_body]
pub struct ExSystemTime(SystemTime);

/// Calls `std::time::SystemTime::now`. The instant depends on the machine's
/// clock, so nothing is stated of it.
#[verifier::external_body]
fn system_time_now() -> SystemTime {
    SystemTime::now()
}

/// Calls `SystemTime::duration_since` with the Unix epoch and keeps the
/// duration when the instant is not earlier than the epoch. Which instants
/// those are depends on the clock, so nothing is stated of the result.
#[verifier::external_body]
fn elapsed_since_unix_epoch(instant: &SystemTime) -> Option<Duration> {
    instant.duration_since(UNIX_EPOCH).ok()
}

/// Calls `Duration::as_millis`. A `Duration` is opaque here, so nothing is
/// stated of the count.
#[verifier::external_body]
fn whole_milliseconds(duration: &Duration) -> u128 {
    duration.as_millis()
}

/// The stamp written for a count of whole milliseconds since the Unix epoch:
/// the count in decimal, or `0` when the clock is set before the epoch
/// (`None`).
pub fn millis_stamp(elapsed_millis: Option<u128>) -> (stamp: String)
    ensures
        stamp@ == match elapsed_millis {
            Some(millis) => decimal(millis as nat),
            None => seq!['0'],
        },
{
    match elapsed_millis {
        Some(millis) => decimal_string(millis),
        None => decimal_string(0),
    }
}

/// The milliseconds elapsed since the Unix epoch, in decimal; a clock set
/// before the epoch gives `0`.
pub fn timestamp_millis() -> (stamp: String)
    ensures
        exists|millis: u128| stamp@ == decimal(millis as nat),
{
    let now = system_time_now();
    let elapsed_millis = match elapsed_since_unix_epoch(&now) {
        Some(elapsed) => Some(whole_milliseconds(&elapsed)),
        None => None,
    };
    let stamp = millis_stamp(elapsed_millis);
    assert(seq!['0'] == decimal(0));
    stamp
}

} // verus!
