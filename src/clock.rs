use vstd::prelude::*;

verus! {

/// Relies on `SystemTime::elapsed` on the Unix epoch: the time since the
/// epoch, read from the system clock, with 0 for a clock set before it.
/// Nothing is known of the value: the clock may be set at any time.
#[verifier::external_body]
fn millis_since_epoch() -> (r: u128) {
    std::time::UNIX_EPOCH.elapsed().map(|d| d.as_millis()).unwrap_or(0)
}

/// Milliseconds since the Unix epoch, never negative; a clock beyond the range
/// of `i64` reads as `i64::MAX`.
pub fn now_ms() -> (r: i64)
    ensures
        r >= 0,
{
    let m = millis_since_epoch();
    if m > i64::MAX as u128 {
        i64::MAX
    } else {
        m as i64
    }
}

} // verus!
