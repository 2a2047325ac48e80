use vstd::prelude::*;

verus! {

/// Relies on `std::time::SystemTime::now`: the wall-clock time, read as
/// milliseconds since the Unix epoch, or `None` when the clock is set before
/// the epoch. Nothing is known of the value.
#[verifier::external_body]
fn wall_clock_ms() -> (r: Option<u128>) {
    std::time::SystemTime::now()
        .duration_since(std::time::UNIX_EPOCH)
        .ok()
        .map(|d| d.as_millis())
}

/// A clock reading in whole milliseconds since the epoch as a `u64`: 0 for a
/// reading before the epoch, the largest `u64` past its range.
pub open spec fn epoch_ms(reading: Option<u128>) -> u64 {
    match reading {
        Some(ms) => if ms > u64::MAX as u128 {
            u64::MAX
        } else {
            ms as u64
        },
        None => 0,
    }
}

/// Turns a clock reading (whole milliseconds since the epoch, `None` before
/// it) into a timestamp.
pub fn millis_since_epoch(reading: Option<u128>) -> (r: u64)
    ensures
        r == epoch_ms(reading),
{
    match reading {
        Some(ms) => if ms > u64::MAX as u128 {
            u64::MAX
        } else {
            ms as u64
        },
        None => 0,
    }
}

/// A later reading never gives an earlier timestamp.
pub proof fn lemma_epoch_ms_monotone(a: u128, b: u128)
    requires
        a <= b,
    ensures
        epoch_ms(Some(a)) <= epoch_ms(Some(b)),
        epoch_ms(None) <= epoch_ms(Some(a)),
{
}

/// Milliseconds since the Unix epoch, read from the wall clock and turned
/// into a timestamp by `millis_since_epoch`.
pub fn now_ms() -> u64 {
    millis_since_epoch(wall_clock_ms())
}

} // verus!
