//! The time source: the only impure leaf of the core. It produces the
//! current wall-clock millisecond timestamp and the current day bucket
//! (the timestamp floored to a whole-day boundary).

use vstd::prelude::*;

verus! {

/// Milliseconds in one whole day; every `day` field is a multiple of this.
pub const MILLIS_IN_DAY: u128 = 86_400_000;

/// Relies on `std::time::SystemTime::now` and `duration_since(UNIX_EPOCH)`:
/// returns the current time since the Unix epoch in milliseconds. Aborts the
/// process when the system clock predates the epoch (unrecoverable clock
/// malfunction). Nothing can be promised of the value itself.
#[verifier::external_body]
pub fn get_current_timestamp() -> u128 {
    std::time::SystemTime::now()
        .duration_since(std::time::SystemTime::UNIX_EPOCH)
        .expect("Time went backwards")
        .as_millis()
}

/// The day bucket a millisecond timestamp falls in: the timestamp floored
/// to a multiple of `MILLIS_IN_DAY`.
pub open spec fn day_bucket(ts: u128) -> u128 {
    (ts - ts % (MILLIS_IN_DAY as u128)) as u128
}

/// Floors a timestamp to its day bucket.
pub fn day_of_timestamp(ts: u128) -> (day: u128)
    ensures
        day == day_bucket(ts),
        day % MILLIS_IN_DAY == 0,
        day <= ts < day + MILLIS_IN_DAY,
{
    proof {
        lemma_day_bucket(ts);
    }
    ts - (ts % MILLIS_IN_DAY)
}

/// A day bucket is a whole-day boundary and contains its timestamp.
pub proof fn lemma_day_bucket(ts: u128)
    ensures
        day_bucket(ts) % MILLIS_IN_DAY == 0,
        day_bucket(ts) <= ts < day_bucket(ts) + MILLIS_IN_DAY,
{
    let m = MILLIS_IN_DAY as int;
    let t = ts as int;
    vstd::arithmetic::div_mod::lemma_fundamental_div_mod(t, m);
    assert(t - t % m == m * (t / m));
    vstd::arithmetic::div_mod::lemma_mod_multiples_basic(t / m, m);
}

/// The current day bucket, from a single clock sample.
pub fn get_current_day() -> (day: u128)
    ensures
        day % MILLIS_IN_DAY == 0,
{
    let current_timestamp = get_current_timestamp();
    day_of_timestamp(current_timestamp)
}

} // verus!
