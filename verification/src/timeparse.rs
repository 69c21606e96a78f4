//! The hour window for the hourly forecast: the provider's local timestamp
//! is parsed (through chrono) to the current hour of day, and the coming
//! `n` hour-of-day indices follow it, wrapping past midnight with `mod 24`.
//! The wrap stays within today's 24-entry hour table by design: day rollover
//! is deliberately not tracked.

use vstd::prelude::*;
use chrono::Timelike;

verus! {

/// The hour of day encoded in a `YYYY-MM-DD HH:MM` timestamp, as chrono's
/// parser reads it.
pub uninterp spec fn hour_of(timestamp: Seq<char>) -> int;

/// Whether a timestamp is a well-formed `YYYY-MM-DD HH:MM` local time, as
/// chrono's parser judges it.
pub uninterp spec fn parses_local(timestamp: Seq<char>) -> bool;

/// Relies on chrono's `NaiveDateTime::parse_from_str` (format
/// `%Y-%m-%d %H:%M`) and `Timelike::hour`: parsing depends on the input
/// string alone and rejects out-of-bound fields, and `hour` returns the hour
/// number from 0 to 23.
#[verifier::external_body]
pub(crate) fn parse_local_hour(timestamp: &str) -> (r: Option<u8>)
    ensures
        r is Some <==> parses_local(timestamp@),
        r matches Some(h) ==> h < 24 && h as int == hour_of(timestamp@),
{
    match chrono::NaiveDateTime::parse_from_str(timestamp, "%Y-%m-%d %H:%M") {
        Ok(dt) => Some(dt.hour() as u8),
        Err(_) => None,
    }
}

/// The hour-of-day indices the hourly section covers: `n_hours` consecutive
/// hours starting right after `current_hour`, each wrapped with `mod 24`;
/// empty when `n_hours` is not positive.
pub open spec fn coming_hours_spec(current_hour: int, n_hours: int) -> Seq<int> {
    Seq::new(
        (if n_hours > 0 {
            n_hours
        } else {
            0
        }) as nat,
        |i: int| (current_hour + 1 + i) % 24,
    )
}

/// Computes the coming hour-of-day indices from an already-extracted current
/// hour.
pub fn coming_hours_from(current_hour: usize, n_hours: i32) -> (v: Vec<usize>)
    requires
        current_hour < 24,
    ensures
        v@.map_values(|h: usize| h as int) == coming_hours_spec(current_hour as int, n_hours as int),
        forall|i: int| 0 <= i < v@.len() ==> v@[i] < 24,
{
    let mut v: Vec<usize> = Vec::new();
    if n_hours <= 0 {
        proof {
            assert(v@.map_values(|h: usize| h as int) =~= coming_hours_spec(
                current_hour as int,
                n_hours as int,
            ));
        }
        return v;
    }
    let n: usize = n_hours as usize;
    for i in 0..n
        invariant
            current_hour < 24,
            n == n_hours as int,
            0 < n <= i32::MAX,
            v@.len() == i,
            forall|j: int| 0 <= j < i ==> #[trigger] v@[j] == (current_hour + 1 + j) % 24,
    {
        v.push((current_hour + 1 + i) % 24);
    }
    proof {
        assert(v@.map_values(|h: usize| h as int) =~= coming_hours_spec(
            current_hour as int,
            n_hours as int,
        ));
    }
    v
}

/// Parses the current local timestamp and computes the coming hour-of-day
/// indices; yields nothing exactly when the timestamp does not parse.
pub fn get_coming_hours(current_datetime: &str, n_hours: i32) -> (r: Option<Vec<usize>>)
    ensures
        r is Some <==> parses_local(current_datetime@),
        r matches Some(v) ==> v@.map_values(|h: usize| h as int) == coming_hours_spec(
            hour_of(current_datetime@),
            n_hours as int,
        ) && (forall|i: int| 0 <= i < v@.len() ==> v@[i] < 24),
{
    match parse_local_hour(current_datetime) {
        Some(h) => Some(coming_hours_from(h as usize, n_hours)),
        None => None,
    }
}

} // verus!
