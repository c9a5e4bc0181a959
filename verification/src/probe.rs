//! The decisions of the latency probe between one measurement and the next.

use crate::status::LATENCY_UNKNOWN;
use vstd::prelude::*;

verus! {

/// The latency to report for a measurement: the milliseconds that it took,
/// or `LATENCY_UNKNOWN` where it failed or took longer than can be reported.
pub open spec fn latency_of(elapsed: Option<u128>) -> isize {
    match elapsed {
        Some(ms) => if ms < isize::MAX {
            ms as isize
        } else {
            LATENCY_UNKNOWN
        },
        None => LATENCY_UNKNOWN,
    }
}

/// The identifier of the query after the one with identifier `id`: the next
/// number, and 0 after the largest.
pub fn next_probe_id(id: u16) -> (r: u16)
    ensures
        r == (if id == u16::MAX {
            0
        } else {
            id + 1
        }),
{
    match id.checked_add(1) {
        Some(next) => next,
        None => 0,
    }
}

/// The latency to report for a measurement that took `elapsed` milliseconds,
/// or that failed where `elapsed` is `None`.
pub fn probe_latency(elapsed: Option<u128>) -> (r: isize)
    ensures
        r == latency_of(elapsed),
        r >= 0,
        elapsed is None ==> r == LATENCY_UNKNOWN,
{
    match elapsed {
        Some(ms) => if ms < isize::MAX as u128 {
            ms as isize
        } else {
            LATENCY_UNKNOWN
        },
        None => LATENCY_UNKNOWN,
    }
}

} // verus!
