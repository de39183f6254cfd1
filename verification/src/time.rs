//! What the library relies on of `std::time::Duration`, and the arithmetic
//! on durations that it needs.

use std::time::Duration;
use vstd::prelude::*;

verus! {

/// The whole seconds that a duration spans: what `Duration::as_secs` returns.
pub uninterp spec fn duration_secs(d: Duration) -> u64;

/// The part of a duration below one second, in nanoseconds: what
/// `Duration::subsec_nanos` returns.
pub uninterp spec fn duration_subsec_nanos(d: Duration) -> u32;

/// `Duration::from_secs` builds the duration of exactly `secs` whole seconds.
pub assume_specification[ Duration::from_secs ](secs: u64) -> (d: Duration)
    ensures
        duration_secs(d) == secs,
        duration_subsec_nanos(d) == 0,
;

/// `Duration::as_secs` returns the whole seconds, dropping the fraction.
pub assume_specification[ Duration::as_secs ](d: &Duration) -> (secs: u64)
    ensures
        secs == duration_secs(*d),
;

/// `Duration::subsec_nanos` returns the fraction below one second, in
/// nanoseconds; it is always less than one billion.
pub assume_specification[ Duration::subsec_nanos ](d: &Duration) -> (nanos: u32)
    ensures
        nanos == duration_subsec_nanos(*d),
        nanos < 1_000_000_000,
;

/// `Duration::is_zero` tells whether the duration spans no time at all.
pub assume_specification[ Duration::is_zero ](d: &Duration) -> (zero: bool)
    ensures
        zero == is_zero_time(duration_secs(*d), duration_subsec_nanos(*d)),
;

/// Whether a time of `secs` seconds and `nanos` nanoseconds is no time at all.
pub open spec fn is_zero_time(secs: u64, nanos: u32) -> bool {
    secs == 0 && nanos == 0
}

/// The whole seconds in the sum of one second and two times, each given as
/// seconds and nanoseconds below a second.
pub open spec fn sum_secs_after_one(a_secs: u64, a_nanos: u32, b_secs: u64, b_nanos: u32) -> int {
    1 + a_secs + b_secs + (a_nanos + b_nanos) / 1_000_000_000
}

/// Whether one second, `a` and `b` can be added up as `Duration`s: the sum's
/// whole seconds must fit the 64 bits a `Duration` has for them.
pub open spec fn sum_fits_after_one(a_secs: u64, a_nanos: u32, b_secs: u64, b_nanos: u32) -> bool {
    sum_secs_after_one(a_secs, a_nanos, b_secs, b_nanos) <= u64::MAX
}

/// Tells whether one second, `a` and `b` can be added up without leaving the
/// range of `Duration`.
pub fn fits_after_one(a: &Duration, b: &Duration) -> (fits: bool)
    ensures
        fits == sum_fits_after_one(
            duration_secs(*a),
            duration_subsec_nanos(*a),
            duration_secs(*b),
            duration_subsec_nanos(*b),
        ),
{
    let a_nanos: u32 = a.subsec_nanos();
    let b_nanos: u32 = b.subsec_nanos();
    let carry: u64 = if a_nanos as u64 + b_nanos as u64 >= 1_000_000_000 {
        1
    } else {
        0
    };
    assert(carry == (a_nanos + b_nanos) / 1_000_000_000);
    match a.as_secs().checked_add(b.as_secs()) {
        None => false,
        Some(secs) => match secs.checked_add(carry) {
            None => false,
            Some(with_carry) => with_carry < u64::MAX,
        },
    }
}

} // verus!
