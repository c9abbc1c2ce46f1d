use vstd::prelude::*;
use crate::text::{decimal, fixed_digits, push_char, push_decimal, push_fixed_digits};

verus! {

/// Nanoseconds in a microsecond.
pub const NANOS_PER_MICRO: u64 = 1000;
/// Microseconds in a second.
pub const MICROS_PER_SECOND: u64 = 1_000_000;

/// The logical time of an event, in nanoseconds since the monitor's origin:
/// the time the caller gave, if any, and otherwise the time elapsed since
/// the monitor was created. Whether successive explicit times must not
/// decrease is left to the engine: the adapter neither checks nor reorders.
pub open spec fn resolve_timestamp_spec(explicit: Option<u64>, elapsed: u64) -> u64 {
    match explicit {
        Some(t) => t,
        None => elapsed,
    }
}

/// Resolves the logical time of an event (see [`resolve_timestamp_spec`]).
pub fn resolve_timestamp(explicit: Option<u64>, elapsed: u64) -> (r: u64)
    ensures
        r == resolve_timestamp_spec(explicit, elapsed),
{
    match explicit {
        Some(t) => t,
        None => elapsed,
    }
}

/// A time in nanoseconds, rounded half up to whole microseconds.
pub open spec fn micros_of(nanos: u64) -> nat {
    (nanos / NANOS_PER_MICRO) as nat + if nanos % NANOS_PER_MICRO >= 500 {
        1nat
    } else {
        0nat
    }
}

/// The prefix of every verdict line: the time in seconds with six
/// fractional digits, in brackets, as in `[1.500000s]`.
pub open spec fn timestamp_text(nanos: u64) -> Seq<char> {
    let us = micros_of(nanos);
    seq!['['] + decimal(us / (MICROS_PER_SECOND as nat)) + seq!['.']
        + fixed_digits(us % (MICROS_PER_SECOND as nat), 6) + seq!['s', ']']
}

/// Formats the prefix of a verdict line (see [`timestamp_text`]).
pub fn format_timestamp(nanos: u64) -> (r: String)
    ensures
        r@ == timestamp_text(nanos),
{
    let round: u64 = if nanos % NANOS_PER_MICRO >= 500 { 1 } else { 0 };
    let us: u64 = nanos / NANOS_PER_MICRO + round;
    let mut r = String::new();
    push_char(&mut r, '[');
    push_decimal(&mut r, us / MICROS_PER_SECOND);
    push_char(&mut r, '.');
    push_fixed_digits(&mut r, us % MICROS_PER_SECOND, 6);
    push_char(&mut r, 's');
    push_char(&mut r, ']');
    assert(r@ =~= timestamp_text(nanos));
    r
}

} // verus!
