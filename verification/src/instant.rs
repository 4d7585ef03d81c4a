//! The canonical instant: a point in time as nanoseconds since the Unix
//! epoch, UTC, and its renderings as coarser raw timestamps.

use vstd::arithmetic::div_mod::lemma_div_nonincreasing;
use vstd::arithmetic::div_mod::lemma_div_pos_is_pos;
use vstd::arithmetic::div_mod::lemma_fundamental_div_mod;
use vstd::arithmetic::div_mod::lemma_fundamental_div_mod_converse;
use vstd::prelude::*;

verus! {

/// A single point in time, canonically normalized to UTC, as nanoseconds
/// since the Unix epoch.
#[derive(Clone, Copy, Debug, PartialEq, Eq, Structural)]
pub struct UtcInstant {
    pub nanos: i128,
}

impl UtcInstant {
    /// Builds an instant from nanoseconds since the Unix epoch.
    pub fn from_nanos(nanos: i128) -> (r: UtcInstant)
        ensures
            r.nanos == nanos,
    {
        UtcInstant { nanos }
    }

    /// The instant as nanoseconds since the Unix epoch.
    pub fn as_nanos(&self) -> (r: i128)
        ensures
            r == self.nanos,
    {
        self.nanos
    }
}

/// Division truncating towards zero, as the `/` of the timestamps below:
/// negative instants round towards the epoch.
pub open spec fn trunc_div(n: int, d: int) -> int
    recommends
        d > 0,
{
    if n >= 0 {
        n / d
    } else {
        -((-n) / d)
    }
}

/// The number of nanoseconds in one second, millisecond and microsecond.
pub open spec fn nanos_per_sec() -> int {
    1_000_000_000
}

pub open spec fn nanos_per_milli() -> int {
    1_000_000
}

pub open spec fn nanos_per_micro() -> int {
    1_000
}

/// The raw-timestamp renderings of an instant: whole seconds,
/// milliseconds, microseconds and nanoseconds since the Unix epoch,
/// truncated towards zero.
pub open spec fn timestamp_secs_of(nanos: int) -> int {
    trunc_div(nanos, nanos_per_sec())
}

pub open spec fn timestamp_millis_of(nanos: int) -> int {
    trunc_div(nanos, nanos_per_milli())
}

pub open spec fn timestamp_micros_of(nanos: int) -> int {
    trunc_div(nanos, nanos_per_micro())
}

/// Divides a timestamp by a positive unit, truncating towards zero.
pub fn div_trunc(n: i64, d: i64) -> (q: i64)
    requires
        d > 0,
    ensures
        q == trunc_div(n as int, d as int),
{
    if n >= 0 {
        let q = (n as u64) / (d as u64);
        proof {
            lemma_div_nonincreasing(n as int, d as int);
            lemma_div_pos_is_pos(n as int, d as int);
        }
        q as i64
    } else {
        let m = (-(n as i128)) as u64;
        let q = m / (d as u64);
        proof {
            lemma_div_nonincreasing(m as int, d as int);
            lemma_div_pos_is_pos(m as int, d as int);
        }
        (-(q as i128)) as i64
    }
}

/// A multiple of `d` divided by `d`, truncating towards zero, scales back
/// to the original value: the raw-timestamp renderings lose nothing on
/// instants that lie on the unit boundary.
pub proof fn lemma_trunc_div_exact(n: int, d: int)
    requires
        d > 0,
        n % d == 0,
    ensures
        trunc_div(n, d) * d == n,
{
    if n >= 0 {
        lemma_fundamental_div_mod(n, d);
        assert((n / d) * d == n) by (nonlinear_arith)
            requires
                n == d * (n / d),
        ;
        assert(trunc_div(n, d) == n / d);
    } else {
        lemma_fundamental_div_mod(n, d);
        // n is a multiple of d, hence so is -n, with the negated quotient.
        assert(n == d * (n / d));
        assert(-n == -(n / d) * d + 0) by (nonlinear_arith)
            requires
                n == d * (n / d),
        ;
        lemma_fundamental_div_mod_converse(-n, d, -(n / d), 0);
        assert((-n) / d == -(n / d));
        assert(-((-n) / d) * d == n) by (nonlinear_arith)
            requires
                (-n) / d == -(n / d),
                n == d * (n / d),
        ;
        assert(trunc_div(n, d) == -((-n) / d));
    }
}

/// Rendering an instant as whole seconds and scaling back loses nothing
/// when the instant lies on a second boundary; likewise for milliseconds
/// and microseconds on their boundaries, and for nanoseconds always.
pub proof fn lemma_timestamp_round_trip(nanos: int)
    ensures
        nanos % nanos_per_sec() == 0 ==> timestamp_secs_of(nanos) * nanos_per_sec() == nanos,
        nanos % nanos_per_milli() == 0 ==> timestamp_millis_of(nanos) * nanos_per_milli() == nanos,
        nanos % nanos_per_micro() == 0 ==> timestamp_micros_of(nanos) * nanos_per_micro() == nanos,
{
    if nanos % nanos_per_sec() == 0 {
        lemma_trunc_div_exact(nanos, nanos_per_sec());
    }
    if nanos % nanos_per_milli() == 0 {
        lemma_trunc_div_exact(nanos, nanos_per_milli());
    }
    if nanos % nanos_per_micro() == 0 {
        lemma_trunc_div_exact(nanos, nanos_per_micro());
    }
}

} // verus!
