//! A span of time with nanosecond resolution.

use vstd::prelude::*;

verus! {

/// Nanoseconds in one second.
pub const NANOS_PER_SEC: u32 = 1_000_000_000;

/// Nanoseconds in one millisecond.
pub const NANOS_PER_MILLI: u32 = 1_000_000;

/// Milliseconds in one second.
pub const MILLIS_PER_SEC: u64 = 1_000;

/// The largest number of nanoseconds a `Duration` can hold.
pub open spec fn max_nanos() -> nat {
    (u64::MAX as nat) * (NANOS_PER_SEC as nat) + (NANOS_PER_SEC as nat - 1) as nat
}

/// A non-negative span of time: whole seconds plus a sub-second part in
/// nanoseconds.
#[derive(Clone, Copy, Debug, PartialEq, Eq, Structural)]
pub struct Duration {
    secs: u64,
    nanos: u32,
}

impl Duration {
    /// Well-formedness: the sub-second part is below one second.
    #[verifier::type_invariant]
    pub closed spec fn wf(self) -> bool {
        self.nanos < NANOS_PER_SEC
    }

    /// The whole seconds of the span.
    pub closed spec fn spec_secs(self) -> nat {
        self.secs as nat
    }

    /// The sub-second part, in nanoseconds.
    pub closed spec fn spec_subsec_nanos(self) -> nat {
        self.nanos as nat
    }

    /// The span as a number of nanoseconds.
    pub open spec fn total_nanos(self) -> nat {
        self.spec_secs() * (NANOS_PER_SEC as nat) + self.spec_subsec_nanos()
    }

    /// Two well-formed durations of the same length are the same value.
    pub proof fn lemma_total_nanos_injective(a: Duration, b: Duration)
        requires
            a.wf(),
            b.wf(),
            a.total_nanos() == b.total_nanos(),
        ensures
            a == b,
    {
        let n = NANOS_PER_SEC as int;
        let sa = a.secs as int;
        let sb = b.secs as int;
        assert(sa == sb) by (nonlinear_arith)
            requires
                sa * n + a.nanos == sb * n + b.nanos,
                0 <= a.nanos < n,
                0 <= b.nanos < n,
                n > 0,
        ;
    }

    /// Every well-formed duration is at most `max_nanos()` long.
    pub proof fn lemma_total_nanos_bound(self)
        requires
            self.wf(),
        ensures
            self.total_nanos() <= max_nanos(),
    {
        let p = NANOS_PER_SEC as nat;
        let s = self.secs as nat;
        assert(s * p <= (u64::MAX as nat) * p) by (nonlinear_arith)
            requires
                s <= u64::MAX as nat,
        ;
    }

    /// The duration of `secs` whole seconds.
    pub closed spec fn spec_from_secs(secs: u64) -> Duration {
        Duration { secs, nanos: 0 }
    }

    /// What `spec_from_secs` makes is well-formed and `secs` seconds long.
    pub proof fn lemma_from_secs(secs: u64)
        ensures
            Self::spec_from_secs(secs).wf(),
            Self::spec_from_secs(secs).total_nanos() == secs as nat * (NANOS_PER_SEC as nat),
            Self::spec_from_secs(secs).spec_secs() == secs,
            Self::spec_from_secs(secs).spec_subsec_nanos() == 0,
    {
    }

    /// A duration of `secs` whole seconds.
    #[verifier::when_used_as_spec(spec_from_secs)]
    pub fn from_secs(secs: u64) -> (d: Duration)
        ensures
            d == Self::spec_from_secs(secs),
            d.wf(),
            d.total_nanos() == secs as nat * (NANOS_PER_SEC as nat),
            d.spec_secs() == secs,
            d.spec_subsec_nanos() == 0,
    {
        Duration { secs, nanos: 0 }
    }

    /// A duration of `millis` milliseconds.
    pub fn from_millis(millis: u64) -> (d: Duration)
        ensures
            d.wf(),
            d.total_nanos() == millis as nat * (NANOS_PER_MILLI as nat),
    {
        let secs: u64 = millis / MILLIS_PER_SEC;
        let rest: u64 = millis % MILLIS_PER_SEC;
        let nanos: u32 = (rest as u32) * NANOS_PER_MILLI;
        assert(millis as nat * 1_000_000 == secs as nat * 1_000_000_000 + nanos as nat)
            by (nonlinear_arith)
            requires
                secs == millis / 1000,
                rest == millis % 1000,
                nanos == rest * 1_000_000,
        ;
        Duration { secs, nanos }
    }

    /// The number of whole seconds.
    pub fn as_secs(&self) -> (s: u64)
        ensures
            s == self.spec_secs(),
    {
        self.secs
    }

    /// The part below one second, in nanoseconds.
    pub fn subsec_nanos(&self) -> (n: u32)
        ensures
            n == self.spec_subsec_nanos(),
            n < NANOS_PER_SEC,
    {
        proof {
            use_type_invariant(self);
        }
        self.nanos
    }

    /// The span in nanoseconds.
    pub fn as_nanos(&self) -> (n: u128)
        ensures
            n == self.total_nanos(),
    {
        proof {
            use_type_invariant(self);
        }
        let secs: u128 = self.secs as u128;
        let per: u128 = NANOS_PER_SEC as u128;
        assert(secs * per <= 0xffff_ffff_ffff_ffff * 1_000_000_000) by (nonlinear_arith)
            requires
                secs <= 0xffff_ffff_ffff_ffff,
                per == 1_000_000_000,
        ;
        secs * per + self.nanos as u128
    }

    /// The span in whole milliseconds, rounded down.
    pub fn as_millis(&self) -> (m: u128)
        ensures
            m == self.total_nanos() / (NANOS_PER_MILLI as nat),
    {
        let n: u128 = self.as_nanos();
        n / (NANOS_PER_MILLI as u128)
    }

    /// Whether the span is empty.
    pub fn is_zero(&self) -> (z: bool)
        ensures
            z == (self.total_nanos() == 0),
    {
        proof {
            let s = self.secs as nat;
            assert(s > 0 ==> s * 1_000_000_000 > 0) by (nonlinear_arith);
        }
        self.secs == 0 && self.nanos == 0
    }

    /// The span multiplied by `factor`, or the longest duration there is
    /// where the product is longer than that.
    pub fn saturating_mul(&self, factor: u32) -> (d: Duration)
        ensures
            d.wf(),
            d.total_nanos() == if self.total_nanos() * (factor as nat) <= max_nanos() {
                self.total_nanos() * (factor as nat)
            } else {
                max_nanos()
            },
    {
        proof {
            use_type_invariant(self);
            self.lemma_total_nanos_bound();
        }
        let n: u128 = self.as_nanos();
        let f: u128 = factor as u128;
        let limit: u128 = 18_446_744_073_709_551_615_999_999_999;
        assert(limit == max_nanos());
        assert(n * f <= 18_446_744_073_709_551_615_999_999_999 * 0xffff_ffff) by (nonlinear_arith)
            requires
                n <= 18_446_744_073_709_551_615_999_999_999,
                f <= 0xffff_ffff,
        ;
        let product: u128 = n * f;
        let capped: u128 = if product <= limit {
            product
        } else {
            limit
        };
        let per: u128 = NANOS_PER_SEC as u128;
        let secs: u128 = capped / per;
        let nanos: u128 = capped % per;
        assert(secs <= u64::MAX && capped == secs * per + nanos) by (nonlinear_arith)
            requires
                capped <= 18_446_744_073_709_551_615_999_999_999,
                per == 1_000_000_000,
                secs == capped / per,
                nanos == capped % per,
        ;
        Duration { secs: secs as u64, nanos: nanos as u32 }
    }
}

} // verus!
