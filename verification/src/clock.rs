//! The sample clock: elapsed time as an exact count of samples at a rate.
//!
//! Two times are compared by cross-multiplication, never through a
//! converted number of seconds, so the order is exact. The products are
//! taken in 64 bits, where the product of two 32-bit factors always fits.

use vstd::prelude::*;
use vstd::std_specs::cmp::PartialEqSpec;
use vstd::std_specs::cmp::PartialEqSpecImpl;
use vstd::std_specs::cmp::PartialOrdSpec;
use vstd::std_specs::cmp::PartialOrdSpecImpl;
use std::cmp::Ordering;

verus! {

/// An elapsed time: `count` samples at `rate` samples per second.
#[derive(Clone, Copy, Debug)]
pub struct SampleTime {
    pub count: u32,
    pub rate: u32,
}

impl SampleTime {
    /// A time is well formed when its rate is positive.
    pub open spec fn wf(self) -> bool {
        self.rate > 0
    }

    /// `self.count * other.rate`: the side of `self` when the two times are
    /// brought to the common denominator `self.rate * other.rate`.
    pub open spec fn cross(self, other: SampleTime) -> int {
        self.count * other.rate
    }

    /// The exact order of two times: that of `self.cross(other)` and
    /// `other.cross(self)`.
    pub open spec fn order(self, other: SampleTime) -> Ordering {
        if self.cross(other) < other.cross(self) {
            Ordering::Less
        } else if self.cross(other) == other.cross(self) {
            Ordering::Equal
        } else {
            Ordering::Greater
        }
    }

    /// Computes `self.cross(other)` in 64 bits.
    pub fn cross_product(&self, other: &SampleTime) -> (p: u64)
        ensures
            p == self.cross(*other),
    {
        proof {
            assert(0 <= self.count * other.rate <= 0xffff_ffff * 0xffff_ffff) by (nonlinear_arith)
                requires
                    0 <= self.count <= 0xffff_ffff,
                    0 <= other.rate <= 0xffff_ffff,
            ;
        }
        self.count as u64 * other.rate as u64
    }
}

impl PartialEq for SampleTime {
    /// Two times are equal when their cross products are.
    fn eq(&self, other: &SampleTime) -> (r: bool) {
        self.cross_product(other) == other.cross_product(self)
    }
}

impl PartialEqSpecImpl for SampleTime {
    open spec fn obeys_eq_spec() -> bool {
        true
    }

    open spec fn eq_spec(&self, other: &SampleTime) -> bool {
        self.cross(*other) == other.cross(*self)
    }
}

impl PartialOrd for SampleTime {
    /// Orders two times by their cross products; the result is never
    /// `None`.
    fn partial_cmp(&self, other: &SampleTime) -> (r: Option<Ordering>) {
        let a: u64 = self.cross_product(other);
        let b: u64 = other.cross_product(self);
        if a < b {
            Some(Ordering::Less)
        } else if a == b {
            Some(Ordering::Equal)
        } else {
            Some(Ordering::Greater)
        }
    }
}

impl PartialOrdSpecImpl for SampleTime {
    open spec fn obeys_partial_cmp_spec() -> bool {
        true
    }

    open spec fn partial_cmp_spec(&self, other: &SampleTime) -> Option<Ordering> {
        Some(self.order(*other))
    }
}

/// Comparison is exact: two times are equal exactly when their cross
/// products are, and one is less than the other exactly when its cross
/// product is the smaller. This holds for all counts and rates that the
/// type can hold.
pub proof fn law_exact_comparison(a: SampleTime, b: SampleTime)
    ensures
        PartialEqSpec::eq_spec(&a, &b) <==> a.count * b.rate == b.count * a.rate,
        PartialOrdSpec::partial_cmp_spec(&a, &b) == Some(Ordering::Less) <==> a.count * b.rate < b.count * a.rate,
        PartialOrdSpec::partial_cmp_spec(&a, &b) == Some(Ordering::Equal) <==> PartialEqSpec::eq_spec(&a, &b),
        PartialOrdSpec::partial_cmp_spec(&a, &b) == Some(Ordering::Greater) <==> PartialOrdSpec::partial_cmp_spec(&b, &a) == Some(
            Ordering::Less,
        ),
{
}

/// At one rate, times compare as their counts do.
pub proof fn law_same_rate(a: SampleTime, b: SampleTime)
    requires
        a.wf(),
        a.rate == b.rate,
    ensures
        PartialEqSpec::eq_spec(&a, &b) <==> a.count == b.count,
        a.order(b) == Ordering::Less <==> a.count < b.count,
{
    lemma_cross_same_rate(a, b);
}

/// Times that are equal to a well-formed third are equal to each other.
pub proof fn law_equal_is_transitive(a: SampleTime, b: SampleTime, c: SampleTime)
    requires
        b.wf(),
        PartialEqSpec::eq_spec(&a, &b),
        PartialEqSpec::eq_spec(&b, &c),
    ensures
        PartialEqSpec::eq_spec(&a, &c),
{
    lemma_cross_equal_transitive(a, b, c);
}

/// The order is transitive.
pub proof fn law_less_is_transitive(a: SampleTime, b: SampleTime, c: SampleTime)
    requires
        a.order(b) == Ordering::Less,
        b.order(c) == Ordering::Less,
    ensures
        a.order(c) == Ordering::Less,
{
    lemma_cross_less_transitive(a, b, c);
}

proof fn lemma_cross_same_rate(a: SampleTime, b: SampleTime)
    requires
        a.rate > 0,
        a.rate == b.rate,
    ensures
        a.cross(b) == b.cross(a) <==> a.count == b.count,
        a.cross(b) < b.cross(a) <==> a.count < b.count,
{
    let r = a.rate as int;
    let x = a.count as int;
    let y = b.count as int;
    assert(x * r == y * r <==> x == y) by (nonlinear_arith)
        requires
            r > 0,
    ;
    assert(x * r < y * r <==> x < y) by (nonlinear_arith)
        requires
            r > 0,
    ;
}

proof fn lemma_cross_equal_transitive(a: SampleTime, b: SampleTime, c: SampleTime)
    requires
        b.rate > 0,
        a.cross(b) == b.cross(a),
        b.cross(c) == c.cross(b),
    ensures
        a.cross(c) == c.cross(a),
{
    let (x, p) = (a.count as int, a.rate as int);
    let (y, q) = (b.count as int, b.rate as int);
    let (z, r) = (c.count as int, c.rate as int);
    assert(x * r == z * p) by (nonlinear_arith)
        requires
            q > 0,
            x * q == y * p,
            y * r == z * q,
    {
        assert((x * r) * q == (x * q) * r);
        assert((y * p) * r == (y * r) * p);
        assert((z * q) * p == (z * p) * q);
    }
}

proof fn lemma_cross_less_transitive(a: SampleTime, b: SampleTime, c: SampleTime)
    requires
        a.cross(b) < b.cross(a),
        b.cross(c) < c.cross(b),
    ensures
        a.cross(c) < c.cross(a),
{
    let (x, p) = (a.count as int, a.rate as int);
    let (y, q) = (b.count as int, b.rate as int);
    let (z, r) = (c.count as int, c.rate as int);
    assert(x * r < z * p) by (nonlinear_arith)
        requires
            0 <= x,
            0 <= p,
            0 <= y,
            0 <= q,
            0 <= z,
            0 <= r,
            x * q < y * p,
            y * r < z * q,
    {
        assert(p > 0 && q > 0 && z > 0);
        if r > 0 {
            assert((x * q) * r < (y * p) * r);
            assert((y * r) * p < (z * q) * p);
            assert((x * r) * q == (x * q) * r);
            assert((y * p) * r == (y * r) * p);
            assert((z * q) * p == (z * p) * q);
            assert((x * r) * q < (z * p) * q);
        } else {
            assert(x * r == 0);
            assert(z * p > 0);
        }
    }
}

} // verus!
