//! The operators `+` and `*` on wrapped nodes.
//!
//! They are a way to write a graph down: `a + b` is the sum node of `a` and
//! `b`, and `a * b` their product node. The left side is a wrapped node and
//! stays wrapped, so that operators can be chained; the right side is any
//! node.

use vstd::prelude::*;
use vstd::std_specs::ops::AddSpecImpl;
use vstd::std_specs::ops::MulSpecImpl;
use crate::combine::Product;
use crate::combine::Sum;
use crate::source::Wrapped;

verus! {

impl<L, R> std::ops::Add<R> for Wrapped<L> {
    type Output = Wrapped<Sum<L, R>>;

    /// `a + b` builds the sum node of `a` and `b`.
    fn add(self, rhs: R) -> (w: Wrapped<Sum<L, R>>) {
        Wrapped(Sum { left: self.0, right: rhs })
    }
}

impl<L, R> AddSpecImpl<R> for Wrapped<L> {
    open spec fn obeys_add_spec() -> bool {
        true
    }

    open spec fn add_req(self, rhs: R) -> bool {
        true
    }

    open spec fn add_spec(self, rhs: R) -> Wrapped<Sum<L, R>> {
        Wrapped(Sum { left: self.0, right: rhs })
    }
}

impl<L, R> std::ops::Mul<R> for Wrapped<L> {
    type Output = Wrapped<Product<L, R>>;

    /// `a * b` builds the product node of `a` and `b`.
    fn mul(self, rhs: R) -> (w: Wrapped<Product<L, R>>) {
        Wrapped(Product { left: self.0, right: rhs })
    }
}

impl<L, R> MulSpecImpl<R> for Wrapped<L> {
    open spec fn obeys_mul_spec() -> bool {
        true
    }

    open spec fn mul_req(self, rhs: R) -> bool {
        true
    }

    open spec fn mul_spec(self, rhs: R) -> Wrapped<Product<L, R>> {
        Wrapped(Product { left: self.0, right: rhs })
    }
}

} // verus!
