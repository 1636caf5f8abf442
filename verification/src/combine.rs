//! The arithmetic combinators: the pointwise sum and product of two nodes.
//!
//! A sum adds independent voices into one stream; a product gates one node
//! by another, as an oscillator by its envelope. Each combinator hands every
//! tick to both of its children, whatever they put out at that moment, so
//! that every phase and every clock below it keeps in step.

use vstd::prelude::*;
use vstd::std_specs::ops::AddSpec;
use vstd::std_specs::ops::MulSpec;
use crate::clock::SampleTime;
use crate::source::Source;
use crate::source::after_ticks;

verus! {

/// The sum of two nodes.
#[derive(Clone, Copy, Debug)]
pub struct Sum<L, R> {
    pub left: L,
    pub right: R,
}

impl<L, R> Source for Sum<L, R> where L: Source, R: Source, L::Sample: std::ops::Add<R::Sample> {
    type Sample = <L::Sample as std::ops::Add<R::Sample>>::Output;

    open spec fn value(&self) -> Self::Sample {
        self.left.value().add_spec(self.right.value())
    }

    open spec fn advanced(&self, elapsed: SampleTime) -> Self {
        Sum { left: self.left.advanced(elapsed), right: self.right.advanced(elapsed) }
    }

    /// Both children can be read, and their outputs can be added.
    open spec fn can_sample(&self) -> bool {
        &&& self.left.can_sample()
        &&& self.right.can_sample()
        &&& <L::Sample as AddSpec<R::Sample>>::obeys_add_spec()
        &&& self.left.value().add_req(self.right.value())
    }

    fn update(&mut self, elapsed: SampleTime) {
        self.left.update(elapsed);
        self.right.update(elapsed);
    }

    fn sample(&self) -> (v: Self::Sample) {
        self.left.sample() + self.right.sample()
    }
}

/// The product of two nodes.
#[derive(Clone, Copy, Debug)]
pub struct Product<L, R> {
    pub left: L,
    pub right: R,
}

impl<L, R> Source for Product<L, R> where L: Source, R: Source, L::Sample: std::ops::Mul<R::Sample> {
    type Sample = <L::Sample as std::ops::Mul<R::Sample>>::Output;

    open spec fn value(&self) -> Self::Sample {
        self.left.value().mul_spec(self.right.value())
    }

    open spec fn advanced(&self, elapsed: SampleTime) -> Self {
        Product { left: self.left.advanced(elapsed), right: self.right.advanced(elapsed) }
    }

    /// Both children can be read, and their outputs can be multiplied.
    open spec fn can_sample(&self) -> bool {
        &&& self.left.can_sample()
        &&& self.right.can_sample()
        &&& <L::Sample as MulSpec<R::Sample>>::obeys_mul_spec()
        &&& self.left.value().mul_req(self.right.value())
    }

    fn update(&mut self, elapsed: SampleTime) {
        self.left.update(elapsed);
        self.right.update(elapsed);
    }

    fn sample(&self) -> (v: Self::Sample) {
        self.left.sample() * self.right.sample()
    }
}

/// At every tick a sum holds its two children as they are after that many
/// ticks of their own, and puts out the sum of what they put out then.
pub proof fn law_sum_ticks<L, R>(left: L, right: R, elapsed: SampleTime, n: nat) where
    L: Source,
    R: Source,
    L::Sample: std::ops::Add<R::Sample>,

    ensures
        after_ticks(Sum { left, right }, elapsed, n) == (Sum {
            left: after_ticks(left, elapsed, n),
            right: after_ticks(right, elapsed, n),
        }),
        after_ticks(Sum { left, right }, elapsed, n).value() == after_ticks(
            left,
            elapsed,
            n,
        ).value().add_spec(after_ticks(right, elapsed, n).value()),
    decreases n,
{
    if n > 0 {
        law_sum_ticks(left, right, elapsed, (n - 1) as nat);
    }
}

/// At every tick a product holds its two children as they are after that
/// many ticks of their own, and puts out the product of what they put out
/// then.
pub proof fn law_product_ticks<L, R>(left: L, right: R, elapsed: SampleTime, n: nat) where
    L: Source,
    R: Source,
    L::Sample: std::ops::Mul<R::Sample>,

    ensures
        after_ticks(Product { left, right }, elapsed, n) == (Product {
            left: after_ticks(left, elapsed, n),
            right: after_ticks(right, elapsed, n),
        }),
        after_ticks(Product { left, right }, elapsed, n).value() == after_ticks(
            left,
            elapsed,
            n,
        ).value().mul_spec(after_ticks(right, elapsed, n).value()),
    decreases n,
{
    if n > 0 {
        law_product_ticks(left, right, elapsed, (n - 1) as nat);
    }
}

} // verus!
