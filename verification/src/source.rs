//! The signal-graph abstraction: what every node of the graph can do.
//!
//! A node is a small state machine. `update` moves it forward by an elapsed
//! time and `sample` reads its output without changing anything. Each node
//! owns its children, so a graph is a tree, and a tick handed to the root
//! reaches every node below it exactly once.
//!
//! The trait carries the node's mathematical model beside the two
//! operations: `value` is the output of a state, `advanced` the state that
//! follows it, and `can_sample` says in which states the output is defined.

use vstd::prelude::*;
use crate::clock::SampleTime;

verus! {

/// A node of the signal graph.
pub trait Source: Sized {
    /// What the node puts out.
    type Sample;

    /// The output of the node in its present state.
    spec fn value(&self) -> Self::Sample;

    /// The state of the node after `elapsed` has passed.
    spec fn advanced(&self, elapsed: SampleTime) -> Self;

    /// Whether the output is defined in the present state: whether every
    /// operation that computes it is within its domain.
    spec fn can_sample(&self) -> bool;

    /// Wraps the node so that it can be combined with `+` and `*`.
    fn wrap(self) -> (w: Wrapped<Self>)
        ensures
            w.0 == self,
    {
        Wrapped(self)
    }

    /// Moves the node forward by `elapsed`.
    fn update(&mut self, elapsed: SampleTime)
        requires
            elapsed.wf(),
        ensures
            *final(self) == old(self).advanced(elapsed),
    ;

    /// Reads the present output. The node is left as it is, so two reads
    /// with no `update` between them give the same value.
    fn sample(&self) -> (v: Self::Sample)
        requires
            self.can_sample(),
        ensures
            v == self.value(),
    ;
}

/// The state of `node` after `n` ticks of `elapsed` each.
pub open spec fn after_ticks<S: Source>(node: S, elapsed: SampleTime, n: nat) -> S
    decreases n,
{
    if n == 0 {
        node
    } else {
        after_ticks(node, elapsed, (n - 1) as nat).advanced(elapsed)
    }
}

/// Ticks add up: `m` ticks and then `n` more leave a node as `m + n` ticks
/// do.
pub proof fn law_ticks_add_up<S: Source>(node: S, elapsed: SampleTime, m: nat, n: nat)
    ensures
        after_ticks(after_ticks(node, elapsed, m), elapsed, n) == after_ticks(node, elapsed, m + n),
    decreases n,
{
    if n > 0 {
        law_ticks_add_up(node, elapsed, m, (n - 1) as nat);
    }
}

/// A node in a wrapper that carries the operators `+` and `*`. It behaves
/// exactly as the node inside.
#[derive(Clone, Copy, Debug)]
pub struct Wrapped<T>(pub T);

impl<T> Wrapped<T> {
    /// Gives the node back.
    pub fn unwrap(self) -> (inner: T)
        ensures
            inner == self.0,
    {
        self.0
    }
}

impl<T> Source for Wrapped<T> where T: Source {
    type Sample = T::Sample;

    open spec fn value(&self) -> T::Sample {
        self.0.value()
    }

    open spec fn advanced(&self, elapsed: SampleTime) -> Self {
        Wrapped(self.0.advanced(elapsed))
    }

    open spec fn can_sample(&self) -> bool {
        self.0.can_sample()
    }

    fn update(&mut self, elapsed: SampleTime) {
        self.0.update(elapsed)
    }

    fn sample(&self) -> (v: T::Sample) {
        self.0.sample()
    }
}

impl<T> Source for Box<T> where T: Source {
    type Sample = T::Sample;

    open spec fn value(&self) -> T::Sample {
        (**self).value()
    }

    open spec fn advanced(&self, elapsed: SampleTime) -> Self {
        Box::new((**self).advanced(elapsed))
    }

    open spec fn can_sample(&self) -> bool {
        (**self).can_sample()
    }

    fn update(&mut self, elapsed: SampleTime) {
        (**self).update(elapsed)
    }

    fn sample(&self) -> (v: T::Sample) {
        (**self).sample()
    }
}

/// A node without state: it puts out a copy of `value` at every tick.
#[derive(Clone, Copy, Debug)]
pub struct Const<T> {
    pub value: T,
}

impl<T: Clone> Source for Const<T> {
    type Sample = T;

    open spec fn value(&self) -> T {
        self.value
    }

    open spec fn advanced(&self, elapsed: SampleTime) -> Self {
        *self
    }

    /// The output is defined where a clone of the held value equals it.
    open spec fn can_sample(&self) -> bool {
        forall|c: T| #[trigger] call_ensures(T::clone, (&self.value,), c) ==> c == self.value
    }

    fn update(&mut self, elapsed: SampleTime) {
    }

    fn sample(&self) -> (v: T) {
        self.value.clone()
    }
}

/// Ticks reach the node inside a wrapper one for one.
pub proof fn law_wrapped_ticks<T: Source>(node: T, elapsed: SampleTime, n: nat)
    ensures
        after_ticks(Wrapped(node), elapsed, n) == Wrapped(after_ticks(node, elapsed, n)),
        after_ticks(Wrapped(node), elapsed, n).value() == after_ticks(node, elapsed, n).value(),
    decreases n,
{
    if n > 0 {
        law_wrapped_ticks(node, elapsed, (n - 1) as nat);
    }
}

/// Ticks reach a node in a box one for one.
pub proof fn law_boxed_ticks<T: Source>(node: T, elapsed: SampleTime, n: nat)
    ensures
        after_ticks(Box::new(node), elapsed, n) == Box::new(after_ticks(node, elapsed, n)),
        after_ticks(Box::new(node), elapsed, n).value() == after_ticks(node, elapsed, n).value(),
    decreases n,
{
    if n > 0 {
        law_boxed_ticks(node, elapsed, (n - 1) as nat);
    }
}

/// A constant node is the same after any number of ticks.
pub proof fn law_const_ticks<T: Clone>(node: Const<T>, elapsed: SampleTime, n: nat)
    ensures
        after_ticks(node, elapsed, n) == node,
    decreases n,
{
    if n > 0 {
        law_const_ticks(node, elapsed, (n - 1) as nat);
    }
}

} // verus!
