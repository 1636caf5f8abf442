use signal_graph::clock::SampleTime;
use signal_graph::combine::{Product, Sum};
use signal_graph::source::{Const, Source, Wrapped};

/// A node that counts: it puts out the samples that have elapsed, times a
/// gain, and keeps the number of updates it has seen.
#[derive(Clone, Debug, PartialEq)]
struct Ramp {
    gain: i64,
    samples: i64,
    updates: u32,
}

fn ramp(gain: i64) -> Ramp {
    Ramp { gain, samples: 0, updates: 0 }
}

impl Source for Ramp {
    type Sample = i64;

    fn value(&self) -> i64 {
        self.gain * self.samples
    }

    fn advanced(&self, elapsed: SampleTime) -> Ramp {
        Ramp {
            gain: self.gain,
            samples: self.samples + elapsed.count as i64,
            updates: self.updates + 1,
        }
    }

    fn can_sample(&self) -> bool {
        true
    }

    fn update(&mut self, elapsed: SampleTime) {
        self.samples += elapsed.count as i64;
        self.updates += 1;
    }

    fn sample(&self) -> i64 {
        self.gain * self.samples
    }
}

fn tick() -> SampleTime {
    SampleTime { count: 1, rate: 48000 }
}

#[test]
fn constant_node_keeps_its_value() {
    let mut c = Const { value: 7i64 };
    assert_eq!(c.sample(), 7);
    c.update(tick());
    c.update(SampleTime { count: 1000, rate: 8000 });
    assert_eq!(c.sample(), 7);
    assert_eq!(c.value, 7);
}

#[test]
fn sample_does_not_change_the_node() {
    let mut r = ramp(3);
    r.update(tick());
    let before = r.clone();
    assert_eq!(r.sample(), 3);
    assert_eq!(r.sample(), 3);
    assert_eq!(r, before);
}

#[test]
fn wrapped_node_behaves_as_the_node_inside() {
    let mut w: Wrapped<Ramp> = ramp(2).wrap();
    w.update(tick());
    w.update(SampleTime { count: 2, rate: 48000 });
    assert_eq!(w.sample(), 6);
    let inner = w.unwrap();
    assert_eq!(inner.samples, 3);
    assert_eq!(inner.updates, 2);
}

#[test]
fn unwrap_undoes_wrap() {
    let r = ramp(5);
    assert_eq!(r.clone().wrap().unwrap(), r);
    assert_eq!(Wrapped(11u8).unwrap(), 11);
}

#[test]
fn boxed_node_behaves_as_the_node_inside() {
    let mut b: Box<Ramp> = Box::new(ramp(4));
    b.update(tick());
    b.update(tick());
    assert_eq!(Source::sample(&b), 8);
    assert_eq!(b.updates, 2);
}

#[test]
fn sum_adds_what_its_children_put_out() {
    let mut s = Sum { left: ramp(2), right: ramp(5) };
    assert_eq!(s.sample(), 0);
    for n in 1..=10i64 {
        s.update(tick());
        assert_eq!(s.sample(), 2 * n + 5 * n);
        assert_eq!(s.sample(), s.left.sample() + s.right.sample());
    }
}

#[test]
fn product_multiplies_what_its_children_put_out() {
    let mut p = Product { left: ramp(2), right: ramp(5) };
    for n in 1..=10i64 {
        p.update(tick());
        assert_eq!(p.sample(), (2 * n) * (5 * n));
        assert_eq!(p.sample(), p.left.sample() * p.right.sample());
    }
}

#[test]
fn each_child_is_updated_once_per_update_of_the_parent() {
    let mut s = Sum { left: ramp(1), right: Product { left: ramp(1), right: ramp(1) } };
    for _ in 0..7 {
        s.update(SampleTime { count: 3, rate: 48000 });
    }
    assert_eq!(s.left.updates, 7);
    assert_eq!(s.right.left.updates, 7);
    assert_eq!(s.right.right.updates, 7);
    assert_eq!(s.left.samples, 21);
    assert_eq!(s.right.left.samples, 21);
    assert_eq!(s.right.right.samples, 21);
}

#[test]
fn a_child_that_puts_out_nothing_is_updated_all_the_same() {
    // The left factor is zero throughout, so the product is silent; the
    // right factor must keep in step all the same.
    let mut gated = Product { left: Const { value: 0i64 }, right: ramp(9) };
    for _ in 0..5 {
        gated.update(tick());
        assert_eq!(gated.sample(), 0);
    }
    assert_eq!(gated.right.updates, 5);
    assert_eq!(gated.right.sample(), 45);
}

#[test]
fn operators_build_the_combinators() {
    let sum: Wrapped<Sum<Ramp, Ramp>> = ramp(1).wrap() + ramp(2);
    let sum = sum.unwrap();
    assert_eq!(sum.left, ramp(1));
    assert_eq!(sum.right, ramp(2));
    let product: Wrapped<Product<Ramp, Const<i64>>> = ramp(3).wrap() * Const { value: 4i64 };
    let product = product.unwrap();
    assert_eq!(product.left, ramp(3));
    assert_eq!(product.right.value, 4);
}

#[test]
fn operators_follow_the_usual_precedence() {
    // a * x + b * y, as in a chord of gated voices.
    let mut chord = ramp(1).wrap() * Const { value: 10i64 } + ramp(2).wrap() * Const { value: 100i64 };
    chord.update(tick());
    assert_eq!(chord.sample(), 1 * 10 + 2 * 100);
    chord.update(tick());
    assert_eq!(chord.sample(), 2 * 10 + 4 * 100);
    let Sum { left, right } = chord.unwrap();
    assert_eq!(left.left.updates, 2);
    assert_eq!(right.unwrap().left.updates, 2);
}

#[test]
fn model_of_a_node_agrees_with_the_node() {
    let mut r = ramp(3);
    let e = SampleTime { count: 4, rate: 48000 };
    let model = r.advanced(e);
    r.update(e);
    assert_eq!(r, model);
    assert_eq!(r.sample(), model.value());
    assert!(r.can_sample());
}
