use signal_graph::clock::SampleTime;
use signal_graph::combine::{Product, Sum};
use signal_graph::envelope::{adsr, ADSRState, ADSR};
use signal_graph::pitch::{Key, Note};
use signal_graph::render::render;
use signal_graph::source::{Const, Source};
use std::f32::consts::TAU;

// The nodes that need floating point are built here, on top of the
// library: a sine oscillator, and the envelope as a node of the graph.

fn as_secs(elapsed: SampleTime) -> f32 {
    elapsed.count as f32 / elapsed.rate as f32
}

/// Twelve-tone equal temperament, with the reference pitch at 440 Hz.
fn hz(note: Note) -> f32 {
    440.0 * 2f32.powf(note.0 as f32 / 12.0)
}

#[derive(Clone)]
struct Sine<Hz> {
    hz: Hz,
    phase: f32,
}

fn sine<Hz>(hz: Hz) -> Sine<Hz> {
    Sine { hz, phase: 0.0 }
}

type Vibrato<Hz, VibHz> = Sine<Sum<Hz, Product<Sine<VibHz>, Const<f32>>>>;

impl<Hz> Sine<Hz> {
    fn vibrato<VibHz>(self, hz: VibHz, cents: f32) -> Vibrato<Hz, VibHz> {
        let modulation = Product { left: sine(hz), right: Const { value: cents / 14.0 } };
        Sine { hz: Sum { left: self.hz, right: modulation }, phase: self.phase }
    }
}

impl<Hz> Source for Sine<Hz>
where
    Hz: Source<Sample = f32> + Clone,
{
    type Sample = f32;

    fn value(&self) -> f32 {
        self.sample()
    }

    fn advanced(&self, elapsed: SampleTime) -> Self {
        let mut next = self.clone();
        next.update(elapsed);
        next
    }

    fn can_sample(&self) -> bool {
        true
    }

    fn update(&mut self, elapsed: SampleTime) {
        self.hz.update(elapsed);
        self.phase = (self.phase + as_secs(elapsed) * self.hz.sample()).fract();
    }

    fn sample(&self) -> f32 {
        (self.phase * TAU).sin()
    }
}

struct Envelope(ADSR<f32>);

fn copy_of(e: &ADSR<f32>) -> ADSR<f32> {
    ADSR {
        active: e.active.clone(),
        attack_rate: e.attack_rate,
        decay_rate: e.decay_rate,
        sustain_level: e.sustain_level,
        release_rate: e.release_rate,
        time: e.time,
        state: e.state,
        level: e.level,
    }
}

impl Source for Envelope {
    type Sample = f32;

    fn value(&self) -> f32 {
        self.0.sample()
    }

    fn advanced(&self, elapsed: SampleTime) -> Self {
        let mut next = Envelope(copy_of(&self.0));
        next.update(elapsed);
        next
    }

    fn can_sample(&self) -> bool {
        true
    }

    fn update(&mut self, elapsed: SampleTime) {
        self.0.update(as_secs(elapsed));
    }

    fn sample(&self) -> f32 {
        self.0.sample()
    }
}

fn close(a: f32, b: f32) -> bool {
    (a - b).abs() < 1e-5
}

#[test]
fn equal_temperament_from_440() {
    assert_eq!(hz(Key::A.note(4)), 440.0);
    assert_eq!(hz(Key::A.note(5)), 880.0);
    assert_eq!(hz(Key::A.note(3)), 220.0);
    assert!((hz(Key::C.note(4)) - 261.6256).abs() < 1e-3);
    assert!((hz(Key::F.note(4)) - 349.2282).abs() < 1e-3);
}

#[test]
fn oscillator_returns_to_its_phase_after_one_period() {
    let mut osc = sine(Const { value: 440.0f32 });
    assert_eq!(osc.phase, 0.0);
    osc.update(SampleTime { count: 1, rate: 440 });
    let from_whole = osc.phase.min(1.0 - osc.phase);
    assert!(from_whole < 1e-6);
    assert!(close(osc.sample(), 0.0));
}

#[test]
fn oscillator_puts_out_the_sine_of_its_phase() {
    let at = |phase: f32| Sine { hz: Const { value: 0.0f32 }, phase }.sample();
    assert_eq!(at(0.0), 0.0);
    assert!(close(at(0.25), 1.0));
    assert!(close(at(0.5), 0.0));
    assert!(close(at(0.75), -1.0));
}

#[test]
fn oscillator_phase_stays_below_one() {
    let mut osc = sine(Const { value: 440.0f32 });
    for _ in 0..48_000 {
        osc.update(SampleTime { count: 1, rate: 48_000 });
        assert!(0.0 <= osc.phase && osc.phase < 1.0);
    }
}

#[test]
fn oscillator_at_a_quarter_of_the_rate() {
    // 12 kHz at 48 kHz: a quarter turn per tick, which is exact.
    let mut osc = sine(Const { value: 12_000.0f32 });
    let tick = SampleTime { count: 1, rate: 48_000 };
    let expected = [1.0, 0.0, -1.0, 0.0, 1.0];
    for want in expected {
        osc.update(tick);
        assert!(close(osc.sample(), want));
    }
    assert_eq!(osc.phase, 0.25);
}

#[test]
fn vibrato_of_14_cents_stays_within_one_hertz() {
    let base = 440.0f32;
    let mut osc = sine(Const { value: base }).vibrato(Const { value: 5.0f32 }, 14.0);
    assert_eq!(osc.hz.right.right.value, 1.0);
    let tick = SampleTime { count: 1, rate: 48_000 };
    let mut lowest = f32::INFINITY;
    let mut highest = f32::NEG_INFINITY;
    for _ in 0..48_000 {
        osc.update(tick);
        let now = osc.hz.sample();
        assert!(base - 1.0 <= now && now <= base + 1.0);
        assert_eq!(now, base + osc.hz.right.left.sample() * 1.0);
        lowest = lowest.min(now);
        highest = highest.max(now);
    }
    // Over five cycles of the modulator both ends are come close to.
    assert!(lowest < base - 0.999);
    assert!(highest > base + 0.999);
}

#[test]
fn vibrato_depth_is_cents_over_14() {
    let osc = sine(Const { value: 440.0f32 }).vibrato(Const { value: 2.0f32 }, 6.0);
    assert_eq!(osc.hz.right.right.value, 6.0 / 14.0);
    assert_eq!(osc.hz.left.value, 440.0);
    assert_eq!(osc.hz.right.left.hz.value, 2.0);
    assert_eq!(osc.phase, 0.0);
}

#[test]
fn modulator_is_advanced_with_the_oscillator() {
    let mut osc = sine(Const { value: 100.0f32 }).vibrato(Const { value: 12_000.0f32 }, 14.0);
    let tick = SampleTime { count: 1, rate: 48_000 };
    osc.update(tick);
    assert_eq!(osc.hz.right.left.phase, 0.25);
    osc.update(tick);
    assert_eq!(osc.hz.right.left.phase, 0.5);
}

#[test]
fn envelope_gates_an_oscillator() {
    let mut voice = Product {
        left: sine(Const { value: 12_000.0f32 }),
        right: Envelope(adsr(0.0..1.0, 24_000.0, 24_000.0, 0.5, 24_000.0)),
    };
    let tick = SampleTime { count: 1, rate: 48_000 };
    // First tick: the envelope begins, still silent; the oscillator is at
    // its crest.
    voice.update(tick);
    assert_eq!(voice.right.0.state, ADSRState::Attack);
    assert_eq!(voice.sample(), 0.0);
    // The level rises by a half per tick.
    voice.update(tick);
    voice.update(tick);
    assert_eq!(voice.right.sample(), 1.0);
    assert_eq!(voice.right.0.state, ADSRState::Decay);
    voice.update(tick);
    voice.update(tick);
    assert_eq!(voice.right.sample(), 0.5);
    assert_eq!(voice.right.0.state, ADSRState::Sustain);
    assert!(close(voice.left.sample(), 1.0));
    assert!(close(voice.sample(), 0.5));
}

/// One voice of the chord, computed with plain variables.
struct PlainVoice {
    base: f32,
    vib_hz: f32,
    depth: f32,
    vib_phase: f32,
    phase: f32,
    start: f32,
    end: f32,
    time: f32,
    level: f32,
    stage: u8,
}

impl PlainVoice {
    fn new(base: f32, vib_hz: f32, cents: f32, start: f32, end: f32) -> PlainVoice {
        PlainVoice {
            base,
            vib_hz,
            depth: cents / 14.0,
            vib_phase: 0.0,
            phase: 0.0,
            start,
            end,
            time: 0.0,
            level: 0.0,
            stage: 0,
        }
    }

    fn tick(&mut self, secs: f32) -> f32 {
        self.vib_phase = (self.vib_phase + secs * self.vib_hz).fract();
        let frequency = self.base + (self.vib_phase * TAU).sin() * self.depth;
        self.phase = (self.phase + secs * frequency).fract();
        self.time += secs;
        let inside = self.start <= self.time && self.time < self.end;
        match self.stage {
            0 => {
                if inside {
                    self.stage = 1;
                }
            }
            1 => {
                self.level += 8.0 * secs;
                if self.level >= 1.0 {
                    self.level = 1.0;
                    self.stage = 2;
                }
            }
            2 => {
                self.level -= 15.0 * secs;
                if self.level <= 0.6 {
                    self.level = 0.6;
                    self.stage = 3;
                }
            }
            3 => {
                if !inside {
                    self.stage = 4;
                }
            }
            4 => {
                self.level -= 1.0 * secs;
                if self.level <= 0.0 {
                    self.level = 0.0;
                    self.stage = 5;
                }
            }
            _ => {}
        }
        (self.phase * TAU).sin() * self.level
    }
}

#[test]
fn chord_of_three_voices_end_to_end() {
    let rate: u32 = 48_000;
    let channels: usize = 2;
    let seconds: usize = 5;

    let a = hz(Key::A.note(4));
    let c = hz(Key::C.note(4));
    let f = hz(Key::F.note(4));

    let chord = sine(Const { value: a }).vibrato(Const { value: 2.0f32 }, 6.0).wrap()
        * Envelope(adsr(0.0..3.1, 8.0, 15.0, 0.6, 1.0))
        + sine(Const { value: c }).vibrato(Const { value: 50.0f32 }, 8.0).wrap()
            * Envelope(adsr(1.0..3.2, 8.0, 15.0, 0.6, 1.0))
        + sine(Const { value: f }).vibrato(Const { value: 50.0f32 }, 14.0).wrap()
            * Envelope(adsr(2.0..3.4, 8.0, 15.0, 0.6, 1.0));
    let mut chord = chord.unwrap();

    let mut plain = [
        PlainVoice::new(a, 2.0, 6.0, 0.0, 3.1),
        PlainVoice::new(c, 50.0, 8.0, 1.0, 3.2),
        PlainVoice::new(f, 50.0, 14.0, 2.0, 3.4),
    ];
    let secs = 1.0 / rate as f32;

    let frames = seconds * rate as usize;
    let mut rendered = 0;
    let mut loudest = 0.0f32;
    let mut buf = vec![0.0f32; 1000 * channels];
    while rendered < frames {
        let now = (frames - rendered).min(1000);
        let part = &mut buf[..now * channels];
        render(&mut chord, part, channels, rate);
        for frame in part.chunks(channels) {
            let v0 = plain[0].tick(secs);
            let v1 = plain[1].tick(secs);
            let v2 = plain[2].tick(secs);
            let want = v0 + v1 + v2;
            assert_eq!(frame, [want, want]);
            loudest = loudest.max(want.abs());
        }
        rendered += now;
    }
    assert_eq!(rendered, 240_000);

    // Something was heard, and the chord has ended: every envelope is over
    // and the last frame is silent.
    assert!(loudest > 1.0);
    assert_eq!(chord.left.left.right.0.state, ADSRState::After);
    assert_eq!(chord.left.right.0.right.0.state, ADSRState::After);
    assert_eq!(chord.right.0.right.0.state, ADSRState::After);
    assert_eq!(buf[1998], 0.0);
    assert_eq!(buf[1999], 0.0);
}

#[test]
fn chord_is_reproducible() {
    let build = || {
        Sum {
            left: Product {
                left: sine(Const { value: 440.0f32 }).vibrato(Const { value: 2.0f32 }, 6.0),
                right: Envelope(adsr(0.0..0.5, 8.0, 15.0, 0.6, 1.0)),
            },
            right: Product {
                left: sine(Const { value: 261.6f32 }).vibrato(Const { value: 50.0f32 }, 8.0),
                right: Envelope(adsr(0.1..0.6, 8.0, 15.0, 0.6, 1.0)),
            },
        }
    };
    let mut first = vec![0.0f32; 96_000];
    let mut second = vec![1.0f32; 96_000];
    render(&mut build(), &mut first, 2, 48_000);
    // The second time in buffers of uneven size.
    let mut graph = build();
    let (head, tail) = second.split_at_mut(30_000);
    render(&mut graph, head, 2, 48_000);
    render(&mut graph, tail, 2, 48_000);
    assert!(first == second);
    assert!(first.iter().any(|v| *v != 0.0));
}
