//! The attack-decay-sustain-release envelope.
//!
//! An envelope shapes the loudness of one voice over time. Its level rises
//! to the peak, falls to the sustain level, holds while the voice is active
//! and falls to silence afterwards.
//!
//! The first half of this file is the state machine that decides, tick by
//! tick, which of these stages the envelope is in. It is told two things
//! about each tick: whether the envelope's clock stands inside its active
//! window, and whether the level has come to the limit of the present
//! stage. The machine only ever moves forward, by at most one stage per
//! tick, and the last stage is never left: an envelope sounds once.
//!
//! The second half is the envelope itself, which keeps the clock and the
//! level and drives the machine. It is written for any type of number that
//! has `+`, `-`, `*`, an order, and a zero and a one that come from `u8`.
//! What it computes is stated through the specifications of those
//! operators, and holds for every type whose operators obey them.

use vstd::prelude::*;
use vstd::std_specs::cmp::PartialOrdIs;
use vstd::std_specs::cmp::PartialOrdSpec;
use vstd::std_specs::convert::FromSpec;
use vstd::std_specs::ops::AddSpec;
use vstd::std_specs::ops::MulSpec;
use vstd::std_specs::ops::SubSpec;
use vstd::std_specs::range::ContainsSpec;
use std::cmp::Ordering;
use std::ops::Range;

verus! {

/// The stages of an envelope, in the order in which they are passed.
#[derive(Clone, Copy, Debug, PartialEq, Eq, Structural)]
pub enum ADSRState {
    /// The active window has not been entered yet; the level is at rest.
    Before,
    /// The level rises towards the peak.
    Attack,
    /// The level falls towards the sustain level.
    Decay,
    /// The level holds until the active window is left.
    Sustain,
    /// The level falls towards silence.
    Release,
    /// The envelope is over.
    After,
}

/// The level at which a stage ends.
#[derive(Clone, Copy, Debug, PartialEq, Eq, Structural)]
pub enum Limit {
    /// Full level, the upper end of the level's range.
    Peak,
    /// The level that is held while the voice is active.
    Sustain,
    /// Silence, the lower end of the level's range.
    Floor,
}

/// What the machine is told about one tick.
#[derive(Clone, Copy, Debug, PartialEq, Eq, Structural)]
pub struct Tick {
    /// The envelope's clock, this tick included, is inside the active
    /// window.
    pub in_window: bool,
    /// The level, after this tick's change, has reached or passed the limit
    /// of the present stage.
    pub at_limit: bool,
}

impl ADSRState {
    /// The place of the stage in the order of stages, from 0 for `Before`
    /// to 5 for `After`.
    pub open spec fn rank(self) -> nat {
        match self {
            ADSRState::Before => 0,
            ADSRState::Attack => 1,
            ADSRState::Decay => 2,
            ADSRState::Sustain => 3,
            ADSRState::Release => 4,
            ADSRState::After => 5,
        }
    }

    /// The limit that the level moves towards in this stage: the peak while
    /// it rises, the sustain level or silence while it falls. `None` for
    /// the stages in which the level does not move.
    pub open spec fn limit_spec(self) -> Option<Limit> {
        match self {
            ADSRState::Attack => Some(Limit::Peak),
            ADSRState::Decay => Some(Limit::Sustain),
            ADSRState::Release => Some(Limit::Floor),
            _ => None,
        }
    }

    /// The stage that follows this one after a tick.
    ///
    /// `Before` ends when the window is entered and `Sustain` when it is
    /// left; `Attack`, `Decay` and `Release` end when the level comes to
    /// their limit; `After` does not end.
    pub open spec fn next_spec(self, tick: Tick) -> ADSRState {
        match self {
            ADSRState::Before => if tick.in_window {
                ADSRState::Attack
            } else {
                ADSRState::Before
            },
            ADSRState::Attack => if tick.at_limit {
                ADSRState::Decay
            } else {
                ADSRState::Attack
            },
            ADSRState::Decay => if tick.at_limit {
                ADSRState::Sustain
            } else {
                ADSRState::Decay
            },
            ADSRState::Sustain => if tick.in_window {
                ADSRState::Sustain
            } else {
                ADSRState::Release
            },
            ADSRState::Release => if tick.at_limit {
                ADSRState::After
            } else {
                ADSRState::Release
            },
            ADSRState::After => ADSRState::After,
        }
    }

    /// The stage reached from this one after the ticks of `ticks`, first
    /// to last.
    pub open spec fn run(self, ticks: Seq<Tick>) -> ADSRState
        decreases ticks.len(),
    {
        if ticks.len() == 0 {
            self
        } else {
            self.run(ticks.drop_last()).next_spec(ticks.last())
        }
    }

    /// The limit that the level moves towards in this stage, if it moves.
    pub fn limit(self) -> (l: Option<Limit>)
        ensures
            l == self.limit_spec(),
    {
        match self {
            ADSRState::Attack => Some(Limit::Peak),
            ADSRState::Decay => Some(Limit::Sustain),
            ADSRState::Release => Some(Limit::Floor),
            _ => None,
        }
    }

    /// The stage that follows this one after `tick`.
    pub fn next(self, tick: Tick) -> (s: ADSRState)
        ensures
            s == self.next_spec(tick),
    {
        match self {
            ADSRState::Before => {
                if tick.in_window {
                    ADSRState::Attack
                } else {
                    ADSRState::Before
                }
            },
            ADSRState::Attack => {
                if tick.at_limit {
                    ADSRState::Decay
                } else {
                    ADSRState::Attack
                }
            },
            ADSRState::Decay => {
                if tick.at_limit {
                    ADSRState::Sustain
                } else {
                    ADSRState::Decay
                }
            },
            ADSRState::Sustain => {
                if tick.in_window {
                    ADSRState::Sustain
                } else {
                    ADSRState::Release
                }
            },
            ADSRState::Release => {
                if tick.at_limit {
                    ADSRState::After
                } else {
                    ADSRState::Release
                }
            },
            ADSRState::After => ADSRState::After,
        }
    }
}

/// A tick moves the machine forward by one stage or leaves it where it is:
/// there is no way back, and no stage is skipped.
pub proof fn law_one_stage_forward(state: ADSRState, tick: Tick)
    ensures
        state.rank() <= state.next_spec(tick).rank() <= state.rank() + 1,
{
}

/// The envelope sounds once: from `After` every run of ticks ends in
/// `After`, also where the clock stands inside the active window again.
pub proof fn law_after_is_terminal(ticks: Seq<Tick>)
    ensures
        ADSRState::After.run(ticks) == ADSRState::After,
    decreases ticks.len(),
{
    if ticks.len() > 0 {
        law_after_is_terminal(ticks.drop_last());
    }
}

/// Over any run of ticks the machine moves forward only, and by no more
/// stages than there are ticks.
pub proof fn law_run_moves_forward(state: ADSRState, ticks: Seq<Tick>)
    ensures
        state.rank() <= state.run(ticks).rank() <= state.rank() + ticks.len(),
    decreases ticks.len(),
{
    if ticks.len() > 0 {
        law_run_moves_forward(state, ticks.drop_last());
    }
}

/// The level moves exactly in the stages that end at a limit of the level;
/// the other stages end with the active window or not at all.
pub proof fn law_limit_stages(state: ADSRState)
    ensures
        state.limit_spec() is Some <==> state == ADSRState::Attack || state == ADSRState::Decay
            || state == ADSRState::Release,
        forall|a: Tick, b: Tick|
            state.limit_spec() is Some && a.at_limit == b.at_limit ==> state.next_spec(a)
                == state.next_spec(b),
        forall|a: Tick, b: Tick|
            state.limit_spec() is None && a.in_window == b.in_window ==> state.next_spec(a)
                == state.next_spec(b),
{
}

/// An envelope: its parameters, its clock, its stage and its level.
///
/// Times are in seconds and rates in level per second. The level starts at
/// zero and moves between zero and one.
#[derive(Debug)]
pub struct ADSR<T> {
    /// The window of the envelope's clock in which the voice is active:
    /// from `start`, which belongs to it, to `end`, which does not.
    pub active: Range<T>,
    /// How fast the level rises in `Attack`.
    pub attack_rate: T,
    /// How fast the level falls in `Decay`.
    pub decay_rate: T,
    /// The level that is held in `Sustain`.
    pub sustain_level: T,
    /// How fast the level falls in `Release`.
    pub release_rate: T,
    /// The envelope's clock: the sum of all the time that has elapsed since
    /// the envelope was made.
    pub time: T,
    /// The present stage.
    pub state: ADSRState,
    /// The present level.
    pub level: T,
}

impl<T> ADSR<T> where
    T: Copy + From<u8> + PartialOrd + std::ops::Add<Output = T> + std::ops::Sub<Output = T>
        + std::ops::Mul<Output = T>,
 {
    /// Whether the operators of `T` obey their specifications, so that what
    /// the envelope computes can be stated.
    pub open spec fn arithmetic_obeys() -> bool {
        &&& T::obeys_from_spec()
        &&& T::obeys_partial_cmp_spec()
        &&& T::obeys_add_spec()
        &&& T::obeys_sub_spec()
        &&& T::obeys_mul_spec()
    }

    /// Silence: the zero of `T`.
    pub open spec fn floor() -> T {
        T::from_spec(0u8)
    }

    /// Full level: the one of `T`.
    pub open spec fn peak() -> T {
        T::from_spec(1u8)
    }

    /// The level at which the present stage ends, for the stages that end
    /// at a level.
    pub open spec fn limit_level(self) -> Option<T> {
        match self.state.limit_spec() {
            Some(Limit::Peak) => Some(Self::peak()),
            Some(Limit::Sustain) => Some(self.sustain_level),
            Some(Limit::Floor) => Some(Self::floor()),
            None => None,
        }
    }

    /// The level after `elapsed` at the rate of the present stage, before
    /// it is held to the stage's limit: up in `Attack`, down in `Decay` and
    /// `Release`, unchanged in the other stages.
    pub open spec fn moved_level(self, elapsed: T) -> T {
        match self.state.limit_spec() {
            Some(Limit::Peak) => self.level.add_spec(self.attack_rate.mul_spec(elapsed)),
            Some(Limit::Sustain) => self.level.sub_spec(self.decay_rate.mul_spec(elapsed)),
            Some(Limit::Floor) => self.level.sub_spec(self.release_rate.mul_spec(elapsed)),
            None => self.level,
        }
    }

    /// What the state machine is told about a tick of `elapsed`: whether
    /// the clock, the tick included, stands inside the active window, and
    /// whether the moved level has reached the limit of the present stage,
    /// from below for the peak and from above for the other two.
    pub open spec fn observed(self, elapsed: T) -> Tick {
        Tick {
            in_window: self.active.contains_spec(&self.time.add_spec(elapsed)),
            at_limit: match self.state.limit_spec() {
                Some(Limit::Peak) => self.moved_level(elapsed).is_ge(&Self::peak()),
                Some(Limit::Sustain) => self.moved_level(elapsed).is_le(&self.sustain_level),
                Some(Limit::Floor) => self.moved_level(elapsed).is_le(&Self::floor()),
                None => false,
            },
        }
    }

    /// The envelope after a tick of `elapsed`. The clock has gone on by
    /// `elapsed`; the stage is the one the state machine gives for what was
    /// observed; the level is the moved level, or the limit of the stage
    /// where that was reached. The parameters stay.
    pub open spec fn updated(self, elapsed: T) -> Self {
        let tick = self.observed(elapsed);
        ADSR {
            time: self.time.add_spec(elapsed),
            state: self.state.next_spec(tick),
            level: if tick.at_limit {
                self.limit_level().unwrap()
            } else {
                self.moved_level(elapsed)
            },
            ..self
        }
    }

    /// The envelope after one tick for each time in `elapsed`, first to
    /// last.
    pub open spec fn updated_through(self, elapsed: Seq<T>) -> Self
        decreases elapsed.len(),
    {
        if elapsed.len() == 0 {
            self
        } else {
            self.updated_through(elapsed.drop_last()).updated(elapsed.last())
        }
    }

    /// Whether a tick of `elapsed` can be computed: the operators of `T`
    /// obey their specifications, and the sum for the clock and the product
    /// and the sum or difference for the level are within the domains of
    /// `+`, `*` and `-`.
    pub open spec fn can_update(self, elapsed: T) -> bool {
        &&& Self::arithmetic_obeys()
        &&& self.time.add_req(elapsed)
        &&& match self.state.limit_spec() {
            Some(Limit::Peak) => {
                &&& self.attack_rate.mul_req(elapsed)
                &&& self.level.add_req(self.attack_rate.mul_spec(elapsed))
            },
            Some(Limit::Sustain) => {
                &&& self.decay_rate.mul_req(elapsed)
                &&& self.level.sub_req(self.decay_rate.mul_spec(elapsed))
            },
            Some(Limit::Floor) => {
                &&& self.release_rate.mul_req(elapsed)
                &&& self.level.sub_req(self.release_rate.mul_spec(elapsed))
            },
            None => true,
        }
    }

    /// The level is at rest where the stage says so: silent before the
    /// envelope has begun and after it has ended, and at the sustain level
    /// while that is held.
    pub open spec fn wf(self) -> bool {
        &&& self.state == ADSRState::Before ==> self.level == Self::floor()
        &&& self.state == ADSRState::Sustain ==> self.level == self.sustain_level
        &&& self.state == ADSRState::After ==> self.level == Self::floor()
    }

    /// `a <= b` in the order of `T`.
    pub open spec fn at_most(a: T, b: T) -> bool {
        a.is_le(&b)
    }

    /// Whether the order and the arithmetic of `T` behave as those of
    /// numbers do, as far as the range of the level depends on it: any two
    /// values compare, and where one is greater the other is at most it;
    /// `<=` holds of a value and itself and is transitive; adding what is
    /// not below zero does not make smaller and taking it away does not
    /// make larger; and the product of two values not below zero is not
    /// below zero. Of the arithmetic this is asked only where the operators
    /// are within their domains.
    pub open spec fn numbers_are_ordered() -> bool {
        &&& forall|a: T, b: T| (#[trigger] a.partial_cmp_spec(&b)) is Some
        &&& forall|a: T, b: T| (#[trigger] a.partial_cmp_spec(&b)) == Some(Ordering::Greater)
            ==> Self::at_most(b, a)
        &&& forall|a: T| #[trigger] Self::at_most(a, a)
        &&& forall|a: T, b: T, c: T| #[trigger]
            Self::at_most(a, b) && #[trigger] Self::at_most(b, c) ==> Self::at_most(a, c)
        &&& forall|a: T, b: T|
            a.add_req(b) && Self::at_most(Self::floor(), b) ==> Self::at_most(
                a,
                #[trigger] a.add_spec(b),
            )
        &&& forall|a: T, b: T|
            a.sub_req(b) && Self::at_most(Self::floor(), b) ==> Self::at_most(
                #[trigger] a.sub_spec(b),
                a,
            )
        &&& forall|a: T, b: T|
            a.mul_req(b) && Self::at_most(Self::floor(), a) && Self::at_most(Self::floor(), b)
                ==> Self::at_most(Self::floor(), #[trigger] a.mul_spec(b))
    }

    /// Whether `x` lies between silence and full level, both included.
    pub open spec fn in_range(x: T) -> bool {
        Self::at_most(Self::floor(), x) && Self::at_most(x, Self::peak())
    }

    /// Whether the parameters are those of an envelope that runs forward:
    /// no rate is below zero, and the sustain level lies in the level's
    /// range.
    pub open spec fn well_tuned(self) -> bool {
        &&& Self::at_most(Self::floor(), self.attack_rate)
        &&& Self::at_most(Self::floor(), self.decay_rate)
        &&& Self::at_most(Self::floor(), self.release_rate)
        &&& Self::in_range(self.sustain_level)
    }

    /// Moves the envelope forward by `elapsed` seconds.
    pub fn update(&mut self, elapsed: T)
        requires
            old(self).can_update(elapsed),
        ensures
            *final(self) == old(self).updated(elapsed),
    {
        self.time = self.time + elapsed;
        let in_window = self.active.contains(&self.time);
        let mut at_limit = false;
        match self.state.limit() {
            Some(Limit::Peak) => {
                self.level = self.level + self.attack_rate * elapsed;
                let peak = T::from(1u8);
                if self.level >= peak {
                    self.level = peak;
                    at_limit = true;
                }
            },
            Some(Limit::Sustain) => {
                self.level = self.level - self.decay_rate * elapsed;
                if self.level <= self.sustain_level {
                    self.level = self.sustain_level;
                    at_limit = true;
                }
            },
            Some(Limit::Floor) => {
                self.level = self.level - self.release_rate * elapsed;
                let floor = T::from(0u8);
                if self.level <= floor {
                    self.level = floor;
                    at_limit = true;
                }
            },
            None => {},
        }
        self.state = self.state.next(Tick { in_window, at_limit });
    }

    /// The present level.
    pub fn sample(&self) -> (v: T)
        ensures
            v == self.level,
    {
        self.level
    }
}

/// Makes an envelope with the given parameters. Its clock is at zero, it
/// has not begun, and it is silent.
pub fn adsr<T>(
    active: Range<T>,
    attack_rate: T,
    decay_rate: T,
    sustain_level: T,
    release_rate: T,
) -> (e: ADSR<T>) where
    T: Copy + From<u8> + PartialOrd + std::ops::Add<Output = T> + std::ops::Sub<Output = T>
        + std::ops::Mul<Output = T>,

    ensures
        e.active == active,
        e.attack_rate == attack_rate,
        e.decay_rate == decay_rate,
        e.sustain_level == sustain_level,
        e.release_rate == release_rate,
        e.state == ADSRState::Before,
        T::obeys_from_spec() ==> e.time == ADSR::<T>::floor() && e.level == ADSR::<T>::floor()
            && e.wf(),
{
    ADSR {
        active,
        attack_rate,
        decay_rate,
        sustain_level,
        release_rate,
        time: T::from(0u8),
        state: ADSRState::Before,
        level: T::from(0u8),
    }
}

/// A tick moves an envelope forward by one stage or leaves it in its stage,
/// and leaves the level at rest where the new stage says so.
pub proof fn law_update_moves_forward<T>(e: ADSR<T>, elapsed: T) where
    T: Copy + From<u8> + PartialOrd + std::ops::Add<Output = T> + std::ops::Sub<Output = T>
        + std::ops::Mul<Output = T>,

    requires
        e.wf(),
    ensures
        e.state.rank() <= e.updated(elapsed).state.rank() <= e.state.rank() + 1,
        e.updated(elapsed).wf(),
{
}

/// Over any run of ticks an envelope moves forward only, by no more stages
/// than there are ticks, and its state machine has run on what was
/// observed at each tick.
pub proof fn law_envelope_moves_forward<T>(e: ADSR<T>, elapsed: Seq<T>) where
    T: Copy + From<u8> + PartialOrd + std::ops::Add<Output = T> + std::ops::Sub<Output = T>
        + std::ops::Mul<Output = T>,

    requires
        e.wf(),
    ensures
        e.state.rank() <= e.updated_through(elapsed).state.rank() <= e.state.rank()
            + elapsed.len(),
        e.updated_through(elapsed).wf(),
        e.updated_through(elapsed).state == e.state.run(
            Seq::new(
                elapsed.len(),
                |i: int| e.updated_through(elapsed.take(i)).observed(elapsed[i]),
            ),
        ),
    decreases elapsed.len(),
{
    let ticks = Seq::new(
        elapsed.len(),
        |i: int| e.updated_through(elapsed.take(i)).observed(elapsed[i]),
    );
    if elapsed.len() > 0 {
        let before = elapsed.drop_last();
        law_envelope_moves_forward(e, before);
        law_update_moves_forward(e.updated_through(before), elapsed.last());
        let ticks_before = Seq::new(
            before.len(),
            |i: int| e.updated_through(before.take(i)).observed(before[i]),
        );
        assert(ticks.drop_last() =~= ticks_before) by {
            assert forall|i: int| 0 <= i < before.len() implies before.take(i) == elapsed.take(
                i,
            ) by {
                assert(before.take(i) =~= elapsed.take(i));
            }
        }
        assert(elapsed.take(elapsed.len() - 1) =~= before);
    }
}

/// An envelope that is over stays over and silent, whatever time elapses
/// and wherever its clock stands: it does not sound a second time.
pub proof fn law_envelope_sounds_once<T>(e: ADSR<T>, elapsed: Seq<T>) where
    T: Copy + From<u8> + PartialOrd + std::ops::Add<Output = T> + std::ops::Sub<Output = T>
        + std::ops::Mul<Output = T>,

    requires
        e.wf(),
        e.state == ADSRState::After,
    ensures
        e.updated_through(elapsed).state == ADSRState::After,
        e.updated_through(elapsed).level == ADSR::<T>::floor(),
{
    law_envelope_moves_forward(e, elapsed);
}

/// The level changes only in the three stages that have a limit, and when
/// such a stage ends the level stands exactly at that limit.
pub proof fn law_level_held_to_limit<T>(e: ADSR<T>, elapsed: T) where
    T: Copy + From<u8> + PartialOrd + std::ops::Add<Output = T> + std::ops::Sub<Output = T>
        + std::ops::Mul<Output = T>,

    ensures
        e.state.limit_spec() is None ==> e.updated(elapsed).level == e.level,
        e.state.limit_spec() is Some && e.updated(elapsed).state != e.state ==> Some(
            e.updated(elapsed).level,
        ) == e.limit_level(),
{
}

/// The level stays between silence and full level: where numbers are
/// ordered as numbers are, the envelope is well tuned and the time that
/// elapses is not negative, a tick takes a level in the range to a level in
/// the range.
pub proof fn law_level_stays_in_range<T>(e: ADSR<T>, elapsed: T) where
    T: Copy + From<u8> + PartialOrd + std::ops::Add<Output = T> + std::ops::Sub<Output = T>
        + std::ops::Mul<Output = T>,

    requires
        ADSR::<T>::numbers_are_ordered(),
        e.can_update(elapsed),
        e.well_tuned(),
        ADSR::<T>::at_most(ADSR::<T>::floor(), elapsed),
        ADSR::<T>::in_range(e.level),
    ensures
        ADSR::<T>::in_range(e.updated(elapsed).level),
{
    let floor = ADSR::<T>::floor();
    let peak = ADSR::<T>::peak();
    let moved = e.moved_level(elapsed);
    assert(ADSR::<T>::at_most(floor, peak));
    assert(ADSR::<T>::at_most(peak, peak));
    assert(ADSR::<T>::at_most(floor, floor));
    match e.state.limit_spec() {
        Some(Limit::Peak) => {
            let change = e.attack_rate.mul_spec(elapsed);
            assert(ADSR::<T>::at_most(floor, change));
            assert(ADSR::<T>::at_most(e.level, moved));
            assert(ADSR::<T>::at_most(floor, moved));
            assert(moved.partial_cmp_spec(&peak) is Some);
        },
        Some(Limit::Sustain) => {
            let change = e.decay_rate.mul_spec(elapsed);
            assert(ADSR::<T>::at_most(floor, change));
            assert(ADSR::<T>::at_most(moved, e.level));
            assert(ADSR::<T>::at_most(moved, peak));
            assert(moved.partial_cmp_spec(&e.sustain_level) is Some);
            if moved.partial_cmp_spec(&e.sustain_level) == Some(Ordering::Greater) {
                assert(ADSR::<T>::at_most(e.sustain_level, moved));
                assert(ADSR::<T>::at_most(floor, moved));
            }
        },
        Some(Limit::Floor) => {
            let change = e.release_rate.mul_spec(elapsed);
            assert(ADSR::<T>::at_most(floor, change));
            assert(ADSR::<T>::at_most(moved, e.level));
            assert(ADSR::<T>::at_most(moved, peak));
            assert(moved.partial_cmp_spec(&floor) is Some);
            if moved.partial_cmp_spec(&floor) == Some(Ordering::Greater) {
                assert(ADSR::<T>::at_most(floor, moved));
            }
        },
        None => {},
    }
}

/// The whole numbers of 64 bits are ordered as numbers are.
pub proof fn law_whole_numbers_are_ordered()
    ensures
        ADSR::<u64>::arithmetic_obeys(),
        ADSR::<u64>::numbers_are_ordered(),
        ADSR::<u64>::floor() == 0,
        ADSR::<u64>::peak() == 1,
{
    assert forall|a: u64, b: u64|
        a.mul_req(b) && ADSR::<u64>::at_most(0, a) && ADSR::<u64>::at_most(
            0,
            b,
        ) implies ADSR::<u64>::at_most(0, #[trigger] a.mul_spec(b)) by {
        assert(0 <= a * b) by (nonlinear_arith)
            requires
                0 <= a,
                0 <= b,
        ;
    }
}

} // verus!
