//! Pitch arithmetic: the twelve keys of an octave and notes counted in
//! semitones from the reference pitch, the A of octave 4.

use vstd::prelude::*;

verus! {

/// The twelve pitch classes of the equal-tempered scale.
#[derive(Clone, Copy, Debug)]
pub enum Key {
    A,
    ASharp,
    B,
    C,
    CSharp,
    D,
    DSharp,
    E,
    F,
    FSharp,
    G,
    GSharp,
}

/// A pitch, as a number of semitones above the reference pitch (below it
/// where negative).
#[derive(Clone, Copy, Debug)]
pub struct Note(pub i32);

impl Key {
    /// The distance of the key from the A of its own octave, in semitones.
    /// An octave runs from C up to B, so C lies nine semitones below its A
    /// and B two above.
    pub open spec fn offset(self) -> int {
        match self {
            Key::C => -9,
            Key::CSharp => -8,
            Key::D => -7,
            Key::DSharp => -6,
            Key::E => -5,
            Key::F => -4,
            Key::FSharp => -3,
            Key::G => -2,
            Key::GSharp => -1,
            Key::A => 0,
            Key::ASharp => 1,
            Key::B => 2,
        }
    }

    /// The distance of the key in `octave` from the reference pitch, in
    /// semitones: twelve for each octave above the fourth, and the key's
    /// offset within its octave.
    pub open spec fn semitones(self, octave: int) -> int {
        (octave - 4) * 12 + self.offset()
    }

    /// Whether the note of this key in `octave` can be computed in 32 bits:
    /// whether the octave's share and the whole distance both fit.
    pub open spec fn fits(self, octave: i32) -> bool {
        &&& i32::MIN <= (octave - 4) * 12 <= i32::MAX
        &&& i32::MIN <= self.semitones(octave as int) <= i32::MAX
    }

    /// The note of this key in `octave`.
    pub fn note(self, octave: i32) -> (n: Note)
        requires
            self.fits(octave),
        ensures
            n.0 == self.semitones(octave as int),
    {
        let within: i32 = match self {
            Key::C => -9,
            Key::CSharp => -8,
            Key::D => -7,
            Key::DSharp => -6,
            Key::E => -5,
            Key::F => -4,
            Key::FSharp => -3,
            Key::G => -2,
            Key::GSharp => -1,
            Key::A => 0,
            Key::ASharp => 1,
            Key::B => 2,
        };
        Note((octave - 4) * 12 + within)
    }
}

/// The same key one octave up lies twelve semitones higher.
pub proof fn law_octave_is_twelve_semitones(key: Key, octave: int)
    ensures
        key.semitones(octave + 1) == key.semitones(octave) + 12,
{
}

/// Every distance from the reference pitch is the note of exactly one key
/// in exactly one octave.
pub proof fn law_every_semitone_has_one_name(n: int)
    ensures
        exists|key: Key, octave: int| key.semitones(octave) == n,
        forall|k1: Key, o1: int, k2: Key, o2: int|
            k1.semitones(o1) == n && k2.semitones(o2) == n ==> k1 == k2 && o1 == o2,
{
    let q = (n + 9) / 12;
    let r = (n + 9) % 12;
    let key = if r == 0 {
        Key::C
    } else if r == 1 {
        Key::CSharp
    } else if r == 2 {
        Key::D
    } else if r == 3 {
        Key::DSharp
    } else if r == 4 {
        Key::E
    } else if r == 5 {
        Key::F
    } else if r == 6 {
        Key::FSharp
    } else if r == 7 {
        Key::G
    } else if r == 8 {
        Key::GSharp
    } else if r == 9 {
        Key::A
    } else if r == 10 {
        Key::ASharp
    } else {
        Key::B
    };
    assert(key.semitones(q + 4) == n);
}

} // verus!
