//! The decision to stop playing.
//!
//! With each buffer the audio device reports two instants: when it asked
//! for the buffer, and when it expects the buffer to be heard. The
//! controlling side measures how far the playback instant of each report
//! lies after that of the first one. Once that is more than the time the
//! piece is meant to play, it waits until the buffer of that report is
//! heard, which is as long as the report's playback instant lies after its
//! own request, and then stops the stream. So playing ends when the sound
//! ends, not when the last buffer was handed over.
//!
//! All times here are whole nanoseconds.

use vstd::prelude::*;

verus! {

/// What to do after a report.
#[derive(Clone, Copy, Debug, PartialEq, Eq, Structural)]
pub enum Action {
    /// The piece has not played long enough: wait for the next report.
    Continue,
    /// The piece has played long enough: wait for the given time, then
    /// stop the stream.
    StopAfter(u128),
}

/// Whether a report shows that more than `target` has been played.
///
/// `played` is the time from the first report's playback instant to this
/// one's, or `None` where this one's is the earlier of the two, in which
/// case nothing has been played yet.
pub open spec fn target_passed_spec(played: Option<u128>, target: u128) -> bool {
    played matches Some(d) && d > target
}

/// Tells whether a report shows that more than `target` has been played.
#[verifier::when_used_as_spec(target_passed_spec)]
pub fn target_passed(played: Option<u128>, target: u128) -> (passed: bool)
    ensures
        passed == target_passed_spec(played, target),
{
    match played {
        Some(d) => d > target,
        None => false,
    }
}

/// Decides what to do after a report.
///
/// `played` is as for `target_passed`. `lead` is the time from the
/// report's request to its playback instant, or `None` where the request
/// is the later of the two. It is needed only once the target is passed.
pub fn decide(played: Option<u128>, lead: Option<u128>, target: u128) -> (v: Action)
    requires
        target_passed(played, target) ==> lead is Some,
    ensures
        target_passed(played, target) ==> v == Action::StopAfter(lead.unwrap()),
        !target_passed(played, target) ==> v == Action::Continue,
{
    if target_passed(played, target) {
        Action::StopAfter(lead.unwrap())
    } else {
        Action::Continue
    }
}

} // verus!
