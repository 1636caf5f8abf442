//! A signal graph for rendering tones sample by sample.
//!
//! A graph is a tree of nodes, each of which puts out one value per tick
//! of an exact sample clock. This library holds the clock, the nodes'
//! common interface with the sum and product of two nodes, the notes of
//! the equal-tempered scale, the attack-decay-sustain-release envelope, the
//! loop that renders a graph into the frames of an audio buffer, and the
//! decision when a piece has played long enough to stop.

pub mod clock;
pub mod source;
pub mod combine;
pub mod operators;
pub mod pitch;
pub mod envelope;
pub mod render;
pub mod playback;
