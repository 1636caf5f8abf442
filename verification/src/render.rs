//! The render loop: fills one buffer of the audio device from the graph.
//!
//! A buffer holds frames, one after the other, and each frame holds one
//! slot for each output channel. For each frame the root of the graph is
//! moved forward by one sample period and read once, and what it puts out
//! is written to every slot of the frame: the signal is mono. Where the
//! buffer does not end on a frame's boundary, the last frame is short and
//! is filled like the others.

use vstd::prelude::*;
use vstd::std_specs::ops::AddSpec;
use vstd::std_specs::ops::MulSpec;
use crate::clock::SampleTime;
use crate::combine::Product;
use crate::combine::Sum;
use crate::combine::law_product_ticks;
use crate::combine::law_sum_ticks;
use crate::source::Source;
use crate::source::after_ticks;
use crate::source::law_ticks_add_up;

verus! {

/// One sample period at `sample_rate`.
pub open spec fn period(sample_rate: u32) -> SampleTime {
    SampleTime { count: 1, rate: sample_rate }
}

/// The number of frames that a buffer of `len` slots holds, a short last
/// frame included.
pub open spec fn frames(len: nat, channels: nat) -> nat
    recommends
        channels > 0,
{
    ((len + channels - 1) / (channels as int)) as nat
}

/// The place of the frame to which slot `i` belongs, from 0.
pub open spec fn frame_of(i: int, channels: nat) -> nat
    recommends
        0 <= i,
        channels > 0,
{
    (i / (channels as int)) as nat
}

/// What a buffer of `len` slots holds after `node` has been rendered into
/// it: every slot of frame `f` holds what the node puts out after `f + 1`
/// ticks of one sample period each.
pub open spec fn rendered<S: Source>(node: S, sample_rate: u32, channels: nat, len: nat) -> Seq<
    S::Sample,
> {
    Seq::new(
        len,
        |i: int| after_ticks(node, period(sample_rate), frame_of(i, channels) + 1).value(),
    )
}

/// Renders one buffer.
///
/// The graph is moved forward by one tick for each frame of the buffer, and
/// the buffer is filled with what the graph put out after each of them. The
/// graph must be readable after each of those ticks.
pub fn render<S>(source: &mut S, buf: &mut [S::Sample], channels: usize, sample_rate: u32) where
    S: Source,
    S::Sample: Copy,

    requires
        channels > 0,
        sample_rate > 0,
        forall|k: nat|
            1 <= k <= frames(old(buf)@.len(), channels as nat) ==> #[trigger] after_ticks(
                *old(source),
                period(sample_rate),
                k,
            ).can_sample(),
    ensures
        *final(source) == after_ticks(
            *old(source),
            period(sample_rate),
            frames(old(buf)@.len(), channels as nat),
        ),
        final(buf)@ == rendered(*old(source), sample_rate, channels as nat, old(buf)@.len()),
{
    let ghost start_node = *source;
    let ghost tick = period(sample_rate);
    let len: usize = buf.len();
    let mut start: usize = 0;
    let mut done: Ghost<nat> = Ghost(0);
    proof {
        lemma_empty_buffer(channels as nat);
    }
    while start < len
        invariant
            channels > 0,
            sample_rate > 0,
            tick == period(sample_rate),
            len == buf@.len(),
            start <= len,
            start < len ==> start == done@ * channels,
            start == len ==> done@ == frames(len as nat, channels as nat),
            done@ <= frames(len as nat, channels as nat),
            *source == after_ticks(start_node, tick, done@),
            forall|k: nat|
                1 <= k <= frames(len as nat, channels as nat) ==> #[trigger] after_ticks(
                    start_node,
                    tick,
                    k,
                ).can_sample(),
            forall|i: int|
                0 <= i < start ==> #[trigger] buf@[i] == after_ticks(
                    start_node,
                    tick,
                    frame_of(i, channels as nat) + 1,
                ).value(),
        decreases len - start,
    {
        proof {
            lemma_frame_bounds(len as nat, channels as nat, done@);
            lemma_frame_width(channels as nat, done@);
        }
        source.update(SampleTime { count: 1, rate: sample_rate });
        assert(*source == after_ticks(start_node, tick, done@ + 1));
        let v: S::Sample = source.sample();
        let end: usize = if len - start < channels {
            len
        } else {
            start + channels
        };
        let mut i: usize = start;
        while i < end
            invariant
                channels > 0,
                start <= i <= end <= len,
                len == buf@.len(),
                forall|j: int|
                    0 <= j < start ==> #[trigger] buf@[j] == after_ticks(
                        start_node,
                        tick,
                        frame_of(j, channels as nat) + 1,
                    ).value(),
                forall|j: int| start <= j < i ==> #[trigger] buf@[j] == v,
            decreases end - i,
        {
            buf[i] = v;
            i += 1;
        }
        proof {
            assert forall|j: int| start <= j < end implies frame_of(j, channels as nat)
                == done@ by {
                lemma_slot_in_frame(j, channels as nat, done@);
            }
            if end == len {
                lemma_last_frame(len as nat, channels as nat, done@);
            }
            done@ = done@ + 1;
        }
        start = end;
    }
    assert(buf@ =~= rendered(start_node, sample_rate, channels as nat, len as nat));
}

/// Buffers follow one another: a buffer that ends on a frame's boundary and
/// the buffer rendered after it hold together what one buffer of both
/// their lengths would hold, and leave the graph as that one would.
pub proof fn law_buffers_follow_one_another<S: Source>(
    node: S,
    sample_rate: u32,
    channels: nat,
    first: nat,
    second: nat,
)
    requires
        channels > 0,
        first % channels == 0,
    ensures
        frames(first + second, channels) == frames(first, channels) + frames(second, channels),
        after_ticks(
            after_ticks(node, period(sample_rate), frames(first, channels)),
            period(sample_rate),
            frames(second, channels),
        ) == after_ticks(node, period(sample_rate), frames(first + second, channels)),
        rendered(node, sample_rate, channels, first) + rendered(
            after_ticks(node, period(sample_rate), frames(first, channels)),
            sample_rate,
            channels,
            second,
        ) == rendered(node, sample_rate, channels, first + second),
{
    let tick = period(sample_rate);
    let whole = frames(first, channels);
    let next = after_ticks(node, tick, whole);
    lemma_whole_frames(first, channels, (first + channels - 1) as int);
    lemma_whole_frames(first, channels, (first + second + channels - 1) as int);
    law_ticks_add_up(node, tick, whole, frames(second, channels));
    let joined = rendered(node, sample_rate, channels, first) + rendered(
        next,
        sample_rate,
        channels,
        second,
    );
    let one = rendered(node, sample_rate, channels, first + second);
    assert forall|i: int| 0 <= i < first + second implies joined[i] == one[i] by {
        if i >= first {
            lemma_whole_frames(first, channels, i);
            law_ticks_add_up(node, tick, whole, frame_of(i - first, channels) + 1);
        }
    }
    assert(joined =~= one);
}

/// A sum of voices is rendered voice by voice: every slot holds the sum of
/// what the two children, rendered alone, would have put there.
pub proof fn law_sum_is_rendered_slot_by_slot<L, R>(
    left: L,
    right: R,
    sample_rate: u32,
    channels: nat,
    len: nat,
    i: int,
) where L: Source, R: Source, L::Sample: std::ops::Add<R::Sample>
    requires
        0 <= i < len,
    ensures
        rendered(Sum { left, right }, sample_rate, channels, len)[i] == rendered(
            left,
            sample_rate,
            channels,
            len,
        )[i].add_spec(rendered(right, sample_rate, channels, len)[i]),
{
    law_sum_ticks(left, right, period(sample_rate), frame_of(i, channels) + 1);
}

/// A gated voice is rendered part by part: every slot holds the product of
/// what the two children, rendered alone, would have put there.
pub proof fn law_product_is_rendered_slot_by_slot<L, R>(
    left: L,
    right: R,
    sample_rate: u32,
    channels: nat,
    len: nat,
    i: int,
) where L: Source, R: Source, L::Sample: std::ops::Mul<R::Sample>
    requires
        0 <= i < len,
    ensures
        rendered(Product { left, right }, sample_rate, channels, len)[i] == rendered(
            left,
            sample_rate,
            channels,
            len,
        )[i].mul_spec(rendered(right, sample_rate, channels, len)[i]),
{
    law_product_ticks(left, right, period(sample_rate), frame_of(i, channels) + 1);
}

/// Whole frames at the front count in full: where `first` slots are a
/// whole number of frames, slot `i` behind them lies that many frames
/// further on than slot `i - first`.
proof fn lemma_whole_frames(first: nat, channels: nat, i: int)
    requires
        channels > 0,
        first % channels == 0,
        first <= i,
    ensures
        i / (channels as int) == first / channels + (i - first) / (channels as int),
        frames(first, channels) == first / channels,
{
    let c = channels as int;
    let q = first as int / c;
    vstd::arithmetic::div_mod::lemma_fundamental_div_mod(first as int, c);
    assert(first == c * q);
    let rest = i - first;
    vstd::arithmetic::div_mod::lemma_fundamental_div_mod(rest, c);
    vstd::arithmetic::div_mod::lemma_mod_bound(rest, c);
    assert((q + rest / c) * c + rest % c == i) by (nonlinear_arith)
        requires
            first == c * q,
            rest == c * (rest / c) + rest % c,
            rest == i - first,
    ;
    vstd::arithmetic::div_mod::lemma_fundamental_div_mod_converse(i, c, q + rest / c, rest % c);
    assert(q * c + (c - 1) == first + c - 1) by (nonlinear_arith)
        requires
            first == c * q,
    ;
    vstd::arithmetic::div_mod::lemma_fundamental_div_mod_converse(first + c - 1, c, q, c - 1);
}

/// A buffer without slots holds no frame.
proof fn lemma_empty_buffer(channels: nat)
    requires
        channels > 0,
    ensures
        frames(0, channels) == 0,
{
    vstd::arithmetic::div_mod::lemma_fundamental_div_mod_converse(
        channels as int - 1,
        channels as int,
        0,
        channels as int - 1,
    );
}

/// Each frame starts `channels` slots after the one before it.
proof fn lemma_frame_width(channels: nat, f: nat)
    ensures
        (f + 1) * channels == f * channels + channels,
{
    assert((f + 1) * channels == f * channels + channels) by (nonlinear_arith);
}

/// Slot `j` lies in frame `f` when it lies between the frame's first slot
/// and the next frame's.
proof fn lemma_slot_in_frame(j: int, channels: nat, f: nat)
    requires
        channels > 0,
        f * channels <= j < f * channels + channels,
    ensures
        frame_of(j, channels) == f,
{
    let c = channels as int;
    assert(f as int * c == f * channels);
    vstd::arithmetic::div_mod::lemma_fundamental_div_mod_converse(j, c, f as int, j - f * c);
}

/// A frame that starts inside the buffer is one of the buffer's frames.
proof fn lemma_frame_bounds(len: nat, channels: nat, f: nat)
    requires
        channels > 0,
        f * channels < len,
    ensures
        f + 1 <= frames(len, channels),
{
    let total = frames(len, channels) as int;
    let c = channels as int;
    vstd::arithmetic::div_mod::lemma_fundamental_div_mod(len + c - 1, c);
    vstd::arithmetic::div_mod::lemma_mod_bound(len + c - 1, c);
    assert(f < total) by (nonlinear_arith)
        requires
            c > 0,
            f * c < len,
            len + c - 1 == c * total + (len + c - 1) % c,
            0 <= (len + c - 1) % c < c,
            total >= 0,
    ;
}

/// The frame that reaches the end of the buffer is the last one.
proof fn lemma_last_frame(len: nat, channels: nat, f: nat)
    requires
        channels > 0,
        f * channels < len,
        len <= f * channels + channels,
    ensures
        frames(len, channels) == f + 1,
{
    let c = channels as int;
    assert((f + 1) * c == f * c + c) by (nonlinear_arith);
    assert(f as int * c == f * channels);
    vstd::arithmetic::div_mod::lemma_fundamental_div_mod_converse(
        len + c - 1,
        c,
        f as int + 1,
        len - 1 - f * c,
    );
}

} // verus!
