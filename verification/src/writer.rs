//! Filling an interleaved output buffer, one generated sample per frame.
use crate::generator::{Generator, SampleClock};
use vstd::prelude::*;

verus! {

/// The number of frames that a buffer of `len` slots holds when a frame has
/// `channels` slots: `len / channels`, and one more where a short frame is
/// left at the end.
pub open spec fn frame_count(len: nat, channels: nat) -> nat {
    if len % channels == 0 {
        len / channels
    } else {
        len / channels + 1
    }
}

/// The frame that slot `slot` belongs to.
pub open spec fn frame_of(slot: int, channels: nat) -> int {
    slot / (channels as int)
}

/// The phase at which a generator whose clock stands at `clock` evaluates its
/// waveform for frame `frame` of the buffer that it fills next: one sample is
/// generated per frame, so it is the phase after `frame + 1` more samples.
pub open spec fn frame_phase(clock: SampleClock, frame: int) -> u32 {
    clock.phase_after((frame + 1) as nat)
}

/// The frame count is the ceiling of `len / channels`: the least number of
/// frames of `channels` slots that hold `len` slots. Where `channels` divides
/// `len`, the frames hold exactly `len` slots.
pub proof fn lemma_frame_count_is_ceiling(len: nat, channels: nat)
    requires
        channels > 0,
    ensures
        frame_count(len, channels) * channels >= len,
        len > 0 ==> (frame_count(len, channels) - 1) * channels < len,
        len % channels == 0 ==> frame_count(len, channels) * channels == len,
{
    let l = len as int;
    let c = channels as int;
    assert(l == (l / c) * c + l % c && 0 <= l % c < c && (l / c + 1) * c == (l / c) * c + c && (l
        / c - 1) * c == (l / c) * c - c) by (nonlinear_arith)
        requires
            c > 0,
            l >= 0,
    ;
}

/// A buffer of `len` slots that ends inside frame `frame`, or at its end,
/// holds `frame + 1` frames.
proof fn lemma_frames_up_to(len: nat, channels: nat, frame: nat)
    requires
        channels > 0,
        frame * channels < len <= (frame + 1) * channels,
    ensures
        frame_count(len, channels) == frame + 1,
{
    let l = len as int;
    let c = channels as int;
    let f = frame as int;
    assert(if l % c == 0 {
        l / c == f + 1
    } else {
        l / c == f
    }) by (nonlinear_arith)
        requires
            c > 0,
            f >= 0,
            f * c < l <= (f + 1) * c,
    ;
}

/// The slots of frame `frame` are those from `frame * channels` up to the
/// start of the next frame; the slots before them belong to earlier frames.
proof fn lemma_frame_bounds(slot: int, channels: nat, frame: nat)
    requires
        channels > 0,
        0 <= slot < (frame + 1) * channels,
    ensures
        slot >= frame * channels ==> frame_of(slot, channels) == frame,
        slot < frame * channels ==> 0 <= frame_of(slot, channels) < frame,
{
    let c = channels as int;
    let f = frame as int;
    assert((slot >= f * c ==> slot / c == f) && (slot < f * c ==> 0 <= slot / c < f))
        by (nonlinear_arith)
        requires
            c > 0,
            f >= 0,
            0 <= slot < (f + 1) * c,
    ;
}

/// Fills `output` frame by frame: the buffer is cut into consecutive frames
/// of `channels` slots, the last of which may be shorter; the generator is
/// asked for one sample per frame, and that sample is written to every slot of
/// the frame.
pub fn write_data<T: Copy, F: Fn(u32) -> T>(
    output: &mut [T],
    channels: usize,
    generator: &mut Generator<T, F>,
)
    requires
        channels > 0,
    ensures
        final(output)@.len() == old(output)@.len(),
        final(generator).tone() == old(generator).tone(),
        final(generator).clock().sample_rate() == old(generator).clock().sample_rate(),
        final(generator).clock().generated() == old(generator).clock().generated() + frame_count(
            old(output)@.len(),
            channels as nat,
        ),
        forall|slot: int|
            0 <= slot < old(output)@.len() ==> call_ensures(
                old(generator).tone(),
                (frame_phase(old(generator).clock(), frame_of(slot, channels as nat)),),
                #[trigger] final(output)@[slot],
            ),
        forall|a: int, b: int|
            0 <= a < old(output)@.len() && 0 <= b < old(output)@.len() && frame_of(
                a,
                channels as nat,
            ) == frame_of(b, channels as nat) ==> #[trigger] final(output)@[a]
                == #[trigger] final(output)@[b],
{
    let len: usize = output.len();
    let ghost tone = generator.tone();
    let ghost start_clock = generator.clock();
    let ghost mut frames: nat = 0;
    let mut start: usize = 0;
    while start < len
        invariant
            channels > 0,
            len == output@.len(),
            start <= len,
            start < len ==> start == frames * channels,
            start == len ==> frames == frame_count(len as nat, channels as nat),
            generator.tone() == tone,
            generator.clock().sample_rate() == start_clock.sample_rate(),
            generator.clock().generated() == start_clock.generated() + frames,
            forall|slot: int|
                0 <= slot < start ==> call_ensures(
                    tone,
                    (frame_phase(start_clock, frame_of(slot, channels as nat)),),
                    #[trigger] output@[slot],
                ),
            forall|a: int, b: int|
                0 <= a < start && 0 <= b < start && frame_of(a, channels as nat) == frame_of(
                    b,
                    channels as nat,
                ) ==> #[trigger] output@[a] == #[trigger] output@[b],
        decreases len - start,
    {
        let value: T = generator.next_sample();
        let end: usize = if len - start <= channels {
            len
        } else {
            start + channels
        };
        proof {
            assert((frames + 1) * channels == frames * channels + channels) by (nonlinear_arith);
        }
        let ghost before = output@;
        let mut slot: usize = start;
        while slot < end
            invariant
                len == output@.len(),
                len == before.len(),
                start <= slot <= end <= len,
                forall|s: int| 0 <= s < start ==> #[trigger] output@[s] == before[s],
                forall|s: int| start <= s < slot ==> #[trigger] output@[s] == value,
            decreases end - slot,
        {
            output[slot] = value;
            slot += 1;
        }
        proof {
            assert forall|s: int| 0 <= s < end implies call_ensures(
                tone,
                (frame_phase(start_clock, frame_of(s, channels as nat)),),
                #[trigger] output@[s],
            ) by {
                lemma_frame_bounds(s, channels as nat, frames);
                if s < start {
                    assert(output@[s] == before[s]);
                }
            }
            assert forall|a: int, b: int|
                0 <= a < end && 0 <= b < end && frame_of(a, channels as nat) == frame_of(
                    b,
                    channels as nat,
                ) implies #[trigger] output@[a] == #[trigger] output@[b] by {
                lemma_frame_bounds(a, channels as nat, frames);
                lemma_frame_bounds(b, channels as nat, frames);
                if a < start {
                    assert(output@[a] == before[a]);
                }
                if b < start {
                    assert(output@[b] == before[b]);
                }
            }
            if end == len {
                lemma_frames_up_to(len as nat, channels as nat, frames);
            }
            frames = frames + 1;
        }
        start = end;
    }
}

} // verus!
