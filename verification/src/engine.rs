//! The stream engine's per-callback computation.
//!
//! The audio backend delivers an output buffer and expects every sample slot
//! filled. [`fill_buffer`] is the body of that callback: it cuts the buffer
//! into consecutive frames of `channels` slots, advances the sample clock by
//! exactly one per frame, invokes the generator once per frame with the
//! post-advance clock, and writes the generator's value identically into
//! every slot of the frame — a mono source fanned out over all channels.

use vstd::prelude::*;
use vstd::arithmetic::div_mod::lemma_fundamental_div_mod_converse;
use crate::clock::SampleRequestOptions;
use crate::clock::clock_after;
use crate::clock::lemma_clock_after_in_range;

verus! {

/// The request the generator sees on the `k`-th frame after the stream's
/// clock stood at `start`: the same rate, with the clock advanced `k` times.
pub open spec fn frame_request(start: SampleRequestOptions, k: nat) -> SampleRequestOptions {
    SampleRequestOptions {
        sample_rate: start.sample_rate,
        sample_clock: clock_after(
            start.sample_clock as int,
            start.sample_rate as int,
            k,
        ) as u32,
    }
}

/// How many frames a buffer of `len` samples is cut into at `channels` slots
/// per frame: every full frame, plus the final partial frame when `channels`
/// does not divide `len`.
pub open spec fn frame_count(len: int, channels: int) -> int {
    (len + channels - 1) / channels
}

/// The index of the first slot of the frame that slot `i` belongs to.
pub open spec fn frame_start(i: int, channels: int) -> int {
    (i / channels) * channels
}

/// Successive frames see the clock advance by exactly one step, wrapping
/// modulo the rate: the generator's inputs form the strict cycle with no
/// value skipped or repeated within a period, whatever the buffer sizes the
/// backend delivers.
pub proof fn lemma_frame_request_step(start: SampleRequestOptions, k: nat)
    requires
        start.wf(),
    ensures
        frame_request(start, k).wf(),
        frame_request(start, k + 1).sample_rate == start.sample_rate,
        frame_request(start, k + 1).sample_clock as int == crate::clock::next_clock(
            frame_request(start, k).sample_clock as int,
            start.sample_rate as int,
        ),
{
    lemma_clock_after_in_range(start.sample_clock as int, start.sample_rate as int, k);
    lemma_clock_after_in_range(start.sample_clock as int, start.sample_rate as int, k + 1);
}

/// A stream's frame requests do not depend on how the backend cuts its
/// output into buffers: the request for frame `n` of a callback whose clock
/// has already advanced `m` times is the request for frame `m + n` of the
/// stream.
pub proof fn lemma_frame_request_compose(start: SampleRequestOptions, m: nat, n: nat)
    requires
        start.wf(),
    ensures
        frame_request(frame_request(start, m), n) == frame_request(start, m + n),
{
    lemma_clock_after_in_range(start.sample_clock as int, start.sample_rate as int, m);
    crate::clock::lemma_clock_after_add(
        start.sample_clock as int,
        start.sample_rate as int,
        m,
        n,
    );
    lemma_clock_after_in_range(start.sample_clock as int, start.sample_rate as int, m + n);
}

/// Every slot of the frame numbered `k` maps back to that frame's first
/// slot under index division by the channel count.
proof fn lemma_slot_frame(i: int, channels: int, k: int)
    requires
        1 <= channels,
        0 <= k,
        k * channels <= i < k * channels + channels,
    ensures
        i / channels == k,
        frame_start(i, channels) == k * channels,
{
    lemma_fundamental_div_mod_converse(i, channels, k, i - k * channels);
}

/// A frame tally that covers the buffer, whose last frame began inside the
/// buffer, is exactly the buffer's frame count.
proof fn lemma_frame_count_from_bounds(len: int, channels: int, frames: int)
    requires
        1 <= channels,
        0 <= len,
        0 <= frames,
        len <= frames * channels,
        frames > 0 ==> (frames - 1) * channels < len,
        frames == 0 ==> len == 0,
    ensures
        frames == frame_count(len, channels),
{
    if frames == 0 {
        lemma_fundamental_div_mod_converse(channels - 1, channels, 0, channels - 1);
    } else {
        let a = len + channels - 1;
        assert((frames - 1) * channels == frames * channels - channels) by (nonlinear_arith);
        lemma_fundamental_div_mod_converse(a, channels, frames, a - frames * channels);
    }
}

/// Fill one output callback buffer of `len` samples, laid out as consecutive
/// frames of `channels` slots each.
///
/// For each frame, in order: the clock in `request` advances by exactly one,
/// wrapping modulo the sample rate; the generator runs once with the
/// post-advance request; and its value lands identically in every slot of
/// the frame. When `channels` does not divide `len`, the final partial frame
/// is treated like any other — the clock still ticks, the generator still
/// runs once, and the remaining slots all receive its value — so no slot of
/// the buffer is ever left unwritten.
pub fn fill_buffer<T: Copy, F: Fn(&SampleRequestOptions) -> T>(
    len: usize,
    channels: usize,
    request: &mut SampleRequestOptions,
    f: &F,
) -> (out: Vec<T>)
    requires
        old(request).wf(),
        1 <= channels,
        forall|r: &SampleRequestOptions|
            r.wf() && r.sample_rate == old(request).sample_rate ==> call_requires(*f, (r,)),
    ensures
        out.len() == len,
        *final(request) == frame_request(
            *old(request),
            frame_count(len as int, channels as int) as nat,
        ),
        final(request).wf(),
        forall|k: int|
            #![trigger frame_request(*old(request), (k + 1) as nat)]
            #![trigger k * (channels as int)]
            0 <= k < frame_count(len as int, channels as int) ==> k * (channels as int) < len
                && call_ensures(
                *f,
                (&frame_request(*old(request), (k + 1) as nat),),
                out[k * (channels as int)],
            ),
        forall|i: int| #![trigger frame_start(i, channels as int)]
            0 <= i < len ==> 0 <= frame_start(i, channels as int) <= i && out[i] == out[
                frame_start(i, channels as int)
            ],
        forall|i: int| #![trigger out[i]]
            0 <= i < len ==> call_ensures(
                *f,
                (&frame_request(*old(request), (i / (channels as int) + 1) as nat),),
                out[i],
            ),
{
    let ghost start = *request;
    let mut out: Vec<T> = Vec::new();
    let ghost mut frames: int = 0;
    while out.len() < len
        invariant
            start.wf(),
            request.wf(),
            request.sample_rate == start.sample_rate,
            1 <= channels,
            0 <= frames,
            *request == frame_request(start, frames as nat),
            out.len() <= len,
            frames * (channels as int) <= len ==> out.len() == frames * (channels as int),
            len <= frames * (channels as int) ==> out.len() == len,
            frames > 0 ==> (frames - 1) * (channels as int) < len,
            frames == 0 ==> out.len() == 0,
            forall|r: &SampleRequestOptions|
                r.wf() && r.sample_rate == start.sample_rate ==> call_requires(*f, (r,)),
            forall|k: int|
                #![trigger frame_request(start, (k + 1) as nat)]
                #![trigger k * (channels as int)]
                0 <= k < frames ==> k * (channels as int) < out.len() && call_ensures(
                    *f,
                    (&frame_request(start, (k + 1) as nat),),
                    out[k * (channels as int)],
                ),
            forall|i: int| #![trigger frame_start(i, channels as int)]
                0 <= i < out.len() ==> 0 <= frame_start(i, channels as int) <= i && out[i] == out[
                    frame_start(i, channels as int)
                ],
        decreases len - out.len(),
    {
        proof {
            lemma_clock_after_in_range(
                start.sample_clock as int,
                start.sample_rate as int,
                frames as nat,
            );
            lemma_clock_after_in_range(
                start.sample_clock as int,
                start.sample_rate as int,
                (frames + 1) as nat,
            );
        }
        request.tick();
        let s = f(&*request);
        let ghost base = out.len() as int;
        let mut c: usize = 0;
        while c < channels && out.len() < len
            invariant
                1 <= channels,
                c <= channels,
                0 <= base,
                out.len() == base + c,
                out.len() <= len,
                c == 0 ==> base < len,
                c >= 1 ==> out[base] == s,
                forall|i: int| base <= i < out.len() ==> #[trigger] out[i] == s,
                0 <= frames,
                base == frames * (channels as int),
                forall|k: int|
                    #![trigger frame_request(start, (k + 1) as nat)]
                    #![trigger k * (channels as int)]
                    0 <= k < frames ==> k * (channels as int) < base && call_ensures(
                        *f,
                        (&frame_request(start, (k + 1) as nat),),
                        out[k * (channels as int)],
                    ),
                forall|i: int| #![trigger frame_start(i, channels as int)]
                    0 <= i < base ==> 0 <= frame_start(i, channels as int) <= i && out[i] == out[
                        frame_start(i, channels as int)
                    ],
            decreases channels - c,
        {
            out.push(s);
            c += 1;
        }
        proof {
            assert(c >= 1);
            assert forall|i: int| #![trigger frame_start(i, channels as int)]
                base <= i < out.len() implies 0 <= frame_start(i, channels as int) <= i && out[i]
                == out[frame_start(i, channels as int)] by {
                lemma_slot_frame(i, channels as int, frames);
            };
            assert((frames + 1) * (channels as int) == frames * (channels as int) + (
            channels as int)) by (nonlinear_arith);
            frames = frames + 1;
        }
    }
    proof {
        lemma_frame_count_from_bounds(len as int, channels as int, frames);
        assert forall|i: int| 0 <= i < len implies call_ensures(
            *f,
            (&frame_request(start, (i / (channels as int) + 1) as nat),),
            #[trigger] out[i],
        ) by {
            let ch = channels as int;
            let k = i / ch;
            vstd::arithmetic::div_mod::lemma_div_pos_is_pos(i, ch);
            assert(k * ch == frame_start(i, ch));
            assert(k * ch <= i);
            if k >= frames {
                vstd::arithmetic::mul::lemma_mul_inequality(frames, k, ch);
                assert(false);
            }
        };
    }
    out
}

} // verus!
