//! Which of the captured samples belong in the WAV file.

use vstd::prelude::*;
use vstd::arithmetic::div_mod::{
    lemma_div_is_ordered, lemma_div_multiples_vanish, lemma_fundamental_div_mod,
    lemma_fundamental_div_mod_converse,
};

verus! {

/// How many of the positions `offset`, `offset + step`, `offset + 2 * step`, ...
/// lie below `len`.
pub open spec fn position_count(len: nat, offset: nat, step: nat) -> nat {
    if offset >= len {
        0
    } else {
        (((len - offset - 1) as nat) / step + 1) as nat
    }
}

/// The samples of an interleaved buffer that are kept: all of them, or the
/// selected channel's sample from each frame.
pub open spec fn kept_samples<T>(data: Seq<T>, channel: Option<u16>, channels: u16) -> Seq<T> {
    match channel {
        None => data,
        Some(index) => Seq::new(
            position_count(data.len(), index as nat, channels as nat),
            |k: int| data[index + k * channels],
        ),
    }
}

/// The sample that a signed 16-bit file holds for an unsigned one.
pub open spec fn signed_sample(sample: u16) -> i16 {
    (sample - 32768) as i16
}

/// [`position_count`] counts the positions below `len`.
pub proof fn lemma_position_count(len: nat, offset: nat, step: nat, k: nat)
    requires
        0 < step,
    ensures
        k < position_count(len, offset, step) <==> offset + k * step < len,
{
    if offset < len {
        let span = (len - offset - 1) as nat;
        lemma_div_multiples_vanish(k as int, step as int);
        assert(step * k == k * step) by (nonlinear_arith);
        if k * step <= span {
            lemma_div_is_ordered((k * step) as int, span as int, step as int);
        } else {
            lemma_fundamental_div_mod(span as int, step as int);
            let q = span / step;
            assert(k > q) by (nonlinear_arith)
                requires
                    step * q <= span,
                    span < k * step,
                    0 < step,
            ;
        }
    } else {
        assert(k * step >= 0) by (nonlinear_arith);
    }
}

/// The channels of a stream share out its interleaved buffer: each sample is
/// kept for exactly one channel, in the place of its frame.
pub proof fn law_channels_share_out_the_buffer<T>(data: Seq<T>, channels: u16, position: int)
    requires
        channels > 0,
        0 <= position < data.len(),
    ensures
        ({
            let own = (position % channels as int) as u16;
            let frame = position / channels as int;
            &&& own < channels
            &&& frame < kept_samples(data, Some(own), channels).len()
            &&& kept_samples(data, Some(own), channels)[frame] == data[position]
            &&& forall|channel: u16, k: int|
                channel < channels && 0 <= k && #[trigger] (channel + k * channels) == position
                    ==> channel == own && k == frame
        }),
{
    let n = channels as int;
    let own = position % n;
    let frame = position / n;
    lemma_fundamental_div_mod(position, n);
    assert(n * frame == frame * n) by (nonlinear_arith);
    assert(frame >= 0) by (nonlinear_arith)
        requires
            frame == position / n,
            position >= 0,
            n > 0,
    ;
    lemma_position_count(data.len(), own as nat, n as nat, frame as nat);
    assert forall|channel: u16, k: int|
        channel < channels && 0 <= k && #[trigger] (channel + k * channels) == position implies channel
        == own && k == frame by {
        lemma_fundamental_div_mod_converse(position, n, k, channel as int);
    }
}

/// Of a buffer of whole frames, the selected channel keeps one sample per frame:
/// the one that stands at the channel's place in the frame.
pub proof fn law_one_sample_per_frame<T>(data: Seq<T>, channel: u16, channels: u16, frames: nat)
    requires
        channel < channels,
        data.len() == frames * channels,
    ensures
        kept_samples(data, Some(channel), channels).len() == frames,
        forall|frame: int|
            0 <= frame < frames ==> #[trigger] kept_samples(data, Some(channel), channels)[frame]
                == data[channel + frame * channels],
{
    let n = channels as nat;
    let kept = position_count(data.len(), channel as nat, n);
    lemma_position_count(data.len(), channel as nat, n, frames);
    if frames > 0 {
        let last = (frames - 1) as nat;
        lemma_position_count(data.len(), channel as nat, n, last);
        assert(frames * n == last * n + n) by (nonlinear_arith)
            requires
                frames == last + 1,
        ;
    }
    assert(kept == frames);
}

/// Samples that belong in the WAV file: the whole interleaved buffer, or only
/// the selected channel's sample from each frame.
pub fn wav_samples<'a, T>(data: &'a [T], channel: Option<u16>, channels: u16) -> (samples: Vec<
    &'a T,
>)
    requires
        channel is Some ==> channels > 0,
    ensures
        samples@.unref() == kept_samples(data@, channel, channels),
{
    let (offset, step): (usize, usize) = match channel {
        Some(index) => (index as usize, channels as usize),
        None => (0, 1),
    };
    let ghost all = Seq::new(
        position_count(data@.len(), offset as nat, step as nat),
        |k: int| data@[offset + k * step],
    );
    let mut samples: Vec<&'a T> = Vec::new();
    let mut position: usize = offset;
    let mut more: bool = offset < data.len();
    while more
        invariant
            0 < step,
            all == Seq::new(
                position_count(data@.len(), offset as nat, step as nat),
                |k: int| data@[offset + k * step],
            ),
            more ==> position == offset + samples@.len() * step,
            more ==> position < data.len(),
            !more ==> samples@.len() == all.len(),
            samples@.len() <= all.len(),
            samples@.unref() == all.take(samples@.len() as int),
        decreases data.len() - position + (if more { 1int } else { 0 }),
    {
        let ghost kept = samples@.len();
        proof {
            assert((kept + 1) * step == kept * step + step) by (nonlinear_arith);
            lemma_position_count(data@.len(), offset as nat, step as nat, kept);
            lemma_position_count(data@.len(), offset as nat, step as nat, kept + 1);
        }
        samples.push(&data[position]);
        assert(samples@.unref() =~= all.take(kept as int).push(all[kept as int]));
        assert(all.take(kept as int).push(all[kept as int]) =~= all.take((kept + 1) as int));
        if data.len() - position > step {
            position = position + step;
        } else {
            more = false;
        }
    }
    proof {
        assert(all.take(samples@.len() as int) =~= all);
        assert(all =~= kept_samples(data@, channel, channels));
    }
    samples
}

/// The samples to write for a buffer of signed 16-bit samples.
pub fn wav_samples_from_i16(data: &[i16], channel: Option<u16>, channels: u16) -> (samples: Vec<i16>)
    requires
        channel is Some ==> channels > 0,
    ensures
        samples@ == kept_samples(data@, channel, channels),
{
    let kept: Vec<&i16> = wav_samples(data, channel, channels);
    let mut samples: Vec<i16> = Vec::new();
    let mut i: usize = 0;
    while i < kept.len()
        invariant
            i <= kept.len(),
            samples@ == kept@.unref().take(i as int),
        decreases kept.len() - i,
    {
        samples.push(*kept[i]);
        i = i + 1;
        assert(samples@ =~= kept@.unref().take(i as int));
    }
    assert(kept@.unref().take(i as int) =~= kept@.unref());
    samples
}

/// The samples to write for a buffer of unsigned 16-bit samples: each is moved
/// down by half the range.
pub fn wav_samples_from_u16(data: &[u16], channel: Option<u16>, channels: u16) -> (samples: Vec<i16>)
    requires
        channel is Some ==> channels > 0,
    ensures
        samples@ == kept_samples(data@, channel, channels).map_values(|s: u16| signed_sample(s)),
{
    let kept: Vec<&u16> = wav_samples(data, channel, channels);
    let ghost all = kept@.unref().map_values(|s: u16| signed_sample(s));
    let mut samples: Vec<i16> = Vec::new();
    let mut i: usize = 0;
    while i < kept.len()
        invariant
            i <= kept.len(),
            all == kept@.unref().map_values(|s: u16| signed_sample(s)),
            samples@ == all.take(i as int),
        decreases kept.len() - i,
    {
        let sample: i32 = *kept[i] as i32 - 32768;
        samples.push(sample as i16);
        i = i + 1;
        assert(samples@ =~= all.take(i as int));
    }
    assert(all.take(i as int) =~= all);
    samples
}

} // verus!
