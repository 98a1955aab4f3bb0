//! What a recording captures and keeps, said of the answers in terms of what the device
//! says about itself and of the samples that it delivers.

use vstd::prelude::*;
use crate::error::Error;
use crate::models::AudioQuality;
use crate::recorder::StartPlan;
use crate::samples::{
    lemma_position_count, wav_samples, wav_samples_from_i16, wav_samples_from_u16,
};
use crate::stream::{
    covers_rate, device_channel_count, is_first_covering, lemma_widest, matches_target,
    negotiate_config, negotiated, plan_stream, resolve_channel, DefaultConfig, DeviceProbe,
    StreamPlan, WavFormat,
};
use crate::text::{decimal_text, read_u16};

verus! {

/// The presets: 16 kHz mono, 44.1 kHz mono and 48 kHz stereo.
pub proof fn law_presets(quality: AudioQuality, rate: u32, channels: u16)
    requires
        call_ensures(AudioQuality::sample_rate, (&quality,), rate),
        call_ensures(AudioQuality::channels, (&quality,), channels),
    ensures
        match quality {
            AudioQuality::Low => rate == 16000 && channels == 1,
            AudioQuality::Medium => rate == 44100 && channels == 1,
            AudioQuality::High => rate == 48000 && channels == 2,
        },
{
}

/// A target that a configuration meets is negotiated: its sample rate lies between the
/// lowest and the highest of the configuration, both included, and the channel counts
/// are the same. It does not matter where the configuration stands, nor whether a
/// channel is selected.
pub proof fn law_supported_target_is_negotiated(
    configs: &[(u32, u32, u16)],
    rate: u32,
    channels: u16,
    channel_selected: bool,
    i: int,
    r: Option<(u32, u16)>,
)
    requires
        0 <= i < configs@.len(),
        configs@[i].0 <= rate,
        rate <= configs@[i].1,
        configs@[i].2 == channels,
        call_ensures(negotiate_config, (configs, rate, channels, channel_selected), r),
    ensures
        r == Some((rate, channels)),
{
    assert(matches_target(configs@[i], rate, channels));
}

/// Where no configuration meets a target, a selected channel leaves nothing to
/// negotiate. Without one, the first configuration whose lowest and highest sample rate
/// enclose the target's is taken, with the channels that it has, and it is the first if
/// no earlier one encloses it.
pub proof fn law_sample_rate_comes_before_channel_count(
    configs: &[(u32, u32, u16)],
    rate: u32,
    channels: u16,
    channel_selected: bool,
    k: int,
    r: Option<(u32, u16)>,
)
    requires
        forall|i: int|
            0 <= i < configs@.len() && (#[trigger] configs@[i]).0 <= rate && rate <= configs@[i].1
                ==> configs@[i].2 != channels,
        0 <= k < configs@.len(),
        configs@[k].0 <= rate,
        rate <= configs@[k].1,
        forall|j: int|
            0 <= j < k ==> rate < (#[trigger] configs@[j]).0 || configs@[j].1 < rate,
        call_ensures(negotiate_config, (configs, rate, channels, channel_selected), r),
    ensures
        channel_selected ==> r is None,
        !channel_selected ==> r == Some((rate, configs@[k].2)),
{
    assert(is_first_covering(configs@, rate, k));
    let chosen = choose|chosen: int| is_first_covering(configs@, rate, chosen);
    assert(covers_rate(configs@[chosen], rate) && covers_rate(configs@[k], rate));
    assert(chosen == k);
}

/// Where no configuration encloses the sample rate of a target, nothing is negotiated.
pub proof fn law_sample_rate_is_never_given_up(
    configs: &[(u32, u32, u16)],
    rate: u32,
    channels: u16,
    channel_selected: bool,
    r: Option<(u32, u16)>,
)
    requires
        forall|i: int|
            0 <= i < configs@.len() ==> rate < (#[trigger] configs@[i]).0 || configs@[i].1 < rate,
        call_ensures(negotiate_config, (configs, rate, channels, channel_selected), r),
    ensures
        r is None,
{
}

/// A device delivers as many channels as its widest configuration has: some
/// configuration has that many, and none has more. Where no configuration has a channel
/// or the configurations cannot be read, the default configuration counts, if it has
/// channels; else it is one channel.
pub proof fn law_channel_count_is_the_widest(probe: &DeviceProbe, count: u16)
    requires
        call_ensures(device_channel_count, (probe,), count),
    ensures
        probe.supported matches Some(configs) ==> forall|i: int|
            0 <= i < configs@.len() ==> (#[trigger] configs@[i]).2 <= count,
        (probe.supported matches Some(configs) && exists|i: int|
            0 <= i < configs@.len() && (#[trigger] configs@[i]).2 > 0) ==> exists|i: int|
            0 <= i < probe.supported->0@.len() && (#[trigger] probe.supported->0@[i]).2 == count,
        (probe.supported matches Some(configs) ==> forall|i: int|
            0 <= i < configs@.len() ==> (#[trigger] configs@[i]).2 == 0) ==> count == (
        match probe.default_config {
            Ok(config) => if config.channels > 0 {
                config.channels
            } else {
                1
            },
            Err(_) => 1,
        }),
{
    if let Some(configs) = probe.supported {
        lemma_widest(configs@);
    }
}

/// Without a channel id every channel is recorded; with one, the channel of that number
/// is, if the device has it. An id that is no number, or a number that the device does
/// not reach, is an error that names the id.
pub proof fn law_channel_id_is_the_channel_number(
    id: &str,
    available: u16,
    number: Option<u16>,
    available_text: String,
    r: Result<Option<u16>, Error>,
    without: Result<Option<u16>, Error>,
)
    requires
        call_ensures(read_u16, (id,), number),
        call_ensures(decimal_text, (available as u64,), available_text),
        call_ensures(resolve_channel, (Some(id), available), r),
        call_ensures(resolve_channel, (None, available), without),
    ensures
        without matches Ok(None),
        match number {
            Some(index) => if index < available {
                r matches Ok(Some(selected)) && selected == index
            } else {
                r matches Err(Error::InvalidChannel(message)) && message@ == "'"@ + id@
                    + "' — device has "@ + available_text@ + " channel(s)"@
            },
            None => r matches Err(Error::InvalidChannel(message)) && message@ == "'"@ + id@
                + "' is not a channel id"@,
        },
{
}

/// A recording without a channel id gets the preset, with the preset's sample rate and
/// channels, wherever a configuration of the device offers both; the whole stream is
/// kept, in the device's sample format.
pub proof fn law_preset_is_captured_where_offered(
    quality: AudioQuality,
    probe: &DeviceProbe,
    default_config: DefaultConfig,
    rate: u32,
    channels: u16,
    i: int,
    r: Result<StreamPlan, Error>,
)
    requires
        probe.default_config == Ok::<DefaultConfig, String>(default_config),
        call_ensures(AudioQuality::sample_rate, (&quality,), rate),
        call_ensures(AudioQuality::channels, (&quality,), channels),
        probe.supported is Some,
        0 <= i < probe.supported->0@.len(),
        probe.supported->0@[i].0 <= rate,
        rate <= probe.supported->0@[i].1,
        probe.supported->0@[i].2 == channels,
        call_ensures(plan_stream, (quality, None, probe), r),
    ensures
        r matches Ok(plan) && {
            &&& plan.sample_rate == rate
            &&& plan.channels == channels
            &&& plan.selected_channel is None
            &&& plan.output_channels == channels
            &&& plan.sample_format == default_config.sample_format
        },
{
    assert(matches_target(probe.supported->0@[i], rate, channels));
}

/// A recording without a channel id uses the device's default configuration where the
/// device does not offer the sample rate of the preset at all, or does not say what it
/// offers.
pub proof fn law_default_configuration_is_the_fallback(
    quality: AudioQuality,
    probe: &DeviceProbe,
    default_config: DefaultConfig,
    rate: u32,
    r: Result<StreamPlan, Error>,
)
    requires
        probe.default_config == Ok::<DefaultConfig, String>(default_config),
        call_ensures(AudioQuality::sample_rate, (&quality,), rate),
        probe.supported matches Some(configs) ==> forall|i: int|
            0 <= i < configs@.len() ==> rate < (#[trigger] configs@[i]).0 || configs@[i].1 < rate,
        call_ensures(plan_stream, (quality, None, probe), r),
    ensures
        r matches Ok(plan) && {
            &&& plan.sample_rate == default_config.sample_rate
            &&& plan.channels == default_config.channels
            &&& plan.selected_channel is None
            &&& plan.output_channels == default_config.channels
            &&& plan.sample_format == default_config.sample_format
        },
{
}

/// Between the two, the sample rate of the preset comes with the channels of the first
/// configuration that offers it.
pub proof fn law_preset_rate_comes_with_the_first_offer(
    quality: AudioQuality,
    probe: &DeviceProbe,
    default_config: DefaultConfig,
    rate: u32,
    channels: u16,
    k: int,
    r: Result<StreamPlan, Error>,
)
    requires
        probe.default_config == Ok::<DefaultConfig, String>(default_config),
        call_ensures(AudioQuality::sample_rate, (&quality,), rate),
        call_ensures(AudioQuality::channels, (&quality,), channels),
        probe.supported is Some,
        forall|i: int|
            0 <= i < probe.supported->0@.len() && (#[trigger] probe.supported->0@[i]).0 <= rate
                && rate <= probe.supported->0@[i].1 ==> probe.supported->0@[i].2 != channels,
        0 <= k < probe.supported->0@.len(),
        probe.supported->0@[k].0 <= rate,
        rate <= probe.supported->0@[k].1,
        forall|j: int|
            0 <= j < k ==> rate < (#[trigger] probe.supported->0@[j]).0
                || probe.supported->0@[j].1 < rate,
        call_ensures(plan_stream, (quality, None, probe), r),
    ensures
        r matches Ok(plan) && {
            &&& plan.sample_rate == rate
            &&& plan.channels == probe.supported->0@[k].2
            &&& plan.selected_channel is None
            &&& plan.output_channels == probe.supported->0@[k].2
            &&& plan.sample_format == default_config.sample_format
        },
{
    let configs = probe.supported->0@;
    assert(is_first_covering(configs, rate, k));
    let chosen = choose|chosen: int| is_first_covering(configs, rate, chosen);
    assert(covers_rate(configs[chosen], rate) && covers_rate(configs[k], rate));
    assert(chosen == k);
    assert(negotiated(configs, rate, channels, false) == Some((rate, configs[k].2)));
}

/// A recording of one channel captures all channels of the device at the sample rate of
/// the preset, and keeps the one whose number was asked for; the file is mono. It is an
/// error, which names what was looked for, if no configuration offers that, also where
/// one offers the sample rate with fewer channels.
pub proof fn law_single_channel_needs_the_whole_device(
    quality: AudioQuality,
    id: &str,
    probe: &DeviceProbe,
    default_config: DefaultConfig,
    rate: u32,
    count: u16,
    index: u16,
    index_text: String,
    count_text: String,
    rate_text: String,
    r: Result<StreamPlan, Error>,
)
    requires
        probe.default_config == Ok::<DefaultConfig, String>(default_config),
        call_ensures(AudioQuality::sample_rate, (&quality,), rate),
        call_ensures(device_channel_count, (probe,), count),
        call_ensures(read_u16, (id,), Some(index)),
        index < count,
        call_ensures(decimal_text, (index as u64,), index_text),
        call_ensures(decimal_text, (count as u64,), count_text),
        call_ensures(decimal_text, (rate as u64,), rate_text),
        call_ensures(plan_stream, (quality, Some(id), probe), r),
    ensures
        if probe.supported matches Some(configs) && exists|i: int|
            0 <= i < configs@.len() && (#[trigger] configs@[i]).0 <= rate && rate <= configs@[i].1
                && configs@[i].2 == count {
            r matches Ok(plan) && {
                &&& plan.sample_rate == rate
                &&& plan.channels == count
                &&& plan.selected_channel == Some(index)
                &&& plan.output_channels == 1
                &&& plan.sample_format == default_config.sample_format
            }
        } else {
            r matches Err(Error::InvalidChannel(message)) && message@ == "'"@ + index_text@
                + "' — no supported input configuration offers "@ + count_text@ + " channel(s) at "@
                + rate_text@ + "Hz"@
        },
{
    if let Some(configs) = probe.supported {
        if exists|i: int|
            0 <= i < configs@.len() && (#[trigger] configs@[i]).0 <= rate && rate <= configs@[i].1
                && configs@[i].2 == count {
            let i = choose|i: int|
                0 <= i < configs@.len() && (#[trigger] configs@[i]).0 <= rate && rate
                    <= configs@[i].1 && configs@[i].2 == count;
            assert(matches_target(configs@[i], rate, count));
        } else {
            assert forall|i: int| 0 <= i < configs@.len() implies !matches_target(
                #[trigger] configs@[i],
                rate,
                count,
            ) by {}
        }
    }
}

/// A plan fails with the error of its channel id, if that is not a channel of the
/// device, and only then for want of a default configuration, with the cause.
pub proof fn law_channel_is_checked_before_the_configuration(
    quality: AudioQuality,
    channel_id: Option<&str>,
    probe: &DeviceProbe,
    count: u16,
    selected: Result<Option<u16>, Error>,
    r: Result<StreamPlan, Error>,
)
    requires
        call_ensures(device_channel_count, (probe,), count),
        call_ensures(resolve_channel, (channel_id, count), selected),
        call_ensures(plan_stream, (quality, channel_id, probe), r),
    ensures
        match (selected, probe.default_config) {
            (Err(Error::InvalidChannel(expected)), _) => r matches Err(
                Error::InvalidChannel(message),
            ) && message@ == expected@,
            (Ok(_), Err(cause)) => r matches Err(Error::Recording(message)) && message@
                == "Failed to get device config: "@ + cause@,
            (Ok(_), Ok(_)) => true,
            _ => false,
        },
{
}

/// The file of a planned recording holds 16-bit samples, at the sample rate and in the
/// channels that the plan gives the file.
pub proof fn law_header_is_that_of_the_plan(plan: &StartPlan, format: WavFormat)
    requires
        call_ensures(StartPlan::wav_format, (plan,), format),
    ensures
        format.bits_per_sample == 16,
        format.sample_rate == plan.stream.sample_rate,
        format.channels == plan.stream.output_channels,
{
}

/// Without a selected channel every sample is kept, in its place.
pub proof fn law_whole_buffer_is_kept<'a, T>(data: &'a [T], channels: u16, samples: Vec<&'a T>)
    requires
        call_ensures(wav_samples::<T>, (data, None, channels), samples),
    ensures
        samples@.len() == data@.len(),
        forall|k: int| 0 <= k < data@.len() ==> *(#[trigger] samples@[k]) == data@[k],
{
    assert forall|k: int| 0 <= k < data@.len() implies *(#[trigger] samples@[k]) == data@[k] by {
        assert(samples@.unref()[k] == data@[k]);
    }
}

/// With a selected channel, the samples that are kept are those that stand its number of
/// places behind the start of a frame: that of each frame that reaches so far, in their
/// order, and no others.
pub proof fn law_selected_samples_are_kept<'a, T>(
    data: &'a [T],
    channel: u16,
    channels: u16,
    samples: Vec<&'a T>,
    frame: nat,
)
    requires
        channels > 0,
        call_ensures(wav_samples::<T>, (data, Some(channel), channels), samples),
    ensures
        frame < samples@.len() <==> channel + frame * channels < data@.len(),
        frame < samples@.len() ==> *samples@[frame as int] == data@[channel + frame * channels],
{
    lemma_position_count(data@.len(), channel as nat, channels as nat, frame);
    assert(samples@.unref().len() == samples@.len());
    if frame < samples@.len() {
        assert(samples@.unref()[frame as int] == data@[channel + frame * channels]);
    }
}

/// Signed samples are written as they are, and unsigned ones moved down by 32768, half
/// their range; which of them are kept does not depend on their kind.
pub proof fn law_samples_are_converted_one_by_one<'a>(
    signed: &'a [i16],
    unsigned: &'a [u16],
    channel: Option<u16>,
    channels: u16,
    signed_kept: Vec<&'a i16>,
    unsigned_kept: Vec<&'a u16>,
    from_signed: Vec<i16>,
    from_unsigned: Vec<i16>,
)
    requires
        channel is Some ==> channels > 0,
        call_ensures(wav_samples::<i16>, (signed, channel, channels), signed_kept),
        call_ensures(wav_samples::<u16>, (unsigned, channel, channels), unsigned_kept),
        call_ensures(wav_samples_from_i16, (signed, channel, channels), from_signed),
        call_ensures(wav_samples_from_u16, (unsigned, channel, channels), from_unsigned),
    ensures
        from_signed@.len() == signed_kept@.len(),
        forall|k: int|
            0 <= k < signed_kept@.len() ==> #[trigger] from_signed@[k] == *signed_kept@[k],
        from_unsigned@.len() == unsigned_kept@.len(),
        forall|k: int|
            0 <= k < unsigned_kept@.len() ==> #[trigger] from_unsigned@[k] == *unsigned_kept@[k]
                - 32768,
{
    assert(signed_kept@.unref().len() == signed_kept@.len());
    assert(unsigned_kept@.unref().len() == unsigned_kept@.len());
    assert forall|k: int| 0 <= k < signed_kept@.len() implies #[trigger] from_signed@[k]
        == *signed_kept@[k] by {
        assert(signed_kept@.unref()[k] == *signed_kept@[k]);
    }
    assert forall|k: int| 0 <= k < unsigned_kept@.len() implies #[trigger] from_unsigned@[k]
        == *unsigned_kept@[k] - 32768 by {
        assert(unsigned_kept@.unref()[k] == *unsigned_kept@[k]);
    }
}

/// Any device and any target can be negotiated and planned for, and any buffer can be
/// written, if only a channel that is picked out of its frames comes with frames that are
/// not empty.
pub proof fn law_any_device_and_buffer_is_taken<'a, T>(
    quality: AudioQuality,
    channel_id: Option<&str>,
    probe: &DeviceProbe,
    configs: &[(u32, u32, u16)],
    rate: u32,
    channel_selected: bool,
    data: &'a [T],
    signed: &[i16],
    unsigned: &[u16],
    channel: Option<u16>,
    channels: u16,
)
    ensures
        call_requires(device_channel_count, (probe,)),
        call_requires(resolve_channel, (channel_id, channels)),
        call_requires(negotiate_config, (configs, rate, channels, channel_selected)),
        call_requires(plan_stream, (quality, channel_id, probe)),
        channel is None || channels > 0 ==> {
            &&& call_requires(wav_samples::<T>, (data, channel, channels))
            &&& call_requires(wav_samples_from_i16, (signed, channel, channels))
            &&& call_requires(wav_samples_from_u16, (unsigned, channel, channels))
        },
{
}

} // verus!
