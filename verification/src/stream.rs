//! Which channel is recorded, and with which stream configuration.

use vstd::prelude::*;
use crate::error::{outcome, recording_error, Error, ErrorView};
use crate::models::AudioQuality;
use crate::text::{decimal, decimal_text, lemma_u16_reads_back, opt_text, read_u16, u16_written};

verus! {

/// The format in which a device delivers its samples.
#[derive(Debug, Clone, Copy, PartialEq, Eq, Structural)]
pub enum SampleFormat {
    F32,
    I16,
    U16,
    /// Any format that cannot be recorded.
    Other,
}

/// The configuration that a device uses when left to itself.
#[derive(Debug, Clone, Copy, PartialEq, Eq, Structural)]
pub struct DefaultConfig {
    pub sample_rate: u32,
    pub channels: u16,
    pub sample_format: SampleFormat,
}

/// What a device says about itself.
#[derive(Debug, PartialEq, Eq)]
pub struct DeviceProbe {
    /// The supported configurations, each as its lowest and highest sample rate
    /// and its channel count; `None` if they could not be read.
    pub supported: Option<Vec<(u32, u32, u16)>>,
    /// The default configuration, or why it could not be read.
    pub default_config: Result<DefaultConfig, String>,
}

/// How a recording captures its device.
#[derive(Debug, Clone, Copy, PartialEq, Eq, Structural)]
pub struct StreamPlan {
    /// Samples per second, in the stream and in the file.
    pub sample_rate: u32,
    /// Channels of the captured stream.
    pub channels: u16,
    /// The one channel to keep, or `None` to keep all of them.
    pub selected_channel: Option<u16>,
    /// Channels of the file.
    pub output_channels: u16,
    /// The format in which the samples arrive.
    pub sample_format: SampleFormat,
}

impl StreamPlan {
    /// The header of the file: 16-bit samples at the stream's rate, in as many
    /// channels as are kept.
    pub open spec fn header(self) -> WavFormat {
        WavFormat {
            channels: self.output_channels,
            sample_rate: self.sample_rate,
            bits_per_sample: 16,
        }
    }
}

/// The header of a WAV file of signed integer samples.
#[derive(Debug, Clone, Copy, PartialEq, Eq, Structural)]
pub struct WavFormat {
    pub channels: u16,
    pub sample_rate: u32,
    pub bits_per_sample: u16,
}

/// The largest channel count among configurations; zero if there is none.
pub open spec fn widest(configs: Seq<(u32, u32, u16)>) -> u16
    decreases configs.len(),
{
    if configs.len() == 0 {
        0
    } else if configs.last().2 > widest(configs.drop_last()) {
        configs.last().2
    } else {
        widest(configs.drop_last())
    }
}

/// The number of channels that a device can deliver: that of its widest
/// configuration, else that of its default configuration, else one.
pub open spec fn channel_count(probe: DeviceProbe) -> u16 {
    if probe.supported matches Some(configs) && widest(configs@) > 0 {
        widest(probe.supported->0@)
    } else if probe.default_config matches Ok(config) && config.channels > 0 {
        probe.default_config->Ok_0.channels
    } else {
        1
    }
}

pub open spec fn not_a_channel_id(id: Seq<char>) -> Seq<char> {
    "'"@ + id + "' is not a channel id"@
}

pub open spec fn no_such_channel(id: Seq<char>, available: u16) -> Seq<char> {
    "'"@ + id + "' — device has "@ + decimal(available as nat) + " channel(s)"@
}

pub open spec fn no_such_configuration(index: u16, channels: u16, rate: u32) -> Seq<char> {
    "'"@ + decimal(index as nat) + "' — no supported input configuration offers "@ + decimal(
        channels as nat,
    ) + " channel(s) at "@ + decimal(rate as nat) + "Hz"@
}

/// The channel that a channel id selects on a device with `available` channels.
pub open spec fn channel_choice(channel_id: Option<Seq<char>>, available: u16) -> Result<
    Option<u16>,
    ErrorView,
> {
    match channel_id {
        None => Ok(None),
        Some(id) => match u16_written(id) {
            None => Err(ErrorView::InvalidChannel(not_a_channel_id(id))),
            Some(index) => if index < available {
                Ok(Some(index))
            } else {
                Err(ErrorView::InvalidChannel(no_such_channel(id, available)))
            },
        },
    }
}

/// Whether a configuration covers a sample rate.
pub open spec fn covers_rate(config: (u32, u32, u16), rate: u32) -> bool {
    config.0 <= rate <= config.1
}

/// Whether a configuration covers a sample rate with just this many channels.
pub open spec fn matches_target(config: (u32, u32, u16), rate: u32, channels: u16) -> bool {
    covers_rate(config, rate) && config.2 == channels
}

/// Whether the configuration at `k` is the first that covers a sample rate.
pub open spec fn is_first_covering(configs: Seq<(u32, u32, u16)>, rate: u32, k: int) -> bool {
    &&& 0 <= k < configs.len()
    &&& covers_rate(configs[k], rate)
    &&& forall|j: int| 0 <= j < k ==> !covers_rate(#[trigger] configs[j], rate)
}

/// The sample rate and channel count that configurations offer for a target. One
/// that meets both is taken wherever it stands; failing that, and only where no
/// channel is selected, the first that covers the sample rate.
pub open spec fn negotiated(
    configs: Seq<(u32, u32, u16)>,
    rate: u32,
    channels: u16,
    channel_selected: bool,
) -> Option<(u32, u16)> {
    if exists|i: int|
        0 <= i < configs.len() && matches_target(#[trigger] configs[i], rate, channels) {
        Some((rate, channels))
    } else if !channel_selected && exists|k: int| is_first_covering(configs, rate, k) {
        Some((rate, configs[choose|k: int| is_first_covering(configs, rate, k)].2))
    } else {
        None
    }
}

/// What a device offers for a target; nothing where its configurations could not
/// be read.
pub open spec fn offered(
    probe: DeviceProbe,
    rate: u32,
    channels: u16,
    channel_selected: bool,
) -> Option<(u32, u16)> {
    match probe.supported {
        Some(configs) => negotiated(configs@, rate, channels, channel_selected),
        None => None,
    }
}

/// How a recording of the given quality and channel captures a device.
pub open spec fn planned(
    quality: AudioQuality,
    channel_id: Option<Seq<char>>,
    probe: DeviceProbe,
) -> Result<StreamPlan, ErrorView> {
    let available = channel_count(probe);
    let rate = quality.spec_sample_rate();
    match channel_choice(channel_id, available) {
        Err(e) => Err(e),
        Ok(selected) => match probe.default_config {
            Err(cause) => Err(ErrorView::Recording("Failed to get device config: "@ + cause@)),
            Ok(default_config) => {
                let target = if selected is Some {
                    available
                } else {
                    quality.spec_channels()
                };
                match (offered(probe, rate, target, selected is Some), selected) {
                    (Some((sample_rate, channels)), _) => Ok(
                        stream_plan(sample_rate, channels, selected, default_config.sample_format),
                    ),
                    (None, Some(index)) => Err(
                        ErrorView::InvalidChannel(no_such_configuration(index, target, rate)),
                    ),
                    (None, None) => Ok(
                        stream_plan(
                            default_config.sample_rate,
                            default_config.channels,
                            None,
                            default_config.sample_format,
                        ),
                    ),
                }
            },
        },
    }
}

/// A plan for a stream: the file is mono where a channel is selected, and has the
/// channels of the stream otherwise.
pub open spec fn stream_plan(
    sample_rate: u32,
    channels: u16,
    selected_channel: Option<u16>,
    sample_format: SampleFormat,
) -> StreamPlan {
    StreamPlan {
        sample_rate,
        channels,
        selected_channel,
        output_channels: if selected_channel is Some {
            1
        } else {
            channels
        },
        sample_format,
    }
}

/// [`widest`] is reached by a configuration and exceeded by none.
pub proof fn lemma_widest(configs: Seq<(u32, u32, u16)>)
    ensures
        forall|i: int| 0 <= i < configs.len() ==> (#[trigger] configs[i]).2 <= widest(configs),
        configs.len() > 0 ==> exists|i: int|
            0 <= i < configs.len() && (#[trigger] configs[i]).2 == widest(configs),
    decreases configs.len(),
{
    if configs.len() > 0 {
        let rest = configs.drop_last();
        lemma_widest(rest);
        assert forall|i: int| 0 <= i < configs.len() implies (#[trigger] configs[i]).2 <= widest(
            configs,
        ) by {
            if i < rest.len() {
                assert(rest[i].2 <= widest(rest));
            }
        }
        if configs.last().2 > widest(rest) || rest.len() == 0 {
            assert(configs[configs.len() - 1].2 == widest(configs));
        } else {
            let i = choose|i: int| 0 <= i < rest.len() && (#[trigger] rest[i]).2 == widest(rest);
            assert(configs[i].2 == widest(configs));
        }
    }
}

/// The id that the channel list gives a channel selects that channel again.
pub proof fn law_listed_channel_id_selects_channel(index: u16, available: u16)
    requires
        index < available,
    ensures
        channel_choice(Some(decimal(index as nat)), available) == Ok::<Option<u16>, ErrorView>(
            Some(index),
        ),
{
    lemma_u16_reads_back(index);
}

/// A device has at least one channel, and no supported configuration has more
/// than the device.
pub proof fn law_device_has_a_channel(probe: DeviceProbe)
    ensures
        channel_count(probe) >= 1,
        probe.supported matches Some(configs) ==> forall|i: int|
            0 <= i < configs@.len() ==> (#[trigger] configs@[i]).2 <= channel_count(probe),
{
    if let Some(configs) = probe.supported {
        lemma_widest(configs@);
    }
}

/// A selected channel is one of the captured stream, which carries every channel
/// of the device, so that the index means the same physical channel; the file is
/// mono and has the sample rate of the preset.
pub proof fn law_selected_channel_is_captured(
    quality: AudioQuality,
    channel_id: Seq<char>,
    probe: DeviceProbe,
)
    ensures
        planned(quality, Some(channel_id), probe) matches Ok(plan) ==> {
            &&& plan.selected_channel is Some
            &&& plan.selected_channel == u16_written(channel_id)
            &&& plan.selected_channel->0 < plan.channels
            &&& plan.channels == channel_count(probe)
            &&& plan.sample_rate == quality.spec_sample_rate()
            &&& plan.output_channels == 1
        },
{
}

/// Without a selected channel the whole stream goes to the file, and a device
/// whose default configuration can be read is never refused.
pub proof fn law_whole_stream_is_recorded(quality: AudioQuality, probe: DeviceProbe)
    ensures
        planned(quality, None, probe) is Ok <==> probe.default_config is Ok,
        planned(quality, None, probe) matches Ok(plan) ==> {
            &&& plan.selected_channel is None
            &&& plan.output_channels == plan.channels
        },
{
}

/// A requested channel is either recorded or refused as an invalid channel, never
/// replaced by another: it is recorded exactly when the device has it and offers
/// all its channels at the sample rate of the preset.
pub proof fn law_channel_is_honored_or_refused(
    quality: AudioQuality,
    channel_id: Seq<char>,
    probe: DeviceProbe,
)
    requires
        probe.default_config is Ok,
    ensures
        planned(quality, Some(channel_id), probe) matches Err(e) ==> e is InvalidChannel,
        planned(quality, Some(channel_id), probe) is Ok <==> {
            &&& u16_written(channel_id) is Some
            &&& u16_written(channel_id)->0 < channel_count(probe)
            &&& probe.supported is Some
            &&& exists|i: int|
                0 <= i < probe.supported->0@.len() && matches_target(
                    #[trigger] probe.supported->0@[i],
                    quality.spec_sample_rate(),
                    channel_count(probe),
                )
        },
{
}

/// What negotiation gives is what some configuration offers, at the target's
/// sample rate; with a channel selected it has the target's channel count too.
pub proof fn law_negotiated_is_offered(
    configs: Seq<(u32, u32, u16)>,
    rate: u32,
    channels: u16,
    channel_selected: bool,
)
    ensures
        negotiated(configs, rate, channels, channel_selected) matches Some((sr, ch)) ==> {
            &&& sr == rate
            &&& channel_selected ==> ch == channels
            &&& exists|i: int|
                0 <= i < configs.len() && matches_target(#[trigger] configs[i], sr, ch)
        },
        !channel_selected ==> (negotiated(configs, rate, channels, channel_selected) is Some
            <==> exists|i: int| 0 <= i < configs.len() && covers_rate(#[trigger] configs[i], rate)),
{
    if exists|k: int| is_first_covering(configs, rate, k) {
        let k = choose|k: int| is_first_covering(configs, rate, k);
        assert(matches_target(configs[k], rate, configs[k].2));
    }
    if exists|i: int| 0 <= i < configs.len() && covers_rate(#[trigger] configs[i], rate) {
        let i = choose|i: int| 0 <= i < configs.len() && covers_rate(#[trigger] configs[i], rate);
        lemma_first_covering(configs, rate, i);
    }
}

/// Where a configuration covers a sample rate there is a first that does.
proof fn lemma_first_covering(configs: Seq<(u32, u32, u16)>, rate: u32, i: int)
    requires
        0 <= i < configs.len(),
        covers_rate(configs[i], rate),
    ensures
        exists|k: int| is_first_covering(configs, rate, k),
    decreases i,
{
    if forall|j: int| 0 <= j < i ==> !covers_rate(#[trigger] configs[j], rate) {
        assert(is_first_covering(configs, rate, i));
    } else {
        let j = choose|j: int| 0 <= j < i && covers_rate(#[trigger] configs[j], rate);
        lemma_first_covering(configs, rate, j);
    }
}

/// The number of input channels that a device can deliver: its widest supported
/// configuration, since that is the stream a single channel is picked out of.
pub fn device_channel_count(probe: &DeviceProbe) -> (count: u16)
    ensures
        count == channel_count(*probe),
        count >= 1,
{
    if let Some(configs) = &probe.supported {
        let mut most: u16 = 0;
        let mut i: usize = 0;
        assert(configs@.take(0) =~= Seq::empty());
        while i < configs.len()
            invariant
                i <= configs.len(),
                most == widest(configs@.take(i as int)),
            decreases configs.len() - i,
        {
            assert(configs@.take(i + 1).drop_last() =~= configs@.take(i as int));
            if configs[i].2 > most {
                most = configs[i].2;
            }
            i = i + 1;
        }
        assert(configs@.take(i as int) =~= configs@);
        if most > 0 {
            return most;
        }
    }
    match &probe.default_config {
        Ok(config) => if config.channels > 0 {
            config.channels
        } else {
            1
        },
        Err(_) => 1,
    }
}

/// Resolves the channel of a recording: the one whose id was requested, or `None`
/// to record every channel. Unlike a missing device, a channel that the device
/// does not have is an error: recording a different one could not be told from
/// success.
pub fn resolve_channel(channel_id: Option<&str>, available: u16) -> (r: Result<Option<u16>, Error>)
    ensures
        outcome(r) == channel_choice(opt_text(channel_id), available),
{
    match channel_id {
        None => Ok(None),
        Some(id) => match read_u16(id) {
            None => Err(
                Error::InvalidChannel("'".to_owned().concat(id).concat("' is not a channel id")),
            ),
            Some(index) => if index < available {
                Ok(Some(index))
            } else {
                Err(
                    Error::InvalidChannel(
                        "'".to_owned().concat(id).concat("' — device has ").concat(
                            decimal_text(available as u64).as_str(),
                        ).concat(" channel(s)"),
                    ),
                )
            },
        },
    }
}

/// Picks the best supported sample rate and channel count for a requested
/// quality, from each configuration's lowest and highest sample rate and channel
/// count.
pub fn negotiate_config(
    configs: &[(u32, u32, u16)],
    target_sample_rate: u32,
    target_channels: u16,
    channel_selected: bool,
) -> (r: Option<(u32, u16)>)
    ensures
        r == negotiated(configs@, target_sample_rate, target_channels, channel_selected),
{
    let mut sample_rate_match: Option<(u32, u16)> = None;
    let mut i: usize = 0;
    while i < configs.len()
        invariant
            i <= configs.len(),
            forall|j: int|
                0 <= j < i ==> !matches_target(
                    #[trigger] configs@[j],
                    target_sample_rate,
                    target_channels,
                ),
            channel_selected ==> sample_rate_match is None,
            !channel_selected && sample_rate_match is None ==> forall|j: int|
                0 <= j < i ==> !covers_rate(#[trigger] configs@[j], target_sample_rate),
            sample_rate_match matches Some(found) ==> exists|k: int|
                is_first_covering(configs@, target_sample_rate, k) && found == (
                    target_sample_rate,
                    configs@[k].2,
                ),
        decreases configs.len() - i,
    {
        let (sr_min, sr_max, ch): (u32, u32, u16) = configs[i];
        let sr_in_range: bool = target_sample_rate >= sr_min && target_sample_rate <= sr_max;
        if sr_in_range && ch == target_channels {
            assert(matches_target(configs@[i as int], target_sample_rate, target_channels));
            return Some((target_sample_rate, target_channels));
        }
        if !channel_selected && sr_in_range && sample_rate_match.is_none() {
            sample_rate_match = Some((target_sample_rate, ch));
            assert(is_first_covering(configs@, target_sample_rate, i as int));
        }
        i = i + 1;
    }
    sample_rate_match
}

/// Plans the stream of a recording from what its device says about itself: the
/// quality preset where the device supports it, its default configuration
/// otherwise. A selected channel can only be picked out of a stream that carries
/// it, so everything the device offers is captured then, and it is an error if no
/// configuration allows that at the sample rate of the preset.
pub fn plan_stream(quality: AudioQuality, channel_id: Option<&str>, probe: &DeviceProbe) -> (r:
    Result<StreamPlan, Error>)
    ensures
        outcome(r) == planned(quality, opt_text(channel_id), *probe),
{
    let available: u16 = device_channel_count(probe);
    let selected: Option<u16> = match resolve_channel(channel_id, available) {
        Err(e) => {
            return Err(e);
        },
        Ok(selected) => selected,
    };
    let default_config: DefaultConfig = match &probe.default_config {
        Err(cause) => {
            return Err(recording_error("Failed to get device config: ", cause.as_str()));
        },
        Ok(config) => *config,
    };
    let target_sample_rate: u32 = quality.sample_rate();
    let target_channels: u16 = match selected {
        Some(_) => available,
        None => quality.channels(),
    };
    let offer: Option<(u32, u16)> = match &probe.supported {
        Some(configs) => negotiate_config(
            configs.as_slice(),
            target_sample_rate,
            target_channels,
            selected.is_some(),
        ),
        None => None,
    };
    let (sample_rate, channels): (u32, u16) = match offer {
        Some(found) => found,
        None => {
            if let Some(index) = selected {
                return Err(
                    Error::InvalidChannel(
                        "'".to_owned().concat(decimal_text(index as u64).as_str()).concat(
                            "' — no supported input configuration offers ",
                        ).concat(decimal_text(target_channels as u64).as_str()).concat(
                            " channel(s) at ",
                        ).concat(decimal_text(target_sample_rate as u64).as_str()).concat("Hz"),
                    ),
                );
            }
            (default_config.sample_rate, default_config.channels)
        },
    };
    let output_channels: u16 = if selected.is_some() {
        1
    } else {
        channels
    };
    Ok(
        StreamPlan {
            sample_rate,
            channels,
            selected_channel: selected,
            output_channels,
            sample_format: default_config.sample_format,
        },
    )
}

} // verus!
