use audio_recorder::error::Error;
use audio_recorder::models::AudioQuality;
use audio_recorder::samples::{wav_samples, wav_samples_from_i16, wav_samples_from_u16};
use audio_recorder::stream::{
    device_channel_count, negotiate_config, plan_stream, resolve_channel, DefaultConfig,
    DeviceProbe, SampleFormat, StreamPlan,
};
use audio_recorder::text::{chars_of, decimal_text, read_u16, same_text};

fn default_config(sample_rate: u32, channels: u16) -> DefaultConfig {
    DefaultConfig {
        sample_rate,
        channels,
        sample_format: SampleFormat::F32,
    }
}

fn probe(supported: Option<Vec<(u32, u32, u16)>>, channels: u16) -> DeviceProbe {
    DeviceProbe {
        supported,
        default_config: Ok(default_config(22050, channels)),
    }
}

#[test]
fn test_resolve_channel_none() {
    assert_eq!(resolve_channel(None, 2).unwrap(), None);
}

#[test]
fn test_resolve_channel_selected() {
    assert_eq!(resolve_channel(Some("0"), 2).unwrap(), Some(0));
    assert_eq!(resolve_channel(Some("1"), 2).unwrap(), Some(1));
}

#[test]
fn test_resolve_channel_invalid() {
    assert!(matches!(
        resolve_channel(Some("2"), 2),
        Err(Error::InvalidChannel(_))
    ));
    assert!(matches!(
        resolve_channel(Some("abc"), 2),
        Err(Error::InvalidChannel(_))
    ));
}

#[test]
fn invalid_channels_are_explained() {
    assert_eq!(
        resolve_channel(Some("2"), 2),
        Err(Error::InvalidChannel(
            "'2' — device has 2 channel(s)".to_string()
        ))
    );
    assert_eq!(
        resolve_channel(Some("abc"), 2),
        Err(Error::InvalidChannel("'abc' is not a channel id".to_string()))
    );
}

#[test]
fn numbers_read_as_the_standard_library_reads_them() {
    for text in [
        "", "+", "-", "+0", "-0", "0", "007", "65535", "65536", "000065535", "+65535", "99999999999",
        " 1", "1 ", "1_0", "++1", "1a", "a1", "٣", "1e3", "0x10", "\u{0}",
    ] {
        assert_eq!(read_u16(text), text.parse::<u16>().ok());
    }
    for n in 0..=u16::MAX {
        assert_eq!(decimal_text(n as u64), n.to_string());
        assert_eq!(read_u16(&n.to_string()), Some(n));
    }
    assert_eq!(decimal_text(u64::MAX), u64::MAX.to_string());
}

#[test]
fn text_is_compared_by_characters() {
    assert_eq!(chars_of("aé"), vec!['a', 'é']);
    assert!(same_text("Mic", "Mic"));
    assert!(!same_text("Mic", "mic"));
    assert!(!same_text("Mic", "Mic 2"));
    assert!(same_text("", ""));
}

#[test]
fn test_wav_samples_all_channels() {
    let data = [1, 2, 3, 4];
    let samples: Vec<_> = wav_samples(&data, None, 2).into_iter().copied().collect();
    assert_eq!(samples, vec![1, 2, 3, 4]);
}

#[test]
fn test_wav_samples_selected_channel() {
    // Two interleaved frames: [left, right, left, right]
    let data = [1, 2, 3, 4];
    let left: Vec<_> = wav_samples(&data, Some(0), 2).into_iter().copied().collect();
    let right: Vec<_> = wav_samples(&data, Some(1), 2).into_iter().copied().collect();
    assert_eq!(left, vec![1, 3]);
    assert_eq!(right, vec![2, 4]);
}

#[test]
fn samples_of_incomplete_frames_are_kept_too() {
    let data = [1, 2, 3, 4, 5];
    let pick = |channel: Option<u16>, channels: u16| -> Vec<i32> {
        wav_samples(&data, channel, channels).into_iter().copied().collect()
    };
    assert_eq!(pick(Some(0), 3), vec![1, 4]);
    assert_eq!(pick(Some(1), 3), vec![2, 5]);
    assert_eq!(pick(Some(2), 3), vec![3]);
    assert_eq!(pick(Some(7), 3), Vec::<i32>::new());
    assert_eq!(pick(Some(0), 1), vec![1, 2, 3, 4, 5]);
    assert_eq!(pick(None, 0), vec![1, 2, 3, 4, 5]);
    for channels in 1..8u16 {
        for channel in 0..10u16 {
            let expected: Vec<i32> = data
                .iter()
                .skip(channel as usize)
                .step_by(channels as usize)
                .copied()
                .collect();
            assert_eq!(pick(Some(channel), channels), expected);
        }
    }
    let empty: [u8; 0] = [];
    assert!(wav_samples(&empty, Some(0), 2).is_empty());
}

#[test]
fn integer_samples_become_signed() {
    assert_eq!(wav_samples_from_i16(&[-5, 6, 7, 8], Some(1), 2), vec![6, 8]);
    assert_eq!(wav_samples_from_i16(&[-5, 6], None, 2), vec![-5, 6]);
    assert_eq!(
        wav_samples_from_u16(&[0, 32767, 32768, 65535], None, 1),
        vec![-32768, -1, 0, 32767]
    );
    assert_eq!(wav_samples_from_u16(&[0, 1, 2, 65535], Some(1), 2), vec![-32767, 32767]);
}

#[test]
fn test_negotiate_config_exact_match_preferred() {
    let configs = [(44100, 48000, 2), (16000, 48000, 8)];
    // Both configs cover 44100Hz; the one with the target channel count wins.
    assert_eq!(
        negotiate_config(&configs, 44100, 8, true),
        Some((44100, 8))
    );
}

#[test]
fn test_negotiate_config_no_channel_selected_falls_back_to_sample_rate() {
    // No config offers 8 channels at all; without a channel selected,
    // matching just the sample rate is an acceptable fallback.
    let configs = [(44100, 48000, 2)];
    assert_eq!(
        negotiate_config(&configs, 44100, 8, false),
        Some((44100, 2))
    );
}

#[test]
fn test_negotiate_config_channel_selected_rejects_narrower_fallback() {
    // Same input as above, but with a channel selected: falling back to
    // the 2-channel config would silently point the selected index at a
    // different physical channel, so this must return None instead.
    let configs = [(44100, 48000, 2)];
    assert_eq!(negotiate_config(&configs, 44100, 8, true), None);
}

#[test]
fn test_negotiate_config_no_sample_rate_match() {
    let configs = [(8000, 16000, 2)];
    assert_eq!(negotiate_config(&configs, 44100, 2, false), None);
}

#[test]
fn first_covering_configuration_is_the_fallback() {
    let configs = [(8000, 16000, 4), (44100, 44100, 2), (8000, 96000, 6)];
    assert_eq!(negotiate_config(&configs, 44100, 1, false), Some((44100, 2)));
    assert_eq!(negotiate_config(&configs, 44100, 6, false), Some((44100, 6)));
    assert_eq!(negotiate_config(&[], 44100, 1, false), None);
}

#[test]
fn channel_count_is_that_of_the_widest_configuration() {
    assert_eq!(device_channel_count(&probe(Some(vec![(1, 2, 2), (1, 2, 8), (1, 2, 4)]), 1)), 8);
    assert_eq!(device_channel_count(&probe(Some(vec![]), 3)), 3);
    assert_eq!(device_channel_count(&probe(Some(vec![(1, 2, 0)]), 3)), 3);
    assert_eq!(device_channel_count(&probe(None, 3)), 3);
    assert_eq!(device_channel_count(&probe(None, 0)), 1);
    assert_eq!(
        device_channel_count(&DeviceProbe {
            supported: None,
            default_config: Err("gone".to_string()),
        }),
        1
    );
}

#[test]
fn presets_have_their_documented_formats() {
    assert_eq!(AudioQuality::Low.sample_rate(), 16000);
    assert_eq!(AudioQuality::Low.channels(), 1);
    assert_eq!(AudioQuality::Medium.sample_rate(), 44100);
    assert_eq!(AudioQuality::Medium.channels(), 1);
    assert_eq!(AudioQuality::High.sample_rate(), 48000);
    assert_eq!(AudioQuality::High.channels(), 2);
}

#[test]
fn preset_is_used_where_supported() {
    let device = probe(Some(vec![(8000, 96000, 1), (8000, 96000, 2)]), 2);
    assert_eq!(
        plan_stream(AudioQuality::High, None, &device),
        Ok(StreamPlan {
            sample_rate: 48000,
            channels: 2,
            selected_channel: None,
            output_channels: 2,
            sample_format: SampleFormat::F32,
        })
    );
}

#[test]
fn default_configuration_is_the_last_resort() {
    let device = probe(Some(vec![(8000, 9000, 2)]), 2);
    assert_eq!(
        plan_stream(AudioQuality::Low, None, &device),
        Ok(StreamPlan {
            sample_rate: 22050,
            channels: 2,
            selected_channel: None,
            output_channels: 2,
            sample_format: SampleFormat::F32,
        })
    );
    let unread = probe(None, 2);
    assert_eq!(
        plan_stream(AudioQuality::Low, None, &unread).map(|p| p.sample_rate),
        Ok(22050)
    );
}

#[test]
fn selected_channel_captures_the_whole_device_into_a_mono_file() {
    let device = probe(Some(vec![(8000, 48000, 2), (8000, 48000, 8)]), 2);
    assert_eq!(
        plan_stream(AudioQuality::Medium, Some("5"), &device),
        Ok(StreamPlan {
            sample_rate: 44100,
            channels: 8,
            selected_channel: Some(5),
            output_channels: 1,
            sample_format: SampleFormat::F32,
        })
    );
}

#[test]
fn selected_channel_is_refused_where_the_preset_cannot_be_honored() {
    let device = probe(Some(vec![(8000, 48000, 2), (96000, 96000, 8)]), 2);
    assert_eq!(
        plan_stream(AudioQuality::Medium, Some("1"), &device),
        Err(Error::InvalidChannel(
            "'1' — no supported input configuration offers 8 channel(s) at 44100Hz".to_string()
        ))
    );
}

#[test]
fn channel_errors_come_before_configuration_errors() {
    let device = DeviceProbe {
        supported: Some(vec![(8000, 48000, 2)]),
        default_config: Err("gone".to_string()),
    };
    assert_eq!(
        plan_stream(AudioQuality::Medium, Some("2"), &device),
        Err(Error::InvalidChannel("'2' — device has 2 channel(s)".to_string()))
    );
    assert_eq!(
        plan_stream(AudioQuality::Medium, Some("1"), &device),
        Err(Error::Recording("Failed to get device config: gone".to_string()))
    );
}
