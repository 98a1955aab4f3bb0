use audio_recorder::devices::{find_input_device, DeviceChoice};
use audio_recorder::error::Error;
use audio_recorder::models::{
    AudioDevice, AudioQuality, RecordingConfig, RecordingResult, RecordingState, RecordingStatus,
};
use audio_recorder::output::WavLocation;
use audio_recorder::recorder::{
    AudioRecorder, FileFailure, RecorderAction, RecorderCommand, SharedState, StartFile, StartPlan,
    StreamFailure, Watch,
};
use audio_recorder::stream::{
    resolve_channel, DefaultConfig, DeviceProbe, SampleFormat, StreamPlan, WavFormat,
};

fn config(output_path: &str) -> RecordingConfig {
    RecordingConfig {
        output_path: output_path.to_string(),
        quality: AudioQuality::High,
        max_duration: 0,
        device_id: None,
        channel_id: None,
    }
}

fn probe(sample_format: SampleFormat) -> DeviceProbe {
    DeviceProbe {
        supported: Some(vec![(8000, 96000, 2)]),
        default_config: Ok(DefaultConfig {
            sample_rate: 44100,
            channels: 2,
            sample_format,
        }),
    }
}

fn planned(output_path: &str, sample_format: SampleFormat) -> StartPlan {
    AudioRecorder::new()
        .start_recording(config(output_path))
        .unwrap()
        .plan(&probe(sample_format), 7)
        .unwrap()
}

fn file(path: &str, max_duration: u32) -> StartFile {
    StartFile {
        stream: StreamPlan {
            sample_rate: 48000,
            channels: 2,
            selected_channel: None,
            output_channels: 2,
            sample_format: SampleFormat::I16,
        },
        file_path: path.to_string(),
        max_duration,
    }
}

fn recording(path: &str) -> AudioRecorder {
    let mut recorder = AudioRecorder::new();
    assert_eq!(recorder.stream_opened(file(path, 0), Ok(())), Ok(None));
    recorder
}

fn status(state: RecordingState, duration_ms: u64, path: Option<&str>) -> RecordingStatus {
    RecordingStatus {
        state,
        duration_ms,
        output_path: path.map(|p| p.to_string()),
    }
}

#[test]
fn test_max_duration_watcher_stops_the_still_active_recording() {
    let mut shared = SharedState::default();
    shared.is_recording = true;
    shared.generation += 1;
    let generation = shared.generation;

    assert!(shared.max_duration_reached(generation));
}

#[test]
fn test_max_duration_watcher_is_a_noop_after_manual_stop() {
    let mut shared = SharedState::default();
    shared.is_recording = true;
    shared.generation += 1;
    let generation = shared.generation;

    shared.is_recording = false;

    assert!(!shared.max_duration_reached(generation));
}

#[test]
fn test_max_duration_watcher_is_a_noop_after_a_newer_recording_starts() {
    let mut shared = SharedState::default();
    shared.is_recording = true;
    shared.generation += 1;
    let generation = shared.generation;

    // A new recording started (and is still active) before the watcher fired.
    shared.generation += 1;

    assert!(!shared.max_duration_reached(generation));
}

#[test]
fn new_recorder_is_idle() {
    let recorder = AudioRecorder::new();
    assert_eq!(
        recorder.shared,
        SharedState {
            is_recording: false,
            is_paused: false,
            duration_ms: 0,
            output_path: None,
            sample_rate: 44100,
            channels: 1,
            generation: 0,
        }
    );
    assert_eq!(recorder.get_status(), Ok(status(RecordingState::Idle, 0, None)));
}

#[test]
fn recording_goes_from_start_to_result() {
    let mut recorder = AudioRecorder::new();
    let request = recorder.start_recording(config("take")).unwrap();
    assert_eq!(
        request.find_device(&Ok(vec![]), true),
        Ok(DeviceChoice::Default)
    );
    let plan = request.plan(&probe(SampleFormat::I16), 7).unwrap();
    assert_eq!(plan.location, WavLocation::InTempDir("take.wav".to_string()));
    assert_eq!(
        plan.wav_format(),
        WavFormat {
            channels: 2,
            sample_rate: 48000,
            bits_per_sample: 16
        }
    );
    let file = plan.file_created(Ok("/tmp/take.wav".to_string())).unwrap();
    assert_eq!(recorder.get_status(), Ok(status(RecordingState::Idle, 0, None)));
    assert_eq!(recorder.stream_opened(file, Ok(())), Ok(None));
    assert_eq!(
        recorder.get_status(),
        Ok(status(RecordingState::Recording, 0, Some("/tmp/take.wav")))
    );
    recorder.samples_arrived(true, 250);
    assert_eq!(recorder.stop_recording(), Ok("/tmp/take.wav".to_string()));
    assert_eq!(
        recorder.recording_closed(Ok(()), Some(4321)),
        Ok(RecordingResult {
            file_path: "/tmp/take.wav".to_string(),
            duration_ms: 250,
            file_size: 4321,
            sample_rate: 48000,
            channels: 2,
        })
    );
    assert_eq!(recorder.get_status(), Ok(status(RecordingState::Idle, 0, None)));
}

#[test]
fn second_start_is_refused() {
    let recorder = recording("a.wav");
    assert_eq!(recorder.start_recording(config("b")), Err(Error::AlreadyRecording));
}

#[test]
fn commands_need_a_recording() {
    let mut recorder = AudioRecorder::new();
    assert_eq!(recorder.stop_recording(), Err(Error::NotRecording));
    assert_eq!(recorder.recording_closed(Ok(()), None), Err(Error::NotRecording));
    assert_eq!(recorder.pause_recording(), Err(Error::NotRecording));
    assert_eq!(recorder.resume_recording(), Err(Error::NotRecording));
    assert_eq!(recorder, AudioRecorder::new());
}

#[test]
fn failed_finalize_does_not_brick_the_recorder() {
    let mut recorder = recording("a.wav");
    assert_eq!(
        recorder.recording_closed(Err("disk full".to_string()), None),
        Err(Error::Recording("Failed to finalize WAV: disk full".to_string()))
    );
    assert_eq!(recorder.get_status(), Ok(status(RecordingState::Idle, 0, None)));
    assert!(recorder.start_recording(config("b")).is_ok());
}

#[test]
fn unreadable_file_size_is_zero() {
    let mut recorder = recording("a.wav");
    assert_eq!(recorder.recording_closed(Ok(()), None).unwrap().file_size, 0);
}

#[test]
fn pause_and_resume() {
    let mut recorder = recording("a.wav");
    recorder.samples_arrived(true, 100);
    assert_eq!(recorder.pause_recording(), Ok(()));
    assert_eq!(recorder.pause_recording(), Ok(()));
    assert_eq!(recorder.write_flag, Some(false));
    assert!(!recorder.writes_samples());
    recorder.samples_arrived(false, 200);
    assert_eq!(
        recorder.get_status(),
        Ok(status(RecordingState::Paused, 100, Some("a.wav")))
    );
    assert_eq!(recorder.resume_recording(), Ok(()));
    assert_eq!(recorder.write_flag, Some(true));
    assert!(recorder.writes_samples());
    assert_eq!(
        recorder.get_status(),
        Ok(status(RecordingState::Recording, 100, Some("a.wav")))
    );
}

#[test]
fn time_limit_names_its_recording() {
    let mut recorder = AudioRecorder::new();
    assert_eq!(
        recorder.stream_opened(file("a.wav", 30), Ok(())),
        Ok(Some(Watch {
            generation: 1,
            seconds: 30
        }))
    );
    assert!(recorder.shared.max_duration_reached(1));
    assert!(recorder.recording_closed(Ok(()), None).is_ok());
    assert!(!recorder.shared.max_duration_reached(1));
    assert_eq!(recorder.stream_opened(file("b.wav", 0), Ok(())), Ok(None));
    assert!(!recorder.shared.max_duration_reached(1));
    assert!(recorder.shared.max_duration_reached(2));
    for later in 3..10u64 {
        assert!(recorder.recording_closed(Ok(()), None).is_ok());
        assert_eq!(recorder.stream_opened(file("c.wav", 0), Ok(())), Ok(None));
        assert!(!recorder.shared.max_duration_reached(1));
        assert!(recorder.shared.max_duration_reached(later));
    }
    assert!(!AudioRecorder::new().writes_samples());
}

#[test]
fn generations_wrap_around() {
    let mut recorder = AudioRecorder::new();
    recorder.shared.generation = u64::MAX;
    assert_eq!(
        recorder.stream_opened(file("a.wav", 1), Ok(())),
        Ok(Some(Watch {
            generation: 0,
            seconds: 1
        }))
    );
}

#[test]
fn failures_of_a_start_are_explained_and_leave_no_trace() {
    assert_eq!(
        planned("a", SampleFormat::F32).file_created(Err(FileFailure::CreateDir("no".to_string()))),
        Err(Error::Io("no".to_string()))
    );
    assert_eq!(
        planned("a", SampleFormat::F32).file_created(Err(FileFailure::CreateWav("no".to_string()))),
        Err(Error::Recording("Failed to create WAV file: no".to_string()))
    );
    assert_eq!(
        planned("a", SampleFormat::Other).file_created(Ok("a.wav".to_string())),
        Err(Error::UnsupportedFormat)
    );
    let mut recorder = AudioRecorder::new();
    assert_eq!(
        recorder.stream_opened(file("a.wav", 5), Err(StreamFailure::Build("no".to_string()))),
        Err(Error::Recording("Failed to build audio stream: no".to_string()))
    );
    assert_eq!(
        recorder.stream_opened(file("a.wav", 5), Err(StreamFailure::Play("no".to_string()))),
        Err(Error::Recording("Failed to start audio stream: no".to_string()))
    );
    assert_eq!(recorder, AudioRecorder::new());
}

#[test]
fn stream_errors_come_before_path_errors() {
    let recorder = AudioRecorder::new();
    let mut wrong_channel = config("../escape");
    wrong_channel.channel_id = Some("9".to_string());
    assert_eq!(
        recorder
            .start_recording(wrong_channel)
            .unwrap()
            .plan(&probe(SampleFormat::F32), 7),
        Err(Error::InvalidChannel("'9' — device has 2 channel(s)".to_string()))
    );
    assert!(matches!(
        recorder
            .start_recording(config("../escape"))
            .unwrap()
            .plan(&probe(SampleFormat::F32), 7),
        Err(Error::InvalidPath(_))
    ));
}

#[test]
fn commands_are_turned_into_actions() {
    let mut recorder = AudioRecorder::new();
    assert_eq!(
        recorder.handle(RecorderCommand::Stop),
        RecorderAction::Refuse(Error::NotRecording)
    );
    assert_eq!(
        recorder.handle(RecorderCommand::Pause),
        RecorderAction::Refuse(Error::NotRecording)
    );
    assert_eq!(
        recorder.handle(RecorderCommand::Resume),
        RecorderAction::Refuse(Error::NotRecording)
    );
    assert!(matches!(
        recorder.handle(RecorderCommand::Start(config("a"))),
        RecorderAction::Start(_)
    ));
    let mut recorder = recording("a.wav");
    assert_eq!(
        recorder.handle(RecorderCommand::Start(config("b"))),
        RecorderAction::Refuse(Error::AlreadyRecording)
    );
    assert_eq!(
        recorder.handle(RecorderCommand::Pause),
        RecorderAction::SetWriteFlag(false)
    );
    assert!(recorder.shared.is_paused);
    assert_eq!(
        recorder.handle(RecorderCommand::Resume),
        RecorderAction::SetWriteFlag(true)
    );
    assert!(!recorder.shared.is_paused);
    assert_eq!(
        recorder.handle(RecorderCommand::Stop),
        RecorderAction::Close("a.wav".to_string())
    );
    assert_eq!(recorder.handle(RecorderCommand::Shutdown), RecorderAction::Exit);
}

fn names() -> Vec<Option<String>> {
    vec![
        Some("Built-in".to_string()),
        None,
        Some("USB".to_string()),
        Some("USB".to_string()),
    ]
}

#[test]
fn requested_device_is_found_by_name() {
    assert_eq!(
        find_input_device(Some("USB"), &Ok(names()), true),
        Ok(DeviceChoice::Listed(2))
    );
    assert_eq!(
        find_input_device(Some("usb"), &Ok(names()), true),
        Ok(DeviceChoice::Default)
    );
    assert_eq!(
        find_input_device(Some("gone"), &Ok(names()), false),
        Err(Error::DeviceNotFound)
    );
    assert_eq!(find_input_device(None, &Ok(names()), true), Ok(DeviceChoice::Default));
    assert_eq!(
        find_input_device(None, &Err("no".to_string()), false),
        Err(Error::DeviceNotFound)
    );
    assert_eq!(
        find_input_device(Some("USB"), &Err("no".to_string()), true),
        Err(Error::Recording("Failed to enumerate devices: no".to_string()))
    );
}

#[test]
fn devices_are_listed_with_their_names_as_ids() {
    let device = |name: &str, is_default: bool| AudioDevice {
        id: name.to_string(),
        name: name.to_string(),
        is_default,
    };
    let recorder = AudioRecorder::new();
    let response = recorder.get_devices(&Ok(names()), &Some("USB".to_string())).unwrap();
    assert_eq!(
        response.devices,
        vec![device("Built-in", false), device("USB", true), device("USB", true)]
    );
    for listed in &response.devices {
        assert!(matches!(
            find_input_device(Some(&listed.id), &Ok(names()), false),
            Ok(DeviceChoice::Listed(_))
        ));
    }
    assert_eq!(
        recorder.get_devices(&Ok(names()), &None).unwrap().devices[2],
        device("USB", false)
    );
    assert_eq!(
        recorder.get_devices(&Err("no".to_string()), &None),
        Err(Error::Recording("Failed to enumerate devices: no".to_string()))
    );
}

#[test]
fn channels_are_listed_with_ids_that_select_them() {
    let device = DeviceProbe {
        supported: Some(vec![(8000, 96000, 12)]),
        default_config: Err("no".to_string()),
    };
    let channels = AudioRecorder::new().get_channels(&device).unwrap().channels;
    assert_eq!(channels.len(), 12);
    assert_eq!(channels[0].id, "0");
    assert_eq!(channels[0].name, "Channel 1");
    assert!(channels[0].is_default);
    assert_eq!(channels[11].id, "11");
    assert_eq!(channels[11].name, "Channel 12");
    assert!(!channels[11].is_default);
    for index in 0..12u16 {
        assert_eq!(
            resolve_channel(Some(&channels[index as usize].id), 12),
            Ok(Some(index))
        );
    }
}

#[test]
fn permission_is_always_granted() {
    let recorder = AudioRecorder::new();
    for permission in [recorder.check_permission(), recorder.request_permission()] {
        let permission = permission.unwrap();
        assert!(permission.granted);
        assert!(!permission.can_request);
    }
}
