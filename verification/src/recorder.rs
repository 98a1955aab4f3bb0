//! The recorder: what each command does to it, and what it answers.
//!
//! A start takes several steps, because each depends on what the system answered
//! to the one before: [`AudioRecorder::start_recording`] accepts the request,
//! [`StartRequest::find_device`] chooses the device, [`StartRequest::plan`] plans
//! the stream and the file from what the device says,
//! [`StartPlan::file_created`] goes on once the file is there, and
//! [`AudioRecorder::stream_opened`] makes the recorder record. A stop takes two:
//! [`AudioRecorder::stop_recording`] and [`AudioRecorder::recording_closed`].

use vstd::prelude::*;
use crate::devices::{
    device_choice, device_entries, find_input_device, is_channel_entry, list_channels, list_devices,
    DeviceChoice, DeviceListing,
};
use crate::error::{outcome, recording_error, Error, ErrorView};
use crate::models::{
    AudioChannelsResponse, AudioDevicesResponse, PermissionStatus, RecordingConfig, RecordingResult,
    RecordingState, RecordingStatus,
};
use crate::output::{resolve_wav_path, wav_path_verdict, WavLocation};
use crate::stream::{
    channel_count, device_channel_count, plan_stream, planned, DeviceProbe, SampleFormat,
    StreamPlan, WavFormat,
};
use crate::text::{borrowed, opt_string};

verus! {

/// The state that the recorder's users can see.
#[derive(Debug, PartialEq, Eq)]
pub struct SharedState {
    pub is_recording: bool,
    pub is_paused: bool,
    /// Milliseconds from the start of the recording to its latest samples.
    pub duration_ms: u64,
    /// The file of the current recording.
    pub output_path: Option<String>,
    pub sample_rate: u32,
    pub channels: u16,
    /// Tells recordings apart: it changes with every start.
    pub generation: u64,
}

impl Default for SharedState {
    fn default() -> (state: SharedState)
        ensures
            state == idle_state(),
    {
        SharedState {
            is_recording: false,
            is_paused: false,
            duration_ms: 0,
            output_path: None,
            sample_rate: 44100,
            channels: 1,
            generation: 0,
        }
    }
}

/// The state before the first recording.
pub open spec fn idle_state() -> SharedState {
    SharedState {
        is_recording: false,
        is_paused: false,
        duration_ms: 0,
        output_path: None,
        sample_rate: 44100,
        channels: 1,
        generation: 0,
    }
}

/// The generation of the recording after one of generation `g`.
pub open spec fn next_generation(g: u64) -> u64 {
    if g == u64::MAX {
        0
    } else {
        (g + 1) as u64
    }
}

impl SharedState {
    /// Whether the time limit of the recording of this generation still means
    /// something: the recorder records, and it is that recording.
    pub open spec fn is_active(self, generation: u64) -> bool {
        self.is_recording && self.generation == generation
    }

    /// Decides, when the time limit of a recording is reached, whether to stop:
    /// not if the recording has already stopped or a newer one has started.
    pub fn max_duration_reached(&self, generation: u64) -> (stop: bool)
        ensures
            stop == self.is_active(generation),
    {
        self.is_recording && self.generation == generation
    }
}

/// A time limit to watch: after `seconds`, ask
/// [`SharedState::max_duration_reached`] about `generation`.
#[derive(Debug, Clone, Copy, PartialEq, Eq, Structural)]
pub struct Watch {
    pub generation: u64,
    pub seconds: u64,
}

/// An accepted request to record, whose device is to be found.
#[derive(Debug, PartialEq, Eq)]
pub struct StartRequest {
    pub config: RecordingConfig,
}

/// A planned recording, whose file is to be created.
#[derive(Debug, PartialEq, Eq)]
pub struct StartPlan {
    pub stream: StreamPlan,
    pub location: WavLocation,
    pub max_duration: u32,
}

/// A recording with its file, whose stream is to be opened.
#[derive(Debug, PartialEq, Eq)]
pub struct StartFile {
    pub stream: StreamPlan,
    pub file_path: String,
    pub max_duration: u32,
}

/// Why the file of a recording could not be created.
#[derive(Debug, PartialEq, Eq)]
pub enum FileFailure {
    /// Its directory could not be made.
    CreateDir(String),
    /// The WAV file could not be made.
    CreateWav(String),
}

impl FileFailure {
    pub open spec fn error(self) -> ErrorView {
        match self {
            FileFailure::CreateDir(cause) => ErrorView::Io(cause@),
            FileFailure::CreateWav(cause) => ErrorView::Recording(
                "Failed to create WAV file: "@ + cause@,
            ),
        }
    }
}

/// Why the stream of a recording could not be opened.
#[derive(Debug, PartialEq, Eq)]
pub enum StreamFailure {
    /// It could not be set up.
    Build(String),
    /// It could not be started.
    Play(String),
}

impl StreamFailure {
    pub open spec fn error(self) -> ErrorView {
        match self {
            StreamFailure::Build(cause) => ErrorView::Recording(
                "Failed to build audio stream: "@ + cause@,
            ),
            StreamFailure::Play(cause) => ErrorView::Recording(
                "Failed to start audio stream: "@ + cause@,
            ),
        }
    }
}

impl StartRequest {
    /// Chooses the device to record from.
    pub fn find_device(&self, listing: &DeviceListing, has_default: bool) -> (r: Result<
        DeviceChoice,
        Error,
    >)
        ensures
            outcome(r) == device_choice(opt_string(self.config.device_id), *listing, has_default),
    {
        find_input_device(borrowed(&self.config.device_id), listing, has_default)
    }

    /// Whether `r` is the answer of [`StartRequest::plan`]: an error of the stream
    /// comes before one of the path.
    pub open spec fn plan_verdict(
        self,
        probe: DeviceProbe,
        timestamp: u64,
        r: Result<StartPlan, Error>,
    ) -> bool {
        match planned(self.config.quality, opt_string(self.config.channel_id), probe) {
            Err(e) => r matches Err(error) && error@ == e,
            Ok(stream) => {
                &&& wav_path_verdict(
                    self.config.output_path@,
                    timestamp,
                    match r {
                        Ok(plan) => Ok(plan.location),
                        Err(e) => Err(e),
                    },
                )
                &&& r matches Ok(plan) ==> plan.stream == stream && plan.max_duration
                    == self.config.max_duration
            },
        }
    }

    /// Plans the stream and the file. `timestamp` is the current time in seconds;
    /// it matters only where the request names no file.
    pub fn plan(self, probe: &DeviceProbe, timestamp: u64) -> (r: Result<StartPlan, Error>)
        ensures
            self.plan_verdict(*probe, timestamp, r),
    {
        let stream: StreamPlan = match plan_stream(
            self.config.quality,
            borrowed(&self.config.channel_id),
            probe,
        ) {
            Err(e) => {
                return Err(e);
            },
            Ok(stream) => stream,
        };
        match resolve_wav_path(self.config.output_path.as_str(), timestamp) {
            Err(e) => Err(e),
            Ok(location) => Ok(
                StartPlan { stream, location, max_duration: self.config.max_duration },
            ),
        }
    }
}

impl StartPlan {
    /// The header of the WAV file.
    pub fn wav_format(&self) -> (format: WavFormat)
        ensures
            format == self.stream.header(),
    {
        WavFormat {
            channels: self.stream.output_channels,
            sample_rate: self.stream.sample_rate,
            bits_per_sample: 16,
        }
    }

    /// Goes on once the file is created at the path that the answer gives, or
    /// gives up. A device whose samples cannot be recorded is refused here.
    pub fn file_created(self, created: Result<String, FileFailure>) -> (r: Result<StartFile, Error>)
        ensures
            outcome(r) == match created {
                Err(failure) => Err(failure.error()),
                Ok(file_path) => if self.stream.sample_format is Other {
                    Err(ErrorView::UnsupportedFormat)
                } else {
                    Ok(
                        StartFile {
                            stream: self.stream,
                            file_path,
                            max_duration: self.max_duration,
                        },
                    )
                },
            },
    {
        match created {
            Err(FileFailure::CreateDir(cause)) => Err(Error::Io(cause)),
            Err(FileFailure::CreateWav(cause)) => Err(
                recording_error("Failed to create WAV file: ", cause.as_str()),
            ),
            Ok(file_path) => match self.stream.sample_format {
                SampleFormat::Other => Err(Error::UnsupportedFormat),
                _ => Ok(
                    StartFile { stream: self.stream, file_path, max_duration: self.max_duration },
                ),
            },
        }
    }
}

/// A command to the recorder.
#[derive(Debug, PartialEq, Eq)]
pub enum RecorderCommand {
    Start(RecordingConfig),
    Stop,
    Pause,
    Resume,
    Shutdown,
}

/// What a command makes the caller do.
#[derive(Debug, PartialEq, Eq)]
pub enum RecorderAction {
    /// Go on with the start of a recording, and answer when that is done.
    Start(StartRequest),
    /// Close the stream, complete the file at this path, and answer with what
    /// [`AudioRecorder::recording_closed`] gives.
    Close(String),
    /// Set the flag that lets the stream write samples, and answer that all is well.
    SetWriteFlag(bool),
    /// Answer with an error.
    Refuse(Error),
    /// Close the stream and complete the file where there is a recording, and end.
    Exit,
}

/// The recorder.
#[derive(Debug, PartialEq, Eq)]
pub struct AudioRecorder {
    pub shared: SharedState,
    /// Whether samples are written to the file, while there is a recording.
    pub write_flag: Option<bool>,
}

impl AudioRecorder {
    /// The parts of the state agree: there is a file, and a flag for writing to it,
    /// exactly while there is a recording, and samples are written unless it is
    /// paused.
    pub open spec fn wf(self) -> bool {
        &&& self.shared.output_path is Some <==> self.shared.is_recording
        &&& self.shared.is_paused ==> self.shared.is_recording
        &&& self.write_flag == if self.shared.is_recording {
            Some(!self.shared.is_paused)
        } else {
            None
        }
    }

    /// Whether samples that arrive are written to the file.
    pub open spec fn is_writing(self) -> bool {
        self.write_flag == Some(true)
    }

    /// The recorder once a stream was opened for `file`.
    pub open spec fn after_start(self, file: StartFile) -> AudioRecorder {
        AudioRecorder {
            shared: SharedState {
                is_recording: true,
                is_paused: false,
                duration_ms: 0,
                output_path: Some(file.file_path),
                sample_rate: file.stream.sample_rate,
                channels: file.stream.output_channels,
                generation: next_generation(self.shared.generation),
            },
            write_flag: Some(true),
        }
    }

    /// The recorder once it was paused or resumed; nothing happens to one that has
    /// no recording.
    pub open spec fn after_pause(self, paused: bool) -> AudioRecorder {
        if self.write_flag is Some {
            AudioRecorder {
                shared: SharedState { is_paused: paused, ..self.shared },
                write_flag: Some(!paused),
            }
        } else {
            self
        }
    }

    /// The recorder once samples arrived `elapsed_ms` after the start; they count
    /// only if they were written.
    pub open spec fn after_samples(self, written: bool, elapsed_ms: u64) -> AudioRecorder {
        if written {
            AudioRecorder {
                shared: SharedState { duration_ms: elapsed_ms, ..self.shared },
                ..self
            }
        } else {
            self
        }
    }

    /// The recorder once its recording was closed, whether or not the file could be
    /// completed.
    pub open spec fn after_close(self) -> AudioRecorder {
        if self.shared.is_recording {
            AudioRecorder {
                shared: SharedState {
                    is_recording: false,
                    is_paused: false,
                    duration_ms: 0,
                    output_path: None,
                    ..self.shared
                },
                write_flag: None,
            }
        } else {
            self
        }
    }

    /// What the recorder says about itself.
    pub open spec fn status(self) -> RecordingStatus {
        RecordingStatus {
            state: if !self.shared.is_recording {
                RecordingState::Idle
            } else if self.shared.is_paused {
                RecordingState::Paused
            } else {
                RecordingState::Recording
            },
            duration_ms: self.shared.duration_ms,
            output_path: self.shared.output_path,
        }
    }

    /// The path of the current recording's file; empty where there is none.
    pub open spec fn file_path(self) -> Seq<char> {
        match self.shared.output_path {
            Some(path) => path@,
            None => Seq::empty(),
        }
    }

    /// An idle recorder.
    pub fn new() -> (r: AudioRecorder)
        ensures
            r.shared == idle_state(),
            r.write_flag is None,
            r.wf(),
    {
        AudioRecorder { shared: SharedState::default(), write_flag: None }
    }

    /// Accepts a request to record, unless a recording is running. The recorder
    /// stays as it is until [`AudioRecorder::stream_opened`], so a start that fails
    /// on the way leaves no trace.
    pub fn start_recording(&self, config: RecordingConfig) -> (r: Result<StartRequest, Error>)
        ensures
            outcome(r) == if self.shared.is_recording {
                Err(ErrorView::AlreadyRecording)
            } else {
                Ok(StartRequest { config })
            },
    {
        if self.shared.is_recording {
            return Err(Error::AlreadyRecording);
        }
        Ok(StartRequest { config })
    }

    /// Starts the recording once its stream runs, or gives up. The answer is the
    /// time limit to watch, if there is one.
    pub fn stream_opened(&mut self, file: StartFile, opened: Result<(), StreamFailure>) -> (r:
        Result<Option<Watch>, Error>)
        ensures
            match opened {
                Err(failure) => r matches Err(e) && e@ == failure.error() && *final(self) == *old(
                    self,
                ),
                Ok(()) => *final(self) == old(self).after_start(file) && r == Ok::<
                    Option<Watch>,
                    Error,
                >(
                    if file.max_duration > 0 {
                        Some(
                            Watch {
                                generation: final(self).shared.generation,
                                seconds: file.max_duration as u64,
                            },
                        )
                    } else {
                        None
                    },
                ),
            },
            old(self).wf() ==> final(self).wf(),
    {
        match opened {
            Err(StreamFailure::Build(cause)) => Err(
                recording_error("Failed to build audio stream: ", cause.as_str()),
            ),
            Err(StreamFailure::Play(cause)) => Err(
                recording_error("Failed to start audio stream: ", cause.as_str()),
            ),
            Ok(()) => {
                let generation: u64 = if self.shared.generation == u64::MAX {
                    0
                } else {
                    self.shared.generation + 1
                };
                self.shared = SharedState {
                    is_recording: true,
                    is_paused: false,
                    duration_ms: 0,
                    output_path: Some(file.file_path),
                    sample_rate: file.stream.sample_rate,
                    channels: file.stream.output_channels,
                    generation,
                };
                self.write_flag = Some(true);
                if file.max_duration > 0 {
                    Ok(Some(Watch { generation, seconds: file.max_duration as u64 }))
                } else {
                    Ok(None)
                }
            },
        }
    }

    /// Decides whether samples that arrive are to be written: while there is a
    /// recording that is not paused.
    pub fn writes_samples(&self) -> (write: bool)
        ensures
            write == self.is_writing(),
            self.wf() ==> write == (self.shared.is_recording && !self.shared.is_paused),
    {
        match self.write_flag {
            Some(write) => write,
            None => false,
        }
    }

    /// Takes note of samples that a stream delivered `elapsed_ms` after the start of
    /// its recording: they count for the duration if they were written.
    pub fn samples_arrived(&mut self, written: bool, elapsed_ms: u64)
        ensures
            *final(self) == old(self).after_samples(written, elapsed_ms),
            old(self).wf() ==> final(self).wf(),
    {
        if written {
            self.shared.duration_ms = elapsed_ms;
        }
    }

    /// Accepts a request to stop, if a recording is running. The answer is the path
    /// of its file, which is now to be completed.
    pub fn stop_recording(&self) -> (r: Result<String, Error>)
        ensures
            !self.shared.is_recording ==> (r matches Err(e) && e@ == ErrorView::NotRecording),
            self.shared.is_recording ==> (r matches Ok(path) && path@ == self.file_path()),
    {
        if !self.shared.is_recording {
            return Err(Error::NotRecording);
        }
        match &self.shared.output_path {
            Some(path) => Ok(path.clone()),
            None => Ok(String::new()),
        }
    }

    /// Ends the recording once its stream is closed and its file completed, or not.
    /// The recorder is idle afterwards in either case. `file_size` is the size of
    /// the file, where it could be read.
    pub fn recording_closed(
        &mut self,
        finalized: Result<(), String>,
        file_size: Option<u64>,
    ) -> (r: Result<RecordingResult, Error>)
        ensures
            *final(self) == old(self).after_close(),
            old(self).wf() ==> final(self).wf(),
            !old(self).shared.is_recording ==> (r matches Err(e) && e@ == ErrorView::NotRecording),
            old(self).shared.is_recording ==> match finalized {
                Err(cause) => r matches Err(e) && e@ == ErrorView::Recording(
                    "Failed to finalize WAV: "@ + cause@,
                ),
                Ok(()) => r matches Ok(result) && {
                    &&& result.file_path@ == old(self).file_path()
                    &&& result.duration_ms == old(self).shared.duration_ms
                    &&& result.file_size == (match file_size {
                        Some(size) => size,
                        None => 0,
                    })
                    &&& result.sample_rate == old(self).shared.sample_rate
                    &&& result.channels == old(self).shared.channels
                },
            },
    {
        if !self.shared.is_recording {
            return Err(Error::NotRecording);
        }
        let duration_ms: u64 = self.shared.duration_ms;
        let file_path: String = match self.shared.output_path.take() {
            Some(path) => path,
            None => String::new(),
        };
        self.shared.is_recording = false;
        self.shared.is_paused = false;
        self.shared.duration_ms = 0;
        self.write_flag = None;
        match finalized {
            Err(cause) => Err(recording_error("Failed to finalize WAV: ", cause.as_str())),
            Ok(()) => Ok(
                RecordingResult {
                    file_path,
                    duration_ms,
                    file_size: match file_size {
                        Some(size) => size,
                        None => 0,
                    },
                    sample_rate: self.shared.sample_rate,
                    channels: self.shared.channels,
                },
            ),
        }
    }

    /// Pauses the recording.
    pub fn pause_recording(&mut self) -> (r: Result<(), Error>)
        ensures
            *final(self) == old(self).after_pause(true),
            old(self).wf() ==> final(self).wf(),
            outcome(r) == if old(self).write_flag is Some {
                Ok(())
            } else {
                Err(ErrorView::NotRecording)
            },
    {
        if self.write_flag.is_some() {
            self.write_flag = Some(false);
            self.shared.is_paused = true;
            Ok(())
        } else {
            Err(Error::NotRecording)
        }
    }

    /// Resumes the recording.
    pub fn resume_recording(&mut self) -> (r: Result<(), Error>)
        ensures
            *final(self) == old(self).after_pause(false),
            old(self).wf() ==> final(self).wf(),
            outcome(r) == if old(self).write_flag is Some {
                Ok(())
            } else {
                Err(ErrorView::NotRecording)
            },
    {
        if self.write_flag.is_some() {
            self.write_flag = Some(true);
            self.shared.is_paused = false;
            Ok(())
        } else {
            Err(Error::NotRecording)
        }
    }

    /// Whether `action` is what a command makes the caller do.
    pub open spec fn command_verdict(self, command: RecorderCommand, action: RecorderAction) -> bool {
        let not_recording = action matches RecorderAction::Refuse(e) && e@
            == ErrorView::NotRecording;
        match command {
            RecorderCommand::Start(config) => if self.shared.is_recording {
                action matches RecorderAction::Refuse(e) && e@ == ErrorView::AlreadyRecording
            } else {
                action == RecorderAction::Start(StartRequest { config })
            },
            RecorderCommand::Stop => if self.shared.is_recording {
                action matches RecorderAction::Close(path) && path@ == self.file_path()
            } else {
                not_recording
            },
            RecorderCommand::Pause => if self.write_flag is Some {
                action == RecorderAction::SetWriteFlag(false)
            } else {
                not_recording
            },
            RecorderCommand::Resume => if self.write_flag is Some {
                action == RecorderAction::SetWriteFlag(true)
            } else {
                not_recording
            },
            RecorderCommand::Shutdown => action is Exit,
        }
    }

    /// Takes a command: changes the recorder as far as the command does so at once,
    /// and tells what is to be done.
    pub fn handle(&mut self, command: RecorderCommand) -> (action: RecorderAction)
        ensures
            old(self).command_verdict(command, action),
            *final(self) == match command {
                RecorderCommand::Pause => old(self).after_pause(true),
                RecorderCommand::Resume => old(self).after_pause(false),
                _ => *old(self),
            },
            old(self).wf() ==> final(self).wf(),
    {
        match command {
            RecorderCommand::Start(config) => match self.start_recording(config) {
                Ok(request) => RecorderAction::Start(request),
                Err(e) => RecorderAction::Refuse(e),
            },
            RecorderCommand::Stop => match self.stop_recording() {
                Ok(path) => RecorderAction::Close(path),
                Err(e) => RecorderAction::Refuse(e),
            },
            RecorderCommand::Pause => match self.pause_recording() {
                Ok(()) => RecorderAction::SetWriteFlag(false),
                Err(e) => RecorderAction::Refuse(e),
            },
            RecorderCommand::Resume => match self.resume_recording() {
                Ok(()) => RecorderAction::SetWriteFlag(true),
                Err(e) => RecorderAction::Refuse(e),
            },
            RecorderCommand::Shutdown => RecorderAction::Exit,
        }
    }

    /// Tells what the recorder is doing.
    pub fn get_status(&self) -> (r: Result<RecordingStatus, Error>)
        ensures
            r == Ok::<RecordingStatus, Error>(self.status()),
    {
        let state: RecordingState = if !self.shared.is_recording {
            RecordingState::Idle
        } else if self.shared.is_paused {
            RecordingState::Paused
        } else {
            RecordingState::Recording
        };
        let output_path: Option<String> = match &self.shared.output_path {
            Some(path) => Some(path.clone()),
            None => None,
        };
        Ok(RecordingStatus { state, duration_ms: self.shared.duration_ms, output_path })
    }

    /// Lists the input devices, given their names and that of the default.
    pub fn get_devices(&self, listing: &DeviceListing, default_name: &Option<String>) -> (r: Result<
        AudioDevicesResponse,
        Error,
    >)
        ensures
            match *listing {
                Ok(names) => r matches Ok(response) && response.devices@ == device_entries(
                    names@,
                    *default_name,
                ),
                Err(cause) => r matches Err(e) && e@ == ErrorView::Recording(
                    "Failed to enumerate devices: "@ + cause@,
                ),
            },
    {
        list_devices(listing, default_name)
    }

    /// Lists the input channels of a device.
    pub fn get_channels(&self, probe: &DeviceProbe) -> (r: Result<AudioChannelsResponse, Error>)
        ensures
            r matches Ok(response) && response.channels@.len() == channel_count(*probe) && forall|
                i: int,
            |
                0 <= i < channel_count(*probe) ==> is_channel_entry(
                    #[trigger] response.channels@[i],
                    i,
                ),
    {
        Ok(list_channels(device_channel_count(probe)))
    }

    /// The microphone permission, which the operating system takes care of: always
    /// granted.
    pub fn check_permission(&self) -> (r: Result<PermissionStatus, Error>)
        ensures
            r == Ok::<PermissionStatus, Error>(
                PermissionStatus { granted: true, can_request: false },
            ),
    {
        Ok(PermissionStatus { granted: true, can_request: false })
    }

    /// Asks for the microphone permission, which is granted already.
    pub fn request_permission(&self) -> (r: Result<PermissionStatus, Error>)
        ensures
            r == Ok::<PermissionStatus, Error>(
                PermissionStatus { granted: true, can_request: false },
            ),
    {
        Ok(PermissionStatus { granted: true, can_request: false })
    }
}

} // verus!
