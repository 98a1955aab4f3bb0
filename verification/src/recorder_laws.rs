//! What a recording is from its request to its result, said of the answers to the calls
//! in between.
//!
//! A call that changes the recorder is given by the reference that it was made with: what
//! it refers to is the recorder before the call, and its `final` value the recorder after
//! it.

use vstd::prelude::*;
use crate::error::Error;
use crate::laws::{ends_paused, last_written, SessionStep};
use crate::models::{
    PermissionStatus, RecordingConfig, RecordingResult, RecordingState, RecordingStatus,
};
use crate::output::WavLocation;
use crate::path_laws::{ends_in_dot_wav, lemma_location};
use crate::paths::{may_have_parent_dir, parent_dir_at, possible_parent_dir_at};
use crate::recorder::{
    AudioRecorder, FileFailure, RecorderAction, RecorderCommand, SharedState, StartFile, StartPlan,
    StartRequest, StreamFailure, Watch,
};
use crate::resolution::reads_slash_as_root;
use crate::stream::{plan_stream, DeviceProbe, SampleFormat, StreamPlan};
use crate::text::decimal_text;

verus! {

/// A new recorder is idle: there is no file and no duration, samples are not written,
/// and no time limit is reached.
pub proof fn law_new_recorder_is_idle(
    recorder: AudioRecorder,
    status: Result<RecordingStatus, Error>,
    writes: bool,
    generation: u64,
    stop: bool,
)
    requires
        call_ensures(AudioRecorder::new, (), recorder),
        call_ensures(AudioRecorder::get_status, (&recorder,), status),
        call_ensures(AudioRecorder::writes_samples, (&recorder,), writes),
        call_ensures(SharedState::max_duration_reached, (&recorder.shared, generation), stop),
    ensures
        recorder.wf(),
        status matches Ok(s) && s.state == RecordingState::Idle && s.duration_ms == 0
            && s.output_path is None,
        !writes,
        !stop,
        recorder.shared.sample_rate == 44100,
        recorder.shared.channels == 1,
{
}

/// The status tells whether there is a recording, whether it is paused, how long it is
/// and what its file is. Samples are written while the flag for that is set, which is
/// while there is a recording that is not paused.
pub proof fn law_status_tells_the_state(
    recorder: &AudioRecorder,
    status: Result<RecordingStatus, Error>,
    writes: bool,
)
    requires
        call_ensures(AudioRecorder::get_status, (recorder,), status),
        call_ensures(AudioRecorder::writes_samples, (recorder,), writes),
    ensures
        status is Ok,
        status->Ok_0.state == RecordingState::Idle <==> !recorder.shared.is_recording,
        status->Ok_0.state == RecordingState::Paused <==> recorder.shared.is_recording
            && recorder.shared.is_paused,
        status->Ok_0.duration_ms == recorder.shared.duration_ms,
        status->Ok_0.output_path == recorder.shared.output_path,
        writes <==> recorder.write_flag == Some(true),
        recorder.wf() ==> {
            &&& writes <==> status->Ok_0.state == RecordingState::Recording
            &&& status->Ok_0.output_path is None <==> status->Ok_0.state == RecordingState::Idle
        },
{
}

/// A recording is accepted exactly while the recorder is idle, and the request is the
/// one that was made; a stop is accepted exactly while it is not, with the path that the
/// status tells, if it tells one.
pub proof fn law_start_when_idle_and_stop_when_not(
    recorder: &AudioRecorder,
    config: RecordingConfig,
    status: RecordingStatus,
    started: Result<StartRequest, Error>,
    stopped: Result<String, Error>,
)
    requires
        call_ensures(AudioRecorder::get_status, (recorder,), Ok(status)),
        call_ensures(AudioRecorder::start_recording, (recorder, config), started),
        call_ensures(AudioRecorder::stop_recording, (recorder,), stopped),
    ensures
        if status.state == RecordingState::Idle {
            &&& started matches Ok(request) && request.config == config
            &&& stopped matches Err(Error::NotRecording)
        } else {
            &&& started matches Err(Error::AlreadyRecording)
            &&& stopped is Ok
            &&& status.output_path matches Some(file) ==> stopped->Ok_0@ == file@
            &&& status.output_path is None ==> stopped->Ok_0@.len() == 0
        },
{
}

/// A plan is that of the stream with that of the file: it fails with the error of the
/// stream if there is one, and else only with an invalid path. It captures the stream
/// that is planned for the quality and the channel of the request.
pub proof fn law_plan_is_for_the_request(
    request: StartRequest,
    channel_id: Option<&str>,
    probe: &DeviceProbe,
    timestamp: u64,
    stream: Result<StreamPlan, Error>,
    r: Result<StartPlan, Error>,
)
    requires
        match (request.config.channel_id, channel_id) {
            (Some(name), Some(id)) => name@ == id@,
            (None, None) => true,
            _ => false,
        },
        call_ensures(plan_stream, (request.config.quality, channel_id, probe), stream),
        call_ensures(StartRequest::plan, (request, probe, timestamp), r),
    ensures
        match (stream, r) {
            (Err(Error::InvalidChannel(a)), Err(Error::InvalidChannel(b))) => a@ == b@,
            (Err(Error::Recording(a)), Err(Error::Recording(b))) => a@ == b@,
            (Err(_), _) => false,
            (Ok(planned), Ok(plan)) => plan.stream == planned && plan.max_duration
                == request.config.max_duration,
            (Ok(_), Err(Error::InvalidPath(message))) => message@
                == "Path traversal not allowed (contains '..')"@,
            (Ok(_), Err(_)) => false,
        },
{
}

/// The file of a plan is that of the request: where the request names one, its name with
/// `.wav` added unless it ends so, and a name made of the time where it names none. A
/// name is refused if two dots stand in it between `/` or its ends, unless it starts
/// with two separators, and only if two dots stand in it between separators, a drive at its
/// start, or its ends.
pub proof fn law_planned_file_is_that_of_the_request(
    request: StartRequest,
    probe: &DeviceProbe,
    timestamp: u64,
    seconds: String,
    r: Result<StartPlan, Error>,
)
    requires
        call_ensures(decimal_text, (timestamp,), seconds),
        call_ensures(StartRequest::plan, (request, probe, timestamp), r),
    ensures
        r matches Ok(plan) ==> {
            let path = request.config.output_path@;
            let name = match plan.location {
                WavLocation::Absolute(name) => name@,
                WavLocation::InTempDir(name) => name@,
            };
            if path.len() == 0 {
                plan.location is InTempDir && name == "recording-"@ + seconds@ + ".wav"@
            } else {
                &&& name == if ends_in_dot_wav(path) {
                    path
                } else {
                    path + seq!['.', 'w', 'a', 'v']
                }
                &&& !(path[0] == '/' || path[0] == '\\' || path.len() > 1 && path[1] == ':')
                    ==> plan.location is InTempDir
                &&& reads_slash_as_root() && path[0] == '/' ==> plan.location is Absolute
                &&& forall|i: int|
                    0 <= i && i + 2 <= path.len() && #[trigger] path[i] == '.' && path[i + 1] == '.'
                        && (i == 0 || path[i - 1] == '/') && (i + 2 == path.len() || path[i + 2]
                        == '/') ==> (path[0] == '/' || path[0] == '\\') && (path[1] == '/'
                        || path[1] == '\\')
            }
        },
        r matches Err(Error::InvalidPath(_)) ==> {
            let path = request.config.output_path@;
            exists|i: int|
                0 <= i && i + 1 < path.len() && #[trigger] path[i] == '.' && path[i + 1] == '.' && (i
                    == 0 || path[i - 1] == '/' || path[i - 1] == '\\' || (i == 2 && path[1] == ':'))
                    && (i + 2 == path.len() || path[i + 2] == '/' || path[i + 2] == '\\')
        },
{
    let path = request.config.output_path@;
    if r matches Err(Error::InvalidPath(_)) {
        assert(may_have_parent_dir(path));
        let i = choose|i: int| possible_parent_dir_at(path, i);
        assert(path[i] == '.');
    }
    if let Ok(plan) = r {
        if path.len() > 0 {
            lemma_location(path, timestamp, Ok(plan.location));
            assert forall|i: int|
                0 <= i && i + 2 <= path.len() && #[trigger] path[i] == '.' && path[i + 1] == '.' && (i
                    == 0 || path[i - 1] == '/') && (i + 2 == path.len() || path[i + 2]
                    == '/') implies (path[0] == '/' || path[0] == '\\') && (path[1] == '/' || path[1]
                == '\\') by {
                assert(parent_dir_at(path, i));
            }
        }
    }
}

/// A start goes on with the file that was created, the stream and the time limit as they
/// were planned, unless the samples cannot be recorded. A file that was not created is
/// an error with the cause.
pub proof fn law_start_goes_on_with_the_created_file(
    plan: StartPlan,
    created: Result<String, FileFailure>,
    r: Result<StartFile, Error>,
)
    requires
        call_ensures(StartPlan::file_created, (plan, created), r),
    ensures
        match created {
            Ok(path) => if plan.stream.sample_format == SampleFormat::Other {
                r matches Err(Error::UnsupportedFormat)
            } else {
                r matches Ok(file) && file.file_path@ == path@ && file.stream == plan.stream
                    && file.max_duration == plan.max_duration
            },
            Err(FileFailure::CreateDir(cause)) => r matches Err(Error::Io(message)) && message@
                == cause@,
            Err(FileFailure::CreateWav(cause)) => r matches Err(Error::Recording(message))
                && message@ == "Failed to create WAV file: "@ + cause@,
        },
{
}

/// A stream that does not open is an error with the cause, and leaves the recorder as it
/// was. One that opens makes it record: from then on the status tells the file, with
/// nothing recorded yet, and samples are written, whatever the recorder was before; the
/// generation is the next, and goes round after the largest number.
pub proof fn law_recording_begins_with_its_stream(
    recorder: &mut AudioRecorder,
    file: StartFile,
    opened: Result<(), StreamFailure>,
    r: Result<Option<Watch>, Error>,
    status: Result<RecordingStatus, Error>,
    writes: bool,
)
    requires
        call_ensures(AudioRecorder::stream_opened, (recorder, file, opened), r),
        call_ensures(AudioRecorder::get_status, (final(recorder),), status),
        call_ensures(AudioRecorder::writes_samples, (final(recorder),), writes),
    ensures
        match opened {
            Err(StreamFailure::Build(cause)) => {
                &&& r matches Err(Error::Recording(message)) && message@
                    == "Failed to build audio stream: "@ + cause@
                &&& *final(recorder) == *old(recorder)
            },
            Err(StreamFailure::Play(cause)) => {
                &&& r matches Err(Error::Recording(message)) && message@
                    == "Failed to start audio stream: "@ + cause@
                &&& *final(recorder) == *old(recorder)
            },
            Ok(_) => {
                &&& r is Ok
                &&& status matches Ok(s) && s.state == RecordingState::Recording && s.duration_ms == 0
                    && s.output_path == Some(file.file_path)
                &&& writes
                &&& final(recorder).wf()
                &&& final(recorder).shared.sample_rate == file.stream.sample_rate
                &&& final(recorder).shared.channels == file.stream.output_channels
                &&& final(recorder).shared.generation == (old(recorder).shared.generation + 1) % (
                u64::MAX + 1)
            },
        },
{
}

/// From the request to the running stream, the time limit stays what the configuration
/// asks for: if a limit is given there is a watch of just as many seconds, and it is on
/// the recording that now runs; with a limit of zero there is none.
pub proof fn law_time_limit_is_that_of_the_configuration(
    before: &AudioRecorder,
    config: RecordingConfig,
    request: StartRequest,
    probe: &DeviceProbe,
    timestamp: u64,
    plan: StartPlan,
    path: String,
    file: StartFile,
    recorder: &mut AudioRecorder,
    r: Result<Option<Watch>, Error>,
    generation: u64,
    stop: bool,
)
    requires
        call_ensures(AudioRecorder::start_recording, (before, config), Ok(request)),
        call_ensures(StartRequest::plan, (request, probe, timestamp), Ok(plan)),
        call_ensures(StartPlan::file_created, (plan, Ok(path)), Ok(file)),
        call_ensures(AudioRecorder::stream_opened, (recorder, file, Ok(())), r),
        call_ensures(
            SharedState::max_duration_reached,
            (&final(recorder).shared, generation),
            stop,
        ),
    ensures
        config.max_duration > 0 ==> {
            &&& r matches Ok(Some(watch))
            &&& watch.seconds == config.max_duration
            &&& stop <==> generation == watch.generation
        },
        config.max_duration == 0 ==> (r matches Ok(None)),
{
}

/// A pause or a resumption is refused, and changes nothing, exactly if there is no flag
/// for writing samples, that is, no recording. Otherwise the state says so afterwards, the
/// flag is set accordingly, and nothing else changes.
pub proof fn law_pause_and_resume_change_nothing_else(
    paused: &mut AudioRecorder,
    resumed: &mut AudioRecorder,
    pause: Result<(), Error>,
    resume: Result<(), Error>,
)
    requires
        call_ensures(AudioRecorder::pause_recording, (paused,), pause),
        call_ensures(AudioRecorder::resume_recording, (resumed,), resume),
    ensures
        if old(paused).write_flag is Some {
            &&& pause is Ok
            &&& final(paused).write_flag == Some(false)
            &&& final(paused).shared == (SharedState { is_paused: true, ..old(paused).shared })
        } else {
            &&& pause matches Err(Error::NotRecording)
            &&& *final(paused) == *old(paused)
        },
        if old(resumed).write_flag is Some {
            &&& resume is Ok
            &&& final(resumed).write_flag == Some(true)
            &&& final(resumed).shared == (SharedState { is_paused: false, ..old(resumed).shared })
        } else {
            &&& resume matches Err(Error::NotRecording)
            &&& *final(resumed) == *old(resumed)
        },
        old(paused).wf() ==> (old(paused).write_flag is Some <==> old(paused).shared.is_recording),
{
}

/// Samples that were written make the duration the time at which they were delivered,
/// whatever it was before, and change nothing else; samples that were not written change
/// nothing.
pub proof fn law_written_samples_set_the_duration(
    recorder: &mut AudioRecorder,
    written: bool,
    elapsed_ms: u64,
    status: Result<RecordingStatus, Error>,
)
    requires
        call_ensures(AudioRecorder::samples_arrived, (recorder, written, elapsed_ms), ()),
        call_ensures(AudioRecorder::get_status, (final(recorder),), status),
    ensures
        written ==> (status matches Ok(s) && s.duration_ms == elapsed_ms),
        written ==> *final(recorder) == (AudioRecorder {
            shared: SharedState { duration_ms: elapsed_ms, ..old(recorder).shared },
            write_flag: old(recorder).write_flag,
        }),
        !written ==> *final(recorder) == *old(recorder),
{
}

/// What a recording is at any time: after any series of pauses, resumptions and samples
/// since its stream was opened, each handed to the recorder as the call at its place,
/// it is paused exactly if the last pause was not followed by a resumption, and its
/// duration is the time of the last samples that were written, which are the last outside
/// a pause, and zero if there were none. The file, the format and the generation are still
/// those of the start. The status tells this, and so does the result if the recording is
/// closed then, with the size of the file where it could be read and zero where not.
pub proof fn law_recording_at_any_time(
    opened: &mut AudioRecorder,
    file: StartFile,
    watch: Option<Watch>,
    steps: Seq<SessionStep>,
    calls: Seq<&mut AudioRecorder>,
    written: Seq<bool>,
    now: AudioRecorder,
)
    requires
        call_ensures(AudioRecorder::stream_opened, (opened, file, Ok(())), Ok(watch)),
        calls.len() == steps.len(),
        written.len() == steps.len(),
        steps.len() > 0 ==> *calls[0] == *final(opened),
        forall|k: int| 0 < k < calls.len() ==> *(#[trigger] calls[k]) == *final(calls[k - 1]),
        now == (if steps.len() > 0 {
            *final(calls.last())
        } else {
            *final(opened)
        }),
        forall|k: int|
            0 <= k < calls.len() ==> match #[trigger] steps[k] {
                SessionStep::Pause => call_ensures(
                    AudioRecorder::pause_recording,
                    (calls[k],),
                    Ok(()),
                ),
                SessionStep::Resume => call_ensures(
                    AudioRecorder::resume_recording,
                    (calls[k],),
                    Ok(()),
                ),
                SessionStep::Samples(elapsed_ms) => {
                    &&& call_ensures(AudioRecorder::writes_samples, (&*calls[k],), written[k])
                    &&& call_ensures(
                        AudioRecorder::samples_arrived,
                        (calls[k], written[k], elapsed_ms),
                        (),
                    )
                },
            },
    ensures
        now.shared.is_recording,
        now.shared.is_paused <==> ends_paused(steps),
        now.write_flag == Some(!ends_paused(steps)),
        now.shared.duration_ms == last_written(steps),
        now.shared.output_path == Some(file.file_path),
        now.shared.sample_rate == file.stream.sample_rate,
        now.shared.channels == file.stream.output_channels,
        now.shared.generation == final(opened).shared.generation,
        forall|status: Result<RecordingStatus, Error>|
            #![trigger call_ensures(AudioRecorder::get_status, (&now,), status)]
            call_ensures(AudioRecorder::get_status, (&now,), status) ==> {
                &&& status is Ok
                &&& status->Ok_0.duration_ms == last_written(steps)
                &&& status->Ok_0.output_path == Some(file.file_path)
                &&& status->Ok_0.state == if ends_paused(steps) {
                    RecordingState::Paused
                } else {
                    RecordingState::Recording
                }
            },
        forall|closed: &mut AudioRecorder, size: Option<u64>, r: Result<RecordingResult, Error>|
            #![trigger call_ensures(AudioRecorder::recording_closed, (closed, Ok(()), size), r)]
            *closed == now && call_ensures(
                AudioRecorder::recording_closed,
                (closed, Ok(()), size),
                r,
            ) ==> {
                &&& r is Ok
                &&& r->Ok_0.duration_ms == last_written(steps)
                &&& r->Ok_0.file_path@ == file.file_path@
                &&& r->Ok_0.file_size == (match size {
                    Some(bytes) => bytes,
                    None => 0,
                })
                &&& r->Ok_0.sample_rate == file.stream.sample_rate
                &&& r->Ok_0.channels == file.stream.output_channels
            },
    decreases steps.len(),
{
    if steps.len() > 0 {
        let k = steps.len() - 1;
        let before = if k > 0 {
            *final(calls[k - 1])
        } else {
            *final(opened)
        };
        assert(steps[k] == steps.last());
        law_recording_at_any_time(
            opened,
            file,
            watch,
            steps.drop_last(),
            calls.drop_last(),
            written.drop_last(),
            before,
        );
    }
}

/// Closing a recording ends it, whether or not its file could be completed: the recorder
/// is idle then, without a file or a duration, writes no samples, and no time limit
/// stops it. Without a recording there is nothing to close. A file that could not be
/// completed is an error with the cause; one that was is reported as it stood.
pub proof fn law_closing_ends_the_recording(
    recorder: &mut AudioRecorder,
    finalized: Result<(), String>,
    size: Option<u64>,
    r: Result<RecordingResult, Error>,
    status: Result<RecordingStatus, Error>,
    writes: bool,
    generation: u64,
    stop: bool,
)
    requires
        call_ensures(AudioRecorder::recording_closed, (recorder, finalized, size), r),
        call_ensures(AudioRecorder::get_status, (final(recorder),), status),
        call_ensures(AudioRecorder::writes_samples, (final(recorder),), writes),
        call_ensures(SharedState::max_duration_reached, (&final(recorder).shared, generation), stop),
    ensures
        old(recorder).wf() ==> final(recorder).wf() && !writes,
        status matches Ok(s) && s.state == RecordingState::Idle,
        !stop,
        if old(recorder).shared.is_recording {
            &&& status->Ok_0.output_path is None
            &&& status->Ok_0.duration_ms == 0
            &&& !writes
            &&& final(recorder).write_flag is None
            &&& final(recorder).shared == (SharedState {
                is_recording: false,
                is_paused: false,
                duration_ms: 0,
                output_path: None,
                ..old(recorder).shared
            })
            &&& match finalized {
                Err(cause) => r matches Err(Error::Recording(message)) && message@
                    == "Failed to finalize WAV: "@ + cause@,
                Ok(_) => r matches Ok(result) && {
                    &&& old(recorder).shared.output_path matches Some(path) ==> result.file_path@
                        == path@
                    &&& old(recorder).shared.output_path is None ==> result.file_path@.len() == 0
                    &&& result.duration_ms == old(recorder).shared.duration_ms
                    &&& result.file_size == (match size {
                        Some(bytes) => bytes,
                        None => 0,
                    })
                    &&& result.sample_rate == old(recorder).shared.sample_rate
                    &&& result.channels == old(recorder).shared.channels
                },
            }
        } else {
            &&& r matches Err(Error::NotRecording)
            &&& *final(recorder) == *old(recorder)
        },
{
}

/// A time limit stops just the recording that it was set for: that of its generation, as
/// long as there is one.
pub proof fn law_time_limit_stops_its_generation(state: &SharedState, generation: u64, stop: bool)
    requires
        call_ensures(SharedState::max_duration_reached, (state, generation), stop),
    ensures
        stop <==> state.is_recording && state.generation == generation,
{
}

/// A command does what the call of its name does. Starting and stopping wait for what the
/// system answers, so the recorder stays as it is; pausing and resuming happen at once.
/// What the recorder cannot do now it refuses, and then it stays as it is too.
pub proof fn law_commands_do_what_they_say(
    recorder: &mut AudioRecorder,
    command: RecorderCommand,
    action: RecorderAction,
)
    requires
        call_ensures(AudioRecorder::handle, (recorder, command), action),
    ensures
        match command {
            RecorderCommand::Start(config) => {
                &&& *final(recorder) == *old(recorder)
                &&& old(recorder).shared.is_recording ==> (action matches RecorderAction::Refuse(e)
                    && (e matches Error::AlreadyRecording))
                &&& !old(recorder).shared.is_recording ==> (action matches RecorderAction::Start(
                    request,
                ) && request.config == config)
            },
            RecorderCommand::Stop => {
                &&& *final(recorder) == *old(recorder)
                &&& old(recorder).shared.is_recording ==> (action matches RecorderAction::Close(path)
                    && match old(recorder).shared.output_path {
                    Some(file) => path@ == file@,
                    None => path@.len() == 0,
                })
                &&& !old(recorder).shared.is_recording ==> (action matches RecorderAction::Refuse(e)
                    && (e matches Error::NotRecording))
            },
            RecorderCommand::Pause => if old(recorder).write_flag is Some {
                &&& action matches RecorderAction::SetWriteFlag(write) && !write
                &&& *final(recorder) == (AudioRecorder {
                    shared: SharedState { is_paused: true, ..old(recorder).shared },
                    write_flag: Some(false),
                })
            } else {
                &&& action matches RecorderAction::Refuse(e) && (e matches Error::NotRecording)
                &&& *final(recorder) == *old(recorder)
            },
            RecorderCommand::Resume => if old(recorder).write_flag is Some {
                &&& action matches RecorderAction::SetWriteFlag(write) && write
                &&& *final(recorder) == (AudioRecorder {
                    shared: SharedState { is_paused: false, ..old(recorder).shared },
                    write_flag: Some(true),
                })
            } else {
                &&& action matches RecorderAction::Refuse(e) && (e matches Error::NotRecording)
                &&& *final(recorder) == *old(recorder)
            },
            RecorderCommand::Shutdown => action is Exit && *final(recorder) == *old(recorder),
        },
{
}

/// The microphone may always be used, and asking for it changes nothing.
pub proof fn law_microphone_is_granted(
    recorder: &AudioRecorder,
    checked: Result<PermissionStatus, Error>,
    requested: Result<PermissionStatus, Error>,
)
    requires
        call_ensures(AudioRecorder::check_permission, (recorder,), checked),
        call_ensures(AudioRecorder::request_permission, (recorder,), requested),
    ensures
        checked matches Ok(status) && status.granted && !status.can_request,
        requested matches Ok(status) && status.granted && !status.can_request,
{
}

/// Every call may be made of every recorder: what it cannot do now it answers with an
/// error.
pub proof fn law_any_call_is_taken(
    recorder: &mut AudioRecorder,
    asked: &AudioRecorder,
    config: RecordingConfig,
    request: StartRequest,
    probe: &DeviceProbe,
    timestamp: u64,
    plan: StartPlan,
    created: Result<String, FileFailure>,
    file: StartFile,
    opened: Result<(), StreamFailure>,
    written: bool,
    elapsed_ms: u64,
    finalized: Result<(), String>,
    size: Option<u64>,
    command: RecorderCommand,
    generation: u64,
)
    ensures
        call_requires(AudioRecorder::start_recording, (asked, config)),
        call_requires(StartRequest::plan, (request, probe, timestamp)),
        call_requires(StartPlan::wav_format, (&plan,)),
        call_requires(StartPlan::file_created, (plan, created)),
        call_requires(AudioRecorder::stream_opened, (recorder, file, opened)),
        call_requires(AudioRecorder::writes_samples, (asked,)),
        call_requires(AudioRecorder::samples_arrived, (recorder, written, elapsed_ms)),
        call_requires(AudioRecorder::pause_recording, (recorder,)),
        call_requires(AudioRecorder::resume_recording, (recorder,)),
        call_requires(AudioRecorder::stop_recording, (asked,)),
        call_requires(AudioRecorder::recording_closed, (recorder, finalized, size)),
        call_requires(AudioRecorder::handle, (recorder, command)),
        call_requires(AudioRecorder::get_status, (asked,)),
        call_requires(SharedState::max_duration_reached, (&asked.shared, generation)),
{
}

} // verus!
