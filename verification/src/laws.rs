//! What holds of the recorder over several commands.

use vstd::prelude::*;
use crate::models::RecordingState;
use crate::recorder::{AudioRecorder, StartFile};

verus! {

/// Something that happens while a recording runs.
pub enum SessionStep {
    Pause,
    Resume,
    /// The stream delivers samples, this many milliseconds after the start; they are
    /// written if [`AudioRecorder::writes_samples`] says so.
    Samples(u64),
}

/// The recorder after a step.
pub open spec fn after_step(recorder: AudioRecorder, step: SessionStep) -> AudioRecorder {
    match step {
        SessionStep::Pause => recorder.after_pause(true),
        SessionStep::Resume => recorder.after_pause(false),
        SessionStep::Samples(elapsed_ms) => recorder.after_samples(
            recorder.is_writing(),
            elapsed_ms,
        ),
    }
}

/// The recorder after a series of steps.
pub open spec fn after_steps(recorder: AudioRecorder, steps: Seq<SessionStep>) -> AudioRecorder
    decreases steps.len(),
{
    if steps.len() == 0 {
        recorder
    } else {
        after_step(after_steps(recorder, steps.drop_last()), steps.last())
    }
}

/// Pauses, resumptions and samples leave the file, the format and the generation
/// of a recording as its start set them, and do not end it.
pub proof fn law_session_keeps_what_start_set(
    recorder: AudioRecorder,
    file: StartFile,
    steps: Seq<SessionStep>,
)
    ensures
        ({
            let started = recorder.after_start(file);
            let now = after_steps(started, steps);
            &&& now.wf()
            &&& now.shared.is_recording
            &&& now.shared.output_path == Some(file.file_path)
            &&& now.shared.sample_rate == file.stream.sample_rate
            &&& now.shared.channels == file.stream.output_channels
            &&& now.shared.generation == started.shared.generation
            &&& now.file_path() == file.file_path@
        }),
    decreases steps.len(),
{
    if steps.len() > 0 {
        law_session_keeps_what_start_set(recorder, file, steps.drop_last());
    }
}

/// Whether the last pause among steps has not been followed by a resumption.
pub open spec fn ends_paused(steps: Seq<SessionStep>) -> bool
    decreases steps.len(),
{
    steps.len() > 0 && match steps.last() {
        SessionStep::Pause => true,
        SessionStep::Resume => false,
        SessionStep::Samples(_) => ends_paused(steps.drop_last()),
    }
}

/// When the last samples were delivered outside a pause; zero if none were.
pub open spec fn last_written(steps: Seq<SessionStep>) -> u64
    decreases steps.len(),
{
    if steps.len() == 0 {
        0
    } else {
        match steps.last() {
            SessionStep::Samples(elapsed_ms) if !ends_paused(steps.drop_last()) => elapsed_ms,
            _ => last_written(steps.drop_last()),
        }
    }
}

/// After any series of pauses, resumptions and samples since its start, a recording is
/// paused exactly if the last pause was not followed by a resumption, and its duration is
/// the time of the last samples that were written, which are the last outside a pause;
/// it is zero if there were none.
pub proof fn law_duration_is_that_of_the_last_written_samples(
    recorder: AudioRecorder,
    file: StartFile,
    steps: Seq<SessionStep>,
)
    ensures
        ({
            let now = after_steps(recorder.after_start(file), steps);
            &&& now.status().duration_ms == last_written(steps)
            &&& now.shared.duration_ms == last_written(steps)
            &&& now.status().state == if ends_paused(steps) {
                RecordingState::Paused
            } else {
                RecordingState::Recording
            }
            &&& now.write_flag == Some(!ends_paused(steps))
        }),
    decreases steps.len(),
{
    if steps.len() > 0 {
        law_duration_is_that_of_the_last_written_samples(recorder, file, steps.drop_last());
        law_session_keeps_what_start_set(recorder, file, steps.drop_last());
    }
}

/// Samples that were written make the duration the time at which they were delivered,
/// whatever it was before; samples that were not written change nothing.
pub proof fn law_samples_count_if_written(recorder: AudioRecorder, elapsed_ms: u64)
    ensures
        recorder.after_samples(true, elapsed_ms).status().duration_ms == elapsed_ms,
        recorder.after_samples(true, elapsed_ms).status().state == recorder.status().state,
        recorder.after_samples(true, elapsed_ms).status().output_path
            == recorder.status().output_path,
        recorder.after_samples(false, elapsed_ms) == recorder,
{
}

/// What a closed recording reports (see [`AudioRecorder::recording_closed`]) is what
/// its start set: the path at which the file was created, and the format in the
/// file's header.
pub proof fn law_result_reports_the_file(
    recorder: AudioRecorder,
    file: StartFile,
    steps: Seq<SessionStep>,
)
    ensures
        ({
            let now = after_steps(recorder.after_start(file), steps);
            &&& now.file_path() == file.file_path@
            &&& now.shared.sample_rate == file.stream.header().sample_rate
            &&& now.shared.channels == file.stream.header().channels
        }),
{
    law_session_keeps_what_start_set(recorder, file, steps);
}

/// Whatever happened during a recording, closing it leaves the recorder idle,
/// without a path or a duration, and ready to record again. This does not depend on
/// whether the file could be completed.
pub proof fn law_close_always_returns_to_idle(
    recorder: AudioRecorder,
    file: StartFile,
    steps: Seq<SessionStep>,
)
    ensures
        ({
            let closed = after_steps(recorder.after_start(file), steps).after_close();
            &&& closed.wf()
            &&& !closed.shared.is_recording
            &&& closed.status().state == RecordingState::Idle
            &&& closed.status().output_path is None
            &&& closed.status().duration_ms == 0
        }),
{
    law_session_keeps_what_start_set(recorder, file, steps);
}

/// The recorder after a series of recordings, each started for a file, with what
/// happened while it ran, and closed.
pub open spec fn after_recordings(
    recorder: AudioRecorder,
    recordings: Seq<(StartFile, Seq<SessionStep>)>,
) -> AudioRecorder
    decreases recordings.len(),
{
    if recordings.len() == 0 {
        recorder
    } else {
        let (file, steps) = recordings.last();
        after_steps(
            after_recordings(recorder, recordings.drop_last()).after_start(file),
            steps,
        ).after_close()
    }
}

/// The generation counts the recordings, and goes round after the largest number.
proof fn lemma_generation_counts(
    recorder: AudioRecorder,
    recordings: Seq<(StartFile, Seq<SessionStep>)>,
)
    ensures
        after_recordings(recorder, recordings).shared.generation == (recorder.shared.generation
            + recordings.len()) % (u64::MAX + 1),
        !recorder.shared.is_recording ==> !after_recordings(
            recorder,
            recordings,
        ).shared.is_recording,
    decreases recordings.len(),
{
    if recordings.len() > 0 {
        let (file, steps) = recordings.last();
        let before = after_recordings(recorder, recordings.drop_last());
        lemma_generation_counts(recorder, recordings.drop_last());
        law_session_keeps_what_start_set(before, file, steps);
    }
}

/// The time limit of a recording means that recording alone: it counts as long as
/// the recording runs, and neither once it is closed, after any number of later
/// recordings, nor while a later one runs. The generation tells as many recordings
/// apart as it has values.
pub proof fn law_time_limit_stops_only_its_recording(
    recorder: AudioRecorder,
    file: StartFile,
    steps: Seq<SessionStep>,
    recordings: Seq<(StartFile, Seq<SessionStep>)>,
    next_file: StartFile,
    next_steps: Seq<SessionStep>,
)
    requires
        recordings.len() < u64::MAX,
    ensures
        ({
            let started = recorder.after_start(file);
            let generation = started.shared.generation;
            let now = after_steps(started, steps);
            let closed = after_recordings(now.after_close(), recordings);
            let next = after_steps(closed.after_start(next_file), next_steps);
            &&& now.shared.is_active(generation)
            &&& !closed.shared.is_active(generation)
            &&& !next.shared.is_active(generation)
        }),
{
    law_session_keeps_what_start_set(recorder, file, steps);
    let first = after_steps(recorder.after_start(file), steps).after_close();
    lemma_generation_counts(first, recordings);
    let closed = after_recordings(first, recordings);
    law_session_keeps_what_start_set(closed, next_file, next_steps);
}

/// Resuming undoes a pause, and pausing or resuming twice is the same as once.
pub proof fn law_resume_undoes_pause(recorder: AudioRecorder)
    requires
        recorder.wf(),
    ensures
        !recorder.shared.is_paused ==> recorder.after_pause(true).after_pause(false) == recorder,
        recorder.after_pause(true).after_pause(true) == recorder.after_pause(true),
        recorder.after_pause(false).after_pause(false) == recorder.after_pause(false),
{
}

/// While the recorder is paused, samples change nothing: the duration stands still.
pub proof fn law_paused_recording_stands_still(recorder: AudioRecorder, elapsed_ms: u64)
    requires
        recorder.wf(),
        recorder.shared.is_paused,
    ensures
        after_step(recorder, SessionStep::Samples(elapsed_ms)) == recorder,
{
}

/// Commands that an idle recorder refuses do not change it.
pub proof fn law_idle_recorder_stays_idle(recorder: AudioRecorder, paused: bool)
    requires
        recorder.wf(),
        !recorder.shared.is_recording,
    ensures
        recorder.after_pause(paused) == recorder,
        recorder.after_close() == recorder,
{
}

/// The status names a file exactly while there is a recording, and calls a
/// recording paused exactly when its samples are not written.
pub proof fn law_status_agrees_with_recording(recorder: AudioRecorder)
    requires
        recorder.wf(),
    ensures
        recorder.status().output_path is Some <==> recorder.status().state != RecordingState::Idle,
        recorder.status().state == RecordingState::Recording <==> recorder.is_writing(),
        recorder.status().state == RecordingState::Paused <==> recorder.write_flag == Some(false),
{
}

} // verus!
