# audio_recorder

The decisions of a desktop audio recorder, verified with Verus: which device,
channel and stream configuration a recording uses, where its WAV file goes, which
samples are written, and how the recorder moves between idle, recording and paused.

- `src/text.rs`: decimal numbers and string helpers
- `src/error.rs`, `src/models.rs`: the types of requests and answers
- `src/paths.rs`: paths that could escape their directory
- `src/output.rs`: the place of the WAV file
- `src/resolution.rs`: resolving paths on Unix-like systems and on Windows
- `src/devices.rs`: choosing a device, listing devices and channels
- `src/stream.rs`: choosing the channel and the stream configuration
- `src/samples.rs`: picking samples out of an interleaved buffer
- `src/recorder.rs`: the recorder and its commands
- `src/laws.rs`: what holds over several commands
- `app/`: audio devices, files and threads around the library

What is taken on trust is how `std::path` splits a path into components and tells
absolute paths from relative ones; see `components`,
`next_part` and `is_absolute`.
