//! What holds of resolving output paths on the systems that read them differently,
//! and of resolving the path that a recording got once more.

use vstd::prelude::*;
use crate::error::Error;
use crate::output::{
    has_wav_extension, law_extension_is_not_doubled, law_extension_keeps_path_inside,
    law_recordings_stay_inside, lemma_generated_name, std_reads_absolute, validation,
    wav_path_verdict, with_wav, WavLocation,
};
use crate::paths::{
    has_parent_dir, is_separator, joined, law_join_has_the_parent_dirs_of_its_parts,
    law_parent_dir_is_a_segment, law_verdict_where_slash_separates, lemma_parent_part,
    may_have_parent_dir, path_verdict, possible_parent_dir_at, reads_only_slashes, segments,
    starts_with_drive, starts_with_two_separators, std_reads_parts, PathPart,
};

verus! {

/// A path with the extension that the standard library reads as absolute and without
/// the parent directory resolves to itself.
pub proof fn law_absolute_wav_path_resolves_to_itself(
    path: Seq<char>,
    timestamp: u64,
    r: Result<WavLocation, Error>,
)
    requires
        has_wav_extension(path),
        forall|absolute: bool| std_reads_absolute(path, absolute) ==> absolute,
        forall|parts: Seq<PathPart>|
            std_reads_parts(path, parts) ==> !parts.contains(PathPart::ParentDir),
        wav_path_verdict(path, timestamp, r),
    ensures
        r matches Ok(WavLocation::Absolute(same)) && same@ == path,
{
}

/// Whether the standard library reads a path alike without and with the extension: an
/// absolute path stays absolute, and no parent directory appears. It does so on
/// Unix-like systems and on Windows.
pub open spec fn reads_extended_paths_alike() -> bool {
    &&& forall|path: Seq<char>, before: bool, after: bool|
        #![trigger std_reads_absolute(path, before), std_reads_absolute(with_wav(path), after)]
        std_reads_absolute(path, before) && std_reads_absolute(with_wav(path), after) && before
            ==> after
    &&& forall|path: Seq<char>, before: Seq<PathPart>, after: Seq<PathPart>|
        #![trigger std_reads_parts(path, before), std_reads_parts(with_wav(path), after)]
        std_reads_parts(path, before) && std_reads_parts(with_wav(path), after)
            && !before.contains(PathPart::ParentDir) ==> !after.contains(PathPart::ParentDir)
}

/// Resolving a resolved absolute path changes nothing, whatever the path.
pub proof fn law_resolved_absolute_path_resolves_to_itself(
    output_path: Seq<char>,
    timestamp: u64,
    location: WavLocation,
    later: u64,
    again: Result<WavLocation, Error>,
)
    requires
        reads_extended_paths_alike(),
        wav_path_verdict(output_path, timestamp, Ok(location)),
        location is Absolute,
        wav_path_verdict(location.path(), later, again),
    ensures
        again matches Ok(WavLocation::Absolute(path)) && path@ == location.path(),
{
    law_extension_is_not_doubled(output_path);
    law_absolute_wav_path_resolves_to_itself(location.path(), later, again);
}

/// A name that [`std::path::Path::join`] puts below any directory, on Unix-like systems
/// and on Windows: it starts with neither a separator nor a drive.
pub open spec fn is_plain(name: Seq<char>) -> bool {
    &&& name.len() > 0 ==> !is_separator(name[0])
    &&& !starts_with_drive(name)
}

/// Below a directory without a `..`, a name without a `..` makes a path without one.
proof fn lemma_no_parent_dir_below(directory: Seq<char>, name: Seq<char>)
    requires
        directory.len() > 0,
        is_separator(directory.last()),
        !may_have_parent_dir(directory),
        !may_have_parent_dir(name),
    ensures
        !may_have_parent_dir(directory + name),
{
    let whole = directory + name;
    let n = directory.len() as int;
    if may_have_parent_dir(whole) {
        let i = choose|i: int| possible_parent_dir_at(whole, i);
        if i < n {
            assert(directory[n - 1] == whole[n - 1]);
            assert(possible_parent_dir_at(directory, i));
        } else {
            assert(possible_parent_dir_at(name, i - n));
        }
    }
}

/// A recording that is joined below the directory for temporary files, given here with
/// the separator at its end, has no `..` in its path if neither the path that was asked
/// for nor the directory has; validating its path succeeds then.
pub proof fn law_path_below_temp_dir_is_valid(
    output_path: Seq<char>,
    timestamp: u64,
    location: WavLocation,
    temp_dir: Seq<char>,
    r: Result<(), Error>,
)
    requires
        wav_path_verdict(output_path, timestamp, Ok(location)),
        location is InTempDir,
        is_plain(location.path()),
        !may_have_parent_dir(output_path),
        temp_dir.len() > 0,
        is_separator(temp_dir.last()),
        !may_have_parent_dir(temp_dir),
        path_verdict(temp_dir + location.path(), r),
    ensures
        !may_have_parent_dir(temp_dir + location.path()),
        r is Ok,
{
    law_recordings_stay_inside(output_path, timestamp, Ok(location));
    lemma_no_parent_dir_below(temp_dir, location.path());
}

/// Whether the standard library takes just the paths that start with `/` as absolute,
/// as it does on Unix-like systems.
pub open spec fn reads_slash_as_root() -> bool {
    forall|path: Seq<char>, absolute: bool| #[trigger]
        std_reads_absolute(path, absolute) ==> (absolute <==> path.len() > 0 && path[0] == '/')
}

/// On a Unix-like system, a path that is not empty is refused exactly when one of the
/// names between its `/` is `..`, is used as it is if it starts with `/`, and goes
/// under the directory for temporary files otherwise.
pub proof fn law_resolution_where_slash_separates(
    output_path: Seq<char>,
    timestamp: u64,
    r: Result<WavLocation, Error>,
)
    requires
        reads_only_slashes(),
        reads_slash_as_root(),
        output_path.len() > 0,
        wav_path_verdict(output_path, timestamp, r),
    ensures
        r is Err <==> segments(output_path).contains(seq!['.', '.']),
        r matches Ok(location) ==> {
            &&& location.path() == with_wav(output_path)
            &&& location is Absolute <==> output_path[0] == '/'
        },
{
    law_verdict_where_slash_separates(output_path, validation(r));
}

/// The path of a WAV file on a Unix-like system, given the directory for temporary
/// files with a `/` at its end. A path that is joined to the directory does not start
/// with `/` there, so it goes below it.
pub open spec fn unix_path(temp_dir: Seq<char>, location: WavLocation) -> Seq<char> {
    match location {
        WavLocation::Absolute(path) => path@,
        WavLocation::InTempDir(path) => temp_dir + path@,
    }
}

/// On a Unix-like system whose directory for temporary files is absolute and has no
/// name `..`, resolving a resolved path changes nothing.
pub proof fn law_resolution_is_stable_where_slash_separates(
    output_path: Seq<char>,
    timestamp: u64,
    location: WavLocation,
    temp_dir: Seq<char>,
    later: u64,
    again: Result<WavLocation, Error>,
)
    requires
        reads_only_slashes(),
        reads_slash_as_root(),
        wav_path_verdict(output_path, timestamp, Ok(location)),
        temp_dir.len() > 0,
        temp_dir[0] == '/',
        temp_dir.last() == '/',
        !has_parent_dir(temp_dir),
        wav_path_verdict(unix_path(temp_dir, location), later, again),
    ensures
        again matches Ok(WavLocation::Absolute(path)) && path@ == unix_path(temp_dir, location),
{
    let whole = unix_path(temp_dir, location);
    let name = location.path();
    law_recordings_stay_inside(output_path, timestamp, Ok(location));
    assert(!has_parent_dir(name)) by {
        if output_path.len() == 0 {
            lemma_generated_name(timestamp);
        } else {
            law_parent_dir_is_a_segment(output_path);
            law_resolution_where_slash_separates(output_path, timestamp, Ok(location));
            law_extension_keeps_path_inside(output_path);
        }
    }
    assert(!has_parent_dir(whole)) by {
        let above = temp_dir.drop_last();
        law_join_has_the_parent_dirs_of_its_parts(above, Seq::empty());
        law_join_has_the_parent_dirs_of_its_parts(above, name);
        assert(joined(above, Seq::empty()) =~= temp_dir);
        assert(joined(above, name) =~= temp_dir + name);
    }
    assert(whole[0] == '/') by {
        if location is Absolute {
            law_extension_keeps_path_inside(output_path);
        }
    }
    assert(has_wav_extension(whole)) by {
        assert(whole.skip(whole.len() - 4) =~= name.skip(name.len() - 4));
    }
    lemma_parent_part(whole);
    law_absolute_wav_path_resolves_to_itself(whole, later, again);
}

/// Whether a path starts with a drive letter and its colon.
pub open spec fn starts_with_drive_letter(path: Seq<char>) -> bool {
    path.len() >= 2 && ('A' <= path[0] <= 'Z' || 'a' <= path[0] <= 'z') && path[1] == ':'
}

/// Whether Windows reads the parent directory at `i`, in a path that does not start with
/// two separators.
pub open spec fn windows_parent_dir_at(path: Seq<char>, i: int) -> bool {
    &&& 0 <= i
    &&& i + 2 <= path.len()
    &&& path[i] == '.'
    &&& path[i + 1] == '.'
    &&& i == 0 || is_separator(path[i - 1]) || (i == 2 && starts_with_drive_letter(path))
    &&& i + 2 == path.len() || is_separator(path[i + 2])
}

pub open spec fn has_windows_parent_dir(path: Seq<char>) -> bool {
    exists|i: int| windows_parent_dir_at(path, i)
}

/// Whether Windows takes a path that does not start with two separators as absolute: it
/// starts with a drive and a separator.
pub open spec fn is_windows_absolute(path: Seq<char>) -> bool {
    starts_with_drive_letter(path) && path.len() > 2 && is_separator(path[2])
}

/// Whether the standard library reads paths as it does on Windows, those that start with
/// two separators left aside.
pub open spec fn reads_windows_paths() -> bool {
    &&& forall|path: Seq<char>, parts: Seq<PathPart>| #[trigger]
        std_reads_parts(path, parts) && !starts_with_two_separators(path) ==> (parts.contains(
            PathPart::ParentDir,
        ) <==> has_windows_parent_dir(path))
    &&& forall|path: Seq<char>, absolute: bool| #[trigger]
        std_reads_absolute(path, absolute) && !starts_with_two_separators(path) ==> (absolute
            <==> is_windows_absolute(path))
}

/// The path of a WAV file on Windows, given the directory for temporary files, on a drive
/// and with a separator at its end: a path with a drive of its own replaces the
/// directory, one that starts with a separator keeps only its drive, and any other goes
/// below it.
pub open spec fn windows_path(temp_dir: Seq<char>, location: WavLocation) -> Seq<char> {
    match location {
        WavLocation::Absolute(path) => path@,
        WavLocation::InTempDir(path) => if starts_with_drive_letter(path@) {
            path@
        } else if path@.len() > 0 && is_separator(path@[0]) {
            temp_dir.take(2) + path@
        } else {
            temp_dir + path@
        },
    }
}

/// Adding the extension does not make Windows read the parent directory.
proof fn lemma_extension_adds_no_windows_parent_dir(name: Seq<char>)
    requires
        name.len() > 0,
        !has_windows_parent_dir(name),
    ensures
        !has_windows_parent_dir(with_wav(name)),
{
    reveal_strlit(".wav");
    let longer = name + ".wav"@;
    if has_windows_parent_dir(longer) {
        let i = choose|i: int| windows_parent_dir_at(longer, i);
        assert(windows_parent_dir_at(name, i));
    }
}

/// Behind a drive, or below a directory on a drive, a name without the parent directory
/// makes a path without it.
proof fn lemma_no_windows_parent_dir_below(directory: Seq<char>, name: Seq<char>)
    requires
        starts_with_drive_letter(directory),
        !has_windows_parent_dir(name),
        directory.len() == 2 && name.len() > 0 && is_separator(name[0]) || is_separator(
            directory.last(),
        ) && !has_windows_parent_dir(directory),
    ensures
        !has_windows_parent_dir(directory + name),
{
    let whole = directory + name;
    let n = directory.len() as int;
    if has_windows_parent_dir(whole) {
        let i = choose|i: int| windows_parent_dir_at(whole, i);
        assert(whole[n - 1] == directory[n - 1]);
        if i < n {
            assert(windows_parent_dir_at(directory, i));
        } else {
            if i > n {
                assert(whole[i - 1] == name[i - n - 1]);
            }
            assert(windows_parent_dir_at(name, i - n));
        }
    }
}

/// On Windows with a directory for temporary files that is on a drive, absolute and
/// without the parent directory, resolving a resolved path changes nothing. Paths that
/// start with two separators are left to
/// [`law_resolved_absolute_path_resolves_to_itself`].
pub proof fn law_resolution_is_stable_on_windows(
    output_path: Seq<char>,
    timestamp: u64,
    location: WavLocation,
    temp_dir: Seq<char>,
    later: u64,
    again: Result<WavLocation, Error>,
)
    requires
        reads_windows_paths(),
        !starts_with_two_separators(output_path),
        wav_path_verdict(output_path, timestamp, Ok(location)),
        is_windows_absolute(temp_dir),
        is_separator(temp_dir.last()),
        !has_windows_parent_dir(temp_dir),
        wav_path_verdict(windows_path(temp_dir, location), later, again),
    ensures
        again matches Ok(same) && windows_path(temp_dir, same) == windows_path(temp_dir, location),
        again matches Ok(same) && same.path() == windows_path(temp_dir, location),
{
    reveal_strlit(".wav");
    let name = location.path();
    let whole = windows_path(temp_dir, location);
    law_recordings_stay_inside(output_path, timestamp, Ok(location));
    if output_path.len() == 0 {
        lemma_generated_name(timestamp);
        if has_windows_parent_dir(name) {
            let i = choose|i: int| windows_parent_dir_at(name, i);
            assert(possible_parent_dir_at(name, i));
        }
    } else {
        lemma_extension_adds_no_windows_parent_dir(output_path);
    }
    assert(!has_windows_parent_dir(whole)) by {
        if location is InTempDir && !starts_with_drive_letter(name) {
            if is_separator(name[0]) {
                lemma_no_windows_parent_dir_below(temp_dir.take(2), name);
            } else {
                lemma_no_windows_parent_dir_below(temp_dir, name);
            }
        }
    }
    assert(!starts_with_two_separators(whole));
    assert(has_wav_extension(whole)) by {
        assert(whole.skip(whole.len() - 4) =~= name.skip(name.len() - 4));
    }
}

} // verus!
