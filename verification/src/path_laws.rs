//! Which output paths are accepted and where their files go, said of the answers in
//! terms of the characters of the path.

use vstd::prelude::*;
use crate::error::Error;
use crate::output::{
    has_wav_extension, resolve_wav_path, std_reads_absolute, validation, wav_location,
    wav_path_verdict, with_wav, WavLocation,
};
use crate::paths::{
    behind_two_names, may_have_parent_dir, parent_dir_at, path_verdict, possible_parent_dir_at,
    reject_parent_dir, std_reads_parts, validate_path, PathPart,
};
use crate::resolution::reads_slash_as_root;
use crate::text::{ascii_lower, decimal_text};

verus! {

/// Components are refused exactly if one of them, wherever it stands, is the parent
/// directory.
pub proof fn law_any_parent_dir_is_rejected(parts: &Vec<PathPart>, r: Result<(), Error>)
    requires
        call_ensures(reject_parent_dir, (parts,), r),
    ensures
        r is Err <==> exists|k: int| 0 <= k < parts@.len() && #[trigger] parts@[k]
            == PathPart::ParentDir,
        r is Err ==> (r matches Err(Error::InvalidPath(message)) && message@
            == "Path traversal not allowed (contains '..')"@),
{
}

/// A path is refused, with the message for that, if two dots stand in it that nothing
/// else belongs to: before them there is nothing or a `/`, and so there is behind them.
/// This does not hold where the path starts with two separators.
pub proof fn law_dots_between_slashes_are_refused(path: &str, i: int, r: Result<(), Error>)
    requires
        0 <= i,
        i + 2 <= path@.len(),
        path@[i] == '.',
        path@[i + 1] == '.',
        i == 0 || path@[i - 1] == '/',
        i + 2 == path@.len() || path@[i + 2] == '/',
        !((path@[0] == '/' || path@[0] == '\\') && (path@[1] == '/' || path@[1] == '\\')),
        call_ensures(validate_path, (path,), r),
    ensures
        r matches Err(Error::InvalidPath(message)) && message@
            == "Path traversal not allowed (contains '..')"@,
{
    assert(parent_dir_at(path@, i));
}

/// In a path that starts with `//`, such dots are refused if two names stand before
/// them, unless a `?` follows the `//`.
pub proof fn law_dots_behind_a_share_are_refused(
    path: &str,
    first: int,
    between: int,
    second: int,
    i: int,
    r: Result<(), Error>,
)
    requires
        path@.len() > 2,
        path@[0] == '/',
        path@[1] == '/',
        path@[2] != '?',
        0 <= first < between < second < i,
        path@[first] != '/',
        path@[between] == '/',
        path@[second] != '/',
        i + 2 <= path@.len(),
        path@[i - 1] == '/',
        path@[i] == '.',
        path@[i + 1] == '.',
        i + 2 == path@.len() || path@[i + 2] == '/',
        call_ensures(validate_path, (path,), r),
    ensures
        r matches Err(Error::InvalidPath(message)) && message@
            == "Path traversal not allowed (contains '..')"@,
{
    assert(behind_two_names(path@, i));
    assert(parent_dir_at(path@, i));
}

/// A path is accepted if something else belongs to all of its pairs of dots: a character
/// before or behind them that is no separator, but for a drive at the start of the path.
/// That a dot is among them, or that a name begins or ends with two, is no reason to
/// refuse it.
pub proof fn law_other_dots_are_accepted(path: &str, r: Result<(), Error>)
    requires
        forall|i: int|
            0 <= i && i + 1 < path@.len() && #[trigger] path@[i] == '.' && path@[i + 1] == '.' ==> {
                ||| i > 0 && path@[i - 1] != '/' && path@[i - 1] != '\\' && !(i == 2 && path@[1]
                    == ':')
                ||| i + 2 < path@.len() && path@[i + 2] != '/' && path@[i + 2] != '\\'
            },
        call_ensures(validate_path, (path,), r),
    ensures
        r is Ok,
{
    if may_have_parent_dir(path@) {
        let i = choose|i: int| possible_parent_dir_at(path@, i);
        assert(path@[i] == '.');
    }
}

/// Whether a name ends in a dot and the letters `wav`, each in lower or upper case.
pub open spec fn ends_in_dot_wav(name: Seq<char>) -> bool {
    let n = name.len() as int;
    &&& n >= 4
    &&& name[n - 4] == '.'
    &&& name[n - 3] == 'w' || name[n - 3] == 'W'
    &&& name[n - 2] == 'a' || name[n - 2] == 'A'
    &&& name[n - 1] == 'v' || name[n - 1] == 'V'
}

proof fn lemma_with_wav(name: Seq<char>)
    ensures
        ends_in_dot_wav(name) ==> with_wav(name) == name,
        !ends_in_dot_wav(name) ==> with_wav(name) == name + seq!['.', 'w', 'a', 'v'],
{
    reveal_strlit(".wav");
    let n = name.len() as int;
    assert(".wav"@ =~= seq!['.', 'w', 'a', 'v']);
    if n >= 4 {
        let tail = name.skip(n - 4).map_values(|c: char| ascii_lower(c));
        assert(tail.len() == 4);
        assert(tail[0] == ascii_lower(name[n - 4]));
        assert(tail[1] == ascii_lower(name[n - 3]));
        assert(tail[2] == ascii_lower(name[n - 2]));
        assert(tail[3] == ascii_lower(name[n - 1]));
        if ends_in_dot_wav(name) {
            assert(tail =~= ".wav"@);
        }
        if has_wav_extension(name) {
            assert(tail[0] == '.' && tail[1] == 'w' && tail[2] == 'a' && tail[3] == 'v');
        }
    }
}

/// The path of the answer for a path, in terms of its characters.
pub proof fn lemma_location(path: Seq<char>, timestamp: u64, r: Result<WavLocation, Error>)
    requires
        path.len() > 0,
        wav_path_verdict(path, timestamp, r),
    ensures
        r matches Ok(location) ==> {
            &&& ends_in_dot_wav(path) ==> location.path() == path
            &&& !ends_in_dot_wav(path) ==> location.path() == path + seq!['.', 'w', 'a', 'v']
        },
{
    lemma_with_wav(path);
}

/// The file of an absolute path is at that path, and that of another is to be joined to
/// the directory for temporary files. Its name is the path, character for character, if
/// that ends in `.wav` in lower or upper case, and the path followed by `.wav` if not.
pub proof fn law_location_keeps_the_path(path: &str, absolute: bool, location: WavLocation)
    requires
        call_ensures(wav_location, (path, absolute), location),
    ensures
        match location {
            WavLocation::Absolute(name) => absolute && name@ == if ends_in_dot_wav(path@) {
                path@
            } else {
                path@ + seq!['.', 'w', 'a', 'v']
            },
            WavLocation::InTempDir(name) => !absolute && name@ == if ends_in_dot_wav(path@) {
                path@
            } else {
                path@ + seq!['.', 'w', 'a', 'v']
            },
        },
{
    lemma_with_wav(path@);
}

/// Without a path the file goes to the directory for temporary files, under a name made
/// of the time.
pub proof fn law_file_without_a_path_is_named_by_time(
    path: &str,
    timestamp: u64,
    seconds: String,
    r: Result<WavLocation, Error>,
)
    requires
        path@.len() == 0,
        call_ensures(decimal_text, (timestamp,), seconds),
        call_ensures(resolve_wav_path, (path, timestamp), r),
    ensures
        r matches Ok(WavLocation::InTempDir(name)) && name@ == "recording-"@ + seconds@ + ".wav"@,
{
}

/// A path that is accepted keeps its characters, with `.wav` added unless it ends so. It
/// is joined to the directory for temporary files unless it starts with `/`, with two
/// separators, or with a drive and a separator. The time does not matter to it.
pub proof fn law_accepted_path_is_kept(path: &str, timestamp: u64, r: Result<WavLocation, Error>)
    requires
        path@.len() > 0,
        call_ensures(resolve_wav_path, (path, timestamp), r),
    ensures
        match r {
            Ok(WavLocation::Absolute(name)) => {
                &&& name@ == if ends_in_dot_wav(path@) {
                    path@
                } else {
                    path@ + seq!['.', 'w', 'a', 'v']
                }
                &&& {
                    ||| path@[0] == '/'
                    ||| path@.len() > 1 && path@[0] == '\\' && (path@[1] == '/' || path@[1] == '\\')
                    ||| path@.len() > 2 && path@[1] == ':' && (path@[2] == '/' || path@[2] == '\\')
                }
            },
            Ok(WavLocation::InTempDir(name)) => name@ == if ends_in_dot_wav(path@) {
                path@
            } else {
                path@ + seq!['.', 'w', 'a', 'v']
            },
            Err(Error::InvalidPath(message)) => message@
                == "Path traversal not allowed (contains '..')"@,
            Err(_) => false,
        },
{
    lemma_location(path@, timestamp, r);
    assert(path_verdict(path@, validation(r)));
}

/// Resolving refuses what validating refuses: two dots between `/` or the ends of the
/// path, if the path does not start with two separators. It accepts a path if something
/// else belongs to all of its pairs of dots.
pub proof fn law_resolving_refuses_dots_between_slashes(
    path: &str,
    timestamp: u64,
    r: Result<WavLocation, Error>,
)
    requires
        path@.len() > 0,
        call_ensures(resolve_wav_path, (path, timestamp), r),
    ensures
        forall|i: int|
            0 <= i && i + 2 <= path@.len() && #[trigger] path@[i] == '.' && path@[i + 1] == '.' && (i
                == 0 || path@[i - 1] == '/') && (i + 2 == path@.len() || path@[i + 2] == '/') && !((
            path@[0] == '/' || path@[0] == '\\') && (path@[1] == '/' || path@[1] == '\\'))
                ==> r is Err,
        (forall|i: int|
            0 <= i && i + 1 < path@.len() && #[trigger] path@[i] == '.' && path@[i + 1] == '.' ==> {
                ||| i > 0 && path@[i - 1] != '/' && path@[i - 1] != '\\' && !(i == 2 && path@[1]
                    == ':')
                ||| i + 2 < path@.len() && path@[i + 2] != '/' && path@[i + 2] != '\\'
            }) ==> r is Ok,
{
    assert(path_verdict(path@, validation(r)));
    assert forall|i: int|
        0 <= i && i + 2 <= path@.len() && #[trigger] path@[i] == '.' && path@[i + 1] == '.' && (i
            == 0 || path@[i - 1] == '/') && (i + 2 == path@.len() || path@[i + 2] == '/') && !((
        path@[0] == '/' || path@[0] == '\\') && (path@[1] == '/' || path@[1]
            == '\\')) implies r is Err by {
        assert(parent_dir_at(path@, i));
    }
    if may_have_parent_dir(path@) {
        let i = choose|i: int| possible_parent_dir_at(path@, i);
        assert(path@[i] == '.');
    }
}

/// Resolving a path that is not empty fails exactly when validating it fails, as long as
/// the standard library reads the path the same way both times.
pub proof fn law_resolving_fails_as_validating_does(
    path: &str,
    timestamp: u64,
    validated: Result<(), Error>,
    r: Result<WavLocation, Error>,
)
    requires
        path@.len() > 0,
        forall|a: Seq<PathPart>, b: Seq<PathPart>| #[trigger]
            std_reads_parts(path@, a) && #[trigger] std_reads_parts(path@, b) ==> a == b,
        call_ensures(validate_path, (path,), validated),
        call_ensures(resolve_wav_path, (path, timestamp), r),
    ensures
        validated is Err <==> r is Err,
{
    assert(path_verdict(path@, validated));
    assert(path_verdict(path@, validation(r)));
}

/// A path that is accepted is used as it is exactly if the standard library reads it as
/// absolute.
pub proof fn law_absolute_path_is_used_as_it_is(
    path: &str,
    timestamp: u64,
    absolute: bool,
    location: WavLocation,
)
    requires
        path@.len() > 0,
        forall|reading: bool| #[trigger] std_reads_absolute(path@, reading) ==> reading == absolute,
        call_ensures(resolve_wav_path, (path, timestamp), Ok(location)),
    ensures
        location is Absolute <==> absolute,
{
}

/// On a system where just the paths that start with `/` are absolute, those and no others
/// are used as they are.
pub proof fn law_rooted_path_is_absolute(path: &str, timestamp: u64, location: WavLocation)
    requires
        reads_slash_as_root(),
        path@.len() > 0,
        call_ensures(resolve_wav_path, (path, timestamp), Ok(location)),
    ensures
        location is Absolute <==> path@[0] == '/',
{
}

/// Any path can be validated and resolved, at any time.
pub proof fn law_any_path_is_taken(path: &str, timestamp: u64, absolute: bool, parts: &Vec<PathPart>)
    ensures
        call_requires(validate_path, (path,)),
        call_requires(reject_parent_dir, (parts,)),
        call_requires(wav_location, (path, absolute)),
        call_requires(resolve_wav_path, (path, timestamp)),
{
}

} // verus!
