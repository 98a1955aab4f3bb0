//! Where the WAV file of a recording goes.

use vstd::prelude::*;
use crate::error::Error;
use crate::paths::{
    has_parent_dir, is_portable, is_separator, may_have_parent_dir, parent_dir_at, path_verdict,
    possible_parent_dir_at, starts_with_drive, starts_with_two_separators, validate_path,
    validates_as,
};
use crate::text::{ascii_lower, chars_of, decimal, decimal_text, is_digit, lemma_decimal_reads_back};

verus! {

/// The place of a WAV file.
#[derive(Debug, PartialEq, Eq)]
pub enum WavLocation {
    /// An absolute path, used as it is.
    Absolute(String),
    /// A path to be joined to the system's directory for temporary files, with
    /// [`std::path::Path::join`].
    InTempDir(String),
}

impl WavLocation {
    /// The path, as far as the library determines it.
    pub open spec fn path(self) -> Seq<char> {
        match self {
            WavLocation::Absolute(path) => path@,
            WavLocation::InTempDir(path) => path@,
        }
    }
}

/// Whether a name ends in `.wav`, in lower or upper case.
pub open spec fn has_wav_extension(name: Seq<char>) -> bool {
    name.len() >= 4 && name.skip(name.len() - 4).map_values(|c: char| ascii_lower(c)) == ".wav"@
}

/// A name with the extension `.wav`, which is added unless it is already there.
pub open spec fn with_wav(name: Seq<char>) -> Seq<char> {
    if has_wav_extension(name) {
        name
    } else {
        name + ".wav"@
    }
}

/// The name of a recording that was started at `timestamp` seconds without a
/// path of its own.
pub open spec fn generated_name(timestamp: u64) -> Seq<char> {
    "recording-"@ + decimal(timestamp as nat) + ".wav"@
}

/// Whether Unix-like systems or Windows may read a path as absolute: it starts with
/// `/`, with two separators, or with a drive and a separator.
pub open spec fn may_be_absolute(path: Seq<char>) -> bool {
    ||| path.len() > 0 && path[0] == '/'
    ||| starts_with_two_separators(path)
    ||| starts_with_drive(path) && path.len() > 2 && is_separator(path[2])
}

/// Whether [`std::path::Path::is_absolute`] may give `absolute` for a path on the
/// platform that the crate is built for.
pub closed spec fn std_reads_absolute(path: Seq<char>, absolute: bool) -> bool {
    exists|s: &str| s@ == path && #[trigger] call_ensures(is_absolute, (s,), absolute)
}

/// The verdict on the path in the answer for its resolution.
pub open spec fn validation(r: Result<WavLocation, Error>) -> Result<(), Error> {
    match r {
        Ok(_) => Ok(()),
        Err(e) => Err(e),
    }
}

/// Whether both answers are errors, and the same one, or neither is.
pub open spec fn fail_alike(validated: Result<(), Error>, r: Result<WavLocation, Error>) -> bool {
    match (validated, r) {
        (Ok(_), Ok(_)) => true,
        (Err(a), Err(b)) => a == b,
        _ => false,
    }
}

/// What [`resolve_wav_path`] answers for an output path. It fails exactly when
/// [`validate_path`] fails, with the same error; an empty path never fails. Otherwise
/// the path is taken as absolute exactly when the standard library reads it so.
pub open spec fn wav_path_verdict(
    output_path: Seq<char>,
    timestamp: u64,
    r: Result<WavLocation, Error>,
) -> bool {
    if output_path.len() == 0 {
        r matches Ok(location) && location is InTempDir && location.path() == generated_name(
            timestamp,
        )
    } else {
        &&& exists|validated: Result<(), Error>| #[trigger]
            validates_as(output_path, validated) && fail_alike(validated, r)
        &&& path_verdict(output_path, validation(r))
        &&& r matches Ok(location) ==> {
            &&& location.path() == with_wav(output_path)
            &&& std_reads_absolute(output_path, location is Absolute)
            &&& location is Absolute ==> may_be_absolute(output_path)
        }
    }
}

/// [`std::path::Path::is_absolute`], on the platform that the crate is built for.
/// Claimed of it, on Unix-like systems and on Windows: an absolute path starts with
/// `/`, with two separators, or with a drive and a separator. Whether a path that
/// starts so is absolute differs between the two (Windows wants more than a `/`, and
/// Unix-like systems want nothing else) and is left open.
#[verifier::external_body]
fn is_absolute(path: &str) -> (absolute: bool)
    ensures
        absolute ==> may_be_absolute(path@),
{
    std::path::Path::new(path).is_absolute()
}

/// Adding the extension twice is the same as adding it once.
pub proof fn law_extension_is_not_doubled(name: Seq<char>)
    ensures
        has_wav_extension(with_wav(name)),
        with_wav(with_wav(name)) == with_wav(name),
{
    reveal_strlit(".wav");
    if !has_wav_extension(name) {
        let longer = name + ".wav"@;
        assert(longer.skip(longer.len() - 4).map_values(|c: char| ascii_lower(c)) =~= ".wav"@);
    }
}

/// A path without a `..` has none after its extension is added either, whichever
/// separators count, and it stays portable: what is written lies where the validated
/// path said.
pub proof fn law_extension_keeps_path_inside(name: Seq<char>)
    requires
        name.len() > 0,
    ensures
        !has_parent_dir(name) ==> !has_parent_dir(with_wav(name)),
        !may_have_parent_dir(name) ==> !may_have_parent_dir(with_wav(name)),
        is_portable(name) ==> is_portable(with_wav(name)),
        with_wav(name)[0] == name[0],
{
    reveal_strlit(".wav");
    let longer = name + ".wav"@;
    if has_parent_dir(longer) {
        let i = choose|i: int| parent_dir_at(longer, i);
        assert(i + 2 <= name.len());
        assert(parent_dir_at(name, i));
    }
    if may_have_parent_dir(longer) {
        let i = choose|i: int| possible_parent_dir_at(longer, i);
        assert(i + 2 <= name.len());
        assert(possible_parent_dir_at(name, i));
    }
    if is_portable(name) && longer.contains('\\') {
        let k = choose|k: int| 0 <= k < longer.len() && longer[k] == '\\';
        assert(name[k] == '\\');
    }
}

/// A generated name has the extension, holds no `..`, and is a plain name.
pub proof fn lemma_generated_name(timestamp: u64)
    ensures
        has_wav_extension(generated_name(timestamp)),
        !may_have_parent_dir(generated_name(timestamp)),
        !has_parent_dir(generated_name(timestamp)),
        generated_name(timestamp)[0] == 'r',
        generated_name(timestamp)[1] == 'e',
{
    reveal_strlit("recording-");
    reveal_strlit(".wav");
    let digits = decimal(timestamp as nat);
    let name = generated_name(timestamp);
    lemma_decimal_reads_back(timestamp as nat);
    assert(name.skip(name.len() - 4).map_values(|c: char| ascii_lower(c)) =~= ".wav"@);
    assert forall|i: int| 0 <= i && i + 1 < name.len() && #[trigger] name[i] == '.' implies name[i
        + 1] != '.' by {
        let d = i - 10;
        if 0 <= d < digits.len() {
            assert(name[i] == digits[d]);
            assert(is_digit(digits[d]));
        }
    }
    assert forall|i: int| !possible_parent_dir_at(name, i) && !parent_dir_at(name, i) by {}
}

/// Wherever a recording goes, there is no name `..` between the `/` of its path,
/// unless the path that was asked for starts with two separators; there is no `..`
/// of any kind if there was none in that path; and it is joined to the directory for
/// temporary files, as the standard library joins paths, unless that path may be
/// absolute.
pub proof fn law_recordings_stay_inside(
    output_path: Seq<char>,
    timestamp: u64,
    r: Result<WavLocation, Error>,
)
    requires
        wav_path_verdict(output_path, timestamp, r),
    ensures
        r matches Ok(location) ==> {
            &&& !starts_with_two_separators(output_path) ==> !has_parent_dir(location.path())
            &&& !may_have_parent_dir(output_path) ==> !may_have_parent_dir(location.path())
            &&& !may_be_absolute(output_path) ==> location is InTempDir
            &&& has_wav_extension(location.path())
        },
{
    if output_path.len() == 0 {
        lemma_generated_name(timestamp);
    } else {
        law_extension_keeps_path_inside(output_path);
        law_extension_is_not_doubled(output_path);
    }
}

/// The name, with `.wav` added unless it ends so already. Of the characters that
/// have a lower-case form among `.wav` there are only the ASCII letters, so case
/// is ignored for those alone.
fn with_wav_extension(name: &str) -> (r: String)
    ensures
        r@ == with_wav(name@),
{
    let chars: Vec<char> = chars_of(name);
    let n: usize = chars.len();
    let named: bool = n >= 4 && chars[n - 4] == '.' && (chars[n - 3] == 'w' || chars[n - 3] == 'W')
        && (chars[n - 2] == 'a' || chars[n - 2] == 'A') && (chars[n - 1] == 'v' || chars[n - 1]
        == 'V');
    proof {
        reveal_strlit(".wav");
        if n >= 4 {
            let tail = name@.skip(n - 4).map_values(|c: char| ascii_lower(c));
            assert(tail.len() == 4);
            assert(tail[0] == ascii_lower(chars@[n - 4]));
            assert(tail[1] == ascii_lower(chars@[n - 3]));
            assert(tail[2] == ascii_lower(chars@[n - 2]));
            assert(tail[3] == ascii_lower(chars@[n - 1]));
            if named {
                assert(tail =~= ".wav"@);
            }
        }
    }
    if named {
        name.to_owned()
    } else {
        name.to_owned().concat(".wav")
    }
}

/// The place of the WAV file for a path that is or is not absolute.
pub fn wav_location(output_path: &str, absolute: bool) -> (location: WavLocation)
    ensures
        location.path() == with_wav(output_path@),
        location is Absolute <==> absolute,
{
    let name: String = with_wav_extension(output_path);
    if absolute {
        WavLocation::Absolute(name)
    } else {
        WavLocation::InTempDir(name)
    }
}

/// Resolves the WAV output path of a recording. An empty path gets a name made of
/// `timestamp`, the current time in seconds. That name, and a relative path (a
/// bare file name or one with directories), are to be joined to the directory for
/// temporary files rather than the unpredictable current directory; an absolute path
/// is used as it is. A path with a `..` component is refused.
pub fn resolve_wav_path(output_path: &str, timestamp: u64) -> (r: Result<WavLocation, Error>)
    ensures
        wav_path_verdict(output_path@, timestamp, r),
{
    if output_path.is_empty() {
        let stem: String = "recording-".to_owned().concat(decimal_text(timestamp).as_str());
        return Ok(WavLocation::InTempDir(stem.concat(".wav")));
    }
    let validated: Result<(), Error> = validate_path(output_path);
    assert(call_ensures(validate_path, (output_path,), validated));
    assert(validates_as(output_path@, validated));
    match validated {
        Err(e) => Err(e),
        Ok(()) => {
            let absolute: bool = is_absolute(output_path);
            assert(call_ensures(is_absolute, (output_path,), absolute));
            Ok(wav_location(output_path, absolute))
        },
    }
}

} // verus!
