use audio_recorder::error::Error;
use audio_recorder::output::{resolve_wav_path, wav_location, WavLocation};
use audio_recorder::paths::{reject_parent_dir, validate_path, PathPart};

const MESSAGE: &str = "Path traversal not allowed (contains '..')";

fn in_temp_dir(path: &str) -> WavLocation {
    WavLocation::InTempDir(path.to_string())
}

fn absolute(path: &str) -> WavLocation {
    WavLocation::Absolute(path.to_string())
}

#[test]
fn test_validate_path_normal() {
    assert!(validate_path("recording.wav").is_ok());
    assert!(validate_path("subdir/recording.wav").is_ok());
    assert!(validate_path("/absolute/path/recording.wav").is_ok());
}

#[test]
fn test_validate_path_traversal() {
    assert!(validate_path("../recording.wav").is_err());
    assert!(validate_path("subdir/../recording.wav").is_err());
    assert!(validate_path("subdir/../../recording.wav").is_err());
}

#[test]
fn validate_path_looks_at_whole_names() {
    assert!(validate_path("").is_ok());
    assert!(validate_path(".").is_ok());
    assert!(validate_path("a..b/..c/d..").is_ok());
    assert!(validate_path("a/.../b").is_ok());
    assert!(validate_path("a//./b/").is_ok());
    assert_eq!(validate_path(".."), Err(Error::InvalidPath(MESSAGE.to_string())));
    assert_eq!(validate_path("./.."), Err(Error::InvalidPath(MESSAGE.to_string())));
    assert_eq!(validate_path("/a/..//"), Err(Error::InvalidPath(MESSAGE.to_string())));
}

#[test]
fn parent_dir_is_seen_behind_drives_and_backslashes() {
    assert_eq!(validate_path("C:/a/../b"), Err(Error::InvalidPath(MESSAGE.to_string())));
    assert_eq!(validate_path("x\\y/../z"), Err(Error::InvalidPath(MESSAGE.to_string())));
    assert_eq!(validate_path("//a/b/../c"), Err(Error::InvalidPath(MESSAGE.to_string())));
    assert_eq!(validate_path("//./a/.."), Err(Error::InvalidPath(MESSAGE.to_string())));
    assert!(validate_path("//a/b/c").is_ok());
    assert!(validate_path("C:/a/b").is_ok());
    assert!(validate_path("x\\y/z..").is_ok());
    assert!(validate_path("a\\b..c\\d").is_ok());
    assert_eq!(
        resolve_wav_path("C:/a/../b", 1),
        Err(Error::InvalidPath(MESSAGE.to_string()))
    );
}

#[test]
fn relative_path_with_backslash_goes_to_temp_dir() {
    assert_eq!(resolve_wav_path("my\\take", 1).unwrap(), in_temp_dir("my\\take.wav"));
    assert_eq!(resolve_wav_path("a\\take", 1).unwrap(), in_temp_dir("a\\take.wav"));
    assert_eq!(resolve_wav_path("C:take", 1).unwrap(), in_temp_dir("C:take.wav"));
    assert_eq!(resolve_wav_path("\\take", 1).unwrap(), in_temp_dir("\\take.wav"));
}

#[test]
fn resolving_a_resolved_path_changes_nothing() {
    for path in ["/custom/path/recording", "/x.WAV", "/a/b.mp3", "//a/b", "/a\\b"] {
        match resolve_wav_path(path, 1).unwrap() {
            WavLocation::Absolute(resolved) => {
                assert_eq!(resolve_wav_path(&resolved, 2).unwrap(), absolute(&resolved))
            }
            other => panic!("unexpected {:?}", other),
        }
    }
    for path in ["", "take", "a/take.wav", "\\take", "C:take"] {
        match resolve_wav_path(path, 7).unwrap() {
            WavLocation::InTempDir(name) => {
                let whole = format!("/tmp/{}", name);
                assert_eq!(resolve_wav_path(&whole, 8).unwrap(), absolute(&whole));
            }
            other => panic!("unexpected {:?}", other),
        }
    }
}

#[test]
fn joined_path_is_accepted_exactly_when_its_parts_are() {
    let parts = ["", "a", "..", "a/..", "../b", "a..", ".", "/", "/a", "x\\y", "C:"];
    for a in parts {
        for b in parts {
            assert_eq!(
                validate_path(&format!("{}/{}", a, b)).is_ok(),
                validate_path(a).is_ok() && validate_path(b).is_ok()
            );
        }
    }
}

#[test]
fn parent_dir_is_refused_among_any_components() {
    assert_eq!(reject_parent_dir(&vec![]), Ok(()));
    assert_eq!(
        reject_parent_dir(&vec![
            PathPart::Prefix,
            PathPart::RootDir,
            PathPart::CurDir,
            PathPart::Normal
        ]),
        Ok(())
    );
    assert_eq!(
        reject_parent_dir(&vec![PathPart::Prefix, PathPart::ParentDir]),
        Err(Error::InvalidPath(MESSAGE.to_string()))
    );
}

#[test]
fn test_resolve_wav_path_empty_goes_to_temp_dir() {
    assert_eq!(
        resolve_wav_path("", 1700000000).unwrap(),
        in_temp_dir("recording-1700000000.wav")
    );
    assert_eq!(resolve_wav_path("", 0).unwrap(), in_temp_dir("recording-0.wav"));
    assert_eq!(
        resolve_wav_path("", u64::MAX).unwrap(),
        in_temp_dir("recording-18446744073709551615.wav")
    );
}

#[test]
fn test_resolve_wav_path_bare_filename_goes_to_temp_dir() {
    let path = resolve_wav_path("my-recording", 1).unwrap();
    assert_eq!(path, in_temp_dir("my-recording.wav"));
}

#[test]
fn test_resolve_wav_path_relative_subdir_goes_to_temp_dir_not_cwd() {
    let path = resolve_wav_path("myfolder/myrecording", 1).unwrap();
    assert_eq!(path, in_temp_dir("myfolder/myrecording.wav"));
}

#[test]
fn test_resolve_wav_path_absolute_used_as_is() {
    let path = resolve_wav_path("/custom/path/recording", 1).unwrap();
    assert_eq!(path, absolute("/custom/path/recording.wav"));
}

#[test]
fn test_resolve_wav_path_does_not_double_extension() {
    let path = resolve_wav_path("/custom/path/recording.wav", 1).unwrap();
    assert_eq!(path, absolute("/custom/path/recording.wav"));
}

#[test]
fn test_resolve_wav_path_rejects_traversal() {
    assert!(matches!(
        resolve_wav_path("../escape", 1),
        Err(Error::InvalidPath(_))
    ));
    assert!(matches!(
        resolve_wav_path("/absolute/../../escape", 1),
        Err(Error::InvalidPath(_))
    ));
}

#[test]
fn extension_is_recognized_in_any_case() {
    assert_eq!(resolve_wav_path("a.WAV", 1).unwrap(), in_temp_dir("a.WAV"));
    assert_eq!(resolve_wav_path("a.wAv", 1).unwrap(), in_temp_dir("a.wAv"));
    assert_eq!(resolve_wav_path(".wav", 1).unwrap(), in_temp_dir(".wav"));
    assert_eq!(resolve_wav_path("wav", 1).unwrap(), in_temp_dir("wav.wav"));
    assert_eq!(resolve_wav_path("é.wav", 1).unwrap(), in_temp_dir("é.wav"));
    assert_eq!(resolve_wav_path("a.wavé", 1).unwrap(), in_temp_dir("a.wavé.wav"));
    assert_eq!(resolve_wav_path("a.mp3", 1).unwrap(), in_temp_dir("a.mp3.wav"));
}

#[test]
fn extension_suffix_agrees_with_lower_casing() {
    for code in 0..=0x10ffffu32 {
        if let Some(c) = char::from_u32(code) {
            let lower: String = c.to_lowercase().collect();
            for ascii in ['.', 'w', 'a', 'v'] {
                let reaches = lower.contains(ascii);
                assert_eq!(reaches, c.to_ascii_lowercase() == ascii);
            }
        }
    }
}

#[test]
fn extension_does_not_make_a_parent_dir() {
    assert_eq!(resolve_wav_path("a/.", 1).unwrap(), in_temp_dir("a/..wav"));
    assert!(validate_path("a/..wav").is_ok());
}

#[test]
fn location_follows_whether_the_path_is_absolute() {
    assert_eq!(wav_location("x", true), absolute("x.wav"));
    assert_eq!(wav_location("x", false), in_temp_dir("x.wav"));
}
