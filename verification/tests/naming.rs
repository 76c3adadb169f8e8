use hyprrec::clock::Timestamp;
use hyprrec::error::{AppError, McpError};
use hyprrec::naming::{
    build_output_path, ensure_destination_available, normalize_name, normalize_name_at,
    normalize_requested, telemetry_path, validate_name,
};
use hyprrec::path::FilePath;
use hyprrec::places::{resolve_dir, resolve_output_directory, UserDirs};

fn path(text: &str) -> FilePath {
    FilePath::from_text(text)
}

fn morning() -> Timestamp {
    Timestamp::new(2026, 7, 10, 9, 8, 7, 0).unwrap()
}

fn message(words: &str) -> AppError {
    AppError::Message(words.to_string())
}

#[test]
fn timestamped_output_path_uses_expected_format() {
    let now = Timestamp::new(2026, 7, 10, 9, 8, 7, 0).unwrap();
    let destination = build_output_path(&path("/videos"), None, now).unwrap();

    assert_eq!(destination, path("/videos/hyprrec-20260710-090807.mp4"));
}

#[test]
fn custom_name_gets_mp4_extension() {
    let now = Timestamp::now();
    let destination = build_output_path(&path("recordings"), Some("demo"), now).unwrap();
    assert_eq!(destination, path("recordings/demo.mp4"));
}

#[test]
fn existing_mp4_extension_is_not_duplicated() {
    let now = Timestamp::now();
    let destination = build_output_path(&path("recordings"), Some("DEMO.MP4"), now).unwrap();
    assert_eq!(destination, path("recordings/DEMO.MP4"));
}

#[test]
fn custom_name_rejects_paths_and_empty_values() {
    for invalid in ["", "  ", ".", "..", "nested/demo", "nested\\demo"] {
        assert!(build_output_path(&path("recordings"), Some(invalid), Timestamp::now()).is_err());
    }
}

#[test]
fn custom_output_directory_is_used_unchanged() {
    let directory = path("relative/recordings");
    assert_eq!(
        resolve_output_directory(Some(directory.clone()), None).unwrap(),
        directory
    );
}

#[test]
fn existing_destination_is_rejected() {
    let destination = path("/tmp/recordings").join(&path("existing.mp4"));
    let error = ensure_destination_available(&destination, true).unwrap_err();
    assert!(error.to_text().contains("refusing to overwrite"));
}

#[test]
fn telemetry_sidecar_uses_recording_basename() {
    assert_eq!(
        telemetry_path(&path("/videos/demo.mp4")),
        path("/videos/demo.telemetry.jsonl")
    );
}

#[test]
fn normalizes_explicit_and_generated_names() {
    assert_eq!(normalize_name(Some("demo.mp4".into())).unwrap(), "demo");
    assert!(normalize_name(None).unwrap().starts_with("hyprrec-"));
}

#[test]
fn rejects_names_containing_paths() {
    assert!(normalize_name(Some("../demo".into())).is_err());
    assert!(normalize_name(Some("folder/demo".into())).is_err());
}

#[test]
fn refused_destination_is_named() {
    assert_eq!(
        ensure_destination_available(&path("/videos/demo.mp4"), true),
        Err(message("refusing to overwrite existing recording: /videos/demo.mp4"))
    );
    assert_eq!(ensure_destination_available(&path("/videos/demo.mp4"), false), Ok(()));
}

#[test]
fn each_refused_name_has_its_message() {
    let nothing = message("--name must contain a non-empty filename");
    let reaching = message(
        "--name must be a basename without path separators; use --dir for the folder",
    );
    for name in ["", " \t\n", ".", " .. "] {
        assert_eq!(validate_name(name), Err(nothing_like(&nothing)));
    }
    for name in ["a/b", "/", "a\\b", " /x "] {
        assert_eq!(validate_name(name), Err(nothing_like(&reaching)));
    }
}

fn nothing_like(error: &AppError) -> AppError {
    AppError::Message(error.to_text())
}

#[test]
fn accepted_name_is_trimmed_once() {
    for (name, expected) in
        [("demo", "demo"), ("  demo ", "demo"), ("\u{3000}a b\u{85}", "a b"), ("...", "...")]
    {
        let accepted = validate_name(name).unwrap();
        assert_eq!(accepted, expected);
        assert_eq!(validate_name(&accepted).unwrap(), expected);
    }
}

#[test]
fn extension_may_be_given_or_not() {
    for (given, bare) in [("demo.mp4", "demo"), ("a.b.mp4", "a.b"), ("démo.mp4", "démo")] {
        assert_eq!(
            build_output_path(&path("/v"), Some(given), morning()).unwrap(),
            build_output_path(&path("/v"), Some(bare), morning()).unwrap()
        );
    }
    assert_eq!(
        build_output_path(&path("/v"), Some(" Clip.Mp4 "), morning()).unwrap(),
        path("/v/Clip.Mp4")
    );
    assert_eq!(build_output_path(&path("/v"), Some("mp4"), morning()).unwrap(), path("/v/mp4.mp4"));
}

#[test]
fn recording_stays_in_its_directory() {
    for (directory, expected) in
        [("/v", "/v/demo.mp4"), ("/v/", "/v/demo.mp4"), ("", "demo.mp4"), ("/", "/demo.mp4")]
    {
        assert_eq!(
            build_output_path(&path(directory), Some("demo"), morning()).unwrap(),
            path(expected)
        );
    }
}

#[test]
fn sidecar_lies_beside_the_video() {
    for (video, sidecar) in [
        ("/v/a.b.mp4", "/v/a.b.telemetry.jsonl"),
        ("DEMO.MP4", "DEMO.telemetry.jsonl"),
        ("/v.d/demo", "/v.d/demo.telemetry.jsonl"),
        ("/v/.mp4", "/v/.mp4.telemetry.jsonl"),
        ("/v/демо.mp4", "/v/демо.telemetry.jsonl"),
        ("/", "/"),
    ] {
        assert_eq!(telemetry_path(&path(video)), path(sidecar));
    }
}

#[test]
fn generated_name_needs_no_change() {
    let name = normalize_name_at(None, morning()).unwrap();
    assert_eq!(name, "hyprrec-20260710-090807");
    assert_eq!(normalize_requested(&name).unwrap(), name);
    assert_eq!(validate_name(&name).unwrap(), name);
}

#[test]
fn requested_name_loses_one_extension() {
    for (name, expected) in [
        (" demo.mp4 ", "demo"),
        ("demo.mp4.mp4", "demo.mp4"),
        ("demo.MP4", "demo.MP4"),
        ("demo .mp4", "demo "),
        ("demo", "demo"),
        ("...mp4", "..."),
    ] {
        assert_eq!(
            normalize_name_at(Some(name.to_string()), morning()),
            if expected == "..." { Err(unnamed()) } else { Ok(expected.to_string()) },
            "{name}"
        );
    }
}

fn unnamed() -> McpError {
    McpError("name must be a non-empty basename".to_string())
}

#[test]
fn refused_request_name_has_its_message() {
    for name in ["", " ", ".", "..", ".mp4", "..mp4", "a/b", "a\\b.mp4"] {
        assert_eq!(normalize_name(Some(name.to_string())), Err(unnamed()), "{name}");
    }
}

#[test]
fn videos_have_their_own_telemetry() {
    let videos = ["/v/a.mp4", "/v/a.b.mp4", "/v/b.mp4", "a.mp4", "/w/a.mp4", "/v//a.mp4", "/v/.a.mp4"];
    for first in videos {
        assert_ne!(telemetry_path(&path(first)), path(first));
        for second in videos {
            assert_eq!(
                telemetry_path(&path(first)) == telemetry_path(&path(second)),
                first == second
            );
        }
    }
    // What trails the name makes no difference.
    assert_eq!(telemetry_path(&path("/v/a.mp4/")), telemetry_path(&path("/v/a.mp4")));
    assert_eq!(telemetry_path(&path("v1.2.mp4")), path("v1.2.telemetry.jsonl"));
    assert_eq!(
        telemetry_path(&path("/v/x.telemetry.jsonl")),
        path("/v/x.telemetry.telemetry.jsonl")
    );
}

#[test]
fn default_directory_is_below_the_videos() {
    let configured = UserDirs { home_dir: path("/home/u"), video_dir: Some(path("/data/films")) };
    let plain = UserDirs { home_dir: path("/home/u"), video_dir: None };
    assert_eq!(
        resolve_output_directory(None, Some(&configured)).unwrap(),
        path("/data/films/hyprrec")
    );
    assert_eq!(
        resolve_output_directory(None, Some(&plain)).unwrap(),
        path("/home/u/Videos/hyprrec")
    );
    assert_eq!(resolve_dir(None, Some(&configured)).unwrap(), path("/data/films/hyprrec"));
    assert_eq!(resolve_dir(None, Some(&plain)).unwrap(), path("/home/u/Videos/hyprrec"));
    assert_eq!(resolve_dir(Some(path("x")), Some(&plain)).unwrap(), path("x"));
}

#[test]
fn unknown_home_is_an_error() {
    assert_eq!(
        resolve_output_directory(None, None),
        Err(message("could not determine the current user's home directory"))
    );
    assert_eq!(
        resolve_dir(None, None),
        Err(McpError("could not find home directory".to_string()))
    );
}
