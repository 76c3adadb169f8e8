use hyprrec::clock::Timestamp;
use hyprrec::command::ProcessOutput;
use hyprrec::error::McpError;
use hyprrec::naming::build_output_path;
use hyprrec::path::FilePath;
use hyprrec::recordings::{
    inspect_recording, inspection_args, is_recording, list_recordings, probe_outcome, sidecar_of,
    FoundFile,
};

fn path(text: &str) -> FilePath {
    FilePath::from_text(text)
}

fn error(words: &str) -> McpError {
    McpError(words.to_string())
}

/// The files of a directory as a walk finds them.
fn found(dir: &FilePath, files: &[(&str, u64)]) -> Vec<FoundFile> {
    files
        .iter()
        .map(|(name, size)| {
            let sidecar = sidecar_of(dir, &name.as_bytes().to_vec());
            FoundFile {
                name: name.as_bytes().to_vec(),
                size_bytes: *size,
                sidecar_exists: files.iter().any(|(other, _)| dir.join(&path(other)) == sidecar),
            }
        })
        .collect()
}

#[test]
fn lists_video_and_matching_telemetry() {
    let dir = path("/tmp/recordings");
    let files = found(
        &dir,
        &[
            ("demo.mp4", "video".len() as u64),
            ("demo.telemetry.jsonl", "{}\n".len() as u64),
            ("ignore.txt", "text".len() as u64),
        ],
    );

    let result = list_recordings(dir, files);

    assert_eq!(result.recordings.len(), 1);
    assert_eq!(result.recordings[0].size_bytes, 5);
    assert!(result.recordings[0].telemetry_path.is_some());
}

#[test]
fn the_last_name_is_listed_first() {
    let dir = path("/v");
    let files = found(&dir, &[("b.mp4", 2), ("a.mp4", 1), ("ab.mp4", 3), ("é.mp4", 4), ("b", 5)]);
    let result = list_recordings(dir, files);
    assert_eq!(result.dir, path("/v"));
    let paths: Vec<String> = result.recordings.iter().map(|entry| entry.path.display()).collect();
    assert_eq!(paths, ["/v/é.mp4", "/v/b.mp4", "/v/ab.mp4", "/v/a.mp4"]);
    let sizes: Vec<u64> = result.recordings.iter().map(|entry| entry.size_bytes).collect();
    assert_eq!(sizes, [4, 2, 3, 1]);
    assert!(result.recordings.iter().all(|entry| entry.telemetry_path.is_none()));
}

#[test]
fn listings_are_ordered_as_paths_are() {
    let names = ["a.mp4", "a b.mp4", "A.mp4", "a.b.mp4", "aa.mp4", "_.mp4", "zz.mp4", "10.mp4"];
    let mut expected: Vec<std::path::PathBuf> =
        names.iter().map(|name| std::path::Path::new("/v").join(name)).collect();
    expected.sort();
    expected.reverse();
    let files: Vec<(&str, u64)> = names.iter().map(|name| (*name, 0)).collect();
    let listed: Vec<std::path::PathBuf> = list_recordings(path("/v"), found(&path("/v"), &files))
        .recordings
        .iter()
        .map(|entry| std::path::PathBuf::from(entry.path.display()))
        .collect();
    assert_eq!(listed, expected);
}

#[test]
fn an_empty_directory_has_no_recordings() {
    assert!(list_recordings(path("/v"), vec![]).recordings.is_empty());
}

#[test]
fn only_lower_case_videos_are_recordings() {
    let dir = path("/v");
    for (name, expected) in [
        ("demo.mp4", true),
        ("demo.MP4", false),
        (".mp4", false),
        ("a.mp4.mp4", true),
        ("mp4", false),
        ("demo.mp4.part", false),
    ] {
        assert_eq!(is_recording(&dir, &name.as_bytes().to_vec()), expected, "{name}");
    }
    assert!(!is_recording(&dir, &b"demo.mp\xff".to_vec()));
    assert!(is_recording(&dir, &b"\xff.mp4".to_vec()));
}

#[test]
fn what_is_recorded_is_listed() {
    let dir = path("/v");
    let now = Timestamp::now();
    for name in [Some("demo"), Some("a.b.mp4"), Some(" x.avi "), Some(".hidden"), None] {
        let video = build_output_path(&dir, name, now).unwrap();
        let file = video.as_bytes()[3..].to_vec();
        assert_eq!(dir.join(&FilePath::from_bytes(file.clone())), video);
        assert!(is_recording(&dir, &file), "{name:?}");
    }
    // A listing knows the extension in lower case only.
    assert!(!is_recording(&dir, &b"DEMO.MP4".to_vec()));
}

#[test]
fn inspection_asks_for_everything() {
    let args = inspection_args(&path("/v/demo.mp4"));
    let words: Vec<&str> =
        args.iter().map(|arg| std::str::from_utf8(arg.as_bytes()).unwrap()).collect();
    assert_eq!(
        words,
        ["-v", "error", "-show_format", "-show_streams", "-of", "json", "/v/demo.mp4"]
    );
}

fn printed(success: bool, stdout: &[u8], stderr: &[u8]) -> Result<ProcessOutput, String> {
    Ok(ProcessOutput {
        success,
        status: String::new(),
        stdout: stdout.to_vec(),
        stderr: stderr.to_vec(),
    })
}

#[test]
fn an_inspection_tells_what_was_printed() {
    let output = printed(true, b"{\"format\": {\"nb_streams\": 1}}\n", b"");
    let inspection = inspect_recording(path("/v/demo.mp4"), 5, output, true).unwrap();
    assert_eq!(inspection.path, path("/v/demo.mp4"));
    assert_eq!(inspection.size_bytes, 5);
    assert_eq!(inspection.telemetry_path, Some(path("/v/demo.telemetry.jsonl")));
    assert_eq!(inspection.probe["format"]["nb_streams"], serde_json::Value::from(1));
    let output = printed(true, b"null", b"");
    let inspection = inspect_recording(path("/v/demo.mp4"), 0, output, false).unwrap();
    assert_eq!(inspection.telemetry_path, None);
    assert!(inspection.probe.is_null());
}

#[test]
fn a_failed_inspection_tells_why() {
    let inspect = |output| inspect_recording(path("/v/demo.mp4"), 5, output, false).unwrap_err();
    assert_eq!(
        inspect(printed(false, b"{}", b" moov atom not found\xff\n")),
        error("ffprobe failed: moov atom not found\u{fffd}")
    );
    assert_eq!(
        inspect(printed(true, b"{", b"")),
        error("invalid ffprobe JSON: EOF while parsing an object at line 1 column 1")
    );
    assert_eq!(
        inspect(Err("No such file or directory".to_string())),
        error("No such file or directory")
    );
}

#[test]
fn an_outcome_depends_on_what_was_parsed() {
    let value = serde_json::Value::from("x");
    assert_eq!(probe_outcome(true, &vec![], Ok(value.clone())), Ok(value.clone()));
    assert_eq!(
        probe_outcome(true, &vec![], Err("why".to_string())),
        Err(error("invalid ffprobe JSON: why"))
    );
    assert_eq!(
        probe_outcome(false, &b"broken".to_vec(), Ok(value)),
        Err(error("ffprobe failed: broken"))
    );
}
