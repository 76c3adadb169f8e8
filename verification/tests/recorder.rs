use hyprrec::cli::Cli;
use hyprrec::clock::Timestamp;
use hyprrec::command::{Argument, ProcessOutput};
use hyprrec::error::AppError;
use hyprrec::options::{Quality, TelemetryKind};
use hyprrec::path::FilePath;
use hyprrec::places::{command_candidates, ensure_command_available, FileStat, UserDirs};
use hyprrec::recorder::{
    check_surroundings, exit_report, monitor_listing, parse_focused_output, recorder_args,
    select_region, validate_session, CaptureTarget, Monitor, Preparation, RecorderExit,
    Surroundings,
};

fn path(text: &str) -> FilePath {
    FilePath::from_text(text)
}

fn args_as_strings(args: &[Argument]) -> Vec<&str> {
    args.iter().map(|arg| std::str::from_utf8(arg.as_bytes()).unwrap()).collect()
}

fn message(words: &str) -> AppError {
    AppError::Message(words.to_string())
}

fn monitors(json: &str) -> Result<Vec<Monitor>, String> {
    let listing: serde_json::Value =
        serde_json::from_str(json).map_err(|error| error.to_string())?;
    let listing = listing.as_array().ok_or("expected a sequence")?;
    let mut monitors = Vec::new();
    for monitor in listing {
        let name = monitor["name"].as_str().ok_or("missing field `name`")?;
        let focused = monitor["focused"].as_bool().ok_or("missing field `focused`")?;
        let disabled = match monitor.get("disabled") {
            Some(value) => value.as_bool().ok_or("expected a boolean")?,
            None => false,
        };
        monitors.push(Monitor { name: name.to_string(), focused, disabled });
    }
    Ok(monitors)
}

#[test]
fn focused_active_monitor_is_parsed() {
    let json = r#"[
        {"name":"DP-1","focused":false,"disabled":false},
        {"name":"eDP-1","focused":true,"disabled":false}
    ]"#;
    assert_eq!(parse_focused_output(monitors(json)).unwrap(), "eDP-1");
}

#[test]
fn disabled_or_missing_focus_is_rejected() {
    let json = r#"[{"name":"eDP-1","focused":true,"disabled":true}]"#;
    assert!(parse_focused_output(monitors(json)).is_err());
    assert!(parse_focused_output(monitors("[]")).is_err());
}

#[test]
fn output_recording_uses_high_quality_profile() {
    let args = recorder_args(
        &path("/videos/demo.mp4"),
        &CaptureTarget::Output("eDP-1".into()),
        false,
        Quality::High,
    );

    assert_eq!(
        args_as_strings(&args),
        [
            "-f",
            "/videos/demo.mp4",
            "-c",
            "libx264",
            "-r",
            "60",
            "-x",
            "yuv420p",
            "-p",
            "crf=18",
            "-p",
            "preset=veryfast",
            "-o",
            "eDP-1",
        ]
    );
}

#[test]
fn region_and_audio_arguments_are_added() {
    let args = recorder_args(
        &path("demo.mp4"),
        &CaptureTarget::Geometry("10,20 800x600".into()),
        true,
        Quality::High,
    );
    let args = args_as_strings(&args);

    assert!(args.windows(2).any(|pair| pair == ["-g", "10,20 800x600"]));
    assert!(args.contains(&"--audio-backend=pipewire"));
    assert!(args.contains(&"--audio"));
    assert!(!args.contains(&"-o"));
}

#[test]
fn ultra_profile_preserves_full_chroma_detail() {
    let args = recorder_args(
        &path("demo.mp4"),
        &CaptureTarget::Output("eDP-1".into()),
        false,
        Quality::Ultra,
    );
    let args = args_as_strings(&args);

    assert!(args.windows(2).any(|pair| pair == ["-x", "yuv444p"]));
    assert!(args.windows(2).any(|pair| pair == ["-p", "crf=10"]));
    assert!(args.windows(2).any(|pair| pair == ["-r", "60"]));
}

#[test]
fn compact_profile_uses_ui_tuned_hevc() {
    let args = recorder_args(
        &path("demo.mp4"),
        &CaptureTarget::Output("eDP-1".into()),
        false,
        Quality::Compact,
    );
    let args = args_as_strings(&args);

    assert!(args.windows(2).any(|pair| pair == ["-c", "libx265"]));
    assert!(args.windows(2).any(|pair| pair == ["-x", "yuv444p"]));
    assert!(args.windows(2).any(|pair| pair == ["-p", "crf=12"]));
    assert!(args.windows(2).any(|pair| pair == ["-p", "preset=ultrafast"]));
    assert!(args
        .windows(2)
        .any(|pair| pair == ["-p", "x265-params=psy-rd=0:cbqpoffs=0:crqpoffs=0"]));
}

#[test]
fn every_profile_records_sixty_frames() {
    for quality in [Quality::High, Quality::Ultra, Quality::Compact] {
        let args =
            recorder_args(&path("a.mp4"), &CaptureTarget::Output("X".into()), true, quality);
        let args = args_as_strings(&args);
        assert!(args.windows(2).any(|pair| pair == ["-r", "60"]));
        assert_eq!(args[args.len() - 2..], ["--audio-backend=pipewire", "--audio"]);
    }
}

#[test]
fn the_first_focused_monitor_counts() {
    let json = r#"[
        {"name":"A","focused":true,"disabled":true},
        {"name":"B","focused":true},
        {"name":"C","focused":true}
    ]"#;
    assert_eq!(parse_focused_output(monitors(json)).unwrap(), "B");
    assert_eq!(
        parse_focused_output(Ok(vec![])),
        Err(message("Hyprland did not report a focused active monitor"))
    );
    assert_eq!(
        parse_focused_output(Err("expected value at line 1 column 1".to_string())),
        Err(message("could not parse Hyprland monitor data: expected value at line 1 column 1"))
    );
}

fn printed(success: bool, stdout: &[u8]) -> Result<ProcessOutput, String> {
    Ok(ProcessOutput {
        success,
        status: "exit status: 1".to_string(),
        stdout: stdout.to_vec(),
        stderr: vec![],
    })
}

#[test]
fn monitor_listing_is_text() {
    assert_eq!(monitor_listing(printed(true, b"[]\n")).unwrap(), "[]\n");
    assert_eq!(monitor_listing(printed(true, "é".as_bytes())).unwrap(), "é");
    assert_eq!(
        monitor_listing(printed(true, b"[\xff]")),
        Err(message(
            "hyprctl returned invalid UTF-8: invalid utf-8 sequence of 1 bytes from index 1"
        ))
    );
    assert_eq!(
        monitor_listing(printed(false, b"[]")),
        Err(message("hyprctl could not list monitors (exit status exit status: 1)"))
    );
    assert_eq!(
        monitor_listing(Err("No such file or directory".to_string())),
        Err(message("could not run hyprctl: No such file or directory"))
    );
}

#[test]
fn a_selection_is_trimmed_or_cancelled() {
    assert_eq!(select_region(printed(true, b"10,20 800x600\n")).unwrap(), "10,20 800x600");
    assert_eq!(select_region(printed(true, b" \n")), Err(AppError::Cancelled));
    assert_eq!(select_region(printed(false, b"10,20 800x600")), Err(AppError::Cancelled));
    assert_eq!(
        select_region(printed(true, b"\x80")),
        Err(message("slurp returned invalid UTF-8: invalid utf-8 sequence of 1 bytes from index 0"))
    );
    assert_eq!(
        select_region(Err("denied".to_string())),
        Err(message("could not start slurp: denied"))
    );
}

#[test]
fn a_cancelled_selection_is_no_failure() {
    assert_eq!(
        exit_report(&AppError::Cancelled),
        ("hyprrec: region selection cancelled".to_string(), true)
    );
    assert_eq!(exit_report(&message("no")), ("hyprrec: no".to_string(), false));
}

#[test]
fn a_session_needs_wayland_and_hyprland() {
    assert_eq!(validate_session(true, true), Ok(()));
    let wayland =
        message("WAYLAND_DISPLAY is not set; hyprrec must run inside a Wayland session");
    assert_eq!(validate_session(false, true), Err(AppError::Message(wayland.to_text())));
    assert_eq!(validate_session(false, false), Err(wayland));
    assert_eq!(
        validate_session(true, false),
        Err(message("HYPRLAND_INSTANCE_SIGNATURE is not set; hyprrec must run inside Hyprland"))
    );
}

#[test]
fn commands_are_looked_for_in_order() {
    let list = b"/usr/bin::/opt/x/".to_vec();
    assert_eq!(
        command_candidates(Some(&list), "slurp").unwrap(),
        [path("/usr/bin/slurp"), path("slurp"), path("/opt/x/slurp")]
    );
    assert_eq!(command_candidates(Some(&vec![]), "slurp").unwrap(), [path("slurp")]);
    assert_eq!(command_candidates(None, "slurp"), Err(message("PATH is not set")));
}

#[test]
fn search_paths_split_as_the_system_splits_them() {
    for list in ["", ":", "/a", "/a:/b", "/a::b:", ":/a"] {
        let expected: Vec<Vec<u8>> = std::path::PathBuf::from(list)
            .as_os_str()
            .as_encoded_bytes()
            .split(|byte| *byte == b':')
            .map(|directory| {
                let directory = std::str::from_utf8(directory).unwrap();
                let file = std::path::Path::new(directory).join("cmd");
                file.as_os_str().as_encoded_bytes().to_vec()
            })
            .collect();
        let found: Vec<Vec<u8>> = command_candidates(Some(&list.as_bytes().to_vec()), "cmd")
            .unwrap()
            .iter()
            .map(|file| file.as_bytes().clone())
            .collect();
        assert_eq!(found, expected, "{list}");
    }
}

fn stat(is_file: bool, mode: u32) -> Option<FileStat> {
    Some(FileStat { is_file, mode })
}

#[test]
fn a_command_is_a_file_that_can_be_run() {
    for bit in [0o100, 0o010, 0o001] {
        let found = vec![None, stat(true, 0o644), stat(true, 0o600 | bit)];
        assert_eq!(ensure_command_available("slurp", &found), Ok(()));
    }
    for found in [vec![], vec![None], vec![stat(true, 0o666)], vec![stat(false, 0o755)]] {
        assert_eq!(
            ensure_command_available("slurp", &found),
            Err(message(
                "required command `slurp` was not found in PATH; run hyprrec through shell.nix"
            ))
        );
    }
}

fn ready() -> Surroundings {
    Surroundings {
        wayland_display: true,
        hyprland_signature: true,
        search_path: true,
        wf_recorder: vec![stat(true, 0o755)],
        hyprctl: vec![stat(true, 0o755)],
        slurp: vec![stat(true, 0o755)],
    }
}

fn missing(command: &str) -> Result<(), AppError> {
    Err(AppError::Message(format!(
        "required command `{command}` was not found in PATH; run hyprrec through shell.nix"
    )))
}

#[test]
fn surroundings_are_checked_in_order() {
    assert_eq!(check_surroundings(&ready(), true), Ok(()));
    let no_path = Surroundings { search_path: false, wf_recorder: vec![], ..ready() };
    assert_eq!(check_surroundings(&no_path, true), Err(message("PATH is not set")));
    let no_recorder = Surroundings { wf_recorder: vec![], hyprctl: vec![], ..ready() };
    assert_eq!(check_surroundings(&no_recorder, true), missing("wf-recorder"));
    let no_control = Surroundings { hyprctl: vec![], slurp: vec![], ..ready() };
    assert_eq!(check_surroundings(&no_control, true), missing("hyprctl"));
    let no_selection = Surroundings { slurp: vec![], ..ready() };
    assert_eq!(check_surroundings(&no_selection, true), missing("slurp"));
    assert_eq!(check_surroundings(&no_selection, false), Ok(()));
}

fn options(telemetry: Vec<TelemetryKind>) -> Cli {
    Cli {
        region: true,
        audio: true,
        dir: Some(path("/v")),
        name: Some("demo".to_string()),
        quality: Quality::Ultra,
        telemetry,
    }
}

fn now() -> Timestamp {
    Timestamp::new(2026, 7, 10, 9, 8, 7, 0).unwrap()
}

#[test]
fn a_recording_runs_from_its_options_to_its_report() {
    let preparation =
        Preparation::begin(options(vec![TelemetryKind::Click]), &ready(), None).unwrap();
    assert_eq!(preparation.directory(), &path("/v"));
    let placement = preparation.directory_made(Ok(()), now()).unwrap();
    assert_eq!(placement.destination(), &path("/v/demo.mp4"));
    assert_eq!(placement.sidecar(), Some(path("/v/demo.telemetry.jsonl")));
    let targeting = placement.confirm_free(false, false).unwrap();
    assert!(targeting.wants_region());
    let recording = targeting.aim("10,20 800x600".to_string());
    assert_eq!(
        args_as_strings(recording.arguments()),
        args_as_strings(&recorder_args(
            &path("/v/demo.mp4"),
            &CaptureTarget::Geometry("10,20 800x600".to_string()),
            true,
            Quality::Ultra,
        ))
    );
    assert_eq!(recording.destination(), &path("/v/demo.mp4"));
    assert_eq!(recording.telemetry(), &vec![TelemetryKind::Click]);
    assert_eq!(recording.announcement(), "Recording to /v/demo.mp4");
    assert_eq!(
        recording.telemetry_failed("denied"),
        message("could not start telemetry: denied")
    );
    assert_eq!(
        recording.handler_failed("twice"),
        message("could not install the Ctrl+C handler: twice")
    );
    let saved = Ok(RecorderExit { success: true, status: "exit status: 0".to_string() });
    assert!(recording.succeeded(&saved));
    assert_eq!(recording.finish(saved).unwrap(), "Saved recording to /v/demo.mp4");
    let broken = Ok(RecorderExit { success: false, status: "exit status: 1".to_string() });
    assert!(!recording.succeeded(&broken));
    assert_eq!(
        recording.finish(broken),
        Err(message(
            "wf-recorder exited with exit status: 1; a partial file may remain at /v/demo.mp4"
        ))
    );
    assert!(!recording.succeeded(&Err("denied".to_string())));
    assert_eq!(
        recording.finish(Err("denied".to_string())),
        Err(message("could not start wf-recorder: denied"))
    );
}

#[test]
fn the_focused_monitor_is_recorded_without_a_region() {
    let user = UserDirs { home_dir: path("/home/u"), video_dir: None };
    let plain = Cli { region: false, dir: None, name: None, ..options(vec![]) };
    let preparation = Preparation::begin(plain, &ready(), Some(&user)).unwrap();
    assert_eq!(preparation.directory(), &path("/home/u/Videos/hyprrec"));
    let placement = preparation.directory_made(Ok(()), now()).unwrap();
    assert_eq!(
        placement.destination(),
        &path("/home/u/Videos/hyprrec/hyprrec-20260710-090807.mp4")
    );
    assert_eq!(placement.sidecar(), None);
    let targeting = placement.confirm_free(false, true).unwrap();
    assert!(!targeting.wants_region());
    let recording = targeting.aim("eDP-1".to_string());
    assert!(args_as_strings(recording.arguments()).windows(2).any(|pair| pair == ["-o", "eDP-1"]));
    assert!(recording.telemetry().is_empty());
}

#[test]
fn nothing_is_overwritten() {
    let placed = |telemetry: Vec<TelemetryKind>| {
        Preparation::begin(options(telemetry), &ready(), None)
            .unwrap()
            .directory_made(Ok(()), now())
            .unwrap()
    };
    let refused = |result: Result<_, AppError>| -> String {
        match result {
            Ok(_) => panic!("accepted"),
            Err(error) => AppError::to_text(&error),
        }
    };
    assert_eq!(
        refused(placed(vec![]).confirm_free(true, false).map(|_| ())),
        "refusing to overwrite existing recording: /v/demo.mp4"
    );
    assert_eq!(
        refused(placed(vec![TelemetryKind::Click]).confirm_free(false, true).map(|_| ())),
        "refusing to overwrite existing recording: /v/demo.telemetry.jsonl"
    );
}

#[test]
fn a_recording_can_fail_before_it_begins() {
    let error = Preparation::begin(
        Cli { dir: None, ..options(vec![]) },
        &ready(),
        None,
    )
    .unwrap_err();
    assert_eq!(error, message("could not determine the current user's home directory"));
    let error =
        Preparation::begin(options(vec![]), &Surroundings { slurp: vec![], ..ready() }, None)
            .unwrap_err();
    assert_eq!(Err(error), missing("slurp"));
    let error = Preparation::begin(options(vec![]), &ready(), None)
        .unwrap()
        .directory_made(Err("read-only".to_string()), now())
        .unwrap_err();
    assert_eq!(error, message("could not create output directory /v: read-only"));
    let unnamed = Cli { name: Some(" ".to_string()), ..options(vec![]) };
    let error = Preparation::begin(unnamed, &ready(), None)
        .unwrap()
        .directory_made(Ok(()), now())
        .unwrap_err();
    assert_eq!(error, message("--name must contain a non-empty filename"));
}

#[test]
fn errors_tell_their_cause() {
    assert_eq!(AppError::from_io("denied".to_string()), message("denied"));
    assert_eq!(
        AppError::from_json("EOF").to_text(),
        "could not parse Hyprland monitor data: EOF"
    );
    assert_eq!(AppError::Cancelled.to_text(), "region selection cancelled");
}
