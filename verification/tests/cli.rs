use std::path::PathBuf;

use hyprrec::cli::{Cli, CliRefusal, Matched, VERSION};
use hyprrec::options::{Quality, TelemetryKind};
use hyprrec::path::FilePath;

fn try_parse_from(words: &[&str]) -> Result<Cli, CliRefusal> {
    Cli::try_parse_from(words.iter().map(PathBuf::from).collect())
}

#[test]
fn cli_accepts_the_supported_flags() {
    let cli = try_parse_from(&[
        "hyprrec",
        "--region",
        "--audio",
        "--dir",
        "/tmp/recordings",
        "--name",
        "demo",
        "--quality",
        "ultra",
        "--telemetry",
        "click,scroll,workspace-changed",
    ])
    .unwrap();

    assert!(cli.region);
    assert!(cli.audio);
    assert_eq!(cli.dir, Some(FilePath::from_text("/tmp/recordings")));
    assert_eq!(cli.name.as_deref(), Some("demo"));
    assert_eq!(cli.quality, Quality::Ultra);
    assert_eq!(
        cli.telemetry,
        [
            TelemetryKind::Click,
            TelemetryKind::Scroll,
            TelemetryKind::WorkspaceChanged,
        ]
    );
}

#[test]
fn high_quality_is_the_default() {
    let cli = try_parse_from(&["hyprrec"]).unwrap();
    assert_eq!(cli.quality, Quality::High);
}

#[test]
fn cli_accepts_compact_quality() {
    let cli = try_parse_from(&["hyprrec", "--quality", "compact"]).unwrap();
    assert_eq!(cli.quality, Quality::Compact);
}

#[test]
fn nothing_is_switched_on_by_itself() {
    let cli = try_parse_from(&["hyprrec"]).unwrap();
    assert!(!cli.region);
    assert!(!cli.audio);
    assert_eq!(cli.dir, None);
    assert_eq!(cli.name, None);
    assert!(cli.telemetry.is_empty());
}

#[test]
fn telemetry_can_be_repeated() {
    let cli = try_parse_from(&[
        "hyprrec",
        "--telemetry",
        "keyboard-input",
        "--telemetry=window-focused,click",
    ])
    .unwrap();
    assert_eq!(
        cli.telemetry,
        [
            TelemetryKind::KeyboardInput,
            TelemetryKind::WindowFocused,
            TelemetryKind::Click,
        ]
    );
}

#[test]
fn unknown_words_are_refused() {
    for words in [
        &["hyprrec", "--quality", "best"][..],
        &["hyprrec", "--quality", "High"],
        &["hyprrec", "--telemetry", "click,typing"],
        &["hyprrec", "--dir", ""],
        &["hyprrec", "--fps", "30"],
        &["hyprrec", "demo"],
        &["hyprrec", "--name"],
        &["hyprrec", "--region", "--region"],
    ] {
        let refusal = try_parse_from(words).unwrap_err();
        assert!(refusal.use_stderr, "{words:?}");
        assert_eq!(refusal.exit_code, 2);
        assert!(refusal.message.starts_with("error: "), "{}", refusal.message);
    }
    let refusal = try_parse_from(&["hyprrec", "--quality", "best"]).unwrap_err();
    assert!(refusal.message.contains("invalid value 'best' for '--quality <QUALITY>'"));
    assert!(refusal.message.contains("[possible values: high, ultra, compact]"));
}

#[test]
fn an_empty_name_is_left_to_the_naming_rules() {
    let cli = try_parse_from(&["hyprrec", "--name", ""]).unwrap();
    assert_eq!(cli.name.as_deref(), Some(""));
}

#[test]
fn help_and_version_are_no_mistakes() {
    let version = try_parse_from(&["hyprrec", "--version"]).unwrap_err();
    assert!(!version.use_stderr);
    assert_eq!(version.exit_code, 0);
    assert_eq!(version.message, format!("hyprrec {VERSION}\n"));

    let help = try_parse_from(&["hyprrec", "--help"]).unwrap_err();
    assert!(!help.use_stderr);
    assert_eq!(help.exit_code, 0);
    for line in [
        "High-quality screen recording for Hyprland",
        "--region",
        "Interactively select a region with slurp",
        "--audio",
        "Record the default PipeWire audio source",
        "--dir <PATH>",
        "Directory in which to save recordings [default: $XDG_VIDEOS_DIR/hyprrec]",
        "--name <NAME>",
        "Output basename; .mp4 is added automatically",
        "--quality <QUALITY>",
        "[default: high]",
        "[possible values: high, ultra, compact]",
        "--telemetry <CATEGORY>",
        "Press Ctrl+C to stop recording and finalize the video.",
    ] {
        assert!(help.message.contains(line), "{line}: {}", help.message);
    }
}

#[test]
fn a_directory_keeps_its_bytes() {
    let odd = PathBuf::from("/tmp/r\u{e9}cordings").join("x");
    let cli = Cli::try_parse_from(vec![
        PathBuf::from("hyprrec"),
        PathBuf::from("--dir"),
        odd.clone(),
    ])
    .unwrap();
    assert_eq!(
        cli.dir.unwrap().as_bytes().as_slice(),
        odd.as_os_str().as_encoded_bytes()
    );
}

fn matched() -> Matched {
    Matched {
        region: true,
        audio: false,
        dir: Some(PathBuf::from("/v")),
        name: Some("demo".to_string()),
        quality: Some("compact".to_string()),
        telemetry: Some(vec!["scroll".to_string(), "click".to_string()]),
    }
}

#[test]
fn words_are_understood() {
    let cli = Cli::from_matched(matched()).unwrap();
    assert!(cli.region && !cli.audio);
    assert_eq!(cli.dir, Some(FilePath::from_text("/v")));
    assert_eq!(cli.name.as_deref(), Some("demo"));
    assert_eq!(cli.quality, Quality::Compact);
    assert_eq!(cli.telemetry, [TelemetryKind::Scroll, TelemetryKind::Click]);
}

#[test]
fn words_that_ask_for_nothing_are_not_understood() {
    assert!(Cli::from_matched(Matched { quality: None, ..matched() }).is_none());
    assert!(Cli::from_matched(Matched { quality: Some("best".to_string()), ..matched() }).is_none());
    let typing = Some(vec!["click".to_string(), "typing".to_string()]);
    assert!(Cli::from_matched(Matched { telemetry: typing, ..matched() }).is_none());
    let none = Cli::from_matched(Matched { telemetry: None, ..matched() }).unwrap();
    assert!(none.telemetry.is_empty());
}

#[test]
fn every_word_asks_for_its_own_option() {
    for quality in [Quality::High, Quality::Ultra, Quality::Compact] {
        assert_eq!(Quality::from_arg(quality.as_arg()), Some(quality));
    }
    for kind in [
        TelemetryKind::Click,
        TelemetryKind::Scroll,
        TelemetryKind::KeyboardInput,
        TelemetryKind::WorkspaceChanged,
        TelemetryKind::WindowFocused,
    ] {
        assert_eq!(TelemetryKind::from_arg(kind.as_arg()), Some(kind));
    }
    assert_eq!(Quality::Ultra.as_arg(), "ultra");
    assert_eq!(TelemetryKind::KeyboardInput.as_arg(), "keyboard-input");
    assert_eq!(Quality::from_arg("HIGH"), None);
    assert_eq!(TelemetryKind::from_arg(""), None);
    assert_eq!(Quality::default(), Quality::High);
}
