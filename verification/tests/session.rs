use std::path::PathBuf;

use hyprrec::cli::Cli;
use hyprrec::clock::Timestamp;
use hyprrec::error::{io_error, McpError};
use hyprrec::launch::{Launch, Request};
use hyprrec::naming::{build_output_path, telemetry_path};
use hyprrec::options::{Quality, TelemetryKind};
use hyprrec::path::FilePath;
use hyprrec::places::UserDirs;
use hyprrec::session::{
    finish_info, new_session_id, read_diagnostic_tail, CaptureTarget, ExitReport, SessionInfo,
    StartParams, MAX_DIAGNOSTIC_BYTES,
};
use hyprrec::slot::{process_group, HyprrecMcp, StopStep, StoppingSession, WaitStep, STOP_TIMEOUT_MS};

fn path(text: &str) -> FilePath {
    FilePath::from_text(text)
}

fn error(words: &str) -> McpError {
    McpError(words.to_string())
}

fn params(name: Option<&str>) -> StartParams {
    StartParams {
        dir: Some(path("/v")),
        name: name.map(str::to_string),
        quality: Quality::Compact,
        audio: true,
        target: CaptureTarget::Region,
        telemetry: vec![TelemetryKind::Click, TelemetryKind::WindowFocused],
    }
}

fn plain() -> StartParams {
    StartParams {
        dir: Some(path("/v")),
        name: Some("demo".to_string()),
        quality: Quality::default(),
        audio: false,
        target: CaptureTarget::default(),
        telemetry: vec![],
    }
}

fn now() -> Timestamp {
    Timestamp::new(2026, 7, 10, 9, 8, 7, 0).unwrap()
}

fn launch(params: StartParams, id: &str) -> Launch {
    Request::accept(params, None)
        .unwrap()
        .directory_made(Ok(()), now())
        .unwrap()
        .confirm_free(false, false, id.to_string())
        .unwrap()
}

fn words(launch: &Launch) -> Vec<&str> {
    launch
        .arguments()
        .iter()
        .map(|argument| std::str::from_utf8(argument.as_bytes()).unwrap())
        .collect()
}

#[test]
fn identifiers_are_random_and_well_formed() {
    let id = new_session_id();
    assert_ne!(id, new_session_id());
    assert_eq!(id.len(), 36);
    let digits = id.strip_prefix("rec_").unwrap();
    assert!(digits.chars().all(|c| c.is_ascii_digit() || ('a'..='f').contains(&c)));
    assert_eq!(&digits[12..13], "4");
    assert!(["8", "9", "a", "b"].contains(&&digits[16..17]));
}

#[test]
fn a_request_becomes_a_command() {
    let launch = launch(params(Some(" demo.mp4 ")), "rec_1");
    assert_eq!(
        words(&launch),
        [
            "--dir",
            "/v",
            "--name",
            "demo",
            "--quality",
            "compact",
            "--audio",
            "--region",
            "--telemetry",
            "click,window-focused",
        ]
    );
    assert_eq!(launch.diagnostic_log(), &path("/v/.demo.rec_1.log"));
}

#[test]
fn the_announced_video_is_the_recorded_one() {
    for (requested, video) in [
        ("DEMO.MP4", "/v/DEMO.MP4"),
        ("demo.mp4.mp4", "/v/demo.mp4"),
        ("demo .mp4", "/v/demo.mp4"),
        (" demo.mp4", "/v/demo.mp4"),
        ("demo", "/v/demo.mp4"),
        ("a.b", "/v/a.b.mp4"),
    ] {
        let placed = Request::accept(params(Some(requested)), None)
            .unwrap()
            .directory_made(Ok(()), now())
            .unwrap();
        assert_eq!(placed.video(), &path(video), "{requested}");
        assert_eq!(placed.sidecar(), Some(telemetry_path(&path(video))));
        let launch = placed.confirm_free(false, false, "rec_1".to_string()).unwrap();
        let name = words(&launch)[3].to_string();
        assert_eq!(build_output_path(&path("/v"), Some(&name), now()).unwrap(), path(video));
        let info = launch.started(&mut HyprrecMcp::new(), Some(42)).unwrap();
        assert_eq!(info.video_path, path(video));
        assert_eq!(info.telemetry_path, Some(telemetry_path(&path(video))));
    }
}

#[test]
fn a_name_that_the_recorder_refuses_is_announced_as_it_stands() {
    for (requested, name, video) in [(". .mp4", ". ", "/v/. .mp4"), (".. .mp4", ".. ", "/v/.. .mp4")] {
        let placed = Request::accept(params(Some(requested)), None)
            .unwrap()
            .directory_made(Ok(()), now())
            .unwrap();
        assert_eq!(placed.video(), &path(video));
        assert!(build_output_path(&path("/v"), Some(name), now()).is_err());
    }
}

#[test]
fn a_plain_request_asks_for_little() {
    let launch = launch(plain(), "rec_1");
    assert_eq!(words(&launch), ["--dir", "/v", "--name", "demo", "--quality", "high"]);
}

#[test]
fn the_recorder_understands_the_command_of_a_request() {
    let launch = launch(params(Some("demo")), "rec_1");
    let arguments: Vec<PathBuf> =
        ["hyprrec"].into_iter().chain(words(&launch)).map(PathBuf::from).collect();
    let cli = Cli::try_parse_from(arguments).unwrap();
    assert!(cli.region && cli.audio);
    assert_eq!(cli.dir, Some(path("/v")));
    assert_eq!(cli.name.as_deref(), Some("demo"));
    assert_eq!(cli.quality, Quality::Compact);
    assert_eq!(cli.telemetry, [TelemetryKind::Click, TelemetryKind::WindowFocused]);
}

#[test]
fn a_request_without_a_place_goes_to_the_default_one() {
    let user = UserDirs { home_dir: path("/home/u"), video_dir: None };
    let request =
        Request::accept(StartParams { dir: None, name: None, ..plain() }, Some(&user)).unwrap();
    assert_eq!(request.directory(), &path("/home/u/Videos/hyprrec"));
    let placed = request.directory_made(Ok(()), now()).unwrap();
    assert_eq!(placed.video(), &path("/home/u/Videos/hyprrec/hyprrec-20260710-090807.mp4"));
    assert_eq!(placed.sidecar(), None);
    assert_eq!(
        Request::accept(StartParams { dir: None, ..plain() }, None).unwrap_err(),
        error("could not find home directory")
    );
}

#[test]
fn a_request_can_fail_before_it_starts() {
    let request = |name: &str| Request::accept(params(Some(name)), None).unwrap();
    assert_eq!(
        request("demo").directory_made(Err("read-only".to_string()), now()).unwrap_err(),
        error("read-only")
    );
    assert_eq!(
        request("a/b").directory_made(Ok(()), now()).unwrap_err(),
        error("name must be a non-empty basename")
    );
    let placed = |name: &str| request(name).directory_made(Ok(()), now()).unwrap();
    assert_eq!(placed("demo").sidecar(), Some(path("/v/demo.telemetry.jsonl")));
    assert_eq!(
        placed("demo").confirm_free(true, true, "rec_1".to_string()).unwrap_err(),
        error("refusing to overwrite /v/demo.mp4")
    );
    assert_eq!(
        placed("demo").confirm_free(false, true, "rec_1".to_string()).unwrap_err(),
        error("telemetry sidecar already exists")
    );
}

#[test]
fn a_started_session_is_told() {
    let mut slot = HyprrecMcp::new();
    assert!(!slot.is_occupied());
    let info = launch(params(Some("demo")), "rec_1")
        .started_at(&mut slot, Some(42), "2026-07-10T09:08:07+00:00".to_string())
        .unwrap();
    assert!(slot.is_occupied());
    assert_eq!(
        info,
        SessionInfo {
            session_id: "rec_1".to_string(),
            state: "recording",
            pid: 42,
            video_path: path("/v/demo.mp4"),
            telemetry_path: Some(path("/v/demo.telemetry.jsonl")),
            started_at: "2026-07-10T09:08:07+00:00".to_string(),
            quality: Quality::Compact,
            audio: true,
            target: CaptureTarget::Region,
            exit_code: None,
            error: None,
            diagnostic_log_path: Some(path("/v/.demo.rec_1.log")),
        }
    );
    assert_eq!(slot.diagnostic_log(), Some(&path("/v/.demo.rec_1.log")));
}

#[test]
fn a_session_starts_at_the_present_time() {
    let mut slot = HyprrecMcp::new();
    let info = launch(plain(), "rec_1").started(&mut slot, Some(42)).unwrap();
    let time = info.started_at.strip_suffix("+00:00").unwrap();
    assert_eq!(&time[4..5], "-");
    assert_eq!(&time[10..11], "T");
    assert!(time.as_bytes().iter().all(|byte| byte.is_ascii_digit() || b"-:.T".contains(byte)));
    let fraction = time[19..].strip_prefix('.').unwrap_or("");
    assert!([0, 3, 6, 9].contains(&fraction.len()));
    assert_eq!(info.telemetry_path, None);
}

#[test]
fn a_recorder_without_an_identifier_is_given_up() {
    let mut slot = HyprrecMcp::new();
    assert_eq!(
        launch(plain(), "rec_1").started(&mut slot, None).unwrap_err(),
        error("recording process has no PID")
    );
    assert!(!slot.is_occupied());
}

fn occupied(id: &str) -> HyprrecMcp {
    let mut slot = HyprrecMcp::new();
    launch(plain(), id).started_at(&mut slot, Some(42), "then".to_string()).unwrap();
    slot
}

#[test]
fn one_session_runs_at_a_time() {
    let mut slot = occupied("rec_1");
    assert_eq!(
        slot.start(Ok(false), plain(), None).unwrap_err(),
        error("recording rec_1 is already active")
    );
    assert!(slot.is_occupied());
    assert_eq!(
        slot.start(Err("no child".to_string()), plain(), None).unwrap_err(),
        error("no child")
    );
    assert!(slot.is_occupied());
    let report = slot.status(Ok(None), &None).unwrap().unwrap();
    assert_eq!(report.info.session_id, "rec_1");
    let request = slot.start(Ok(true), plain(), None).unwrap();
    assert_eq!(request.directory(), &path("/v"));
    assert!(slot.is_free());
    assert!(slot.start(Ok(false), plain(), None).is_ok());
}

#[test]
fn a_start_without_a_place_still_makes_room() {
    let mut slot = occupied("rec_1");
    let nowhere = StartParams { dir: None, ..plain() };
    assert_eq!(
        slot.start(Ok(true), nowhere, None).unwrap_err(),
        error("could not find home directory")
    );
    assert!(slot.is_free());
}

#[test]
fn only_its_identifier_stops_a_session() {
    let mut slot = HyprrecMcp::new();
    assert_eq!(
        slot.stop("rec_1").unwrap_err(),
        error("no recording session exists")
    );
    let mut slot = occupied("rec_1");
    assert_eq!(
        slot.stop("rec_2").unwrap_err(),
        error("unknown session ID; active session is rec_1")
    );
    assert!(slot.is_occupied());
    let stopping = slot.stop("rec_1").unwrap();
    assert_eq!(stopping.pid(), 42);
    assert_eq!(stopping.diagnostic_log(), &path("/v/.demo.rec_1.log"));
    assert_eq!(stopping.session_id(), "rec_1");
    assert!(!slot.is_occupied());
    assert!(slot.is_stopping("rec_1") && !slot.is_stopping("rec_2"));
}

#[test]
fn a_refused_stop_changes_nothing() {
    let mut slot = occupied("rec_1");
    assert!(slot.stop("rec_2").is_err());
    let report = slot.status(Ok(None), &None).unwrap().unwrap();
    assert_eq!((report.info.session_id.as_str(), report.info.state), ("rec_1", "recording"));
    assert!(slot.stop("rec_1").is_ok());
}

#[test]
fn no_session_starts_beside_one_that_is_being_stopped() {
    let mut slot = occupied("rec_1");
    let session = stopping(&mut slot);
    for exited in [Ok(true), Ok(false), Err("no child".to_string())] {
        assert_eq!(
            slot.start(exited, plain(), None).unwrap_err(),
            error("recording rec_1 is already active")
        );
        assert!(slot.is_stopping("rec_1") && !slot.is_free());
    }
    assert!(slot.status(Ok(None), &None).unwrap().is_none());
    assert_eq!(
        slot.stop("rec_1").unwrap_err(),
        error("no recording session exists")
    );
    assert!(matches!(
        session.wait(&mut slot, Ok(Some(SUCCESS)), 0),
        WaitStep::Finish(_, SUCCESS)
    ));
    assert!(slot.is_free());
    assert!(slot.start(Ok(false), plain(), None).is_ok());
}

fn stopping(slot: &mut HyprrecMcp) -> StoppingSession {
    slot.stop("rec_1").unwrap()
}

const SUCCESS: ExitReport = ExitReport { success: true, code: Some(0) };
const FAILURE: ExitReport = ExitReport { success: false, code: Some(1) };

#[test]
fn a_running_recorder_is_interrupted_first() {
    let mut slot = occupied("rec_1");
    let session = stopping(&mut slot);
    let session = match session.begin(&mut slot, Ok(false)) {
        StopStep::Interrupt(session) => session,
        other => panic!("{other:?}"),
    };
    let session = session.interrupted(&mut slot, Ok(())).unwrap();
    assert!(!slot.is_occupied());
    assert_eq!(
        session.interrupted(&mut slot, Err("not permitted".to_string())).unwrap_err(),
        error("could not signal recorder: not permitted")
    );
    assert!(slot.is_occupied());
    let session = stopping(&mut slot);
    assert!(matches!(session.begin(&mut slot, Ok(true)), StopStep::Wait(_)));
}

#[test]
fn a_recorder_that_cannot_be_observed_is_lost() {
    let mut slot = occupied("rec_1");
    let session = stopping(&mut slot);
    match session.begin(&mut slot, Err("no child".to_string())) {
        StopStep::Fail(cause) => assert_eq!(cause, error("no child")),
        other => panic!("{other:?}"),
    }
    assert!(slot.is_free());
    let mut slot = occupied("rec_1");
    let session = stopping(&mut slot);
    match session.wait(&mut slot, Err("no child".to_string()), 0) {
        WaitStep::Fail(cause) => assert_eq!(cause, error("no child")),
        other => panic!("{other:?}"),
    }
    assert!(!slot.is_occupied());
}

#[test]
fn a_recorder_is_waited_for_until_the_time_is_up() {
    let mut slot = occupied("rec_1");
    let session = stopping(&mut slot);
    let session = match session.wait(&mut slot, Ok(None), STOP_TIMEOUT_MS - 1) {
        WaitStep::Sleep(session) => session,
        other => panic!("{other:?}"),
    };
    match session.wait(&mut slot, Ok(None), STOP_TIMEOUT_MS) {
        WaitStep::Fail(cause) => assert_eq!(
            cause,
            error("recorder did not finalize within 20 seconds; session remains active")
        ),
        other => panic!("{other:?}"),
    }
    assert!(slot.is_occupied());
    let session = stopping(&mut slot);
    match session.wait(&mut slot, Ok(Some(SUCCESS)), STOP_TIMEOUT_MS) {
        WaitStep::Finish(session, status) => {
            let report = session.finish(status, &None);
            assert_eq!(report.info.state, "completed");
            assert_eq!(report.info.exit_code, Some(0));
            assert_eq!(report.info.diagnostic_log_path, None);
            assert_eq!(report.obsolete_log, Some(path("/v/.demo.rec_1.log")));
            assert_eq!((report.info.session_id.as_str(), report.info.pid), ("rec_1", 42));
        }
        other => panic!("{other:?}"),
    }
    assert!(slot.status(Ok(None), &None).unwrap().is_none());
    assert_eq!(
        slot.stop("rec_1").unwrap_err(),
        error("no recording session exists")
    );
}

#[test]
fn a_failed_recorder_leaves_its_log() {
    let mut slot = occupied("rec_1");
    let session = stopping(&mut slot);
    let report = session.finish(FAILURE, &Some(b"  hyprrec: no monitor\n".to_vec()));
    assert_eq!(report.info.state, "failed");
    assert_eq!(report.info.exit_code, Some(1));
    assert_eq!(report.info.error.as_deref(), Some("hyprrec: no monitor"));
    assert_eq!(report.info.diagnostic_log_path, Some(path("/v/.demo.rec_1.log")));
    assert_eq!(report.obsolete_log, None);
}

#[test]
fn status_follows_the_recorder() {
    let mut slot = HyprrecMcp::new();
    assert!(slot.status(Ok(None), &None).unwrap().is_none());
    let mut slot = occupied("rec_1");
    let report = slot.status(Ok(None), &None).unwrap().unwrap();
    assert_eq!(report.info.state, "recording");
    assert_eq!(report.obsolete_log, None);
    assert_eq!(
        slot.status(Err("no child".to_string()), &None).unwrap_err(),
        error("no child")
    );
    let report = slot.status(Ok(Some(FAILURE)), &Some(b"why".to_vec())).unwrap().unwrap();
    assert_eq!(report.info.state, "failed");
    assert_eq!(report.info.error.as_deref(), Some("why"));
    let report = slot.status(Ok(Some(SUCCESS)), &None).unwrap().unwrap();
    assert_eq!(report.info.state, "completed");
    assert_eq!(report.info.error, None);
    assert_eq!(report.obsolete_log, Some(path("/v/.demo.rec_1.log")));
    assert!(slot.is_occupied());
}

#[test]
fn an_ended_session_is_told_again() {
    let log = Some(b"why".to_vec());
    let mut slot = occupied("rec_1");
    let once = slot.status(Ok(Some(FAILURE)), &log).unwrap().unwrap().info;
    assert_eq!(slot.status(Ok(Some(FAILURE)), &log).unwrap().unwrap().info, once);
    let mut slot = occupied("rec_1");
    let once = slot.status(Ok(Some(SUCCESS)), &log).unwrap().unwrap().info;
    assert_eq!(slot.status(Ok(Some(SUCCESS)), &None).unwrap().unwrap().info, once);
}

#[test]
fn the_end_of_a_session_changes_nothing_else() {
    let mut slot = HyprrecMcp::new();
    let mut info = launch(params(Some("demo")), "rec_1")
        .started_at(&mut slot, Some(42), "then".to_string())
        .unwrap();
    let before = info.clone();
    finish_info(&mut info, ExitReport { success: false, code: None }, &None);
    assert_eq!(info, SessionInfo { state: "failed", ..before });
}

#[test]
fn the_end_of_a_log_is_told() {
    assert_eq!(read_diagnostic_tail(&None), None);
    assert_eq!(read_diagnostic_tail(&Some(vec![])), None);
    assert_eq!(read_diagnostic_tail(&Some(b" \n".to_vec())), None);
    assert_eq!(read_diagnostic_tail(&Some(b"a\xffb\n".to_vec())).as_deref(), Some("a\u{fffd}b"));
    let mut long = b"cut".to_vec();
    long.extend(vec![b'x'; MAX_DIAGNOSTIC_BYTES]);
    let tail = read_diagnostic_tail(&Some(long)).unwrap();
    assert_eq!(tail, "x".repeat(MAX_DIAGNOSTIC_BYTES));
    let whole = vec![b'y'; MAX_DIAGNOSTIC_BYTES];
    assert_eq!(read_diagnostic_tail(&Some(whole)).unwrap().len(), 16 * 1024);
}

#[test]
fn signals_go_to_the_whole_group() {
    assert_eq!(process_group(42), -42);
    assert_eq!(process_group(0x7fff_ffff), -0x7fff_ffff);
    assert_eq!(process_group(0xffff_ffff), 1);
    assert_eq!(process_group(0), 0);
}

#[test]
fn system_errors_are_told_in_their_words() {
    assert_eq!(io_error("denied".to_string()), error("denied"));
    assert_eq!(io_error("denied".to_string()).to_text(), "denied");
}
