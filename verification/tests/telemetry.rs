use hyprrec::error::AppError;
use hyprrec::hyprland::{
    hyprland_socket, ActiveWindow, HyprlandTracker, LineRead, ReadStep, WindowFocus,
    WorkspaceChange,
};
use hyprrec::options::TelemetryKind;
use hyprrec::path::FilePath;
use hyprrec::telemetry::{EventKind, Selection, TelemetrySession, KEYBOARD_PRIVACY, SCHEMA_VERSION};

fn path(text: &str) -> FilePath {
    FilePath::from_text(text)
}

fn window(address: &str) -> ActiveWindow {
    ActiveWindow {
        address: address.to_string(),
        class: "Alacritty".to_string(),
        title: "Demo".to_string(),
    }
}

fn both() -> Selection {
    Selection::from_requested(&vec![
        TelemetryKind::WorkspaceChanged,
        TelemetryKind::WindowFocused,
    ])
}

#[test]
fn session_lies_beside_its_video() {
    let (session, collectors) =
        TelemetrySession::start(&path("/v/demo.mp4"), &vec![TelemetryKind::Scroll]);
    assert_eq!(session.path(), &path("/v/demo.telemetry.jsonl"));
    assert!(session.is_running());
    assert!(collectors.input);
    assert!(!collectors.hyprland);
    assert!(collectors.selection.scroll && !collectors.selection.click);
}

#[test]
fn each_category_needs_one_collector() {
    for (kind, input, hyprland) in [
        (TelemetryKind::Click, true, false),
        (TelemetryKind::Scroll, true, false),
        (TelemetryKind::KeyboardInput, true, false),
        (TelemetryKind::WorkspaceChanged, false, true),
        (TelemetryKind::WindowFocused, false, true),
    ] {
        let (_, collectors) = TelemetrySession::start(&path("a.mp4"), &vec![kind, kind]);
        assert_eq!((collectors.input, collectors.hyprland), (input, hyprland));
    }
    let (_, collectors) = TelemetrySession::start(&path("a.mp4"), &vec![]);
    assert!(!collectors.input && !collectors.hyprland);
}

#[test]
fn events_are_numbered_from_zero() {
    let video = path("/v/demo.mp4");
    let requested = vec![TelemetryKind::Click];
    let (mut session, _) = TelemetrySession::start(&video, &requested);
    let opened = session.open(&video, &requested, 0, 1_783_680_000_000);
    assert_eq!(opened.envelope.sequence, 0);
    assert_eq!(opened.envelope.source, "hyprrec");
    assert_eq!(opened.envelope.event_type, "telemetry.started");
    assert_eq!(opened.video, &video);
    assert_eq!(opened.categories, &requested);
    assert_eq!(opened.keyboard_privacy, KEYBOARD_PRIVACY);
    let clicked = session.emit_ignored(EventKind::Click, 2410, 1_783_680_012_410).unwrap();
    assert_eq!(clicked.schema_version, SCHEMA_VERSION);
    assert_eq!(clicked.sequence, 1);
    assert_eq!(clicked.t_ms, 2410);
    assert_eq!(clicked.unix_ms, 1_783_680_012_410);
    assert_eq!((clicked.source, clicked.event_type), ("libinput", "pointer.click"));
    let stopped = session.stop(true, 3000, 1_783_680_013_000).unwrap();
    assert_eq!(stopped.envelope.sequence, 2);
    assert_eq!(stopped.envelope.event_type, "telemetry.stopped");
    assert!(stopped.recording_succeeded);
}

#[test]
fn an_ended_session_is_silent() {
    let (mut session, _) = TelemetrySession::start(&path("a.mp4"), &vec![TelemetryKind::Click]);
    assert!(session.stop(false, 1, 2).is_some());
    assert!(!session.is_running());
    assert!(session.stop(true, 3, 4).is_none());
    assert!(session.emit_ignored(EventKind::Click, 5, 6).is_none());
    assert!(!session.is_running());
}

#[test]
fn ignored_events_leave_no_gap() {
    let (mut session, _) = TelemetrySession::start(&path("a.mp4"), &vec![TelemetryKind::Click]);
    assert_eq!(session.emit(EventKind::Started, 0, 0).sequence, 0);
    assert_eq!(session.emit_ignored(EventKind::Click, 1, 1).unwrap().sequence, 1);
    session.abandon();
    assert!(session.emit_ignored(EventKind::Click, 2, 2).is_none());
    assert!(session.stop(true, 3, 3).is_none());
    assert_eq!(session.emit(EventKind::Stopped, 4, 4).sequence, 2);
}

#[test]
fn an_abandoned_session_has_no_last_event() {
    let (mut session, _) = TelemetrySession::start(&path("a.mp4"), &vec![TelemetryKind::Click]);
    session.abandon();
    assert!(session.stop(false, 1, 2).is_none());
}

#[test]
fn every_kind_of_event_has_its_source() {
    for (kind, source, name) in [
        (EventKind::Started, "hyprrec", "telemetry.started"),
        (EventKind::Stopped, "hyprrec", "telemetry.stopped"),
        (EventKind::Click, "libinput", "pointer.click"),
        (EventKind::Scroll, "libinput", "pointer.scroll"),
        (EventKind::Keyboard, "libinput", "keyboard.input"),
        (EventKind::Workspace, "hyprland", "workspace.changed"),
        (EventKind::Window, "hyprland", "window.focused"),
    ] {
        assert_eq!((kind.source(), kind.event_type()), (source, name));
    }
}

fn change(id: Option<&str>, name: &str) -> Option<WorkspaceChange> {
    Some(WorkspaceChange { id: id.map(str::to_string), name: name.to_string() })
}

#[test]
fn workspace_changes_are_recorded_once() {
    let (mut tracker, first) = HyprlandTracker::start(both(), None);
    assert_eq!(first, None);
    let mut said = |line: &str| tracker.handle_line(line).workspace;
    assert_eq!(said("workspacev2>>3,mail\n"), change(Some("3"), "mail"));
    assert_eq!(said("workspace>>mail\n"), None);
    assert_eq!(said("workspacev2>>3,mail\n"), None);
    assert_eq!(said("workspace>>web\n"), change(None, "web"));
    assert_eq!(said("workspacev2>>5"), change(Some("5"), "5"));
    assert_eq!(said("workspacev2>>6,a,b\r\n"), change(Some("6"), "a,b"));
    assert_eq!(said("openwindow>>80,web\n"), None);
    assert_eq!(said("\n"), None);
}

#[test]
fn the_focused_window_is_the_first_record() {
    let (_, first) = HyprlandTracker::start(both(), Some(window("0xabc")));
    assert_eq!(first, Some(WindowFocus { window: window("0xabc"), initial: true }));
    let unselected = Selection::from_requested(&vec![TelemetryKind::WorkspaceChanged]);
    let (_, first) = HyprlandTracker::start(unselected, Some(window("0xabc")));
    assert_eq!(first, None);
}

#[test]
fn focus_changes_are_asked_for_and_recorded_once() {
    let (mut tracker, _) = HyprlandTracker::start(both(), Some(window("0xabc")));
    assert!(tracker.handle_line("activewindowv2>>abc\n").query_window);
    assert!(!tracker.handle_line("activewindowv2>>abc\n").query_window);
    assert_eq!(tracker.handle_window(Some(window("0xabc"))), None);
    assert!(tracker.handle_line("activewindowv2>>def\n").query_window);
    assert_eq!(tracker.handle_window(None), None);
    assert_eq!(
        tracker.handle_window(Some(window("0xdef"))),
        Some(WindowFocus { window: window("0xdef"), initial: false })
    );
    assert_eq!(tracker.handle_window(Some(window("0xdef"))), None);
}

#[test]
fn records_alternate_over_many_lines() {
    let (mut tracker, _) = HyprlandTracker::start(both(), Some(window("0x1")));
    let mut workspaces = vec![String::new()];
    let mut windows = vec!["0x1".to_string()];
    for step in 0..60 {
        let line = match step % 5 {
            0 => format!("workspace>>{}\n", step % 3),
            1 => format!("workspacev2>>9,{}\n", step % 2),
            2 => "monitoradded>>DP-1\n".to_string(),
            _ => format!("activewindowv2>>{}\n", step % 4),
        };
        let outcome = tracker.handle_line(&line);
        workspaces.extend(outcome.workspace.map(|change| change.name));
        if outcome.query_window {
            let answer = window(&format!("0x{}", step % 3));
            windows.extend(tracker.handle_window(Some(answer)).map(|focus| focus.window.address));
        }
    }
    assert!(workspaces.len() > 5 && windows.len() > 5);
    assert!(workspaces.windows(2).all(|pair| pair[0] != pair[1]));
    assert!(windows.windows(2).all(|pair| pair[0] != pair[1]));
}

#[test]
fn unselected_compositor_events_are_silent() {
    let windows = Selection::from_requested(&vec![TelemetryKind::WindowFocused]);
    let (mut tracker, _) = HyprlandTracker::start(windows, None);
    assert_eq!(tracker.handle_line("workspacev2>>3,mail\n").workspace, None);
    let workspaces = Selection::from_requested(&vec![TelemetryKind::WorkspaceChanged]);
    let (mut tracker, _) = HyprlandTracker::start(workspaces, None);
    assert!(!tracker.handle_line("activewindowv2>>abc\n").query_window);
    assert_eq!(tracker.handle_window(Some(window("0xabc"))), None);
}

#[test]
fn reading_goes_on_until_it_fails() {
    let (mut tracker, _) = HyprlandTracker::start(both(), None);
    assert!(matches!(tracker.handle_read(LineRead::TimedOut), ReadStep::Continue));
    match tracker.handle_read(LineRead::Line("workspace>>web\n".to_string())) {
        ReadStep::Handle(outcome) => {
            assert_eq!(outcome.workspace, change(None, "web"));
            assert!(!outcome.query_window);
        }
        other => panic!("{other:?}"),
    }
    assert!(matches!(tracker.handle_read(LineRead::Closed), ReadStep::Stop(None)));
    match tracker.handle_read(LineRead::Failed("broken pipe".to_string())) {
        ReadStep::Stop(Some(report)) => {
            assert_eq!(report, "Hyprland telemetry stopped: broken pipe");
        }
        other => panic!("{other:?}"),
    }
}

#[test]
fn sockets_lie_in_the_runtime_directory() {
    let runtime = path("/run/user/1000");
    let signature = path("abc_1");
    assert_eq!(
        hyprland_socket(Some(&runtime), Some(&signature), ".socket2.sock").unwrap(),
        path("/run/user/1000/hypr/abc_1/.socket2.sock")
    );
    assert_eq!(
        hyprland_socket(None, Some(&signature), ".socket.sock"),
        Err(AppError::Message("XDG_RUNTIME_DIR is not set".to_string()))
    );
    assert_eq!(
        hyprland_socket(Some(&runtime), None, ".socket.sock"),
        Err(AppError::Message("HYPRLAND_INSTANCE_SIGNATURE is not set".to_string()))
    );
}
