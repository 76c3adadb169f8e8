use std::collections::HashSet;

use hyprrec::input::{
    device_access, handle_keyboard, AccessCodes, DeviceAccess, InputAction, InputCollector,
    InputEvent, ScrollAccumulator, ScrollSource, SCROLL_EMIT_INTERVAL_NS,
};
use hyprrec::keys::{button_name, is_modifier, is_safe_control_key, key_name, modifier_name};
use hyprrec::telemetry::Selection;

#[test]
fn printable_keys_are_hidden_without_modifiers() {
    assert!(!is_safe_control_key(30));
    assert_eq!(key_name(30), "a");
}

#[test]
fn control_keys_have_safe_names() {
    assert!(is_safe_control_key(28));
    assert_eq!(key_name(28), "enter");
    assert_eq!(key_name(103), "up");
}

#[test]
fn mouse_buttons_have_stable_names() {
    assert_eq!(button_name(0x110), "left");
    assert_eq!(button_name(0x111), "right");
}

#[test]
fn remaining_buttons_have_names() {
    let names = [
        (0x112, "middle"),
        (0x113, "side"),
        (0x114, "extra"),
        (0x115, "forward"),
        (0x116, "back"),
        (0x117, "other"),
        (0, "other"),
    ];
    for (code, name) in names {
        assert_eq!(button_name(code), name);
    }
}

#[test]
fn modifiers_are_known_by_both_sides() {
    let names = [
        (29, "ctrl"),
        (97, "ctrl"),
        (42, "shift"),
        (54, "shift"),
        (56, "alt"),
        (100, "alt"),
        (125, "super"),
        (126, "super"),
    ];
    for (code, name) in names {
        assert!(is_modifier(code));
        assert_eq!(modifier_name(code), name);
    }
    assert!(!is_modifier(30));
    assert_eq!(modifier_name(30), "modifier");
}

#[test]
fn every_control_key_has_a_name() {
    let safe: Vec<u32> = (0..256).filter(|code| is_safe_control_key(*code)).collect();
    let expected: Vec<u32> = [1, 14, 15, 28, 58]
        .into_iter()
        .chain(59..=68)
        .chain([87, 88, 96])
        .chain(102..=111)
        .chain(113..=115)
        .collect();
    assert_eq!(safe, expected);
    for code in safe {
        assert_ne!(key_name(code), "key");
        assert!(!is_modifier(code));
    }
    assert_eq!(key_name(255), "key");
}

fn press(code: u32, held: &mut HashSet<u32>) -> (String, Vec<&'static str>) {
    let report = handle_keyboard(code, true, held).unwrap();
    assert!(!report.content_recorded);
    (report.key.to_string(), report.modifiers)
}

#[test]
fn typing_is_recorded_as_text() {
    let mut held = HashSet::new();
    assert_eq!(press(30, &mut held), ("text".to_string(), vec![]));
    assert_eq!(press(2, &mut held), ("text".to_string(), vec![]));
    assert_eq!(press(14, &mut held), ("backspace".to_string(), vec![]));
    assert!(handle_keyboard(30, false, &mut held).is_none());
}

#[test]
fn capital_letters_are_typing_too() {
    let mut held = HashSet::new();
    assert!(handle_keyboard(42, true, &mut held).is_none());
    assert_eq!(press(30, &mut held), ("text".to_string(), vec!["shift"]));
    assert_eq!(press(28, &mut held), ("enter".to_string(), vec!["shift"]));
}

#[test]
fn shortcuts_keep_their_key() {
    let mut held = HashSet::new();
    assert!(handle_keyboard(29, true, &mut held).is_none());
    assert_eq!(press(46, &mut held), ("c".to_string(), vec!["ctrl"]));
    for code in [126, 54, 97, 56] {
        assert!(handle_keyboard(code, true, &mut held).is_none());
    }
    assert_eq!(
        press(30, &mut held),
        ("a".to_string(), vec!["alt", "ctrl", "ctrl", "shift", "super"])
    );
    assert_eq!(press(200, &mut held).0, "key");
}

#[test]
fn other_held_keys_count_as_modifiers() {
    let mut held = HashSet::from([30]);
    assert_eq!(press(48, &mut held), ("b".to_string(), vec!["modifier"]));
    let mut held = HashSet::from([30, 126, 42, 16, 29]);
    assert_eq!(
        press(48, &mut held),
        ("b".to_string(), vec!["ctrl", "modifier", "modifier", "shift", "super"])
    );
    assert_eq!(held.len(), 5);
}

#[test]
fn a_released_modifier_is_forgotten() {
    let mut held = HashSet::new();
    handle_keyboard(29, true, &mut held);
    handle_keyboard(29, true, &mut held);
    handle_keyboard(29, false, &mut held);
    assert!(held.is_empty());
    assert_eq!(press(46, &mut held), ("text".to_string(), vec![]));
}

#[test]
fn what_is_typed_makes_no_difference() {
    let log = |codes: [u32; 3]| -> Vec<(String, Vec<&'static str>)> {
        let mut held = HashSet::new();
        codes.into_iter().map(|code| press(code, &mut held)).collect()
    };
    assert_eq!(log([30, 48, 46]), log([16, 17, 18]));
}

fn everything() -> Selection {
    Selection {
        click: true,
        scroll: true,
        keyboard_input: true,
        workspace_changed: true,
        window_focused: true,
    }
}

#[test]
fn clicks_are_recorded_when_pressed() {
    let mut collector = InputCollector::new(everything());
    let pressed = collector.handle(InputEvent::Button { code: 0x110, pressed: true }, 0, true);
    assert!(matches!(pressed, InputAction::Click { button: "left", button_code: 0x110 }));
    let released = collector.handle(InputEvent::Button { code: 0x110, pressed: false }, 0, true);
    assert!(matches!(released, InputAction::Ignore));
    assert!(matches!(collector.handle(InputEvent::Other, 0, true), InputAction::Ignore));
}

#[test]
fn unselected_input_is_ignored() {
    let none = Selection { click: false, scroll: false, keyboard_input: false, ..everything() };
    let mut collector = InputCollector::new(none);
    for event in [
        InputEvent::Button { code: 0x110, pressed: true },
        InputEvent::Key { code: 29, pressed: true },
        InputEvent::Key { code: 30, pressed: true },
        InputEvent::Scroll { source: ScrollSource::Wheel, ends: false },
        InputEvent::Scroll { source: ScrollSource::Wheel, ends: true },
    ] {
        assert!(matches!(collector.handle(event, 7, true), InputAction::Ignore));
    }
    assert_eq!(collector.tick(u128::MAX, true), None);
    assert_eq!(collector.finish(true), None);
}

#[test]
fn keys_are_followed_by_the_collector() {
    let mut collector = InputCollector::new(everything());
    let ctrl = InputEvent::Key { code: 29, pressed: true };
    assert!(matches!(collector.handle(ctrl, 0, true), InputAction::Ignore));
    match collector.handle(InputEvent::Key { code: 46, pressed: true }, 1, true) {
        InputAction::Key(report) => {
            assert_eq!(report.key, "c");
            assert_eq!(report.modifiers, ["ctrl"]);
        }
        other => panic!("{other:?}"),
    }
}

#[test]
fn scrolling_is_gathered_for_an_interval() {
    let mut collector = InputCollector::new(everything());
    let turn = InputEvent::Scroll { source: ScrollSource::Wheel, ends: false };
    assert!(matches!(collector.handle(turn, 1_000, true), InputAction::GatherScroll));
    let swipe = InputEvent::Scroll { source: ScrollSource::Finger, ends: false };
    assert!(matches!(collector.handle(swipe, 2_000, false), InputAction::GatherScroll));
    assert_eq!(collector.tick(SCROLL_EMIT_INTERVAL_NS + 999, false), None);
    assert_eq!(collector.tick(SCROLL_EMIT_INTERVAL_NS + 1_000, false), Some("finger"));
    assert_eq!(collector.tick(SCROLL_EMIT_INTERVAL_NS + 2_000, true), None);
    // The next record waits for a whole interval again.
    assert!(matches!(
        collector.handle(turn, SCROLL_EMIT_INTERVAL_NS + 3_000, true),
        InputAction::GatherScroll
    ));
    assert_eq!(collector.tick(2 * SCROLL_EMIT_INTERVAL_NS + 2_999, false), None);
    assert_eq!(collector.tick(2 * SCROLL_EMIT_INTERVAL_NS + 3_000, false), Some("wheel"));
}

#[test]
fn the_end_of_scrolling_is_recorded_at_once() {
    let mut collector = InputCollector::new(everything());
    let swipe = InputEvent::Scroll { source: ScrollSource::Continuous, ends: false };
    let lift = InputEvent::Scroll { source: ScrollSource::Continuous, ends: true };
    collector.handle(swipe, 0, true);
    assert!(matches!(
        collector.handle(lift, 1, false),
        InputAction::Scroll { source: "continuous" }
    ));
    assert!(matches!(collector.handle(lift, 2, true), InputAction::Ignore));
    assert_eq!(collector.finish(true), None);
    assert_eq!(collector.finish(false), Some("unknown"));
}

#[test]
fn amounts_that_cancel_out_are_not_recorded() {
    let mut scroll = ScrollAccumulator::new();
    scroll.add(ScrollSource::Wheel, 5);
    assert_eq!(scroll.flush_if_due(5 + SCROLL_EMIT_INTERVAL_NS, true), None);
    assert_eq!(
        scroll,
        ScrollAccumulator { source: Some(ScrollSource::Wheel), gathered_since: None }
    );
    assert_eq!(scroll.flush(false), Some("wheel"));
}

#[test]
fn devices_are_opened_as_asked() {
    let codes = AccessCodes { mask: 3, read_only: 0, write_only: 1, read_write: 2 };
    let access = |read: bool, write: bool| DeviceAccess { read, write };
    assert_eq!(device_access(0o4000, codes), access(true, false));
    assert_eq!(device_access(1, codes), access(false, true));
    assert_eq!(device_access(0o2000002, codes), access(true, true));
    assert_eq!(device_access(3, codes), access(false, false));
}
