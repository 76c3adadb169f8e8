//! What input telemetry records of keys, buttons and scrolling.

use std::collections::HashSet;

use vstd::prelude::*;

use crate::keys;
use crate::telemetry::Selection;

verus! {

/// How long scrolling is gathered into one event, in nanoseconds.
pub const SCROLL_EMIT_INTERVAL_NS: u128 = 33_000_000;

/// A key press that is recorded.
#[derive(Debug)]
pub struct KeyReport {
    pub key: &'static str,
    /// The names of the keys held, in alphabetical order.
    pub modifiers: Vec<&'static str>,
    /// Never set: a report holds no text.
    pub content_recorded: bool,
}

/// A report, as far as an event shows it.
pub struct KeyActivity {
    pub key: Seq<char>,
    pub modifiers: Seq<Seq<char>>,
    pub content_recorded: bool,
}

impl View for KeyReport {
    type V = KeyActivity;

    open spec fn view(&self) -> KeyActivity {
        KeyActivity {
            key: self.key@,
            modifiers: label_values(self.modifiers@),
            content_recorded: self.content_recorded,
        }
    }
}

/// Whether a key is held that makes a shortcut of another: any but Shift, which alone belongs
/// to ordinary typing.
pub open spec fn makes_shortcut(held: Set<u32>) -> bool {
    exists|code: u32| #[trigger] held.contains(code) && code != 42 && code != 54
}

/// What a key press is recorded as: by name if it is a shortcut or the key types no
/// character, and as `text` otherwise.
pub open spec fn recorded_key(held: Set<u32>, code: u32) -> Seq<char> {
    if makes_shortcut(held) || keys::is_control_code(code) {
        keys::key_label(code)
    } else {
        "text"@
    }
}

/// The name of the modifier key `code`, if it is held.
pub open spec fn label_if_held(held: Set<u32>, code: u32) -> Seq<Seq<char>> {
    if held.contains(code) {
        seq![keys::modifier_label(code)]
    } else {
        seq![]
    }
}

/// The held codes that are no modifier key's.
pub open spec fn other_codes(held: Set<u32>) -> Set<u32> {
    held.filter(|code: u32| !keys::is_modifier_code(code))
}

/// The names of the held keys in alphabetical order, one for each key.
pub open spec fn held_labels(held: Set<u32>) -> Seq<Seq<char>> {
    label_if_held(held, 56) + label_if_held(held, 100) + label_if_held(held, 29) + label_if_held(
        held,
        97,
    ) + Seq::new(other_codes(held).len(), |i: int| "modifier"@) + label_if_held(held, 42)
        + label_if_held(held, 54) + label_if_held(held, 125) + label_if_held(held, 126)
}

/// What pressing the key `code` is recorded as.
pub open spec fn key_activity(held: Set<u32>, code: u32) -> KeyActivity {
    KeyActivity {
        key: recorded_key(held, code),
        modifiers: held_labels(held),
        content_recorded: false,
    }
}

/// The modifier keys held after a key event.
pub open spec fn held_after(held: Set<u32>, code: u32, pressed: bool) -> Set<u32> {
    if !keys::is_modifier_code(code) {
        held
    } else if pressed {
        held.insert(code)
    } else {
        held.remove(code)
    }
}

/// The names as values.
pub open spec fn label_values(names: Seq<&'static str>) -> Seq<Seq<char>> {
    names.map_values(|name: &'static str| name@)
}

fn push_if_held(held: &HashSet<u32>, code: u32, names: &mut Vec<&'static str>)
    ensures
        label_values(final(names)@) == label_values(old(names)@) + label_if_held(held@, code),
{
    if held.contains(&code) {
        names.push(keys::modifier_name(code));
    }
    assert(label_values(names@) =~= label_values(old(names)@) + label_if_held(held@, code));
}

proof fn one_more_code(codes: Seq<u32>, seen: Set<u32>, i: int)
    requires
        0 <= i < codes.len(),
        codes.no_duplicates(),
        seen.finite(),
        forall|c: u32| #[trigger]
            seen.contains(c) <==> codes.take(i).contains(c) && !keys::is_modifier_code(c),
    ensures
        keys::is_modifier_code(codes[i]) ==> forall|c: u32| #[trigger]
            seen.contains(c) <==> codes.take(i + 1).contains(c) && !keys::is_modifier_code(c),
        !keys::is_modifier_code(codes[i]) ==> {
            &&& !seen.contains(codes[i])
            &&& forall|c: u32| #[trigger]
                seen.insert(codes[i]).contains(c) <==> codes.take(i + 1).contains(c)
                    && !keys::is_modifier_code(c)
        },
{
    let longer = codes.take(i + 1);
    assert(longer =~= codes.take(i).push(codes[i]));
    assert forall|c: u32| longer.contains(c) <==> codes.take(i).contains(c) || c == codes[i] by {
        if codes.take(i).contains(c) {
            let k = choose|k: int| 0 <= k < i && codes.take(i)[k] == c;
            assert(longer[k] == c);
        }
        assert(longer[i] == codes[i]);
        if longer.contains(c) && c != codes[i] {
            let k = choose|k: int| 0 <= k < longer.len() && longer[k] == c;
            assert(codes.take(i)[k] == c);
        }
    }
    assert(!codes.take(i).contains(codes[i])) by {
        if codes.take(i).contains(codes[i]) {
            let k = choose|k: int| 0 <= k < i && codes.take(i)[k] == codes[i];
            assert(codes[k] == codes[i]);
        }
    }
}

proof fn all_codes_seen(held: Set<u32>, codes: Seq<u32>, seen: Set<u32>, n: int)
    requires
        0 <= n <= codes.len(),
        codes.to_set() == held,
        forall|c: u32| #[trigger]
            seen.contains(c) <==> codes.take(n).contains(c) && !keys::is_modifier_code(c),
    ensures
        n == codes.len() ==> seen == other_codes(held),
{
    if n == codes.len() {
        assert(codes.take(n) =~= codes);
        assert forall|c: u32| #[trigger] seen.contains(c) <==> other_codes(held).contains(c) by {
            assert(codes.to_set().contains(c) <==> codes.contains(c));
        }
        assert(seen =~= other_codes(held));
    }
}

/// Names the held codes that are no modifier key's, and says whether there are any.
fn push_others(held: &HashSet<u32>, names: &mut Vec<&'static str>) -> (r: bool)
    ensures
        label_values(final(names)@) == label_values(old(names)@) + Seq::new(
            other_codes(held@).len(),
            |i: int| "modifier"@,
        ),
        r <==> exists|code: u32| #[trigger] held@.contains(code) && !keys::is_modifier_code(code),
{
    let mut any: bool = false;
    let ghost before = label_values(names@);
    let ghost mut seen: Set<u32> = Set::empty();
    proof {
        if held@ =~= Set::empty() {
            assert(seen =~= other_codes(held@));
        }
    }
    for code in iter: held.iter()
        invariant
            seen.finite(),
            label_values(names@) =~= before + Seq::new(seen.len(), |i: int| "modifier"@),
            any <==> exists|c: u32| #[trigger] seen.contains(c),
            iter.seq().unref().no_duplicates(),
            iter.seq().unref().to_set() == held@,
            forall|c: u32| #[trigger]
                seen.contains(c) <==> iter.seq().unref().take(iter.index() as int).contains(c)
                    && !keys::is_modifier_code(c),
            iter.index() == iter.seq().len() ==> seen == other_codes(held@),
    {
        let ghost codes = iter.seq().unref();
        proof {
            one_more_code(codes, seen, iter.index() as int);
        }
        if !keys::is_modifier(*code) {
            let ghost said = label_values(names@);
            names.push(keys::modifier_name(*code));
            any = true;
            proof {
                assert(label_values(names@) =~= said.push("modifier"@));
                seen = seen.insert(*code);
                assert(seen.contains(*code));
            }
        }
        proof {
            all_codes_seen(held@, codes, seen, iter.index() + 1);
        }
    }
    assert(any <==> exists|c: u32| #[trigger] other_codes(held@).contains(c));
    proof {
        if any {
            let c = choose|c: u32| #[trigger] other_codes(held@).contains(c);
            assert(held@.contains(c));
        }
        assert forall|c: u32| #[trigger] held@.contains(c) && !keys::is_modifier_code(c) implies any by {
            assert(other_codes(held@).contains(c));
        }
    }
    any
}

/// Follows the modifier keys and says what is recorded of a key event. Releases are not
/// recorded, nor are the modifier keys themselves.
pub fn handle_keyboard(code: u32, pressed: bool, modifiers: &mut HashSet<u32>) -> (r: Option<
    KeyReport,
>)
    ensures
        final(modifiers)@ == held_after(old(modifiers)@, code, pressed),
        r is Some <==> pressed && !keys::is_modifier_code(code),
        r matches Some(report) ==> report@ == key_activity(old(modifiers)@, code),
{
    if keys::is_modifier(code) {
        if pressed {
            modifiers.insert(code);
        } else {
            modifiers.remove(&code);
        }
        return None;
    }
    if !pressed {
        return None;
    }
    let mut names: Vec<&'static str> = Vec::new();
    push_if_held(modifiers, 56, &mut names);
    push_if_held(modifiers, 100, &mut names);
    push_if_held(modifiers, 29, &mut names);
    push_if_held(modifiers, 97, &mut names);
    let others = push_others(modifiers, &mut names);
    push_if_held(modifiers, 42, &mut names);
    push_if_held(modifiers, 54, &mut names);
    push_if_held(modifiers, 125, &mut names);
    push_if_held(modifiers, 126, &mut names);
    let shortcut = others || modifiers.contains(&29) || modifiers.contains(&97)
        || modifiers.contains(&56) || modifiers.contains(&100) || modifiers.contains(&125)
        || modifiers.contains(&126);
    let key = if shortcut || keys::is_safe_control_key(code) {
        keys::key_name(code)
    } else {
        "text"
    };
    proof {
        assert(label_values(names@) =~= held_labels(modifiers@));
    }
    Some(KeyReport { key, modifiers: names, content_recorded: false })
}

/// How the system encodes the access for which a file is opened.
#[derive(Clone, Copy, Debug, PartialEq, Eq, Structural)]
pub struct AccessCodes {
    /// The bits of the flags that hold the access.
    pub mask: i32,
    pub read_only: i32,
    pub write_only: i32,
    pub read_write: i32,
}

/// The access for which a file is opened.
#[derive(Clone, Copy, Debug, PartialEq, Eq, Structural)]
pub struct DeviceAccess {
    pub read: bool,
    pub write: bool,
}

/// The access for which an input device is opened with `flags`.
pub fn device_access(flags: i32, codes: AccessCodes) -> (r: DeviceAccess)
    ensures
        r.read <==> flags & codes.mask == codes.read_only || flags & codes.mask == codes.read_write,
        r.write <==> flags & codes.mask == codes.write_only || flags & codes.mask
            == codes.read_write,
{
    let access: i32 = flags & codes.mask;
    DeviceAccess {
        read: access == codes.read_only || access == codes.read_write,
        write: access == codes.write_only || access == codes.read_write,
    }
}

/// A device that scrolls.
#[derive(Clone, Copy, Debug, PartialEq, Eq, Structural)]
pub enum ScrollSource {
    Wheel,
    Finger,
    Continuous,
}

/// The name of what scrolled.
pub open spec fn scroll_label(source: Option<ScrollSource>) -> Seq<char> {
    match source {
        Some(ScrollSource::Wheel) => "wheel"@,
        Some(ScrollSource::Finger) => "finger"@,
        Some(ScrollSource::Continuous) => "continuous"@,
        None => "unknown"@,
    }
}

fn scroll_name(source: Option<ScrollSource>) -> (r: &'static str)
    ensures
        r@ == scroll_label(source),
{
    match source {
        Some(ScrollSource::Wheel) => "wheel",
        Some(ScrollSource::Finger) => "finger",
        Some(ScrollSource::Continuous) => "continuous",
        None => "unknown",
    }
}

/// When gathered scrolling is recorded. The gathered amounts themselves are kept by the
/// caller, who says of them only whether both are zero.
#[derive(Clone, Copy, Debug, PartialEq, Eq, Structural)]
pub struct ScrollAccumulator {
    pub source: Option<ScrollSource>,
    /// When the oldest amount was gathered that is not recorded yet, in nanoseconds.
    pub gathered_since: Option<u128>,
}

/// An accumulator that has gathered an amount at `now`.
pub open spec fn scroll_added(
    scroll: ScrollAccumulator,
    source: ScrollSource,
    now: u128,
) -> ScrollAccumulator {
    ScrollAccumulator {
        source: Some(source),
        gathered_since: match scroll.gathered_since {
            Some(since) => Some(since),
            None => Some(now),
        },
    }
}

/// An accumulator whose amounts, `still` or not, have been dealt with.
pub open spec fn scroll_flushed(scroll: ScrollAccumulator, still: bool) -> ScrollAccumulator {
    ScrollAccumulator {
        source: if still {
            scroll.source
        } else {
            None
        },
        gathered_since: None,
    }
}

/// Whether scrolling has been gathered for long enough.
pub open spec fn scroll_due(scroll: ScrollAccumulator, now: u128) -> bool {
    scroll.gathered_since matches Some(since) && now - since >= SCROLL_EMIT_INTERVAL_NS
}

impl ScrollAccumulator {
    /// An accumulator that has gathered nothing.
    pub fn new() -> (r: ScrollAccumulator)
        ensures
            r == (ScrollAccumulator { source: None, gathered_since: None }),
    {
        ScrollAccumulator { source: None, gathered_since: None }
    }

    /// Takes note that an amount was gathered.
    pub fn add(&mut self, source: ScrollSource, now: u128)
        ensures
            *final(self) == scroll_added(*old(self), source, now),
    {
        self.source = Some(source);
        if self.gathered_since.is_none() {
            self.gathered_since = Some(now);
        }
    }

    /// What scrolled, if the gathered amounts are to be recorded now: they are unless they
    /// are `still`.
    pub fn flush(&mut self, still: bool) -> (r: Option<&'static str>)
        ensures
            *final(self) == scroll_flushed(*old(self), still),
            r is Some <==> !still,
            r matches Some(source) ==> source@ == scroll_label(old(self).source),
    {
        if still {
            self.gathered_since = None;
            return None;
        }
        let source = scroll_name(self.source);
        self.source = None;
        self.gathered_since = None;
        Some(source)
    }

    /// What scrolled, if the gathered amounts are to be recorded because the interval is
    /// over.
    pub fn flush_if_due(&mut self, now: u128, still: bool) -> (r: Option<&'static str>)
        ensures
            *final(self) == if scroll_due(*old(self), now) {
                scroll_flushed(*old(self), still)
            } else {
                *old(self)
            },
            r is Some <==> scroll_due(*old(self), now) && !still,
            r matches Some(source) ==> source@ == scroll_label(old(self).source),
    {
        match self.gathered_since {
            Some(since) => if now >= since && now - since >= SCROLL_EMIT_INTERVAL_NS {
                self.flush(still)
            } else {
                None
            },
            None => None,
        }
    }
}

/// An event of an input device.
#[derive(Clone, Copy, Debug, PartialEq, Eq, Structural)]
pub enum InputEvent {
    Button { code: u32, pressed: bool },
    /// Scrolling by an amount, or by nothing at all, which ends it.
    Scroll { source: ScrollSource, ends: bool },
    Key { code: u32, pressed: bool },
    Other,
}

/// What to do about an input event.
#[derive(Debug)]
pub enum InputAction {
    Ignore,
    /// Record a click.
    Click { button: &'static str, button_code: u32 },
    /// Gather the amount that was scrolled.
    GatherScroll,
    /// Record the gathered amounts and forget them.
    Scroll { source: &'static str },
    /// Record a key press.
    Key(KeyReport),
}

/// Follows the input devices.
pub struct InputCollector {
    selection: Selection,
    modifiers: HashSet<u32>,
    scroll: ScrollAccumulator,
}

/// What a collector remembers.
pub struct CollectorState {
    pub selection: Selection,
    pub held: Set<u32>,
    pub scroll: ScrollAccumulator,
}

impl View for InputCollector {
    type V = CollectorState;

    closed spec fn view(&self) -> CollectorState {
        CollectorState { selection: self.selection, held: self.modifiers@, scroll: self.scroll }
    }
}

/// What a collector remembers after an event.
pub open spec fn collector_after(
    state: CollectorState,
    event: InputEvent,
    now: u128,
    still: bool,
) -> CollectorState {
    match event {
        InputEvent::Scroll { source, ends } => if !state.selection.scroll {
            state
        } else if ends {
            CollectorState { scroll: scroll_flushed(state.scroll, still), ..state }
        } else {
            CollectorState { scroll: scroll_added(state.scroll, source, now), ..state }
        },
        InputEvent::Key { code, pressed } => if state.selection.keyboard_input {
            CollectorState { held: held_after(state.held, code, pressed), ..state }
        } else {
            state
        },
        _ => state,
    }
}

/// Whether `action` is what is to be done about an event.
pub open spec fn is_response(
    action: InputAction,
    state: CollectorState,
    event: InputEvent,
    still: bool,
) -> bool {
    match event {
        InputEvent::Button { code, pressed } => if state.selection.click && pressed {
            action matches InputAction::Click { button, button_code } && button@
                == keys::button_label(code) && button_code == code
        } else {
            action is Ignore
        },
        InputEvent::Scroll { source, ends } => if !state.selection.scroll {
            action is Ignore
        } else if !ends {
            action is GatherScroll
        } else if still {
            action is Ignore
        } else {
            action matches InputAction::Scroll { source } && source@ == scroll_label(
                state.scroll.source,
            )
        },
        InputEvent::Key { code, pressed } => if state.selection.keyboard_input && pressed
            && !keys::is_modifier_code(code) {
            action matches InputAction::Key(report) && report@ == key_activity(state.held, code)
        } else {
            action is Ignore
        },
        InputEvent::Other => action is Ignore,
    }
}

impl InputCollector {
    /// A collector of the selected categories that has seen nothing yet.
    pub fn new(selection: Selection) -> (r: InputCollector)
        ensures
            r@ == (CollectorState {
                selection,
                held: Set::empty(),
                scroll: ScrollAccumulator { source: None, gathered_since: None },
            }),
    {
        InputCollector { selection, modifiers: HashSet::new(), scroll: ScrollAccumulator::new() }
    }

    /// What to do about `event`, which took place at `now`, while the gathered amounts are
    /// `still`, that is zero, or not.
    pub fn handle(&mut self, event: InputEvent, now: u128, still: bool) -> (r: InputAction)
        ensures
            final(self)@ == collector_after(old(self)@, event, now, still),
            is_response(r, old(self)@, event, still),
    {
        match event {
            InputEvent::Button { code, pressed } => if self.selection.click && pressed {
                InputAction::Click { button: keys::button_name(code), button_code: code }
            } else {
                InputAction::Ignore
            },
            InputEvent::Scroll { source, ends } => if !self.selection.scroll {
                InputAction::Ignore
            } else if ends {
                match self.scroll.flush(still) {
                    Some(source) => InputAction::Scroll { source },
                    None => InputAction::Ignore,
                }
            } else {
                self.scroll.add(source, now);
                InputAction::GatherScroll
            },
            InputEvent::Key { code, pressed } => if self.selection.keyboard_input {
                match handle_keyboard(code, pressed, &mut self.modifiers) {
                    Some(report) => InputAction::Key(report),
                    None => InputAction::Ignore,
                }
            } else {
                InputAction::Ignore
            },
            InputEvent::Other => InputAction::Ignore,
        }
    }

    /// What scrolled, if gathered amounts are to be recorded at `now`.
    pub fn tick(&mut self, now: u128, still: bool) -> (r: Option<&'static str>)
        ensures
            final(self)@ == (CollectorState {
                scroll: if scroll_due(old(self)@.scroll, now) {
                    scroll_flushed(old(self)@.scroll, still)
                } else {
                    old(self)@.scroll
                },
                ..old(self)@
            }),
            r is Some <==> scroll_due(old(self)@.scroll, now) && !still,
            r matches Some(source) ==> source@ == scroll_label(old(self)@.scroll.source),
    {
        self.scroll.flush_if_due(now, still)
    }

    /// What scrolled, if amounts are left to be recorded at the end.
    pub fn finish(&mut self, still: bool) -> (r: Option<&'static str>)
        ensures
            final(self)@ == (CollectorState {
                scroll: scroll_flushed(old(self)@.scroll, still),
                ..old(self)@
            }),
            r is Some <==> !still,
            r matches Some(source) ==> source@ == scroll_label(old(self)@.scroll.source),
    {
        self.scroll.flush(still)
    }
}

/// A key press or release.
pub struct KeyEvent {
    pub code: u32,
    pub pressed: bool,
}

/// What is recorded of a sequence of key events, in order.
pub open spec fn keyboard_log(held: Set<u32>, events: Seq<KeyEvent>) -> Seq<KeyActivity>
    decreases events.len(),
{
    if events.len() == 0 {
        seq![]
    } else {
        let event = events[0];
        let rest = keyboard_log(held_after(held, event.code, event.pressed), events.drop_first());
        if event.pressed && !keys::is_modifier_code(event.code) {
            seq![key_activity(held, event.code)] + rest
        } else {
            rest
        }
    }
}

/// Whether a key types a character: it is neither a modifier key nor a control key.
pub open spec fn is_printable(code: u32) -> bool {
    !keys::is_modifier_code(code) && !keys::is_control_code(code)
}

/// Whether `other` differs from `events` only in which characters are typed: at each place
/// the two events are the same, or both are of printable keys, in the same direction, while
/// no shortcut is being made.
pub open spec fn differ_in_typing_only(
    held: Set<u32>,
    events: Seq<KeyEvent>,
    other: Seq<KeyEvent>,
) -> bool
    decreases events.len(),
{
    if events.len() == 0 || other.len() == 0 {
        events.len() == other.len()
    } else {
        let a = events[0];
        let b = other[0];
        &&& a == b || (a.pressed == b.pressed && is_printable(a.code) && is_printable(b.code)
            && !makes_shortcut(held))
        &&& differ_in_typing_only(
            held_after(held, a.code, a.pressed),
            events.drop_first(),
            other.drop_first(),
        )
    }
}

/// Keyboard telemetry does not tell what is typed: whatever characters are typed in place of
/// others, the same is recorded.
pub proof fn typing_is_not_recorded(held: Set<u32>, events: Seq<KeyEvent>, other: Seq<KeyEvent>)
    requires
        differ_in_typing_only(held, events, other),
    ensures
        keyboard_log(held, events) == keyboard_log(held, other),
    decreases events.len(),
{
    if events.len() > 0 {
        let a = events[0];
        typing_is_not_recorded(
            held_after(held, a.code, a.pressed),
            events.drop_first(),
            other.drop_first(),
        );
    }
}

/// A shortcut and a control key are recorded by the name of the key, and nothing else is.
pub proof fn only_shortcuts_and_control_keys_are_named(held: Set<u32>, code: u32)
    ensures
        makes_shortcut(held) || keys::is_control_code(code) ==> key_activity(held, code).key
            == keys::key_label(code),
        !makes_shortcut(held) && !keys::is_control_code(code) ==> key_activity(held, code).key
            == "text"@,
        !key_activity(held, code).content_recorded,
{
}

/// Pressing and releasing a modifier key leaves the held keys as they were.
pub proof fn modifier_tap_leaves_no_trace(held: Set<u32>, code: u32)
    requires
        !held.contains(code),
    ensures
        held_after(held_after(held, code, true), code, false) == held,
{
    assert(held.insert(code).remove(code) =~= held);
}

/// Scrolling that goes on is recorded no more than once per interval: whatever is gathered
/// after a record waits for the interval to pass from then on.
pub proof fn scroll_waits_for_interval(
    scroll: ScrollAccumulator,
    source: ScrollSource,
    recorded: u128,
    gathered: u128,
    now: u128,
)
    requires
        recorded <= gathered,
        now < recorded + SCROLL_EMIT_INTERVAL_NS,
    ensures
        !scroll_due(scroll_added(scroll_flushed(scroll, false), source, gathered), now),
{
}

/// An event that reaches a collector, when, and whether the gathered amounts are zero then.
pub struct Arrival {
    pub event: InputEvent,
    pub now: u128,
    pub still: bool,
}

/// What a collector remembers after a number of events.
pub open spec fn collector_after_all(state: CollectorState, arrivals: Seq<Arrival>) -> CollectorState
    decreases arrivals.len(),
{
    if arrivals.len() == 0 {
        state
    } else {
        let last = arrivals.last();
        collector_after(
            collector_after_all(state, arrivals.drop_last()),
            last.event,
            last.now,
            last.still,
        )
    }
}

/// What a collector remembers that has seen nothing yet.
pub open spec fn fresh_collector(selection: Selection) -> CollectorState {
    CollectorState {
        selection,
        held: Set::empty(),
        scroll: ScrollAccumulator { source: None, gathered_since: None },
    }
}

/// Whether an event is about the key `code`.
pub open spec fn is_about(arrival: Arrival, code: u32) -> bool {
    arrival.event matches InputEvent::Key { code: other, .. } && other == code
}

/// Whether the last of a number of events that is about the key `code` is its press.
pub open spec fn pressed_last(arrivals: Seq<Arrival>, code: u32) -> bool {
    exists|i: int|
        {
            &&& 0 <= i < arrivals.len()
            &&& (#[trigger] arrivals[i]).event == (InputEvent::Key { code, pressed: true })
            &&& forall|j: int| i < j < arrivals.len() ==> !is_about(#[trigger] arrivals[j], code)
        }
}

proof fn pressed_last_goes_by_the_last(arrivals: Seq<Arrival>, code: u32)
    requires
        arrivals.len() > 0,
    ensures
        is_about(arrivals.last(), code) ==> (pressed_last(arrivals, code) <==> arrivals.last().event
            == (InputEvent::Key { code, pressed: true })),
        !is_about(arrivals.last(), code) ==> (pressed_last(arrivals, code) <==> pressed_last(
            arrivals.drop_last(),
            code,
        )),
{
    let rest = arrivals.drop_last();
    let n = rest.len() as int;
    assert(arrivals[n] == arrivals.last());
    if is_about(arrivals.last(), code) {
        if pressed_last(arrivals, code) {
            let i = choose|i: int|
                {
                    &&& 0 <= i < arrivals.len()
                    &&& (#[trigger] arrivals[i]).event == (InputEvent::Key { code, pressed: true })
                    &&& forall|j: int|
                        i < j < arrivals.len() ==> !is_about(#[trigger] arrivals[j], code)
                };
            assert(i == n);
        }
    } else {
        if pressed_last(arrivals, code) {
            let i = choose|i: int|
                {
                    &&& 0 <= i < arrivals.len()
                    &&& (#[trigger] arrivals[i]).event == (InputEvent::Key { code, pressed: true })
                    &&& forall|j: int|
                        i < j < arrivals.len() ==> !is_about(#[trigger] arrivals[j], code)
                };
            assert(i != n);
            assert(rest[i] == arrivals[i]);
            assert forall|j: int| i < j < rest.len() implies !is_about(#[trigger] rest[j], code) by {
                assert(rest[j] == arrivals[j]);
            }
        }
        if pressed_last(rest, code) {
            let i = choose|i: int|
                {
                    &&& 0 <= i < rest.len()
                    &&& (#[trigger] rest[i]).event == (InputEvent::Key { code, pressed: true })
                    &&& forall|j: int| i < j < rest.len() ==> !is_about(#[trigger] rest[j], code)
                };
            assert(arrivals[i] == rest[i]);
            assert forall|j: int| i < j < arrivals.len() implies !is_about(
                #[trigger] arrivals[j],
                code,
            ) by {
                if j < n {
                    assert(rest[j] == arrivals[j]);
                }
            }
        }
    }
}

/// A modifier key is held exactly if the last event of that key is its press; no other key ever
/// is. What is selected stays so.
pub proof fn held_keys_are_those_pressed_last(
    selection: Selection,
    arrivals: Seq<Arrival>,
    code: u32,
)
    requires
        selection.keyboard_input,
    ensures
        ({
            let after = collector_after_all(fresh_collector(selection), arrivals);
            &&& after.selection == selection
            &&& keys::is_modifier_code(code) ==> (after.held.contains(code) <==> pressed_last(
                arrivals,
                code,
            ))
            &&& !keys::is_modifier_code(code) ==> !after.held.contains(code)
        }),
    decreases arrivals.len(),
{
    if arrivals.len() > 0 {
        held_keys_are_those_pressed_last(selection, arrivals.drop_last(), code);
        pressed_last_goes_by_the_last(arrivals, code);
    }
}

/// The word, if it applies.
pub open spec fn word_if(applies: bool, word: Seq<char>) -> Seq<Seq<char>> {
    if applies {
        seq![word]
    } else {
        seq![]
    }
}

/// What a collector answers to the press of a key that is no modifier key goes by the keys whose
/// last event before it was a press: Ctrl, Alt or Super makes it a shortcut, which is recorded by
/// the name of the key, as a control key is; any other press is recorded as `text`. The modifier
/// keys are told by their names, and no content is recorded.
pub proof fn press_is_recorded_by_what_is_held(
    selection: Selection,
    before: Seq<Arrival>,
    code: u32,
    still: bool,
    action: InputAction,
)
    requires
        selection.keyboard_input,
        !keys::is_modifier_code(code),
        is_response(
            action,
            collector_after_all(fresh_collector(selection), before),
            InputEvent::Key { code, pressed: true },
            still,
        ),
    ensures
        ({
            let alt = pressed_last(before, 56);
            let right_alt = pressed_last(before, 100);
            let ctrl = pressed_last(before, 29);
            let right_ctrl = pressed_last(before, 97);
            let shift = pressed_last(before, 42);
            let right_shift = pressed_last(before, 54);
            let meta = pressed_last(before, 125);
            let right_meta = pressed_last(before, 126);
            let shortcut = alt || right_alt || ctrl || right_ctrl || meta || right_meta;
            &&& action matches InputAction::Key(report) && {
                &&& shortcut || keys::is_control_code(code) ==> report@.key == keys::key_label(code)
                &&& !shortcut && !keys::is_control_code(code) ==> report@.key == "text"@
                &&& report@.modifiers == word_if(alt, "alt"@) + word_if(right_alt, "alt"@)
                    + word_if(ctrl, "ctrl"@) + word_if(right_ctrl, "ctrl"@) + word_if(
                    shift,
                    "shift"@,
                ) + word_if(right_shift, "shift"@) + word_if(meta, "super"@) + word_if(
                    right_meta,
                    "super"@,
                )
                &&& !report@.content_recorded
            }
        }),
{
    let state = collector_after_all(fresh_collector(selection), before);
    let held = state.held;
    held_keys_are_those_pressed_last(selection, before, 56);
    held_keys_are_those_pressed_last(selection, before, 100);
    held_keys_are_those_pressed_last(selection, before, 29);
    held_keys_are_those_pressed_last(selection, before, 97);
    held_keys_are_those_pressed_last(selection, before, 42);
    held_keys_are_those_pressed_last(selection, before, 54);
    held_keys_are_those_pressed_last(selection, before, 125);
    held_keys_are_those_pressed_last(selection, before, 126);
    assert forall|c: u32| !(#[trigger] held.contains(c)) || keys::is_modifier_code(c) by {
        held_keys_are_those_pressed_last(selection, before, c);
    }
    assert(other_codes(held) =~= Set::empty());
    let shortcut = held.contains(56) || held.contains(100) || held.contains(29) || held.contains(97)
        || held.contains(125) || held.contains(126);
    assert(makes_shortcut(held) == shortcut) by {
        if makes_shortcut(held) {
            let c = choose|c: u32| #[trigger] held.contains(c) && c != 42 && c != 54;
            assert(keys::is_modifier_code(c));
        }
    }
    assert(Seq::new(0, |i: int| "modifier"@) =~= Seq::<Seq<char>>::empty());
    assert(held_labels(held) =~= word_if(held.contains(56), "alt"@) + word_if(
        held.contains(100),
        "alt"@,
    ) + word_if(held.contains(29), "ctrl"@) + word_if(held.contains(97), "ctrl"@) + word_if(
        held.contains(42),
        "shift"@,
    ) + word_if(held.contains(54), "shift"@) + word_if(held.contains(125), "super"@) + word_if(
        held.contains(126),
        "super"@,
    ));
}

/// Nothing is recorded of a released key, of a modifier key, of a released button, of what is not
/// selected, or of any other event.
pub proof fn only_what_is_selected_is_recorded(
    state: CollectorState,
    event: InputEvent,
    still: bool,
    action: InputAction,
)
    requires
        is_response(action, state, event, still),
    ensures
        match event {
            InputEvent::Button { code, pressed } => (action is Ignore <==> !(
            state.selection.click && pressed)) && (action is Click || action is Ignore),
            InputEvent::Scroll { source, ends } => (!state.selection.scroll ==> action is Ignore)
                && (action is GatherScroll || action is Scroll || action is Ignore),
            InputEvent::Key { code, pressed } => (action is Ignore <==> !(
            state.selection.keyboard_input && pressed && !keys::is_modifier_code(code))) && (
            action is Key || action is Ignore),
            InputEvent::Other => action is Ignore,
        },
        event matches InputEvent::Button { code, pressed } ==> (state.selection.click && pressed
            ==> (action matches InputAction::Click { button, button_code } && button_code == code
            && button@ == keys::button_label(code))),
{
}

/// The key events among the events that reach a collector.
pub open spec fn key_events(arrivals: Seq<Arrival>) -> Seq<KeyEvent>
    decreases arrivals.len(),
{
    if arrivals.len() == 0 {
        seq![]
    } else {
        match arrivals.last().event {
            InputEvent::Key { code, pressed } => key_events(arrivals.drop_last()).push(
                KeyEvent { code, pressed },
            ),
            _ => key_events(arrivals.drop_last()),
        }
    }
}

/// The key reports among the actions of a collector.
pub open spec fn key_reports(actions: Seq<InputAction>) -> Seq<KeyActivity>
    decreases actions.len(),
{
    if actions.len() == 0 {
        seq![]
    } else {
        match actions.last() {
            InputAction::Key(report) => key_reports(actions.drop_last()).push(report@),
            _ => key_reports(actions.drop_last()),
        }
    }
}

/// Whether a collector answered to events with these actions, one for each.
pub open spec fn is_run(
    state: CollectorState,
    arrivals: Seq<Arrival>,
    actions: Seq<InputAction>,
) -> bool {
    &&& actions.len() == arrivals.len()
    &&& forall|i: int|
        0 <= i < arrivals.len() ==> is_response(
            #[trigger] actions[i],
            collector_after_all(state, arrivals.take(i)),
            arrivals[i].event,
            arrivals[i].still,
        )
}

/// The keys held after a sequence of key events.
pub open spec fn held_after_all(held: Set<u32>, events: Seq<KeyEvent>) -> Set<u32>
    decreases events.len(),
{
    if events.len() == 0 {
        held
    } else {
        held_after(
            held_after_all(held, events.drop_last()),
            events.last().code,
            events.last().pressed,
        )
    }
}

proof fn held_after_first(held: Set<u32>, events: Seq<KeyEvent>)
    requires
        events.len() > 0,
    ensures
        held_after_all(held, events) == held_after_all(
            held_after(held, events[0].code, events[0].pressed),
            events.drop_first(),
        ),
    decreases events.len(),
{
    let first = held_after(held, events[0].code, events[0].pressed);
    if events.len() == 1 {
        assert(events.drop_first() =~= seq![]);
        assert(events.drop_last() =~= seq![]);
        reveal_with_fuel(held_after_all, 2);
    } else {
        held_after_first(held, events.drop_last());
        assert(events.drop_last().drop_first() =~= events.drop_first().drop_last());
        assert(events.drop_first().last() == events.last());
        assert(events.drop_last()[0] == events[0]);
    }
}

proof fn log_grows_at_its_end(held: Set<u32>, events: Seq<KeyEvent>, event: KeyEvent)
    ensures
        keyboard_log(held, events.push(event)) == keyboard_log(held, events) + if event.pressed
            && !keys::is_modifier_code(event.code) {
            seq![key_activity(held_after_all(held, events), event.code)]
        } else {
            seq![]
        },
    decreases events.len(),
{
    let more = events.push(event);
    if events.len() == 0 {
        assert(more.drop_first() =~= seq![]);
        reveal_with_fuel(keyboard_log, 3);
        assert(keyboard_log(held, more) =~= keyboard_log(held, events) + if event.pressed
            && !keys::is_modifier_code(event.code) {
            seq![key_activity(held, event.code)]
        } else {
            seq![]
        });
    } else {
        let first = events[0];
        let next = held_after(held, first.code, first.pressed);
        log_grows_at_its_end(next, events.drop_first(), event);
        held_after_first(held, events);
        assert(more.drop_first() =~= events.drop_first().push(event));
        assert(more[0] == first);
        let tail = if event.pressed && !keys::is_modifier_code(event.code) {
            seq![key_activity(held_after_all(held, events), event.code)]
        } else {
            seq![]
        };
        let rest = keyboard_log(next, events.drop_first());
        assert(keyboard_log(next, more.drop_first()) == rest + tail);
        if first.pressed && !keys::is_modifier_code(first.code) {
            let head = seq![key_activity(held, first.code)];
            assert(head + (rest + tail) =~= (head + rest) + tail);
        }
    }
}

/// The key reports of a collector are, in order, the log of the key events that reach it, whatever
/// other events come in between: what is proved of that log, such as that it does not tell what is
/// typed, holds of the collector.
pub proof fn reports_are_the_keyboard_log(
    selection: Selection,
    arrivals: Seq<Arrival>,
    actions: Seq<InputAction>,
)
    requires
        selection.keyboard_input,
        is_run(fresh_collector(selection), arrivals, actions),
    ensures
        key_reports(actions) == keyboard_log(Set::empty(), key_events(arrivals)),
        collector_after_all(fresh_collector(selection), arrivals).held == held_after_all(
            Set::empty(),
            key_events(arrivals),
        ),
        collector_after_all(fresh_collector(selection), arrivals).selection == selection,
    decreases arrivals.len(),
{
    let start = fresh_collector(selection);
    if arrivals.len() > 0 {
        let n = arrivals.len() - 1;
        let rest = arrivals.drop_last();
        let fewer = actions.drop_last();
        assert(arrivals.take(n) =~= rest);
        assert forall|i: int| 0 <= i < rest.len() implies is_response(
            #[trigger] fewer[i],
            collector_after_all(start, rest.take(i)),
            rest[i].event,
            rest[i].still,
        ) by {
            assert(actions[i] == fewer[i]);
            assert(rest.take(i) =~= arrivals.take(i));
        }
        reports_are_the_keyboard_log(selection, rest, fewer);
        assert(is_response(
            actions[n],
            collector_after_all(start, arrivals.take(n)),
            arrivals[n].event,
            arrivals[n].still,
        ));
        if let InputEvent::Key { code, pressed } = arrivals.last().event {
            let event = KeyEvent { code, pressed };
            log_grows_at_its_end(Set::empty(), key_events(rest), event);
            assert(key_events(arrivals).drop_last() =~= key_events(rest));
            assert(key_events(arrivals).last() == event);
            if pressed && !keys::is_modifier_code(code) {
                assert(key_reports(actions) =~= key_reports(fewer) + seq![
                    key_activity(held_after_all(Set::empty(), key_events(rest)), code),
                ]);
            } else {
                assert(key_reports(actions) =~= key_reports(fewer) + Seq::<KeyActivity>::empty());
            }
        }
    }
}

/// Scrolling is gathered from the first amount on, told by the device that scrolled last, and due
/// after 33 milliseconds; once recorded, nothing is left of it.
pub proof fn scrolling_is_gathered_for_an_interval(
    scroll: ScrollAccumulator,
    source: ScrollSource,
    now: u128,
)
    ensures
        scroll_added(scroll, source, now).source == Some(source),
        scroll.gathered_since is None ==> scroll_added(scroll, source, now).gathered_since == Some(
            now,
        ),
        scroll.gathered_since is Some ==> scroll_added(scroll, source, now).gathered_since
            == scroll.gathered_since,
        scroll_due(scroll, now) <==> scroll.gathered_since is Some && now
            >= scroll.gathered_since->0 + 33_000_000,
        scroll_flushed(scroll, false) == (ScrollAccumulator { source: None, gathered_since: None }),
        scroll_flushed(scroll, true) == (ScrollAccumulator {
            source: scroll.source,
            gathered_since: None,
        }),
{
}

/// A collector that records scrolling gathers every amount, and records what it has gathered when
/// scrolling ends, unless that is nothing.
pub proof fn scrolling_is_recorded_at_its_end(
    state: CollectorState,
    source: ScrollSource,
    now: u128,
    still: bool,
    gathering: InputAction,
    ending: InputAction,
)
    requires
        state.selection.scroll,
        is_response(gathering, state, InputEvent::Scroll { source, ends: false }, still),
        is_response(
            ending,
            collector_after(state, InputEvent::Scroll { source, ends: false }, now, still),
            InputEvent::Scroll { source, ends: true },
            false,
        ),
    ensures
        gathering is GatherScroll,
        ending matches InputAction::Scroll { source: told } && told@ == match source {
            ScrollSource::Wheel => "wheel"@,
            ScrollSource::Finger => "finger"@,
            ScrollSource::Continuous => "continuous"@,
        },
        ({
            let gathered = collector_after(
                state,
                InputEvent::Scroll { source, ends: false },
                now,
                still,
            );
            let ended = collector_after(
                gathered,
                InputEvent::Scroll { source, ends: true },
                now,
                false,
            );
            &&& gathered.scroll.gathered_since is Some
            &&& gathered.held == state.held && gathered.selection == state.selection
            &&& ended.scroll == (ScrollAccumulator { source: None, gathered_since: None })
            &&& ended.held == state.held && ended.selection == state.selection
        }),
{
}

/// An event changes nothing but what is remembered of its own category, and that only if the
/// category is selected.
pub proof fn categories_are_followed_apart(
    state: CollectorState,
    event: InputEvent,
    now: u128,
    still: bool,
)
    ensures
        ({
            let after = collector_after(state, event, now, still);
            &&& after.selection == state.selection
            &&& after.held != state.held ==> event is Key && state.selection.keyboard_input
            &&& after.scroll != state.scroll ==> event is Scroll && state.selection.scroll
        }),
{
}

/// Every held key is named once, so that as many names are given as keys are held, and any held
/// key but Shift makes a shortcut of the key that is pressed.
pub proof fn every_held_key_counts(held: Set<u32>, code: u32)
    requires
        held.finite(),
    ensures
        key_activity(held, code).modifiers.len() == held.len(),
        (exists|c: u32| #[trigger] held.contains(c) && c != 42 && c != 54) ==> key_activity(
            held,
            code,
        ).key == keys::key_label(code),
        held.subset_of(set![42u32, 54u32]) && !keys::is_control_code(code) ==> key_activity(
            held,
            code,
        ).key == "text"@,
{
    let others = other_codes(held);
    let shrunk = held.remove(56).remove(100).remove(29).remove(97).remove(42).remove(54).remove(
        125,
    ).remove(126);
    assert(shrunk =~= others);
}

/// A new collector has seen nothing.
pub proof fn collector_starts_fresh(selection: Selection, collector: InputCollector)
    requires
        call_ensures(InputCollector::new, (selection,), collector),
    ensures
        collector@ == fresh_collector(selection),
{
}

/// A collector that handles an event remembers it as one more of those that reached it, and its
/// answer is the one of that event.
pub proof fn collector_handles_one_event(
    selection: Selection,
    before: Seq<Arrival>,
    collector: &mut InputCollector,
    event: InputEvent,
    now: u128,
    still: bool,
    action: InputAction,
)
    requires
        old(collector)@ == collector_after_all(fresh_collector(selection), before),
        call_ensures(InputCollector::handle, (collector, event, now, still), action),
    ensures
        final(collector)@ == collector_after_all(
            fresh_collector(selection),
            before.push(Arrival { event, now, still }),
        ),
        is_response(action, old(collector)@, event, still),
        event matches InputEvent::Key { code, pressed } ==> (selection.keyboard_input && pressed
            && !keys::is_modifier_code(code) ==> action is Key),
{
    let arrival = Arrival { event, now, still };
    assert(before.push(arrival).drop_last() =~= before);
    if selection.keyboard_input {
        held_keys_are_those_pressed_last(selection, before, 0);
    }
}

/// What a collector gathered is recorded once 33 milliseconds have passed since the first of it,
/// unless that is nothing, and then forgotten. Nothing else is touched.
pub proof fn gathered_scrolling_is_recorded_when_due(
    collector: &mut InputCollector,
    now: u128,
    still: bool,
    told: Option<&'static str>,
)
    requires
        call_ensures(InputCollector::tick, (collector, now, still), told),
    ensures
        ({
            let before = old(collector)@;
            let after = final(collector)@;
            let since = before.scroll.gathered_since;
            let due = since is Some && now >= since->0 + 33_000_000;
            &&& told is Some <==> due && !still
            &&& told is Some ==> told->0@ == match before.scroll.source {
                Some(ScrollSource::Wheel) => "wheel"@,
                Some(ScrollSource::Finger) => "finger"@,
                Some(ScrollSource::Continuous) => "continuous"@,
                None => "unknown"@,
            }
            &&& due ==> after.scroll.gathered_since is None
            &&& told is Some ==> after.scroll.source is None
            &&& told is None ==> after.scroll.source == before.scroll.source
            &&& !due ==> after.scroll == before.scroll
            &&& after.held == before.held
            &&& after.selection == before.selection
        }),
{
}

/// At the end whatever was gathered is recorded, unless that is nothing.
pub proof fn gathered_scrolling_is_recorded_in_the_end(
    collector: &mut InputCollector,
    still: bool,
    told: Option<&'static str>,
)
    requires
        call_ensures(InputCollector::finish, (collector, still), told),
    ensures
        told is Some <==> !still,
        told is Some ==> told->0@ == match old(collector)@.scroll.source {
            Some(ScrollSource::Wheel) => "wheel"@,
            Some(ScrollSource::Finger) => "finger"@,
            Some(ScrollSource::Continuous) => "continuous"@,
            None => "unknown"@,
        },
        final(collector)@.scroll.gathered_since is None,
        final(collector)@.held == old(collector)@.held,
        final(collector)@.selection == old(collector)@.selection,
{
}

/// A device is opened for what its flags say: for reading, for writing, or for both.
pub proof fn devices_are_opened_as_asked(flags: i32, codes: AccessCodes, access: DeviceAccess)
    requires
        call_ensures(device_access, (flags, codes), access),
        codes.read_only != codes.write_only,
        codes.read_only != codes.read_write,
        codes.write_only != codes.read_write,
    ensures
        access.read && access.write <==> flags & codes.mask == codes.read_write,
        access.read && !access.write <==> flags & codes.mask == codes.read_only,
        access.write && !access.read <==> flags & codes.mask == codes.write_only,
{
}

} // verus!
