//! The telemetry session of a recording: which events it collects, how it numbers them and
//! when it ends.

use vstd::prelude::*;

use crate::naming;
use crate::options::TelemetryKind;
use crate::path::FilePath;

verus! {

/// The version of the layout of an event.
pub const SCHEMA_VERSION: u8 = 1;

/// What the first event of a session says about keyboard telemetry.
pub const KEYBOARD_PRIVACY: &'static str =
    "printable keys are recorded as text activity without characters";

/// The telemetry categories that a session records.
#[derive(Clone, Copy, Debug, PartialEq, Eq, Structural)]
pub struct Selection {
    pub click: bool,
    pub scroll: bool,
    pub keyboard_input: bool,
    pub workspace_changed: bool,
    pub window_focused: bool,
}

impl Selection {
    /// Whether `kind` is recorded.
    pub open spec fn selects(self, kind: TelemetryKind) -> bool {
        match kind {
            TelemetryKind::Click => self.click,
            TelemetryKind::Scroll => self.scroll,
            TelemetryKind::KeyboardInput => self.keyboard_input,
            TelemetryKind::WorkspaceChanged => self.workspace_changed,
            TelemetryKind::WindowFocused => self.window_focused,
        }
    }

    /// The categories that were requested, in any order and any number of times.
    pub fn from_requested(requested: &Vec<TelemetryKind>) -> (r: Selection)
        ensures
            forall|kind: TelemetryKind| #[trigger] r.selects(kind) == requested@.contains(kind),
    {
        let mut selection = Selection {
            click: false,
            scroll: false,
            keyboard_input: false,
            workspace_changed: false,
            window_focused: false,
        };
        let mut i: usize = 0;
        while i < requested.len()
            invariant
                i <= requested.len(),
                forall|kind: TelemetryKind| #[trigger]
                    selection.selects(kind) == requested@.take(i as int).contains(kind),
            decreases requested.len() - i,
        {
            let ghost before = selection;
            match requested[i] {
                TelemetryKind::Click => {
                    selection.click = true;
                },
                TelemetryKind::Scroll => {
                    selection.scroll = true;
                },
                TelemetryKind::KeyboardInput => {
                    selection.keyboard_input = true;
                },
                TelemetryKind::WorkspaceChanged => {
                    selection.workspace_changed = true;
                },
                TelemetryKind::WindowFocused => {
                    selection.window_focused = true;
                },
            }
            proof {
                let head = requested@.take(i as int);
                let longer = requested@.take(i + 1);
                assert(longer =~= head.push(requested@[i as int]));
                assert forall|kind: TelemetryKind| #[trigger]
                    selection.selects(kind) == longer.contains(kind) by {
                    assert(before.selects(kind) == head.contains(kind));
                    if head.contains(kind) {
                        let k = choose|k: int| 0 <= k < head.len() && head[k] == kind;
                        assert(longer[k] == kind);
                    }
                    if longer.contains(kind) && kind != requested@[i as int] {
                        let k = choose|k: int| 0 <= k < longer.len() && longer[k] == kind;
                        assert(head[k] == kind);
                    }
                    assert(longer[i as int] == requested@[i as int]);
                }
            }
            i += 1;
        }
        assert(requested@.take(i as int) =~= requested@);
        selection
    }

    /// Whether input devices have to be watched.
    pub fn wants_input(&self) -> (r: bool)
        ensures
            r == (self.selects(TelemetryKind::Click) || self.selects(TelemetryKind::Scroll)
                || self.selects(TelemetryKind::KeyboardInput)),
    {
        self.click || self.scroll || self.keyboard_input
    }

    /// Whether the events of the compositor have to be watched.
    pub fn wants_hyprland(&self) -> (r: bool)
        ensures
            r == (self.selects(TelemetryKind::WorkspaceChanged) || self.selects(
                TelemetryKind::WindowFocused,
            )),
    {
        self.workspace_changed || self.window_focused
    }
}

/// What an event tells of.
#[derive(Clone, Copy, Debug, PartialEq, Eq, Structural)]
pub enum EventKind {
    Started,
    Stopped,
    Click,
    Scroll,
    Keyboard,
    Workspace,
    Window,
}

/// Where events of a kind come from.
pub open spec fn event_source(kind: EventKind) -> Seq<char> {
    match kind {
        EventKind::Started | EventKind::Stopped => "hyprrec"@,
        EventKind::Click | EventKind::Scroll | EventKind::Keyboard => "libinput"@,
        EventKind::Workspace | EventKind::Window => "hyprland"@,
    }
}

/// What events of a kind are called.
pub open spec fn event_name(kind: EventKind) -> Seq<char> {
    match kind {
        EventKind::Started => "telemetry.started"@,
        EventKind::Stopped => "telemetry.stopped"@,
        EventKind::Click => "pointer.click"@,
        EventKind::Scroll => "pointer.scroll"@,
        EventKind::Keyboard => "keyboard.input"@,
        EventKind::Workspace => "workspace.changed"@,
        EventKind::Window => "window.focused"@,
    }
}

impl EventKind {
    /// Where such events come from.
    pub fn source(self) -> (r: &'static str)
        ensures
            r@ == event_source(self),
    {
        match self {
            EventKind::Started => "hyprrec",
            EventKind::Stopped => "hyprrec",
            EventKind::Click => "libinput",
            EventKind::Scroll => "libinput",
            EventKind::Keyboard => "libinput",
            EventKind::Workspace => "hyprland",
            EventKind::Window => "hyprland",
        }
    }

    /// What such events are called.
    pub fn event_type(self) -> (r: &'static str)
        ensures
            r@ == event_name(self),
    {
        match self {
            EventKind::Started => "telemetry.started",
            EventKind::Stopped => "telemetry.stopped",
            EventKind::Click => "pointer.click",
            EventKind::Scroll => "pointer.scroll",
            EventKind::Keyboard => "keyboard.input",
            EventKind::Workspace => "workspace.changed",
            EventKind::Window => "window.focused",
        }
    }
}

/// What every event carries beside its own data.
#[derive(Clone, Copy, Debug)]
pub struct EventEnvelope {
    pub schema_version: u8,
    pub sequence: u64,
    /// Milliseconds since the session started.
    pub t_ms: u128,
    /// Milliseconds since the Unix epoch.
    pub unix_ms: u128,
    pub source: &'static str,
    pub event_type: &'static str,
}

impl EventEnvelope {
    /// Whether this is the envelope of event number `sequence`, which is of kind `kind` and
    /// took place at the given times.
    pub open spec fn is_for(self, kind: EventKind, sequence: u64, t_ms: u128, unix_ms: u128) -> bool {
        &&& self.schema_version == SCHEMA_VERSION
        &&& self.sequence == sequence
        &&& self.t_ms == t_ms
        &&& self.unix_ms == unix_ms
        &&& self.source@ == event_source(kind)
        &&& self.event_type@ == event_name(kind)
    }
}

/// The first event of a session: what it is the telemetry of.
#[derive(Debug)]
pub struct StartedEvent<'a> {
    pub envelope: EventEnvelope,
    pub video: &'a FilePath,
    pub categories: &'a Vec<TelemetryKind>,
    pub keyboard_privacy: &'static str,
}

/// The last event of a session: how the recording ended.
#[derive(Clone, Copy, Debug)]
pub struct StoppedEvent {
    pub envelope: EventEnvelope,
    pub recording_succeeded: bool,
}

/// The collectors that a session needs.
#[derive(Clone, Copy, Debug)]
pub struct Collectors {
    pub selection: Selection,
    /// Watch the input devices.
    pub input: bool,
    /// Watch the compositor.
    pub hyprland: bool,
}

/// A telemetry session, from its first event to its last.
#[derive(Debug)]
pub struct TelemetrySession {
    path: FilePath,
    running: bool,
    sequence: u64,
}

/// What a session is, as far as its events show.
pub struct SessionState {
    pub path: Seq<u8>,
    pub running: bool,
    /// The number of the next event.
    pub sequence: u64,
}

/// A session that has numbered one more event.
pub open spec fn after_event(state: SessionState) -> SessionState {
    SessionState {
        sequence: if state.sequence == u64::MAX {
            0
        } else {
            (state.sequence + 1) as u64
        },
        ..state
    }
}

/// A session that collects no more.
pub open spec fn ended(state: SessionState) -> SessionState {
    SessionState { running: false, ..state }
}

impl View for TelemetrySession {
    type V = SessionState;

    closed spec fn view(&self) -> SessionState {
        SessionState { path: self.path@, running: self.running, sequence: self.sequence }
    }
}

impl TelemetrySession {
    /// The session for the recording at `video_path`, and the collectors that the requested
    /// categories need.
    pub fn start(video_path: &FilePath, requested: &Vec<TelemetryKind>) -> (r: (
        TelemetrySession,
        Collectors,
    ))
        ensures
            r.0@ == (SessionState {
                path: naming::sidecar(video_path@),
                running: true,
                sequence: 0,
            }),
            forall|kind: TelemetryKind| #[trigger]
                r.1.selection.selects(kind) == requested@.contains(kind),
            r.1.input == (requested@.contains(TelemetryKind::Click) || requested@.contains(
                TelemetryKind::Scroll,
            ) || requested@.contains(TelemetryKind::KeyboardInput)),
            r.1.hyprland == (requested@.contains(TelemetryKind::WorkspaceChanged)
                || requested@.contains(TelemetryKind::WindowFocused)),
    {
        let selection = Selection::from_requested(requested);
        let session = TelemetrySession {
            path: naming::telemetry_path(video_path),
            running: true,
            sequence: 0,
        };
        let collectors = Collectors {
            selection,
            input: selection.wants_input(),
            hyprland: selection.wants_hyprland(),
        };
        (session, collectors)
    }

    /// Where the events go.
    pub fn path(&self) -> (r: &FilePath)
        ensures
            r@ == self@.path,
    {
        &self.path
    }

    /// Whether events are still collected.
    pub fn is_running(&self) -> (r: bool)
        ensures
            r == self@.running,
    {
        self.running
    }

    /// The envelope of the next event.
    pub fn emit(&mut self, kind: EventKind, t_ms: u128, unix_ms: u128) -> (r: EventEnvelope)
        ensures
            r.is_for(kind, old(self)@.sequence, t_ms, unix_ms),
            final(self)@ == after_event(old(self)@),
    {
        let sequence: u64 = self.sequence;
        self.sequence = if sequence == u64::MAX {
            0
        } else {
            sequence + 1
        };
        EventEnvelope {
            schema_version: SCHEMA_VERSION,
            sequence,
            t_ms,
            unix_ms,
            source: kind.source(),
            event_type: kind.event_type(),
        }
    }

    /// The event that opens the session.
    pub fn open<'a>(
        &mut self,
        video: &'a FilePath,
        requested: &'a Vec<TelemetryKind>,
        t_ms: u128,
        unix_ms: u128,
    ) -> (r: StartedEvent<'a>)
        ensures
            r.envelope.is_for(EventKind::Started, old(self)@.sequence, t_ms, unix_ms),
            r.video@ == video@,
            r.categories@ == requested@,
            r.keyboard_privacy@ == KEYBOARD_PRIVACY@,
            final(self)@ == after_event(old(self)@),
    {
        StartedEvent {
            envelope: self.emit(EventKind::Started, t_ms, unix_ms),
            video,
            categories: requested,
            keyboard_privacy: KEYBOARD_PRIVACY,
        }
    }

    /// The envelope of a collected event, unless the session has ended.
    pub fn emit_ignored(&mut self, kind: EventKind, t_ms: u128, unix_ms: u128) -> (r: Option<
        EventEnvelope,
    >)
        ensures
            r is Some <==> old(self)@.running,
            r matches Some(envelope) ==> envelope.is_for(kind, old(self)@.sequence, t_ms, unix_ms),
            final(self)@ == if old(self)@.running {
                after_event(old(self)@)
            } else {
                old(self)@
            },
    {
        if self.running {
            Some(self.emit(kind, t_ms, unix_ms))
        } else {
            None
        }
    }

    /// Ends the session. Only the first call gives its last event.
    pub fn stop(&mut self, recording_succeeded: bool, t_ms: u128, unix_ms: u128) -> (r: Option<
        StoppedEvent,
    >)
        ensures
            r is Some <==> old(self)@.running,
            r matches Some(event) ==> {
                &&& event.envelope.is_for(
                    EventKind::Stopped,
                    old(self)@.sequence,
                    t_ms,
                    unix_ms,
                )
                &&& event.recording_succeeded == recording_succeeded
            },
            final(self)@ == if old(self)@.running {
                ended(after_event(old(self)@))
            } else {
                old(self)@
            },
    {
        if !self.running {
            return None;
        }
        self.running = false;
        Some(
            StoppedEvent {
                envelope: self.emit(EventKind::Stopped, t_ms, unix_ms),
                recording_succeeded,
            },
        )
    }

    /// Ends a session whose collectors could not be started, without a last event.
    pub fn abandon(&mut self)
        ensures
            final(self)@ == ended(old(self)@),
    {
        self.running = false;
    }
}

/// One operation on a session: an event that is numbered whatever the state, a collected
/// event, the end, or an abandonment.
pub open spec fn evolves(before: SessionState, after: SessionState) -> bool {
    ||| after == after_event(before)
    ||| after == before
    ||| before.running && after == ended(after_event(before))
    ||| after == ended(before)
}

/// Whether each state follows from the one before by one operation.
pub open spec fn is_history(states: Seq<SessionState>) -> bool {
    &&& states.len() > 0
    &&& forall|i: int| 0 <= i < states.len() - 1 ==> #[trigger] evolves(states[i], states[i + 1])
}

/// A session that has ended collects nothing more, whatever is done with it, and its file is
/// the same throughout.
pub proof fn ended_session_stays_ended(states: Seq<SessionState>, i: int, j: int)
    requires
        is_history(states),
        0 <= i <= j < states.len(),
        !states[i].running,
    ensures
        !states[j].running,
        states[j].path == states[i].path,
    decreases j - i,
{
    if i < j {
        ended_session_stays_ended(states, i, j - 1);
        assert(evolves(states[j - 1], states[j - 1 + 1]));
    }
}

/// Whether an operation numbered an event.
pub open spec fn numbers_event(before: SessionState, after: SessionState) -> bool {
    after.sequence != before.sequence
}

/// How many events were numbered on the way to the state `n` of a session.
pub open spec fn events_before(states: Seq<SessionState>, n: int) -> nat
    decreases n,
{
    if n <= 0 {
        0
    } else if numbers_event(states[n - 1], states[n]) {
        events_before(states, n - 1) + 1
    } else {
        events_before(states, n - 1)
    }
}

/// The events of a session are numbered from 0 on without a gap: the number of the next event
/// is how many there were before it, whatever was ignored in between, and also where the
/// session ended or was abandoned. Only after `u64::MAX` does the numbering start anew.
pub proof fn events_are_numbered_in_order(states: Seq<SessionState>, n: int)
    requires
        is_history(states),
        0 <= n < states.len(),
        states[0].sequence == 0,
    ensures
        states[n].sequence == events_before(states, n) % 0x1_0000_0000_0000_0000nat,
        events_before(states, n) <= u64::MAX ==> states[n].sequence == events_before(states, n),
    decreases n,
{
    if n > 0 {
        events_are_numbered_in_order(states, n - 1);
        assert(evolves(states[n - 1], states[n - 1 + 1]));
    }
}

/// Every event carries version 1 of the schema, its number and its times, where it comes from and
/// what it is called: events of the session itself come from the program, those of the pointer and
/// the keyboard from the input devices, and the others from the compositor.
pub proof fn events_tell_their_origin(
    envelope: EventEnvelope,
    kind: EventKind,
    sequence: u64,
    t_ms: u128,
    unix_ms: u128,
)
    requires
        envelope.is_for(kind, sequence, t_ms, unix_ms),
    ensures
        envelope.schema_version == 1,
        envelope.sequence == sequence,
        envelope.t_ms == t_ms,
        envelope.unix_ms == unix_ms,
        envelope.event_type@ == "telemetry.started"@ || envelope.event_type@
            == "telemetry.stopped"@ <==> envelope.source@ == "hyprrec"@,
        envelope.event_type@ == "pointer.click"@ || envelope.event_type@ == "pointer.scroll"@
            || envelope.event_type@ == "keyboard.input"@ <==> envelope.source@ == "libinput"@,
        envelope.event_type@ == "workspace.changed"@ || envelope.event_type@ == "window.focused"@
            <==> envelope.source@ == "hyprland"@,
        envelope.event_type@ == seq![
            "telemetry.started"@,
            "telemetry.stopped"@,
            "pointer.click"@,
            "pointer.scroll"@,
            "keyboard.input"@,
            "workspace.changed"@,
            "window.focused"@,
        ][match kind {
            EventKind::Started => 0int,
            EventKind::Stopped => 1int,
            EventKind::Click => 2int,
            EventKind::Scroll => 3int,
            EventKind::Keyboard => 4int,
            EventKind::Workspace => 5int,
            EventKind::Window => 6int,
        }],
{
    reveal_strlit("hyprrec");
    reveal_strlit("libinput");
    reveal_strlit("hyprland");
    reveal_strlit("telemetry.started");
    reveal_strlit("telemetry.stopped");
    reveal_strlit("pointer.click");
    reveal_strlit("pointer.scroll");
    reveal_strlit("keyboard.input");
    reveal_strlit("workspace.changed");
    reveal_strlit("window.focused");
    let name = envelope.event_type@;
    let source = envelope.source@;
    assert(source[0] == "hyprrec"@[0] || source[0] == "libinput"@[0] || source[0]
        == "hyprland"@[0]);
    assert("hyprrec"@.len() == 7 && "hyprland"@.len() == 8 && "libinput"@[0] == 'l');
    assert(name[0] == 't' || name[0] == 'p' || name[0] == 'k' || name[0] == 'w');
}

/// The events of a session are numbered one after the other: an event has the number that the
/// session had come to, and the next has one more. Its file stays, and numbering ends nothing.
pub proof fn an_event_takes_the_next_number(
    session: &mut TelemetrySession,
    kind: EventKind,
    t_ms: u128,
    unix_ms: u128,
    envelope: EventEnvelope,
)
    requires
        call_ensures(TelemetrySession::emit, (session, kind, t_ms, unix_ms), envelope),
    ensures
        envelope.is_for(kind, old(session)@.sequence, t_ms, unix_ms),
        old(session)@.sequence < u64::MAX ==> final(session)@.sequence == old(session)@.sequence
            + 1,
        old(session)@.sequence == u64::MAX ==> final(session)@.sequence == 0,
        final(session)@.path == old(session)@.path,
        final(session)@.running == old(session)@.running,
{
}

/// A collected event is numbered while the session runs and is dropped once it has ended.
pub proof fn events_are_collected_while_the_session_runs(
    session: &mut TelemetrySession,
    kind: EventKind,
    t_ms: u128,
    unix_ms: u128,
    envelope: Option<EventEnvelope>,
)
    requires
        call_ensures(TelemetrySession::emit_ignored, (session, kind, t_ms, unix_ms), envelope),
    ensures
        envelope is Some <==> old(session)@.running,
        envelope is Some ==> envelope->0.is_for(kind, old(session)@.sequence, t_ms, unix_ms),
        envelope is Some && old(session)@.sequence < u64::MAX ==> final(session)@.sequence
            == old(session)@.sequence + 1,
        envelope is None ==> final(session)@ == old(session)@,
        final(session)@.path == old(session)@.path,
        final(session)@.running == old(session)@.running,
{
}

/// Stopping a session gives its last event, which tells whether the recording succeeded, and a
/// second stop gives none.
pub proof fn a_session_stops_once(
    session: &mut TelemetrySession,
    succeeded: bool,
    t_ms: u128,
    unix_ms: u128,
    last: Option<StoppedEvent>,
)
    requires
        call_ensures(TelemetrySession::stop, (session, succeeded, t_ms, unix_ms), last),
    ensures
        last is Some <==> old(session)@.running,
        last is Some ==> last->0.recording_succeeded == succeeded,
        last is Some ==> last->0.envelope.is_for(
            EventKind::Stopped,
            old(session)@.sequence,
            t_ms,
            unix_ms,
        ),
        last is None ==> final(session)@ == old(session)@,
        !final(session)@.running,
        final(session)@.path == old(session)@.path,
{
}

/// The first event of a session tells of which video and which categories it is the telemetry, and
/// that no characters are recorded.
pub proof fn the_first_event_tells_of_the_session(
    session: &mut TelemetrySession,
    video: &'static FilePath,
    requested: &'static Vec<TelemetryKind>,
    t_ms: u128,
    unix_ms: u128,
    first: StartedEvent<'static>,
)
    requires
        call_ensures(
            TelemetrySession::open,
            (session, video, requested, t_ms, unix_ms),
            first,
        ),
    ensures
        first.envelope.is_for(EventKind::Started, old(session)@.sequence, t_ms, unix_ms),
        first.video@ == video@,
        first.categories@ == requested@,
        first.keyboard_privacy@
            == "printable keys are recorded as text activity without characters"@,
        final(session)@.running == old(session)@.running,
        final(session)@.path == old(session)@.path,
        old(session)@.sequence < u64::MAX ==> final(session)@.sequence == old(session)@.sequence
            + 1,
{
}

/// A session starts with no event, beside the video that it is the telemetry of, and watches the
/// input devices and the compositor exactly if a category of theirs was requested.
pub proof fn a_session_starts_beside_its_video(
    video: &FilePath,
    requested: &Vec<TelemetryKind>,
    session: TelemetrySession,
    collectors: Collectors,
)
    requires
        call_ensures(TelemetrySession::start, (video, requested), (session, collectors)),
    ensures
        session@.running,
        session@.sequence == 0,
        crate::path::file_name(video@) is Some ==> session@.path != video@
            && crate::path::directory_part(session@.path) == crate::path::directory_part(video@),
        collectors.input <==> exists|i: int|
            0 <= i < requested@.len() && ((#[trigger] requested@[i]) is Click
                || requested@[i] is Scroll || requested@[i] is KeyboardInput),
        collectors.hyprland <==> exists|i: int|
            0 <= i < requested@.len() && ((#[trigger] requested@[i]) is WorkspaceChanged
                || requested@[i] is WindowFocused),
        collectors.selection.click <==> requested@.contains(TelemetryKind::Click),
        collectors.selection.scroll <==> requested@.contains(TelemetryKind::Scroll),
        collectors.selection.keyboard_input <==> requested@.contains(
            TelemetryKind::KeyboardInput,
        ),
        collectors.selection.workspace_changed <==> requested@.contains(
            TelemetryKind::WorkspaceChanged,
        ),
        collectors.selection.window_focused <==> requested@.contains(
            TelemetryKind::WindowFocused,
        ),
{
    if crate::path::file_name(video@) is Some {
        naming::sidecar_stands_beside(video@);
    }
    assert(collectors.selection.selects(TelemetryKind::Click) == requested@.contains(
        TelemetryKind::Click,
    ));
    assert(collectors.selection.selects(TelemetryKind::Scroll) == requested@.contains(
        TelemetryKind::Scroll,
    ));
    assert(collectors.selection.selects(TelemetryKind::KeyboardInput) == requested@.contains(
        TelemetryKind::KeyboardInput,
    ));
    assert(collectors.selection.selects(TelemetryKind::WorkspaceChanged) == requested@.contains(
        TelemetryKind::WorkspaceChanged,
    ));
    assert(collectors.selection.selects(TelemetryKind::WindowFocused) == requested@.contains(
        TelemetryKind::WindowFocused,
    ));
    assert forall|i: int| 0 <= i < requested@.len() implies requested@.contains(
        #[trigger] requested@[i],
    ) by {}
}

/// An abandoned session has ended without another event.
pub proof fn an_abandoned_session_has_ended(session: &mut TelemetrySession)
    requires
        call_ensures(TelemetrySession::abandon, (session,), ()),
    ensures
        !final(session)@.running,
        final(session)@.sequence == old(session)@.sequence,
        final(session)@.path == old(session)@.path,
{
}

} // verus!
