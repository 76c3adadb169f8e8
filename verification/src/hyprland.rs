//! What compositor telemetry records of workspaces and windows.

use vstd::prelude::*;
use vstd::utf8::*;

use crate::error::AppError;
use crate::path;
use crate::path::FilePath;
use crate::telemetry::Selection;
use crate::text;

verus! {

/// The window that has the focus.
#[derive(Debug, PartialEq, Eq)]
pub struct ActiveWindow {
    pub address: String,
    pub class: String,
    pub title: String,
}

/// A change of the workspace.
#[derive(Debug, PartialEq, Eq)]
pub struct WorkspaceChange {
    /// The workspace's number, where the compositor tells it.
    pub id: Option<String>,
    pub name: String,
}

/// A change of the focus.
#[derive(Debug, PartialEq, Eq)]
pub struct WindowFocus {
    pub window: ActiveWindow,
    /// Whether the window had the focus from the start.
    pub initial: bool,
}

/// What a line of the compositor leads to.
#[derive(Debug, PartialEq, Eq)]
pub struct LineOutcome {
    /// A change to record.
    pub workspace: Option<WorkspaceChange>,
    /// Whether the compositor has to be asked for the active window.
    pub query_window: bool,
}

/// Follows the workspaces and windows of the compositor.
#[derive(Debug)]
pub struct HyprlandTracker {
    selection: Selection,
    last_workspace: String,
    last_window_address: String,
    last_emitted_window_address: String,
}

/// What a tracker remembers.
pub struct TrackerState {
    pub selection: Selection,
    /// The workspace last heard of.
    pub workspace: Seq<char>,
    /// The window last heard of.
    pub window: Seq<char>,
    /// The window last recorded.
    pub recorded_window: Seq<char>,
}

impl View for HyprlandTracker {
    type V = TrackerState;

    closed spec fn view(&self) -> TrackerState {
        TrackerState {
            selection: self.selection,
            workspace: self.last_workspace@,
            window: self.last_window_address@,
            recorded_window: self.last_emitted_window_address@,
        }
    }
}

/// A workspace that a line names: its number, where the line has one, and its name.
pub struct NamedWorkspace {
    pub id: Option<Seq<char>>,
    pub name: Seq<char>,
}

/// The workspace that an event line names, if it is about one.
pub open spec fn named_workspace(event: Seq<char>) -> Option<NamedWorkspace> {
    if "workspacev2>>"@.is_prefix_of(event) {
        let data = event.skip("workspacev2>>"@.len() as int);
        if data.contains(',') {
            Some(
                NamedWorkspace {
                    id: Some(data.take(text::position(data, ','))),
                    name: data.skip(text::position(data, ',') + 1),
                },
            )
        } else {
            Some(NamedWorkspace { id: Some(data), name: data })
        }
    } else if "workspace>>"@.is_prefix_of(event) {
        Some(NamedWorkspace { id: None, name: event.skip("workspace>>"@.len() as int) })
    } else {
        None
    }
}

/// The window that an event line says has got the focus, if it is about that.
pub open spec fn focused_address(event: Seq<char>) -> Option<Seq<char>> {
    if "activewindowv2>>"@.is_prefix_of(event) {
        Some(event.skip("activewindowv2>>"@.len() as int))
    } else {
        None
    }
}

/// The workspace change that an event line makes known, if it is one.
pub open spec fn workspace_news(state: TrackerState, event: Seq<char>) -> Option<NamedWorkspace> {
    match named_workspace(event) {
        Some(workspace) => if state.selection.workspace_changed && workspace.name
            != state.workspace {
            Some(workspace)
        } else {
            None
        },
        None => None,
    }
}

/// The address of a window that an event line makes known, if it is a new one.
pub open spec fn window_news(state: TrackerState, event: Seq<char>) -> Option<Seq<char>> {
    match focused_address(event) {
        Some(address) => if state.selection.window_focused && address != state.window {
            Some(address)
        } else {
            None
        },
        None => None,
    }
}

/// What a tracker remembers after an event line.
pub open spec fn after_event_line(state: TrackerState, event: Seq<char>) -> TrackerState {
    TrackerState {
        workspace: match workspace_news(state, event) {
            Some(workspace) => workspace.name,
            None => state.workspace,
        },
        window: match window_news(state, event) {
            Some(address) => address,
            None => state.window,
        },
        ..state
    }
}

/// Whether a change record is the one that `news` calls for.
pub open spec fn records_workspace(change: Option<WorkspaceChange>, news: Option<NamedWorkspace>) -> bool {
    match news {
        Some(workspace) => {
            &&& change matches Some(c) && c.name@ == workspace.name && match workspace.id {
                Some(id) => c.id matches Some(i) && i@ == id,
                None => c.id is None,
            }
        },
        None => change is None,
    }
}

/// Whether a focus record is of `window`.
pub open spec fn records_window(focus: Option<WindowFocus>, window: ActiveWindow, initial: bool) -> bool {
    focus matches Some(f) && {
        &&& f.window.address@ == window.address@
        &&& f.window.class@ == window.class@
        &&& f.window.title@ == window.title@
        &&& f.initial == initial
    }
}

/// The window that an answer of the compositor calls for recording, by its address: the active
/// one, if focus changes are recorded, unless it was recorded last.
pub open spec fn focus_news(state: TrackerState, answer: Option<Seq<char>>) -> Option<Seq<char>> {
    match answer {
        Some(address) => if state.selection.window_focused && address != state.recorded_window {
            Some(address)
        } else {
            None
        },
        None => None,
    }
}

/// What a tracker remembers after an answer of the compositor.
pub open spec fn after_answer(state: TrackerState, answer: Option<Seq<char>>) -> TrackerState {
    TrackerState {
        recorded_window: match focus_news(state, answer) {
            Some(address) => address,
            None => state.recorded_window,
        },
        ..state
    }
}

/// The address of a window, if there is one.
pub open spec fn address_of(window: Option<ActiveWindow>) -> Option<Seq<char>> {
    match window {
        Some(window) => Some(window.address@),
        None => None,
    }
}

/// What came of reading the next line from the compositor.
#[derive(Debug)]
pub enum LineRead {
    /// The compositor closed the connection.
    Closed,
    Line(String),
    /// Nothing came within the time that was given.
    TimedOut,
    /// Reading failed, with this error.
    Failed(String),
}

/// What to do after a read.
#[derive(Debug)]
pub enum ReadStep {
    /// Give up, and report this if there is anything to report.
    Stop(Option<String>),
    /// Read on.
    Continue,
    /// Record and ask as the line calls for, then read on.
    Handle(LineOutcome),
}

impl HyprlandTracker {
    /// A tracker that starts while `window` has the focus, and the first record, if focus
    /// changes are recorded and the window is known.
    pub fn start(selection: Selection, window: Option<ActiveWindow>) -> (r: (
        HyprlandTracker,
        Option<WindowFocus>,
    ))
        ensures
            r.0@.selection == selection,
            r.0@.workspace == Seq::<char>::empty(),
            r.0@.recorded_window == r.0@.window,
            match window {
                Some(w) if selection.window_focused => r.0@.window == w.address@ && records_window(
                    r.1,
                    w,
                    true,
                ),
                _ => r.0@.window == Seq::<char>::empty() && r.1 is None,
            },
    {
        match window {
            Some(window) => if selection.window_focused {
                let tracker = HyprlandTracker {
                    selection,
                    last_workspace: String::new(),
                    last_window_address: window.address.as_str().to_owned(),
                    last_emitted_window_address: window.address.as_str().to_owned(),
                };
                return (tracker, Some(WindowFocus { window, initial: true }));
            },
            None => {},
        }
        let tracker = HyprlandTracker {
            selection,
            last_workspace: String::new(),
            last_window_address: String::new(),
            last_emitted_window_address: String::new(),
        };
        (tracker, None)
    }

    /// Takes a line of the compositor, with or without its line end.
    pub fn handle_line(&mut self, line: &str) -> (r: LineOutcome)
        ensures
            final(self)@ == after_event_line(old(self)@, text::trimmed_end(line@)),
            records_workspace(
                r.workspace,
                workspace_news(old(self)@, text::trimmed_end(line@)),
            ),
            r.query_window == (window_news(old(self)@, text::trimmed_end(line@)) is Some),
    {
        let event = text::trim_end(line);
        let workspace = self.handle_workspace(event);
        let mut query_window: bool = false;
        if self.selection.window_focused {
            if let Some(address) = text::strip_prefix(event, "activewindowv2>>") {
                assert(event@.skip("activewindowv2>>"@.len() as int) =~= address@);
                if !text::same_text(address, self.last_window_address.as_str()) {
                    self.last_window_address = address.to_owned();
                    query_window = true;
                }
            }
        }
        LineOutcome { workspace, query_window }
    }

    fn handle_workspace(&mut self, event: &str) -> (r: Option<WorkspaceChange>)
        ensures
            records_workspace(r, workspace_news(old(self)@, event@)),
            final(self)@ == (TrackerState {
                workspace: match workspace_news(old(self)@, event@) {
                    Some(workspace) => workspace.name,
                    None => old(self)@.workspace,
                },
                ..old(self)@
            }),
    {
        if !self.selection.workspace_changed {
            return None;
        }
        if let Some(data) = text::strip_prefix(event, "workspacev2>>") {
            assert(event@.skip("workspacev2>>"@.len() as int) =~= data@);
            let (id, name) = match text::split_once(data, ',') {
                Some((id, name)) => (id, name),
                None => (data, data),
            };
            if text::same_text(name, self.last_workspace.as_str()) {
                return None;
            }
            self.last_workspace = name.to_owned();
            return Some(WorkspaceChange { id: Some(id.to_owned()), name: name.to_owned() });
        }
        if let Some(name) = text::strip_prefix(event, "workspace>>") {
            assert(event@.skip("workspace>>"@.len() as int) =~= name@);
            if text::same_text(name, self.last_workspace.as_str()) {
                return None;
            }
            self.last_workspace = name.to_owned();
            return Some(WorkspaceChange { id: None, name: name.to_owned() });
        }
        None
    }

    /// Takes the compositor's answer to which window is active: the record of it, if focus
    /// changes are recorded, unless it is the window recorded last or there was no answer.
    pub fn handle_window(&mut self, window: Option<ActiveWindow>) -> (r: Option<WindowFocus>)
        ensures
            final(self)@ == after_answer(old(self)@, address_of(window)),
            match focus_news(old(self)@, address_of(window)) {
                Some(_) => records_window(r, window->0, false),
                None => r is None,
            },
    {
        match window {
            Some(window) => {
                if !self.selection.window_focused || text::same_text(
                    window.address.as_str(),
                    self.last_emitted_window_address.as_str(),
                ) {
                    return None;
                }
                self.last_emitted_window_address = window.address.as_str().to_owned();
                Some(WindowFocus { window, initial: false })
            },
            None => None,
        }
    }

    /// What to do after reading from the compositor.
    pub fn handle_read(&mut self, read: LineRead) -> (r: ReadStep)
        ensures
            match read {
                LineRead::Line(line) => {
                    let event = text::trimmed_end(line@);
                    &&& final(self)@ == after_event_line(old(self)@, event)
                    &&& r matches ReadStep::Handle(outcome) && records_workspace(
                        outcome.workspace,
                        workspace_news(old(self)@, event),
                    ) && outcome.query_window == (window_news(old(self)@, event) is Some)
                },
                LineRead::Closed => r == ReadStep::Stop(None) && final(self)@ == old(self)@,
                LineRead::TimedOut => r is Continue && final(self)@ == old(self)@,
                LineRead::Failed(error) => {
                    &&& r matches ReadStep::Stop(Some(report)) && report@
                        == "Hyprland telemetry stopped: "@ + error@
                    &&& final(self)@ == old(self)@
                },
            },
    {
        match read {
            LineRead::Closed => ReadStep::Stop(None),
            LineRead::TimedOut => ReadStep::Continue,
            LineRead::Failed(error) => ReadStep::Stop(
                Some(text::concat2("Hyprland telemetry stopped: ", error.as_str())),
            ),
            LineRead::Line(line) => ReadStep::Handle(self.handle_line(line.as_str())),
        }
    }
}

/// A line that is read twice in a row changes and records nothing the second time.
pub proof fn repeated_line_is_no_news(state: TrackerState, event: Seq<char>)
    ensures
        ({
            let after = after_event_line(state, event);
            &&& workspace_news(after, event) is None
            &&& window_news(after, event) is None
            &&& after_event_line(after, event) == after
        }),
{
}

/// Something that a tracker is told: an event line, or the address of the active window, if
/// the compositor answered.
pub enum Told {
    Line(Seq<char>),
    Answer(Option<Seq<char>>),
}

/// What a tracker remembers after it was told something.
pub open spec fn after_told(state: TrackerState, told: Told) -> TrackerState {
    match told {
        Told::Line(event) => after_event_line(state, event),
        Told::Answer(answer) => after_answer(state, answer),
    }
}

/// What a tracker remembers after it was told a number of things.
pub open spec fn after_all(state: TrackerState, told: Seq<Told>) -> TrackerState
    decreases told.len(),
{
    if told.len() == 0 {
        state
    } else {
        after_told(after_all(state, told.drop_last()), told.last())
    }
}

/// The workspace that is recorded at a certain one of the things that a tracker is told, if
/// one is.
pub open spec fn workspace_at(state: TrackerState, told: Seq<Told>, i: int) -> Option<Seq<char>> {
    match told[i] {
        Told::Line(event) => match workspace_news(after_all(state, told.take(i)), event) {
            Some(workspace) => Some(workspace.name),
            None => None,
        },
        Told::Answer(_) => None,
    }
}

/// The window that is recorded at a certain one of the things that a tracker is told, if one
/// is.
pub open spec fn window_at(state: TrackerState, told: Seq<Told>, i: int) -> Option<Seq<char>> {
    match told[i] {
        Told::Line(_) => None,
        Told::Answer(answer) => focus_news(after_all(state, told.take(i)), answer),
    }
}

proof fn last_workspace_is_remembered(state: TrackerState, told: Seq<Told>, i: int, j: int)
    requires
        0 <= i < j <= told.len(),
        workspace_at(state, told, i) is Some,
        forall|k: int| i < k < j ==> #[trigger] workspace_at(state, told, k) is None,
    ensures
        after_all(state, told.take(j)).workspace == workspace_at(state, told, i)->0,
    decreases j - i,
{
    assert(told.take(j).drop_last() =~= told.take(j - 1));
    assert(told.take(j).last() == told[j - 1]);
    if i < j - 1 {
        last_workspace_is_remembered(state, told, i, j - 1);
        assert(workspace_at(state, told, j - 1) is None);
    }
}

proof fn last_window_is_remembered(state: TrackerState, told: Seq<Told>, i: int, j: int)
    requires
        0 <= i < j <= told.len(),
        window_at(state, told, i) is Some,
        forall|k: int| i < k < j ==> #[trigger] window_at(state, told, k) is None,
    ensures
        after_all(state, told.take(j)).recorded_window == window_at(state, told, i)->0,
    decreases j - i,
{
    assert(told.take(j).drop_last() =~= told.take(j - 1));
    assert(told.take(j).last() == told[j - 1]);
    if i < j - 1 {
        last_window_is_remembered(state, told, i, j - 1);
        assert(window_at(state, told, j - 1) is None);
    }
}

/// A recorded workspace differs in name from the one recorded before it, whatever the tracker
/// was told in between.
pub proof fn recorded_workspaces_alternate(state: TrackerState, told: Seq<Told>, i: int, j: int)
    requires
        0 <= i < j < told.len(),
        workspace_at(state, told, i) is Some,
        workspace_at(state, told, j) is Some,
        forall|k: int| i < k < j ==> #[trigger] workspace_at(state, told, k) is None,
    ensures
        workspace_at(state, told, i) != workspace_at(state, told, j),
{
    last_workspace_is_remembered(state, told, i, j);
}

/// A recorded window differs from the one recorded before it, whatever the tracker was told in
/// between.
pub proof fn recorded_windows_alternate(state: TrackerState, told: Seq<Told>, i: int, j: int)
    requires
        0 <= i < j < told.len(),
        window_at(state, told, i) is Some,
        window_at(state, told, j) is Some,
        forall|k: int| i < k < j ==> #[trigger] window_at(state, told, k) is None,
    ensures
        window_at(state, told, i) != window_at(state, told, j),
{
    last_window_is_remembered(state, told, i, j);
}

/// The first window that is recorded after a tracker started is not the one that it started
/// with.
pub proof fn initial_window_is_recorded_once(state: TrackerState, told: Seq<Told>, i: int)
    requires
        0 <= i < told.len(),
        window_at(state, told, i) is Some,
        forall|k: int| 0 <= k < i ==> #[trigger] window_at(state, told, k) is None,
    ensures
        window_at(state, told, i) != Some(state.recorded_window),
{
    nothing_recorded_is_remembered(state, told, i);
}

proof fn nothing_recorded_is_remembered(state: TrackerState, told: Seq<Told>, i: int)
    requires
        0 <= i <= told.len(),
        forall|k: int| 0 <= k < i ==> #[trigger] window_at(state, told, k) is None,
    ensures
        after_all(state, told.take(i)).recorded_window == state.recorded_window,
    decreases i,
{
    if i > 0 {
        nothing_recorded_is_remembered(state, told, i - 1);
        assert(told.take(i).drop_last() =~= told.take(i - 1));
        assert(told.take(i).last() == told[i - 1]);
        assert(window_at(state, told, i - 1) is None);
    }
}

/// A category that is not selected is not recorded.
pub proof fn unselected_category_is_silent(
    state: TrackerState,
    event: Seq<char>,
    answer: Option<Seq<char>>,
)
    ensures
        !state.selection.workspace_changed ==> workspace_news(state, event) is None,
        !state.selection.window_focused ==> window_news(state, event) is None,
        !state.selection.window_focused ==> focus_news(state, answer) is None,
{
}

/// The socket `name` of the running compositor, given the runtime directory and the
/// compositor's signature as the environment has them.
pub fn hyprland_socket(
    runtime: Option<&FilePath>,
    signature: Option<&FilePath>,
    name: &str,
) -> (r: Result<FilePath, AppError>)
    ensures
        r is Ok <==> runtime is Some && signature is Some,
        r matches Ok(socket) ==> socket@ == path::joined(
            path::joined(path::joined(runtime->0@, encode_utf8("hypr"@)), signature->0@),
            encode_utf8(name@),
        ),
        r matches Err(error) ==> error is Message && error.words() == if runtime is None {
            "XDG_RUNTIME_DIR is not set"@
        } else {
            "HYPRLAND_INSTANCE_SIGNATURE is not set"@
        },
{
    let runtime = match runtime {
        Some(runtime) => runtime,
        None => {
            return Err(AppError::message("XDG_RUNTIME_DIR is not set"));
        },
    };
    let signature = match signature {
        Some(signature) => signature,
        None => {
            return Err(AppError::message("HYPRLAND_INSTANCE_SIGNATURE is not set"));
        },
    };
    Ok(
        runtime.join(&FilePath::from_text("hypr")).join(signature).join(&FilePath::from_text(name)),
    )
}

proof fn prefix_is_skipped(prefix: Seq<char>, data: Seq<char>)
    ensures
        prefix.is_prefix_of(prefix + data),
        (prefix + data).skip(prefix.len() as int) == data,
{
    assert((prefix + data).skip(prefix.len() as int) =~= data);
    assert(prefix =~= (prefix + data).subrange(0, prefix.len() as int));
}

proof fn first_comma_is_found(id: Seq<char>, rest: Seq<char>)
    requires
        !id.contains(','),
    ensures
        text::position(id + seq![','] + rest, ',') == id.len(),
    decreases id.len(),
{
    let data = id + seq![','] + rest;
    text::position_is_the_first(data, ',');
    assert(data[id.len() as int] == ',');
    assert(data.contains(','));
    let p = text::position(data, ',');
    if p < id.len() {
        assert(data[p] == id[p]);
        assert(id.contains(','));
    }
}

/// The compositor's event lines: a workspace is told by number and name, or by name alone, and the
/// focus by the address of the window. A number ends at the first comma; a line without one tells
/// the number for the name too.
pub proof fn event_lines_are_understood(id: Seq<char>, name: Seq<char>)
    requires
        !id.contains(','),
    ensures
        named_workspace("workspacev2>>"@ + (id + seq![','] + name)) == Some(
            NamedWorkspace { id: Some(id), name },
        ),
        named_workspace("workspacev2>>"@ + id) == Some(NamedWorkspace { id: Some(id), name: id }),
        named_workspace("workspace>>"@ + name) == Some(NamedWorkspace { id: None, name }),
        focused_address("activewindowv2>>"@ + name) == Some(name),
        focused_address("workspacev2>>"@ + name) is None,
        focused_address("workspace>>"@ + name) is None,
        named_workspace("activewindowv2>>"@ + name) is None,
{
    reveal_strlit("workspacev2>>");
    reveal_strlit("workspace>>");
    reveal_strlit("activewindowv2>>");
    let data = id + seq![','] + name;
    prefix_is_skipped("workspacev2>>"@, data);
    prefix_is_skipped("workspacev2>>"@, id);
    prefix_is_skipped("workspace>>"@, name);
    prefix_is_skipped("activewindowv2>>"@, name);
    first_comma_is_found(id, name);
    assert(data[id.len() as int] == ',');
    assert(data.contains(','));
    assert(data.take(id.len() as int) =~= id);
    assert(data.skip(id.len() as int + 1) =~= name);
    let old = "workspace>>"@ + name;
    assert(old[9] == '>' && "workspacev2>>"@[9] == 'v');
    assert(!"workspacev2>>"@.is_prefix_of(old)) by {
        if "workspacev2>>"@.is_prefix_of(old) {
            assert("workspacev2>>"@[9] == old[9]);
        }
    }
    let window = "activewindowv2>>"@ + name;
    assert(window[0] == 'a');
    assert(!"workspacev2>>"@.is_prefix_of(window) && !"workspace>>"@.is_prefix_of(window)) by {
        if "workspacev2>>"@.is_prefix_of(window) {
            assert("workspacev2>>"@[0] == window[0]);
        }
        if "workspace>>"@.is_prefix_of(window) {
            assert("workspace>>"@[0] == window[0]);
        }
    }
    let new = "workspacev2>>"@ + name;
    assert(new[0] == 'w' && old[0] == 'w');
    assert(!"activewindowv2>>"@.is_prefix_of(new) && !"activewindowv2>>"@.is_prefix_of(old)) by {
        if "activewindowv2>>"@.is_prefix_of(new) {
            assert("activewindowv2>>"@[0] == new[0]);
        }
        if "activewindowv2>>"@.is_prefix_of(old) {
            assert("activewindowv2>>"@[0] == old[0]);
        }
    }
}

/// Other lines are about neither.
pub proof fn other_lines_say_nothing(state: TrackerState, event: Seq<char>)
    requires
        !"workspacev2>>"@.is_prefix_of(event),
        !"workspace>>"@.is_prefix_of(event),
        !"activewindowv2>>"@.is_prefix_of(event),
    ensures
        workspace_news(state, event) is None,
        window_news(state, event) is None,
        after_event_line(state, event) == state,
{
}

/// The name of the workspace that a tracker is told, if it is told one.
pub open spec fn workspace_told(told: Told) -> Option<Seq<char>> {
    match told {
        Told::Line(event) => match named_workspace(event) {
            Some(workspace) => Some(workspace.name),
            None => None,
        },
        Told::Answer(_) => None,
    }
}

/// The address of the window that a tracker is told has got the focus, if it is told that.
pub open spec fn focus_told(told: Told) -> Option<Seq<char>> {
    match told {
        Told::Line(event) => focused_address(event),
        Told::Answer(_) => None,
    }
}

/// The address of the active window that a tracker is told, if the compositor answered.
pub open spec fn window_told(told: Told) -> Option<Seq<char>> {
    match told {
        Told::Line(_) => None,
        Told::Answer(answer) => answer,
    }
}

/// Whether `last` is what the last of the things that tell something of a kind tells, or what was
/// known before if none does.
pub open spec fn is_last_told(
    told: Seq<Told>,
    tells: spec_fn(Told) -> Option<Seq<char>>,
    before: Seq<char>,
    last: Seq<char>,
) -> bool {
    ||| exists|i: int|
        {
            &&& 0 <= i < told.len()
            &&& tells(#[trigger] told[i]) == Some(last)
            &&& forall|k: int| i < k < told.len() ==> tells(#[trigger] told[k]) is None
        }
    ||| last == before && forall|k: int| 0 <= k < told.len() ==> tells(#[trigger] told[k]) is None
}

proof fn last_told_goes_by_the_last(
    told: Seq<Told>,
    tells: spec_fn(Told) -> Option<Seq<char>>,
    before: Seq<char>,
    last: Seq<char>,
)
    requires
        told.len() > 0,
        match tells(told.last()) {
            Some(address) => last == address,
            None => is_last_told(told.drop_last(), tells, before, last),
        },
    ensures
        is_last_told(told, tells, before, last),
{
    let n = told.len() - 1;
    let rest = told.drop_last();
    assert(told[n] == told.last());
    if tells(told.last()) is None {
        if exists|i: int|
            {
                &&& 0 <= i < rest.len()
                &&& tells(#[trigger] rest[i]) == Some(last)
                &&& forall|k: int| i < k < rest.len() ==> tells(#[trigger] rest[k]) is None
            } {
            let i = choose|i: int|
                {
                    &&& 0 <= i < rest.len()
                    &&& tells(#[trigger] rest[i]) == Some(last)
                    &&& forall|k: int| i < k < rest.len() ==> tells(#[trigger] rest[k]) is None
                };
            assert(told[i] == rest[i]);
            assert forall|k: int| i < k < told.len() implies tells(#[trigger] told[k]) is None by {
                if k < n {
                    assert(told[k] == rest[k]);
                }
            }
        } else {
            assert forall|k: int| 0 <= k < told.len() implies tells(#[trigger] told[k]) is None by {
                if k < n {
                    assert(told[k] == rest[k]);
                }
            }
        }
    }
}

/// A tracker remembers what it was told last: of the workspace, if workspaces are recorded, and of
/// the focus and of the active window, if focus changes are. What is selected stays so.
pub proof fn tracker_remembers_the_last_told(state: TrackerState, told: Seq<Told>)
    ensures
        ({
            let after = after_all(state, told);
            &&& after.selection == state.selection
            &&& state.selection.workspace_changed ==> is_last_told(
                told,
                |t: Told| workspace_told(t),
                state.workspace,
                after.workspace,
            )
            &&& state.selection.window_focused ==> is_last_told(
                told,
                |t: Told| focus_told(t),
                state.window,
                after.window,
            )
            &&& state.selection.window_focused ==> is_last_told(
                told,
                |t: Told| window_told(t),
                state.recorded_window,
                after.recorded_window,
            )
        }),
    decreases told.len(),
{
    if told.len() > 0 {
        let after = after_all(state, told);
        tracker_remembers_the_last_told(state, told.drop_last());
        if state.selection.workspace_changed {
            last_told_goes_by_the_last(
                told,
                |t: Told| workspace_told(t),
                state.workspace,
                after.workspace,
            );
        }
        if state.selection.window_focused {
            last_told_goes_by_the_last(
                told,
                |t: Told| focus_told(t),
                state.window,
                after.window,
            );
            last_told_goes_by_the_last(
                told,
                |t: Told| window_told(t),
                state.recorded_window,
                after.recorded_window,
            );
        }
    }
}

/// A workspace is recorded exactly if it is told and differs from the one remembered, with the
/// number and the name that the line has; a window exactly if the compositor answers with another
/// than the one recorded last; and the compositor is asked exactly if the focus is told to have
/// gone to another window than before.
pub proof fn what_differs_is_recorded(
    state: TrackerState,
    event: Seq<char>,
    answer: Option<Seq<char>>,
)
    requires
        state.selection.workspace_changed,
        state.selection.window_focused,
    ensures
        workspace_news(state, event) is Some <==> named_workspace(event) is Some
            && named_workspace(event)->0.name != state.workspace,
        workspace_news(state, event) is Some ==> workspace_news(state, event) == named_workspace(
            event,
        ),
        window_news(state, event) is Some <==> focused_address(event) is Some && focused_address(
            event,
        ) != Some(state.window),
        focus_news(state, answer) is Some <==> answer is Some && answer != Some(
            state.recorded_window,
        ),
        focus_news(state, answer) is Some ==> focus_news(state, answer) == answer,
{
}

/// A tracker takes a line without the blanks at its end: it remembers what the line tells, and
/// records a workspace and asks for the active window as the line calls for.
pub proof fn tracker_takes_a_line(
    tracker: &mut HyprlandTracker,
    line: &'static str,
    event: Seq<char>,
    blank: Seq<char>,
    outcome: LineOutcome,
)
    requires
        call_ensures(HyprlandTracker::handle_line, (tracker, line), outcome),
        line@ == event + blank,
        text::is_blank(blank),
        event.len() > 0 ==> !text::is_white_space(event.last()),
    ensures
        final(tracker)@ == after_all(old(tracker)@, seq![Told::Line(event)]),
        outcome.query_window <==> window_news(old(tracker)@, event) is Some,
        outcome.workspace is Some <==> workspace_news(old(tracker)@, event) is Some,
        outcome.workspace is Some ==> outcome.workspace->0.name@
            == final(tracker)@.workspace,
        outcome.workspace is Some ==> (outcome.workspace->0.id is Some <==> "workspacev2>>"@.is_prefix_of(
            event,
        )),
{
    text::blanks_end_a_text(event, blank);
    let told = seq![Told::Line(event)];
    assert(told.drop_last() =~= seq![]);
    assert(after_all(old(tracker)@, told.drop_last()) == old(tracker)@);
}

/// A tracker records the window that the compositor answers with, as it is and not as the initial
/// one, exactly if focus changes are recorded and it is another than the last.
pub proof fn tracker_takes_an_answer(
    tracker: &mut HyprlandTracker,
    window: Option<ActiveWindow>,
    focus: Option<WindowFocus>,
)
    requires
        call_ensures(HyprlandTracker::handle_window, (tracker, window), focus),
    ensures
        focus is Some <==> old(tracker)@.selection.window_focused && window is Some
            && window->0.address@ != old(tracker)@.recorded_window,
        focus is Some ==> {
            &&& focus->0.window.address@ == window->0.address@
            &&& focus->0.window.class@ == window->0.class@
            &&& focus->0.window.title@ == window->0.title@
            &&& !focus->0.initial
            &&& final(tracker)@.recorded_window == window->0.address@
        },
        focus is None ==> final(tracker)@ == old(tracker)@,
        final(tracker)@.workspace == old(tracker)@.workspace,
        final(tracker)@.window == old(tracker)@.window,
        final(tracker)@.selection == old(tracker)@.selection,
{
}

/// A tracker records the window that has the focus from the start as the initial one, if focus
/// changes are recorded, and remembers it.
pub proof fn tracker_starts_with_the_focus(
    selection: Selection,
    window: Option<ActiveWindow>,
    tracker: HyprlandTracker,
    focus: Option<WindowFocus>,
)
    requires
        call_ensures(HyprlandTracker::start, (selection, window), (tracker, focus)),
    ensures
        tracker@.selection == selection,
        tracker@.workspace.len() == 0,
        focus is Some <==> selection.window_focused && window is Some,
        focus is Some ==> {
            &&& focus->0.window.address@ == window->0.address@
            &&& focus->0.window.class@ == window->0.class@
            &&& focus->0.window.title@ == window->0.title@
            &&& focus->0.initial
            &&& tracker@.window == window->0.address@
            &&& tracker@.recorded_window == window->0.address@
        },
        focus is None ==> tracker@.window.len() == 0 && tracker@.recorded_window.len() == 0,
{
}

/// The sockets of the compositor lie in the directory that its signature names.
pub proof fn sockets_lie_below_the_signature(
    runtime: FilePath,
    signature: FilePath,
    name: &'static str,
    socket: FilePath,
)
    requires
        call_ensures(hyprland_socket, (Some(&runtime), Some(&signature), name), Ok(socket)),
        runtime@.len() > 0,
        runtime@.last() != 0x2f,
        signature@.len() > 0,
        signature@[0] != 0x2f,
        signature@.last() != 0x2f,
        encode_utf8(name@).len() > 0,
        encode_utf8(name@)[0] != 0x2f,
    ensures
        socket@ == runtime@ + seq![0x2fu8, 0x68u8, 0x79u8, 0x70u8, 0x72u8, 0x2fu8] + signature@
            + seq![0x2fu8] + encode_utf8(name@),
{
    reveal_strlit("hypr");
    is_ascii_chars_encode_utf8("hypr"@);
    let hypr = encode_utf8("hypr"@);
    assert(hypr =~= seq![0x68u8, 0x79u8, 0x70u8, 0x72u8]);
    let below = path::joined(runtime@, hypr);
    path::joining_keeps_both_parts(runtime@, hypr);
    assert(below.last() == 0x72);
    path::joining_keeps_both_parts(below, signature@);
    let own = path::joined(below, signature@);
    assert(own.last() == signature@.last());
    path::joining_keeps_both_parts(own, encode_utf8(name@));
    assert(socket@ =~= runtime@ + seq![0x2fu8, 0x68u8, 0x79u8, 0x70u8, 0x72u8, 0x2fu8] + signature@
        + seq![0x2fu8] + encode_utf8(name@));
}

/// A tracker goes on after a line and after a wait, and stops where the compositor went away, with
/// a report only if reading failed. Only a line changes what it remembers.
pub proof fn tracker_stops_with_the_compositor(
    tracker: &mut HyprlandTracker,
    read: LineRead,
    step: ReadStep,
)
    requires
        call_ensures(HyprlandTracker::handle_read, (tracker, read), step),
    ensures
        step is Stop <==> read is Closed || read is Failed,
        step is Continue <==> read is TimedOut,
        step is Handle <==> read is Line,
        read is Closed ==> step->Stop_0 is None,
        read is Failed ==> step->Stop_0 is Some && step->Stop_0->0@
            == "Hyprland telemetry stopped: "@ + read->Failed_0@,
        !(read is Line) ==> final(tracker)@ == old(tracker)@,
        read is Line ==> final(tracker)@ == after_event_line(
            old(tracker)@,
            text::trimmed_end(read->Line_0@),
        ),
{
}

} // verus!
