//! The one session that can be active, and how it is stopped.

use vstd::prelude::*;

use crate::error;
use crate::error::McpError;
use crate::launch::Request;
use crate::path::FilePath;
use crate::places;
use crate::places::UserDirs;
use crate::session;
use crate::session::{ExitReport, SessionInfo, SessionRecord, StartParams};
use crate::text;

verus! {

/// How long a recorder may take to finalize its file, in milliseconds.
pub const STOP_TIMEOUT_MS: u128 = 20_000;

/// A session whose recorder was started.
#[derive(Debug)]
pub struct ActiveSession {
    info: SessionInfo,
    diagnostic_log_path: FilePath,
}

/// An active session, as values.
pub struct ActiveRecord {
    pub info: SessionRecord,
    pub log: Seq<u8>,
}

impl View for ActiveSession {
    type V = ActiveRecord;

    closed spec fn view(&self) -> ActiveRecord {
        ActiveRecord { info: self.info@, log: self.diagnostic_log_path@ }
    }
}

#[derive(Debug)]
enum Holding {
    Nothing,
    Active(ActiveSession),
    Stopping(String),
}

/// What the server keeps: the place for the one session that there can be, its slot.
#[derive(Debug)]
pub struct HyprrecMcp {
    holding: Holding,
}

/// What a slot holds.
pub enum SlotState {
    Empty,
    /// A session.
    Active(ActiveRecord),
    /// The place of the session with this identifier, which is being stopped.
    Stopping(Seq<char>),
}

impl View for HyprrecMcp {
    type V = SlotState;

    closed spec fn view(&self) -> SlotState {
        match self.holding {
            Holding::Nothing => SlotState::Empty,
            Holding::Active(session) => SlotState::Active(session@),
            Holding::Stopping(session_id) => SlotState::Stopping(session_id@),
        }
    }
}

/// A session that is being stopped. While it is, the slot keeps its place.
#[derive(Debug)]
pub struct StoppingSession {
    session: ActiveSession,
}

impl View for StoppingSession {
    type V = ActiveRecord;

    closed spec fn view(&self) -> ActiveRecord {
        self.session@
    }
}

/// What to do first to stop a session.
#[derive(Debug)]
pub enum StopStep {
    /// Give up: the recorder cannot be observed. The session is gone.
    Fail(McpError),
    /// Ask the recorder and its children to end, then wait for it.
    Interrupt(StoppingSession),
    /// Wait for the recorder, which has ended.
    Wait(StoppingSession),
}

/// What to do next while a recorder finalizes its file.
#[derive(Debug)]
pub enum WaitStep {
    /// Give up: the recorder cannot be observed, or takes too long.
    Fail(McpError),
    /// The recorder ended.
    Finish(StoppingSession, ExitReport),
    /// Look again a little later.
    Sleep(StoppingSession),
}

/// What is told of a session, and what is to be tidied up after it.
#[derive(Debug)]
pub struct SessionReport {
    pub info: SessionInfo,
    /// The diagnostic log, if it is no longer needed.
    pub obsolete_log: Option<FilePath>,
}

/// Why a session cannot be stopped, if it cannot.
pub open spec fn stop_refusal(state: SlotState, session_id: Seq<char>) -> Option<Seq<char>> {
    match state {
        SlotState::Active(session) => if session.info.session_id != session_id {
            Some("unknown session ID; active session is "@ + session.info.session_id)
        } else {
            None
        },
        _ => Some("no recording session exists"@),
    }
}

/// Why no session can be started, if none can: `exited` says whether the recorder of the
/// active session has ended, or why that is not known.
pub open spec fn start_refusal(state: SlotState, exited: Result<bool, String>) -> Option<
    Seq<char>,
> {
    match state {
        SlotState::Empty => None,
        SlotState::Stopping(session_id) => Some(already_active(session_id)),
        SlotState::Active(session) => match exited {
            Err(cause) => Some(cause@),
            Ok(false) => Some(already_active(session.info.session_id)),
            Ok(true) => None,
        },
    }
}

/// A slot once a session was asked to be started.
pub open spec fn after_start(state: SlotState, exited: Result<bool, String>) -> SlotState {
    if start_refusal(state, exited) is None {
        SlotState::Empty
    } else {
        state
    }
}

/// The refusal to start a session beside the one with this identifier.
pub open spec fn already_active(session_id: Seq<char>) -> Seq<char> {
    "recording "@ + session_id + " is already active"@
}

fn refuse_second(session_id: &str) -> (r: McpError)
    ensures
        r.words() == already_active(session_id@),
{
    McpError(text::concat3("recording ", session_id, " is already active"))
}

/// A slot once a session was asked to be stopped.
pub open spec fn after_take(state: SlotState, session_id: Seq<char>) -> SlotState {
    if stop_refusal(state, session_id) is None {
        SlotState::Stopping(session_id)
    } else {
        state
    }
}

/// What is told of a session, given how its recorder ended, if it has, and what its
/// diagnostic log holds, if it could be read.
pub open spec fn told(
    info: SessionRecord,
    ended: Option<ExitReport>,
    log: Option<Seq<u8>>,
) -> SessionRecord {
    match ended {
        Some(status) => session::finished(info, status, log),
        None => info,
    }
}

/// A slot once its session was asked for.
pub open spec fn after_status(
    state: SlotState,
    ended: Option<ExitReport>,
    log: Option<Seq<u8>>,
) -> SlotState {
    match state {
        SlotState::Active(session) => SlotState::Active(
            ActiveRecord { info: told(session.info, ended, log), log: session.log },
        ),
        _ => state,
    }
}

/// What is told of the session in a slot, if there is one.
pub open spec fn status_of(
    state: SlotState,
    ended: Option<ExitReport>,
    log: Option<Seq<u8>>,
) -> Option<SessionRecord> {
    match state {
        SlotState::Active(session) => Some(told(session.info, ended, log)),
        _ => None,
    }
}

impl HyprrecMcp {
    /// A slot without a session.
    pub fn new() -> (r: HyprrecMcp)
        ensures
            r@ is Empty,
    {
        HyprrecMcp { holding: Holding::Nothing }
    }

    /// Whether there is a session whose recorder can be observed.
    pub fn is_occupied(&self) -> (r: bool)
        ensures
            r == (self@ is Active),
    {
        match &self.holding {
            Holding::Active(_) => true,
            _ => false,
        }
    }

    /// Whether a session can be put here: there is none, nor is one being stopped.
    pub fn is_free(&self) -> (r: bool)
        ensures
            r == (self@ is Empty),
    {
        match &self.holding {
            Holding::Nothing => true,
            _ => false,
        }
    }

    /// Whether the place of the session with this identifier is kept while it is being stopped.
    pub fn is_stopping(&self, session_id: &str) -> (r: bool)
        ensures
            r == (self@ == SlotState::Stopping(session_id@)),
    {
        match &self.holding {
            Holding::Stopping(stopping) => text::same_text(stopping.as_str(), session_id),
            _ => false,
        }
    }

    /// Takes a request to record and makes room for its session. A session whose recorder runs
    /// stays, and so does one that cannot be observed or is being stopped: then the request is
    /// refused.
    pub fn start(
        &mut self,
        exited: Result<bool, String>,
        params: StartParams,
        user_dirs: Option<&UserDirs>,
    ) -> (r: Result<Request, McpError>)
        ensures
            r is Ok <==> start_refusal(old(self)@, exited) is None && (params.dir is Some
                || user_dirs is Some),
            r matches Ok(request) ==> {
                &&& request.params() == params
                &&& request.target_directory() == match params.dir {
                    Some(given) => given@,
                    None => places::default_directory(*user_dirs->0),
                }
            },
            r matches Err(error) ==> error.words() == match start_refusal(old(self)@, exited) {
                Some(words) => words,
                None => "could not find home directory"@,
            },
            final(self)@ == after_start(old(self)@, exited),
    {
        match &self.holding {
            Holding::Nothing => {},
            Holding::Stopping(session_id) => {
                return Err(refuse_second(session_id.as_str()));
            },
            Holding::Active(session) => match exited {
                Err(cause) => {
                    return Err(error::io_error(cause));
                },
                Ok(exited) => if !exited {
                    return Err(refuse_second(session.info.session_id.as_str()));
                },
            },
        }
        self.holding = Holding::Nothing;
        Request::accept(params, user_dirs)
    }

    /// Keeps a session that was just started.
    pub(crate) fn occupy(&mut self, info: SessionInfo, diagnostic_log_path: FilePath)
        requires
            old(self)@ is Empty,
        ensures
            final(self)@ == SlotState::Active(
                ActiveRecord { info: info@, log: diagnostic_log_path@ },
            ),
    {
        self.holding = Holding::Active(ActiveSession { info, diagnostic_log_path });
    }

    /// Takes the session with this identifier out in order to stop it, and keeps its place. A
    /// session with another identifier stays.
    pub fn stop(&mut self, session_id: &str) -> (r: Result<StoppingSession, McpError>)
        ensures
            r is Ok <==> stop_refusal(old(self)@, session_id@) is None,
            r matches Ok(stopping) ==> old(self)@ == SlotState::Active(stopping@),
            r matches Err(error) ==> Some(error.words()) == stop_refusal(old(self)@, session_id@)
                && final(self)@ == old(self)@,
            final(self)@ == after_take(old(self)@, session_id@),
    {
        let mut holding = Holding::Stopping(session_id.to_owned());
        std::mem::swap(&mut self.holding, &mut holding);
        match holding {
            Holding::Active(session) => {
                if text::same_text(session.info.session_id.as_str(), session_id) {
                    Ok(StoppingSession { session })
                } else {
                    let words = text::concat2(
                        "unknown session ID; active session is ",
                        session.info.session_id.as_str(),
                    );
                    self.holding = Holding::Active(session);
                    Err(McpError(words))
                }
            },
            other => {
                self.holding = other;
                Err(McpError::message("no recording session exists"))
            },
        }
    }

    /// Puts a session back that could not be stopped.
    fn restore(&mut self, stopping: StoppingSession)
        requires
            old(self)@ == SlotState::Stopping(stopping@.info.session_id),
        ensures
            final(self)@ == SlotState::Active(stopping@),
    {
        self.holding = Holding::Active(stopping.session);
    }

    /// Gives up the place of a session that was stopped or lost.
    fn release(&mut self)
        requires
            old(self)@ is Stopping,
        ensures
            final(self)@ is Empty,
    {
        self.holding = Holding::Nothing;
    }

    /// The diagnostic log of the session.
    pub fn diagnostic_log(&self) -> (r: Option<&FilePath>)
        ensures
            r is Some <==> self@ is Active,
            r matches Some(log) ==> log@ == self@->Active_0.log,
    {
        match &self.holding {
            Holding::Active(session) => Some(&session.diagnostic_log_path),
            _ => None,
        }
    }

    /// What is told of the session. `exited` says how its recorder ended, if it has, or why
    /// that is not known, and `log` what its diagnostic log holds, if it could be read. A
    /// session that is being stopped is not told here.
    pub fn status(
        &mut self,
        exited: Result<Option<ExitReport>, String>,
        log: &Option<Vec<u8>>,
    ) -> (r: Result<Option<SessionReport>, McpError>)
        ensures
            match old(self)@ {
                SlotState::Active(session) => match exited {
                    Err(cause) => {
                        &&& r matches Err(error) && error.words() == cause@
                        &&& final(self)@ == old(self)@
                    },
                    Ok(ended) => {
                        &&& r matches Ok(Some(report)) && Some(report.info@) == status_of(
                            old(self)@,
                            ended,
                            session::optional_bytes(*log),
                        ) && session::optional_path(report.obsolete_log) == if ended matches Some(
                            status,
                        ) && status.success {
                            Some(session.log)
                        } else {
                            None
                        }
                        &&& final(self)@ == after_status(
                            old(self)@,
                            ended,
                            session::optional_bytes(*log),
                        )
                    },
                },
                _ => r == Ok::<Option<SessionReport>, McpError>(None) && final(self)@ == old(self)@,
            },
    {
        let mut holding = Holding::Nothing;
        std::mem::swap(&mut self.holding, &mut holding);
        let mut session = match holding {
            Holding::Active(session) => session,
            other => {
                self.holding = other;
                return Ok(None);
            },
        };
        let ended = match exited {
            Ok(ended) => ended,
            Err(cause) => {
                self.holding = Holding::Active(session);
                return Err(error::io_error(cause));
            },
        };
        let mut obsolete_log: Option<FilePath> = None;
        if let Some(status) = ended {
            session::finish_info(&mut session.info, status, log);
            if status.success {
                obsolete_log = Some(session.diagnostic_log_path.clone());
            }
        }
        let info = session.info.clone();
        self.holding = Holding::Active(session);
        Ok(Some(SessionReport { info, obsolete_log }))
    }
}

/// A slot once it was looked whether the recorder has ended before it is asked to.
pub open spec fn after_begin(state: SlotState, exited: Result<bool, String>) -> SlotState {
    match exited {
        Ok(_) => state,
        Err(_) => SlotState::Empty,
    }
}

/// A slot once the recorder of `session` was asked to end.
pub open spec fn after_interrupt(
    session: ActiveRecord,
    state: SlotState,
    sent: Result<(), String>,
) -> SlotState {
    match sent {
        Ok(_) => state,
        Err(_) => SlotState::Active(session),
    }
}

/// A slot once it was looked whether the recorder of `session` has ended, which has been
/// waited for so long.
pub open spec fn after_look(
    session: ActiveRecord,
    state: SlotState,
    exited: Result<Option<ExitReport>, String>,
    waited_ms: u128,
) -> SlotState {
    match exited {
        Err(_) => SlotState::Empty,
        Ok(Some(_)) => SlotState::Empty,
        Ok(None) => if waited_ms >= STOP_TIMEOUT_MS {
            SlotState::Active(session)
        } else {
            state
        },
    }
}

impl StoppingSession {
    /// The process that leads the recorder's group.
    pub fn pid(&self) -> (r: u32)
        ensures
            r == self@.info.pid,
    {
        self.session.info.pid
    }

    /// The diagnostic log of the session.
    pub fn diagnostic_log(&self) -> (r: &FilePath)
        ensures
            r@ == self@.log,
    {
        &self.session.diagnostic_log_path
    }

    /// The identifier of the session.
    pub fn session_id(&self) -> (r: &str)
        ensures
            r@ == self@.info.session_id,
    {
        self.session.info.session_id.as_str()
    }

    /// What to do first, given whether the recorder has ended or why that is not known. A
    /// recorder that cannot be observed is lost.
    pub fn begin(self, slot: &mut HyprrecMcp, exited: Result<bool, String>) -> (r: StopStep)
        requires
            old(slot)@ == SlotState::Stopping(self@.info.session_id),
        ensures
            match exited {
                Err(cause) => r matches StopStep::Fail(error) && error.words() == cause@,
                Ok(true) => r == StopStep::Wait(self),
                Ok(false) => r == StopStep::Interrupt(self),
            },
            final(slot)@ == after_begin(old(slot)@, exited),
    {
        match exited {
            Err(cause) => {
                slot.release();
                StopStep::Fail(error::io_error(cause))
            },
            Ok(exited) => if exited {
                StopStep::Wait(self)
            } else {
                StopStep::Interrupt(self)
            },
        }
    }

    /// Goes on once the recorder was told to end. Where that failed with `sent`, the session
    /// is put back.
    pub fn interrupted(self, slot: &mut HyprrecMcp, sent: Result<(), String>) -> (r: Result<
        StoppingSession,
        McpError,
    >)
        requires
            old(slot)@ == SlotState::Stopping(self@.info.session_id),
        ensures
            match sent {
                Ok(_) => r == Ok::<StoppingSession, McpError>(self),
                Err(cause) => r matches Err(error) && error.words()
                    == "could not signal recorder: "@ + cause@,
            },
            final(slot)@ == after_interrupt(self@, old(slot)@, sent),
    {
        match sent {
            Ok(_) => Ok(self),
            Err(cause) => {
                slot.restore(self);
                Err(McpError(text::concat2("could not signal recorder: ", cause.as_str())))
            },
        }
    }

    /// What to do next, given how the recorder ended, if it has, or why that is not known,
    /// and how long it has been waited for. A session that takes too long is put back; one
    /// that ended or cannot be observed leaves the slot.
    pub fn wait(
        self,
        slot: &mut HyprrecMcp,
        exited: Result<Option<ExitReport>, String>,
        waited_ms: u128,
    ) -> (r: WaitStep)
        requires
            old(slot)@ == SlotState::Stopping(self@.info.session_id),
        ensures
            match exited {
                Err(cause) => r matches WaitStep::Fail(error) && error.words() == cause@,
                Ok(Some(status)) => r == WaitStep::Finish(self, status),
                Ok(None) => if waited_ms >= STOP_TIMEOUT_MS {
                    r matches WaitStep::Fail(error) && error.words()
                        == "recorder did not finalize within 20 seconds; session remains active"@
                } else {
                    r == WaitStep::Sleep(self)
                },
            },
            final(slot)@ == after_look(self@, old(slot)@, exited, waited_ms),
    {
        match exited {
            Err(cause) => {
                slot.release();
                WaitStep::Fail(error::io_error(cause))
            },
            Ok(ended) => match ended {
                Some(status) => {
                    slot.release();
                    WaitStep::Finish(self, status)
                },
                None => if waited_ms >= STOP_TIMEOUT_MS {
                    slot.restore(self);
                    WaitStep::Fail(
                        McpError::message(
                            "recorder did not finalize within 20 seconds; session remains active",
                        ),
                    )
                } else {
                    WaitStep::Sleep(self)
                },
            },
        }
    }

    /// What is told of the session in the end. `log` is what its diagnostic log holds, if it
    /// could be read.
    pub fn finish(self, status: ExitReport, log: &Option<Vec<u8>>) -> (r: SessionReport)
        ensures
            r.info@ == session::finished(self@.info, status, session::optional_bytes(*log)),
            session::optional_path(r.obsolete_log) == if status.success {
                Some(self@.log)
            } else {
                None
            },
    {
        let mut info = self.session.info;
        session::finish_info(&mut info, status, log);
        let obsolete_log = if status.success {
            Some(self.session.diagnostic_log_path)
        } else {
            None
        };
        SessionReport { info, obsolete_log }
    }
}

/// The process group that a recorder with this process identifier leads, as signals address
/// it: the identifier, read as a signed number, with its sign turned round.
pub fn process_group(pid: u32) -> (r: i32)
    requires
        pid != 0x8000_0000,
    ensures
        r == if pid < 0x8000_0000 {
            -(pid as int)
        } else {
            0x1_0000_0000 - pid as int
        },
{
    if pid < 0x8000_0000 {
        let signed: i32 = pid as i32;
        0 - signed
    } else {
        let positive: u64 = 0x1_0000_0000 - pid as u64;
        positive as i32
    }
}

/// Only the identifier of the active session stops it, and with no session there is nothing
/// to stop.
pub proof fn only_active_session_is_stopped(state: SlotState, session_id: Seq<char>)
    ensures
        stop_refusal(state, session_id) is None <==> (state matches SlotState::Active(session)
            && session.info.session_id == session_id),
{
}

/// There is one session at a time: a start beside one whose recorder runs is refused, and the
/// session stays, told as before. So is a start beside one that is being stopped, whatever was
/// seen of its recorder.
pub proof fn one_session_at_a_time(
    session: ActiveRecord,
    exited: Result<bool, String>,
    log: Option<Seq<u8>>,
)
    ensures
        ({
            let state = SlotState::Active(session);
            &&& start_refusal(state, Ok(false)) == Some(already_active(session.info.session_id))
            &&& after_start(state, Ok(false)) == state
            &&& status_of(after_start(state, Ok(false)), None, log) == Some(session.info)
        }),
        ({
            let state = after_take(SlotState::Active(session), session.info.session_id);
            &&& start_refusal(state, exited) == Some(already_active(session.info.session_id))
            &&& after_start(state, exited) == state
        }),
{
}

/// A look at a recorder that is waited for: how it ended, if it has, and how long it has been
/// waited for.
pub struct Look {
    pub ended: Option<ExitReport>,
    pub waited_ms: u128,
}

/// A slot after a number of looks.
pub open spec fn after_looks(session: ActiveRecord, state: SlotState, looks: Seq<Look>) -> SlotState
    decreases looks.len(),
{
    if looks.len() == 0 {
        state
    } else {
        let look = looks.last();
        after_look(
            session,
            after_looks(session, state, looks.drop_last()),
            Ok(look.ended),
            look.waited_ms,
        )
    }
}

/// Whether each of the looks found the recorder running, in time.
pub open spec fn still_waiting(looks: Seq<Look>) -> bool {
    forall|i: int|
        0 <= i < looks.len() ==> (#[trigger] looks[i]).ended is None && looks[i].waited_ms
            < STOP_TIMEOUT_MS
}

/// The slot of a session that was taken out, was looked at once, was asked to end if it ran,
/// and was waited for with these looks.
pub open spec fn after_stop(session: ActiveRecord, running: bool, looks: Seq<Look>) -> SlotState {
    let taken = after_take(SlotState::Active(session), session.info.session_id);
    let begun = after_begin(taken, Ok(!running));
    let asked = if running {
        after_interrupt(session, begun, Ok(()))
    } else {
        begun
    };
    after_looks(session, asked, looks)
}

proof fn waiting_keeps_the_place(session: ActiveRecord, running: bool, looks: Seq<Look>)
    requires
        still_waiting(looks),
    ensures
        after_stop(session, running, looks) == SlotState::Stopping(session.info.session_id),
    decreases looks.len(),
{
    if looks.len() > 0 {
        let rest = looks.drop_last();
        assert forall|i: int| 0 <= i < rest.len() implies (#[trigger] rest[i]).ended is None
            && rest[i].waited_ms < STOP_TIMEOUT_MS by {
            assert(rest[i] == looks[i]);
        }
        waiting_keeps_the_place(session, running, rest);
        assert(looks.last() == looks[looks.len() - 1]);
    }
}

/// A stop with the wrong identifier names the right one and leaves the session where it is,
/// told as before and ready to be stopped.
pub proof fn refused_stop_keeps_the_session(
    session: ActiveRecord,
    session_id: Seq<char>,
    ended: Option<ExitReport>,
    log: Option<Seq<u8>>,
)
    requires
        session_id != session.info.session_id,
    ensures
        stop_refusal(SlotState::Active(session), session_id) == Some(
            "unknown session ID; active session is "@ + session.info.session_id,
        ),
        after_take(SlotState::Active(session), session_id) == SlotState::Active(session),
        ({
            let kept = after_take(SlotState::Active(session), session_id);
            &&& status_of(kept, ended, log) == Some(told(session.info, ended, log))
            &&& status_of(kept, ended, log)->0.session_id == session.info.session_id
            &&& stop_refusal(kept, session.info.session_id) is None
        }),
{
}

/// A stop that takes too long, or whose recorder could not be asked to end, leaves the session
/// as it was, told as before and ready to be stopped.
pub proof fn failed_stop_keeps_the_session(
    session: ActiveRecord,
    running: bool,
    looks: Seq<Look>,
    waited_ms: u128,
    cause: String,
    ended: Option<ExitReport>,
    log: Option<Seq<u8>>,
)
    requires
        still_waiting(looks),
        waited_ms >= STOP_TIMEOUT_MS,
    ensures
        ({
            let late = after_stop(session, running, looks.push(Look { ended: None, waited_ms }));
            let taken = after_take(SlotState::Active(session), session.info.session_id);
            let unasked = after_interrupt(session, after_begin(taken, Ok(false)), Err(cause));
            &&& late == SlotState::Active(session)
            &&& unasked == SlotState::Active(session)
            &&& status_of(late, ended, log) == Some(told(session.info, ended, log))
            &&& status_of(late, ended, log)->0.session_id == session.info.session_id
            &&& stop_refusal(late, session.info.session_id) is None
        }),
{
    waiting_keeps_the_place(session, running, looks);
    let all = looks.push(Look { ended: None, waited_ms });
    assert(all.drop_last() =~= looks);
}

/// A stop whose recorder ends, however often it was looked for, tells how it ended and keeps
/// what else is known of the session. There is no session afterwards: none is told, none can
/// be stopped, and another can be started.
pub proof fn completed_stop_tells_the_end(
    session: ActiveRecord,
    running: bool,
    looks: Seq<Look>,
    status: ExitReport,
    waited_ms: u128,
    log: Option<Seq<u8>>,
    exited: Result<bool, String>,
)
    requires
        still_waiting(looks),
    ensures
        ({
            let info = session::finished(session.info, status, log);
            &&& info.state == if status.success {
                "completed"@
            } else {
                "failed"@
            }
            &&& info.exit_code == status.code
            &&& info.session_id == session.info.session_id
            &&& info.pid == session.info.pid
            &&& info.video_path == session.info.video_path
            &&& info.telemetry_path == session.info.telemetry_path
        }),
        ({
            let after = after_stop(
                session,
                running,
                looks.push(Look { ended: Some(status), waited_ms }),
            );
            &&& after == SlotState::Empty
            &&& status_of(after, None, None) is None
            &&& stop_refusal(after, session.info.session_id) == Some(
                "no recording session exists"@,
            )
            &&& start_refusal(after, exited) is None
        }),
{
    waiting_keeps_the_place(session, running, looks);
    let all = looks.push(Look { ended: Some(status), waited_ms });
    assert(all.drop_last() =~= looks);
}

/// What was seen of a session when it was asked for: how its recorder ended, if it has, and
/// what its diagnostic log held, if it could be read.
pub struct Seen {
    pub ended: Option<ExitReport>,
    pub log: Option<Seq<u8>>,
}

/// A slot whose session was asked for a number of times.
pub open spec fn after_statuses(state: SlotState, seen: Seq<Seen>) -> SlotState
    decreases seen.len(),
{
    if seen.len() == 0 {
        state
    } else {
        after_status(after_statuses(state, seen.drop_last()), seen.last().ended, seen.last().log)
    }
}

/// Whether a recorder that was seen to have ended was seen so ever after.
pub open spec fn ends_once(seen: Seq<Seen>) -> bool {
    forall|i: int, j: int|
        0 <= i < j < seen.len() && (#[trigger] seen[i]).ended is Some ==> (#[trigger] seen[j]).ended
            == seen[i].ended
}

/// A session that has ended and is asked for again is told the same and stays the same, for as
/// long as its log says the same. A success does not depend on the log.
pub proof fn repeated_status_is_the_same(
    state: SlotState,
    status: ExitReport,
    log: Option<Seq<u8>>,
    later: Option<Seq<u8>>,
)
    requires
        status.success || session::diagnostic(log) == session::diagnostic(later),
    ensures
        ({
            let once = after_status(state, Some(status), log);
            &&& status_of(once, Some(status), later) == status_of(state, Some(status), log)
            &&& after_status(once, Some(status), later) == once
        }),
{
    if let SlotState::Active(active) = state {
        session::ended_session_is_told_again(active.info, status, log, later);
    }
}

/// The session stays in the slot however often it is asked for. It is told as `recording` as
/// long as its recorder runs and, once that has ended, as `completed` or `failed`.
pub proof fn status_follows_the_recorder(session: ActiveRecord, seen: Seq<Seen>)
    requires
        session.info.state == "recording"@,
        ends_once(seen),
        seen.len() > 0,
    ensures
        after_statuses(SlotState::Active(session), seen) is Active,
        ({
            let info = after_statuses(SlotState::Active(session), seen)->Active_0.info;
            let ended = seen.last().ended;
            &&& status_of(
                after_statuses(SlotState::Active(session), seen.drop_last()),
                ended,
                seen.last().log,
            ) == Some(info)
            &&& info.state == "recording"@ <==> ended is None
            &&& info.state == "completed"@ <==> (ended matches Some(status) && status.success)
            &&& info.state == "failed"@ <==> (ended matches Some(status) && !status.success)
            &&& ended is None ==> info == session.info
            &&& info.session_id == session.info.session_id
        }),
    decreases seen.len(),
{
    reveal_strlit("recording");
    reveal_strlit("completed");
    reveal_strlit("failed");
    assert("recording"@[0] == 'r' && "completed"@[0] == 'c' && "failed"@[0] == 'f');
    let rest = seen.drop_last();
    if rest.len() > 0 {
        assert forall|i: int, j: int|
            0 <= i < j < rest.len() && (#[trigger] rest[i]).ended is Some implies (
        #[trigger] rest[j]).ended == rest[i].ended by {
            assert(rest[i] == seen[i] && rest[j] == seen[j]);
        }
        status_follows_the_recorder(session, rest);
        assert(rest.last() == seen[seen.len() - 2]);
        assert(seen.last() == seen[seen.len() - 1]);
    }
}

/// A recorder that is being stopped is waited for until 20 seconds have passed: before that the
/// place is kept, then the session is put back. One that ended, or cannot be observed, leaves.
pub proof fn stop_waits_for_twenty_seconds(
    session: ActiveRecord,
    state: SlotState,
    status: ExitReport,
    cause: String,
    waited_ms: u128,
)
    ensures
        waited_ms < 20_000 ==> after_look(session, state, Ok(None), waited_ms) == state,
        waited_ms >= 20_000 ==> after_look(session, state, Ok(None), waited_ms)
            == SlotState::Active(session),
        after_look(session, state, Ok(Some(status)), waited_ms) is Empty,
        after_look(session, state, Err(cause), waited_ms) is Empty,
        after_begin(state, Err(cause)) is Empty,
        after_begin(state, Ok(true)) == state,
        after_begin(state, Ok(false)) == state,
        after_interrupt(session, state, Ok(())) == state,
        after_interrupt(session, state, Err(cause)) == SlotState::Active(session),
{
}

/// A start makes room exactly if there is no session or the recorder of the one that there is has
/// ended. Otherwise nothing changes, and the refusal names the session that is in the way, or why
/// its recorder could not be observed.
pub proof fn start_makes_room_or_changes_nothing(state: SlotState, exited: Result<bool, String>)
    ensures
        start_refusal(state, exited) is None <==> state is Empty || (state is Active && exited
            == Ok::<bool, String>(true)),
        start_refusal(state, exited) is None ==> after_start(state, exited) is Empty,
        start_refusal(state, exited) is Some ==> after_start(state, exited) == state,
        state is Active && exited is Err ==> start_refusal(state, exited) == Some(
            exited->Err_0@,
        ),
        state is Active && exited == Ok::<bool, String>(false) ==> start_refusal(state, exited)
            == Some("recording "@ + state->Active_0.info.session_id + " is already active"@),
        state is Stopping ==> start_refusal(state, exited) == Some(
            "recording "@ + state->Stopping_0 + " is already active"@,
        ),
{
}

/// A stop takes out the active session by its identifier and keeps its place under it; it changes
/// nothing otherwise.
pub proof fn stop_keeps_the_place(state: SlotState, session_id: Seq<char>)
    ensures
        state is Active && state->Active_0.info.session_id == session_id ==> after_take(
            state,
            session_id,
        ) == SlotState::Stopping(session_id),
        !(state is Active && state->Active_0.info.session_id == session_id) ==> after_take(
            state,
            session_id,
        ) == state,
        !(state is Active) ==> stop_refusal(state, session_id) == Some(
            "no recording session exists"@,
        ),
{
}

/// Asking for a session tells the end of its recorder, if it has ended, keeps what it tells, and
/// changes nothing else. Where no session is active, none is told.
pub proof fn status_keeps_what_it_tells(
    state: SlotState,
    ended: Option<ExitReport>,
    log: Option<Seq<u8>>,
)
    ensures
        status_of(state, ended, log) is Some <==> state is Active,
        !(state is Active) ==> after_status(state, ended, log) == state,
        state is Active ==> {
            &&& after_status(state, ended, log) is Active
            &&& after_status(state, ended, log)->Active_0.log == state->Active_0.log
            &&& Some(after_status(state, ended, log)->Active_0.info) == status_of(
                state,
                ended,
                log,
            )
            &&& ended is None ==> status_of(state, ended, log) == Some(state->Active_0.info)
            &&& ended is Some ==> status_of(state, ended, log)->0.exit_code == ended->0.code
        },
{
}

/// A request to record beside a session whose recorder runs, or which is being stopped, is refused
/// with the identifier of that session; beside one that cannot be observed, with the reason. The
/// slot then stays as it is. Otherwise the slot is empty, and the request is taken unless its
/// directory is not known.
pub proof fn a_request_finds_room_or_is_refused(
    slot: &mut HyprrecMcp,
    exited: Result<bool, String>,
    params: StartParams,
    user_dirs: Option<&UserDirs>,
    outcome: Result<Request, McpError>,
)
    requires
        call_ensures(HyprrecMcp::start, (slot, exited, params, user_dirs), outcome),
    ensures
        old(slot)@ is Active && exited == Ok::<bool, String>(false) ==> outcome is Err
            && outcome->Err_0.words() == "recording "@ + old(slot)@->Active_0.info.session_id
            + " is already active"@ && final(slot)@ == old(slot)@,
        old(slot)@ is Active && exited is Err ==> outcome is Err && outcome->Err_0.words()
            == exited->Err_0@ && final(slot)@ == old(slot)@,
        old(slot)@ is Stopping ==> outcome is Err && outcome->Err_0.words() == "recording "@
            + old(slot)@->Stopping_0 + " is already active"@ && final(slot)@ == old(slot)@,
        old(slot)@ is Empty || (old(slot)@ is Active && exited == Ok::<bool, String>(true)) ==> {
            &&& final(slot)@ is Empty
            &&& outcome is Ok <==> params.dir is Some || user_dirs is Some
            &&& outcome is Err ==> outcome->Err_0.words() == "could not find home directory"@
        },
        outcome is Ok ==> outcome->Ok_0.params() == params,
        outcome is Ok && params.dir is Some ==> outcome->Ok_0.target_directory()
            == params.dir->0@,
{
}

/// A stop hands out the active session if the identifier is its own, and keeps its place; with
/// another identifier, or without a session, it changes nothing and says so.
pub proof fn a_stop_takes_the_session_it_names(
    slot: &mut HyprrecMcp,
    session_id: &'static str,
    outcome: Result<StoppingSession, McpError>,
)
    requires
        call_ensures(HyprrecMcp::stop, (slot, session_id), outcome),
    ensures
        outcome is Ok <==> old(slot)@ is Active && old(slot)@->Active_0.info.session_id
            == session_id@,
        outcome is Ok ==> outcome->Ok_0@ == old(slot)@->Active_0 && final(slot)@
            == SlotState::Stopping(session_id@),
        outcome is Err ==> final(slot)@ == old(slot)@,
        outcome is Err && old(slot)@ is Active ==> outcome->Err_0.words()
            == "unknown session ID; active session is "@ + old(slot)@->Active_0.info.session_id,
        outcome is Err && !(old(slot)@ is Active) ==> outcome->Err_0.words()
            == "no recording session exists"@,
{
}

/// Asking for the session tells it as it is while its recorder runs, tells how it ended once it
/// has, and keeps that. The log of a success is no longer needed. A recorder that cannot be
/// observed changes nothing.
pub proof fn asking_tells_the_session(
    slot: &mut HyprrecMcp,
    exited: Result<Option<ExitReport>, String>,
    log: Option<Vec<u8>>,
    outcome: Result<Option<SessionReport>, McpError>,
)
    requires
        call_ensures(HyprrecMcp::status, (slot, exited, &log), outcome),
    ensures
        !(old(slot)@ is Active) ==> outcome is Ok && outcome->Ok_0 is None && final(slot)@
            == old(slot)@,
        old(slot)@ is Active && exited is Err ==> outcome is Err && outcome->Err_0.words()
            == exited->Err_0@ && final(slot)@ == old(slot)@,
        old(slot)@ is Active && exited is Ok ==> {
            &&& outcome is Ok && outcome->Ok_0 is Some
            &&& final(slot)@ is Active
            &&& final(slot)@->Active_0.info == outcome->Ok_0->0.info@
            &&& final(slot)@->Active_0.log == old(slot)@->Active_0.log
            &&& outcome->Ok_0->0.info@.session_id == old(slot)@->Active_0.info.session_id
            &&& exited->Ok_0 is None ==> outcome->Ok_0->0.info@ == old(slot)@->Active_0.info
                && outcome->Ok_0->0.obsolete_log is None
            &&& exited->Ok_0 is Some ==> {
                &&& outcome->Ok_0->0.info@.exit_code == exited->Ok_0->0.code
                &&& outcome->Ok_0->0.info@.state == if exited->Ok_0->0.success {
                    "completed"@
                } else {
                    "failed"@
                }
                &&& outcome->Ok_0->0.obsolete_log is Some <==> exited->Ok_0->0.success
                &&& exited->Ok_0->0.success ==> outcome->Ok_0->0.obsolete_log->0@
                    == old(slot)@->Active_0.log
            }
        },
{
    if old(slot)@ is Active && exited is Ok && exited->Ok_0 is Some {
        session::the_end_changes_the_outcome_only(
            old(slot)@->Active_0.info,
            exited->Ok_0->0,
            session::optional_bytes(log),
        );
    }
}

/// A recorder that runs is asked to end and one that has ended is waited for; one that cannot be
/// observed is lost, and its place is free.
pub proof fn stopping_begins_with_a_look(
    stopping: StoppingSession,
    slot: &mut HyprrecMcp,
    exited: Result<bool, String>,
    step: StopStep,
)
    requires
        call_ensures(StoppingSession::begin, (stopping, slot, exited), step),
    ensures
        exited == Ok::<bool, String>(false) ==> step == StopStep::Interrupt(stopping)
            && final(slot)@ == old(slot)@,
        exited == Ok::<bool, String>(true) ==> step == StopStep::Wait(stopping) && final(slot)@
            == old(slot)@,
        exited is Err ==> final(slot)@ is Empty && step is Fail && step->Fail_0.words()
            == exited->Err_0@,
{
}

/// A recorder that was asked to end is waited for; one that could not be asked keeps its session.
pub proof fn an_unasked_recorder_keeps_its_session(
    stopping: StoppingSession,
    slot: &mut HyprrecMcp,
    sent: Result<(), String>,
    outcome: Result<StoppingSession, McpError>,
)
    requires
        call_ensures(StoppingSession::interrupted, (stopping, slot, sent), outcome),
    ensures
        sent is Ok ==> outcome == Ok::<StoppingSession, McpError>(stopping) && final(slot)@
            == old(slot)@,
        sent is Err ==> outcome is Err && outcome->Err_0.words() == "could not signal recorder: "@
            + sent->Err_0@ && final(slot)@ == SlotState::Active(stopping@),
{
}

/// A recorder is waited for until it has ended, cannot be observed, or 20 seconds have passed, of
/// which only the last puts the session back.
pub proof fn waiting_ends_in_time(
    stopping: StoppingSession,
    slot: &mut HyprrecMcp,
    exited: Result<Option<ExitReport>, String>,
    waited_ms: u128,
    step: WaitStep,
)
    requires
        call_ensures(StoppingSession::wait, (stopping, slot, exited, waited_ms), step),
    ensures
        exited is Err ==> final(slot)@ is Empty && step is Fail && step->Fail_0.words()
            == exited->Err_0@,
        exited is Ok && exited->Ok_0 is Some ==> final(slot)@ is Empty && step
            == WaitStep::Finish(stopping, exited->Ok_0->0),
        exited is Ok && exited->Ok_0 is None && waited_ms < 20_000 ==> final(slot)@ == old(slot)@
            && step == WaitStep::Sleep(stopping),
        exited is Ok && exited->Ok_0 is None && waited_ms >= 20_000 ==> final(slot)@
            == SlotState::Active(stopping@) && step is Fail && step->Fail_0.words()
            == "recorder did not finalize within 20 seconds; session remains active"@,
{
}

/// A session that was stopped is told with its end, and the log of a success is no longer needed.
pub proof fn a_stopped_session_is_told(
    stopping: StoppingSession,
    status: ExitReport,
    log: Option<Vec<u8>>,
    report: SessionReport,
)
    requires
        call_ensures(StoppingSession::finish, (stopping, status, &log), report),
    ensures
        report.info@.session_id == stopping@.info.session_id,
        report.info@.video_path == stopping@.info.video_path,
        report.info@.telemetry_path == stopping@.info.telemetry_path,
        report.info@.exit_code == status.code,
        report.info@.state == if status.success {
            "completed"@
        } else {
            "failed"@
        },
        !status.success ==> report.info@.error == session::diagnostic(
            session::optional_bytes(log),
        ),
        report.obsolete_log is Some <==> status.success,
        status.success ==> report.obsolete_log->0@ == stopping@.log,
{
    session::the_end_changes_the_outcome_only(
        stopping@.info,
        status,
        session::optional_bytes(log),
    );
}

/// A recorder's group is addressed by the negative of its process identifier, in 32 bits.
pub proof fn a_group_is_addressed_by_the_negative(pid: u32, group: i32)
    requires
        pid != 0x8000_0000,
        call_ensures(process_group, (pid,), group),
    ensures
        pid + group == 0 || pid + group == 0x1_0000_0000,
        pid < 0x8000_0000 ==> pid + group == 0,
{
}

} // verus!
