//! What a recording session is asked for, what it is told by, and how it ends.

use vstd::prelude::*;

use crate::options::{Quality, TelemetryKind};
use crate::path;
use crate::path::FilePath;
use crate::text;

verus! {

/// How much of a diagnostic log is reported, in bytes.
pub const MAX_DIAGNOSTIC_BYTES: usize = 16384;

/// What a request records.
#[derive(Clone, Copy, Debug, PartialEq, Eq, Structural)]
pub enum CaptureTarget {
    FocusedMonitor,
    Region,
}

impl Default for CaptureTarget {
    /// What a request records that does not say.
    fn default() -> (r: CaptureTarget)
        ensures
            r == CaptureTarget::FocusedMonitor,
    {
        CaptureTarget::FocusedMonitor
    }
}

/// A request to record.
#[derive(Debug)]
pub struct StartParams {
    pub dir: Option<FilePath>,
    pub name: Option<String>,
    pub quality: Quality,
    pub audio: bool,
    pub target: CaptureTarget,
    pub telemetry: Vec<TelemetryKind>,
}

/// What is told of a session.
#[derive(Debug, PartialEq, Eq)]
pub struct SessionInfo {
    pub session_id: String,
    pub state: &'static str,
    pub pid: u32,
    pub video_path: FilePath,
    pub telemetry_path: Option<FilePath>,
    pub started_at: String,
    pub quality: Quality,
    pub audio: bool,
    pub target: CaptureTarget,
    pub exit_code: Option<i32>,
    pub error: Option<String>,
    pub diagnostic_log_path: Option<FilePath>,
}

/// What is told of a session, as values.
pub struct SessionRecord {
    pub session_id: Seq<char>,
    pub state: Seq<char>,
    pub pid: u32,
    pub video_path: Seq<u8>,
    pub telemetry_path: Option<Seq<u8>>,
    pub started_at: Seq<char>,
    pub quality: Quality,
    pub audio: bool,
    pub target: CaptureTarget,
    pub exit_code: Option<i32>,
    pub error: Option<Seq<char>>,
    pub diagnostic_log_path: Option<Seq<u8>>,
}

/// The characters of a text, if there is one.
pub open spec fn optional_text(value: Option<String>) -> Option<Seq<char>> {
    match value {
        Some(value) => Some(value@),
        None => None,
    }
}

/// The bytes of a path, if there is one.
pub open spec fn optional_path(value: Option<FilePath>) -> Option<Seq<u8>> {
    match value {
        Some(value) => Some(value@),
        None => None,
    }
}

fn copy_text(value: &Option<String>) -> (r: Option<String>)
    ensures
        optional_text(r) == optional_text(*value),
{
    match value {
        Some(value) => Some(value.as_str().to_owned()),
        None => None,
    }
}

fn copy_path(value: &Option<FilePath>) -> (r: Option<FilePath>)
    ensures
        optional_path(r) == optional_path(*value),
{
    match value {
        Some(value) => Some(value.clone()),
        None => None,
    }
}

impl View for SessionInfo {
    type V = SessionRecord;

    open spec fn view(&self) -> SessionRecord {
        SessionRecord {
            session_id: self.session_id@,
            state: self.state@,
            pid: self.pid,
            video_path: self.video_path@,
            telemetry_path: optional_path(self.telemetry_path),
            started_at: self.started_at@,
            quality: self.quality,
            audio: self.audio,
            target: self.target,
            exit_code: self.exit_code,
            error: optional_text(self.error),
            diagnostic_log_path: optional_path(self.diagnostic_log_path),
        }
    }
}

impl Clone for SessionInfo {
    fn clone(&self) -> (r: SessionInfo)
        ensures
            r@ == self@,
    {
        SessionInfo {
            session_id: self.session_id.as_str().to_owned(),
            state: self.state,
            pid: self.pid,
            video_path: self.video_path.clone(),
            telemetry_path: copy_path(&self.telemetry_path),
            started_at: self.started_at.as_str().to_owned(),
            quality: self.quality,
            audio: self.audio,
            target: self.target,
            exit_code: self.exit_code,
            error: copy_text(&self.error),
            diagnostic_log_path: copy_path(&self.diagnostic_log_path),
        }
    }
}

/// Whether a character is a digit of a lower-case hexadecimal number.
pub open spec fn is_hex_digit(c: char) -> bool {
    ('0' <= c && c <= '9') || ('a' <= c && c <= 'f')
}

/// Whether a text is a random UUID without hyphens: 32 hexadecimal digits, of which the 13th
/// says that it is random and the 17th that it is laid out as in RFC 9562.
pub open spec fn is_random_uuid(s: Seq<char>) -> bool {
    &&& s.len() == 32
    &&& forall|i: int| 0 <= i < 32 ==> is_hex_digit(#[trigger] s[i])
    &&& s[12] == '4'
    &&& s[16] == '8' || s[16] == '9' || s[16] == 'a' || s[16] == 'b'
}

/// `uuid::Uuid::new_v4` in the format of `Uuid::simple`. Which UUID it is is left to chance;
/// the claim is about its form.
#[verifier::external_body]
fn random_uuid() -> (r: String)
    ensures
        is_random_uuid(r@),
{
    uuid::Uuid::new_v4().simple().to_string()
}

/// Whether a UUID was drawn, once, that is written so.
pub closed spec fn uuid_was_drawn(s: Seq<char>) -> bool {
    exists|drawn: String| call_ensures(random_uuid, (), drawn) && #[trigger] drawn@ == s
}

/// A new identifier for a session.
pub fn new_session_id() -> (r: String)
    ensures
        r@.len() == 36,
        "rec_"@.is_prefix_of(r@),
        is_random_uuid(r@.skip(4)),
        uuid_was_drawn(r@.skip(4)),
{
    let uuid = random_uuid();
    let id = text::concat2("rec_", uuid.as_str());
    proof {
        reveal_strlit("rec_");
        assert(id@.skip(4) =~= uuid@);
        assert(id@.subrange(0, 4) =~= "rec_"@);
    }
    id
}

/// How a process ended.
#[derive(Clone, Copy, Debug, PartialEq, Eq, Structural)]
pub struct ExitReport {
    pub success: bool,
    /// The exit code, unless a signal ended the process.
    pub code: Option<i32>,
}

/// What a diagnostic log says in the end, if anything.
pub open spec fn diagnostic_tail(log: Seq<u8>) -> Option<Seq<char>> {
    let start = if log.len() > MAX_DIAGNOSTIC_BYTES {
        log.len() - MAX_DIAGNOSTIC_BYTES
    } else {
        0
    };
    let message = text::trimmed(path::lossy_text(log.skip(start)));
    if message.len() > 0 {
        Some(message)
    } else {
        None
    }
}

/// What is told of a log that could be read or not.
pub open spec fn diagnostic(log: Option<Seq<u8>>) -> Option<Seq<char>> {
    match log {
        Some(log) => diagnostic_tail(log),
        None => None,
    }
}

/// The bytes of a log that could be read or not.
pub open spec fn optional_bytes(log: Option<Vec<u8>>) -> Option<Seq<u8>> {
    match log {
        Some(log) => Some(log@),
        None => None,
    }
}

/// What the log of a failed recording says in its last part, without surrounding white space.
/// `log` is what the file holds, if it could be read.
pub fn read_diagnostic_tail(log: &Option<Vec<u8>>) -> (r: Option<String>)
    ensures
        optional_text(r) == diagnostic(optional_bytes(*log)),
{
    let log = match log {
        Some(log) => log,
        None => {
            return None;
        },
    };
    let start: usize = if log.len() > MAX_DIAGNOSTIC_BYTES {
        log.len() - MAX_DIAGNOSTIC_BYTES
    } else {
        0
    };
    let mut tail: Vec<u8> = Vec::new();
    let mut i: usize = start;
    while i < log.len()
        invariant
            start <= i <= log.len(),
            tail@ =~= log@.subrange(start as int, i as int),
        decreases log.len() - i,
    {
        tail.push(log[i]);
        i += 1;
    }
    assert(tail@ =~= log@.skip(start as int));
    let message = path::utf8_lossy(tail.as_slice());
    let message = text::trim(message.as_str());
    if message.is_empty() {
        None
    } else {
        Some(message.to_owned())
    }
}

/// What is told of a session whose recorder ended.
pub open spec fn finished(
    record: SessionRecord,
    status: ExitReport,
    log: Option<Seq<u8>>,
) -> SessionRecord {
    SessionRecord {
        state: if status.success {
            "completed"@
        } else {
            "failed"@
        },
        exit_code: status.code,
        error: if status.success {
            None
        } else {
            diagnostic(log)
        },
        diagnostic_log_path: if status.success {
            None
        } else {
            record.diagnostic_log_path
        },
        ..record
    }
}

/// What is told of an ended session is told again, for as long as its log says the same. A
/// success does not depend on the log.
pub proof fn ended_session_is_told_again(
    record: SessionRecord,
    status: ExitReport,
    log: Option<Seq<u8>>,
    later: Option<Seq<u8>>,
)
    requires
        status.success || diagnostic(log) == diagnostic(later),
    ensures
        finished(finished(record, status, log), status, later) == finished(record, status, log),
{
}

/// Takes note of how a recorder ended. `log` is what its diagnostic log holds, if it could be
/// read. The log of a success is no longer needed.
pub fn finish_info(info: &mut SessionInfo, status: ExitReport, log: &Option<Vec<u8>>)
    ensures
        final(info)@ == finished(old(info)@, status, optional_bytes(*log)),
{
    info.exit_code = status.code;
    if status.success {
        info.state = "completed";
        info.diagnostic_log_path = None;
        info.error = None;
    } else {
        info.state = "failed";
        info.error = read_diagnostic_tail(log);
    }
}

/// Of a diagnostic log only the last 16 KiB are told: whatever comes before them makes no
/// difference. A log that is no longer than that is told whole, without surrounding white space,
/// unless nothing is left of it.
pub proof fn only_the_end_of_a_log_is_told(before: Seq<u8>, end: Seq<u8>)
    ensures
        end.len() == 16384 ==> diagnostic_tail(before + end) == diagnostic_tail(end),
        end.len() <= 16384 ==> (diagnostic_tail(end) is Some <==> text::trimmed(
            path::lossy_text(end),
        ).len() > 0),
        end.len() <= 16384 && diagnostic_tail(end) is Some ==> diagnostic_tail(end)->0
            == text::trimmed(path::lossy_text(end)),
{
    let whole = before + end;
    assert(whole.skip(before.len() as int) =~= end);
    assert(end.skip(0) =~= end);
    if end.len() == 16384 && before.len() == 0 {
        assert(whole =~= end);
    }
}

/// The end of a recorder changes what is told of its outcome and nothing else. A failure keeps its
/// log and tells what it says; a success needs neither.
pub proof fn the_end_changes_the_outcome_only(
    record: SessionRecord,
    status: ExitReport,
    log: Option<Seq<u8>>,
)
    ensures
        ({
            let after = finished(record, status, log);
            &&& after.session_id == record.session_id
            &&& after.pid == record.pid
            &&& after.video_path == record.video_path
            &&& after.telemetry_path == record.telemetry_path
            &&& after.started_at == record.started_at
            &&& after.quality == record.quality
            &&& after.audio == record.audio
            &&& after.target == record.target
            &&& after.exit_code == status.code
            &&& status.success ==> after.state == "completed"@ && after.error is None
                && after.diagnostic_log_path is None
            &&& !status.success ==> after.state == "failed"@ && after.diagnostic_log_path
                == record.diagnostic_log_path
            &&& !status.success && log is None ==> after.error is None
            &&& !status.success && log is Some ==> after.error == diagnostic_tail(log->0)
        }),
{
}

/// Taking note of how a recorder ended changes what is told of a session accordingly.
pub proof fn noting_the_end_tells_it(
    info: &mut SessionInfo,
    status: ExitReport,
    log: Option<Vec<u8>>,
)
    requires
        call_ensures(finish_info, (info, status, &log), ()),
    ensures
        final(info)@ == finished(old(info)@, status, optional_bytes(log)),
        status.success ==> final(info)@.state == "completed"@ && final(info)@.error is None
            && final(info)@.diagnostic_log_path is None,
        !status.success ==> final(info)@.state == "failed"@
            && final(info)@.diagnostic_log_path == old(info)@.diagnostic_log_path,
        final(info)@.exit_code == status.code,
        final(info)@.session_id == old(info)@.session_id,
{
    the_end_changes_the_outcome_only(old(info)@, status, optional_bytes(log));
}

/// A session identifier is `rec_` and a UUID that was drawn for it.
pub proof fn sessions_have_identifiers_of_their_own(id: String)
    requires
        call_ensures(new_session_id, (), id),
    ensures
        id@.len() == 36,
        id@.take(4) == "rec_"@,
        uuid_was_drawn(id@.skip(4)),
{
    reveal_strlit("rec_");
    assert(id@.take(4) =~= "rec_"@);
}

} // verus!
