//! How a requested session is started, from the request to the running recorder.

use vstd::prelude::*;
use vstd::utf8::*;

use crate::clock;
use crate::clock::Timestamp;
use crate::command;
use crate::command::Argument;
use crate::error;
use crate::error::McpError;
use crate::naming;
use crate::options;
use crate::options::TelemetryKind;
use crate::path;
use crate::path::FilePath;
use crate::places;
use crate::places::UserDirs;
use crate::session;
use crate::session::{CaptureTarget, SessionInfo, SessionRecord, StartParams};
use crate::slot;
use crate::slot::{ActiveRecord, Seen, HyprrecMcp, SlotState};
use crate::text;

verus! {

/// The words for telemetry categories, with commas between them.
pub open spec fn joined_words(kinds: Seq<TelemetryKind>) -> Seq<char>
    decreases kinds.len(),
{
    if kinds.len() == 0 {
        seq![]
    } else if kinds.len() == 1 {
        options::kind_word(kinds[0])
    } else {
        joined_words(kinds.drop_last()) + ","@ + options::kind_word(kinds.last())
    }
}

fn join_kinds(kinds: &Vec<TelemetryKind>) -> (r: String)
    ensures
        r@ == joined_words(kinds@),
{
    let mut out = String::new();
    let mut i: usize = 0;
    while i < kinds.len()
        invariant
            i <= kinds.len(),
            out@ =~= joined_words(kinds@.take(i as int)),
        decreases kinds.len() - i,
    {
        if i > 0 {
            out.append(",");
        }
        out.append(kinds[i].as_arg());
        assert(kinds@.take(i + 1).drop_last() =~= kinds@.take(i as int));
        i += 1;
    }
    assert(kinds@.take(i as int) =~= kinds@);
    out
}

/// The arguments that the recorder is started with for a request.
pub open spec fn launch_command(directory: Seq<u8>, basename: Seq<char>, params: StartParams) -> Seq<
    Seq<u8>,
> {
    command::word_bytes(seq!["--dir"@]) + seq![directory] + command::word_bytes(
        seq!["--name"@, basename, "--quality"@, options::quality_word(params.quality)] + (
        if params.audio {
            seq!["--audio"@]
        } else {
            seq![]
        }) + (if params.target == CaptureTarget::Region {
            seq!["--region"@]
        } else {
            seq![]
        }) + (if params.telemetry@.len() > 0 {
            seq!["--telemetry"@, joined_words(params.telemetry@)]
        } else {
            seq![]
        }),
    )
}

fn launch_args(directory: &FilePath, basename: &str, params: &StartParams) -> (r: Vec<Argument>)
    ensures
        command::argument_bytes(r@) == launch_command(directory@, basename@, *params),
{
    let mut args: Vec<Argument> = Vec::new();
    command::push_word(&mut args, "--dir");
    command::push_path(&mut args, directory);
    command::push_words(&mut args, "--name", basename);
    command::push_words(&mut args, "--quality", params.quality.as_arg());
    if params.audio {
        command::push_word(&mut args, "--audio");
    }
    if params.target == CaptureTarget::Region {
        command::push_word(&mut args, "--region");
    }
    if params.telemetry.len() > 0 {
        command::push_words(&mut args, "--telemetry", join_kinds(&params.telemetry).as_str());
    }
    assert(command::argument_bytes(args@) =~= launch_command(directory@, basename@, *params));
    args
}

/// A request whose directory has to be made next.
#[derive(Debug)]
pub struct Request {
    params: StartParams,
    directory: FilePath,
}

/// A request whose place has to be found free next.
#[derive(Debug)]
pub struct PlacedRequest {
    params: StartParams,
    directory: FilePath,
    basename: String,
    video: FilePath,
}

/// A request whose recorder has to be started next.
#[derive(Debug)]
pub struct Launch {
    params: StartParams,
    directory: FilePath,
    basename: String,
    session_id: String,
    video: FilePath,
    sidecar: Option<FilePath>,
    log: FilePath,
    arguments: Vec<Argument>,
}

impl Request {
    /// What was requested.
    pub closed spec fn params(self) -> StartParams {
        self.params
    }

    /// The directory to be made.
    pub closed spec fn target_directory(self) -> Seq<u8> {
        self.directory@
    }

    /// Takes a request.
    pub fn accept(params: StartParams, user_dirs: Option<&UserDirs>) -> (r: Result<
        Request,
        McpError,
    >)
        ensures
            r is Ok <==> params.dir is Some || user_dirs is Some,
            r matches Ok(request) ==> {
                &&& request.params() == params
                &&& request.target_directory() == match params.dir {
                    Some(given) => given@,
                    None => places::default_directory(*user_dirs->0),
                }
            },
            r matches Err(error) ==> error.words() == "could not find home directory"@,
    {
        let given = match &params.dir {
            Some(directory) => Some(directory.clone()),
            None => None,
        };
        match places::resolve_dir(given, user_dirs) {
            Ok(directory) => Ok(Request { params, directory }),
            Err(error) => Err(error),
        }
    }

    /// The directory to be made, with its parents.
    pub fn directory(&self) -> (r: &FilePath)
        ensures
            r@ == self.target_directory(),
    {
        &self.directory
    }

    /// Goes on once making the directory succeeded, or ends with the error of making it.
    pub fn directory_made(self, made: Result<(), String>, now: Timestamp) -> (r: Result<
        PlacedRequest,
        McpError,
    >)
        ensures
            r is Ok <==> made is Ok && (self.params().name matches Some(name)
                ==> naming::is_basename(naming::normalized(name@))),
            r matches Ok(placed) ==> {
                &&& placed.params() == self.params()
                &&& placed.target_directory() == self.target_directory()
                &&& placed.name() == match self.params().name {
                    Some(name) => naming::normalized(name@),
                    None => naming::generated_name(now),
                }
            },
            r matches Err(error) ==> error.words() == match made {
                Err(cause) => cause@,
                Ok(_) => "name must be a non-empty basename"@,
            },
    {
        if let Err(cause) = made {
            return Err(error::io_error(cause));
        }
        let name: Option<String> = match &self.params.name {
            Some(name) => Some(name.as_str().to_owned()),
            None => None,
        };
        let basename = match naming::normalize_name_at(name, now) {
            Ok(basename) => basename,
            Err(error) => {
                return Err(error);
            },
        };
        let file = naming::announced_file_name(basename.as_str());
        let video = self.directory.join(&FilePath::from_text(file.as_str()));
        Ok(PlacedRequest { params: self.params, directory: self.directory, basename, video })
    }
}

/// The video of a requested recording.
pub open spec fn requested_video(directory: Seq<u8>, basename: Seq<char>) -> Seq<u8> {
    path::joined(directory, encode_utf8(naming::announced_file(basename)))
}

/// Why a request would overwrite something, if it would: the video or, if telemetry is written,
/// its file.
pub open spec fn overwrite_refusal(
    video: Seq<u8>,
    telemetry: Seq<TelemetryKind>,
    video_exists: bool,
    sidecar_exists: bool,
) -> Option<Seq<char>> {
    if video_exists {
        Some("refusing to overwrite "@ + path::lossy_text(video))
    } else if telemetry.len() > 0 && sidecar_exists {
        Some("telemetry sidecar already exists"@)
    } else {
        None
    }
}

/// The diagnostic log of a session: a hidden file beside the video.
pub open spec fn session_log(directory: Seq<u8>, basename: Seq<char>, session_id: Seq<char>) -> Seq<
    u8,
> {
    path::joined(directory, encode_utf8("."@ + basename + "."@ + session_id + ".log"@))
}

impl PlacedRequest {
    #[verifier::type_invariant]
    spec fn well_formed(self) -> bool {
        self.video@ == requested_video(self.directory@, self.basename@)
    }

    /// What was requested.
    pub closed spec fn params(self) -> StartParams {
        self.params
    }

    /// The directory of the recording.
    pub closed spec fn target_directory(self) -> Seq<u8> {
        self.directory@
    }

    /// What the recording is called.
    pub closed spec fn name(self) -> Seq<char> {
        self.basename@
    }

    /// Where the video goes.
    pub fn video(&self) -> (r: &FilePath)
        ensures
            r@ == requested_video(self.target_directory(), self.name()),
    {
        proof {
            use_type_invariant(self);
        }
        &self.video
    }

    /// Where telemetry goes, if any is written.
    pub fn sidecar(&self) -> (r: Option<FilePath>)
        ensures
            r is Some <==> self.params().telemetry@.len() > 0,
            r matches Some(sidecar) ==> sidecar@ == naming::sidecar(
                requested_video(self.target_directory(), self.name()),
            ),
    {
        proof {
            use_type_invariant(self);
        }
        if self.params.telemetry.len() == 0 {
            None
        } else {
            Some(naming::telemetry_path(&self.video))
        }
    }

    /// Goes on under the identifier `session_id` if nothing would be overwritten: neither the
    /// video nor, if telemetry is written, its file.
    pub fn confirm_free(self, video_exists: bool, sidecar_exists: bool, session_id: String) -> (r:
        Result<Launch, McpError>)
        ensures
            r is Ok <==> overwrite_refusal(
                requested_video(self.target_directory(), self.name()),
                self.params().telemetry@,
                video_exists,
                sidecar_exists,
            ) is None,
            r matches Ok(launch) ==> {
                &&& launch.is_sound()
                &&& launch.params() == self.params()
                &&& launch.id() == session_id@
                &&& launch.target_directory() == self.target_directory()
                &&& launch.name() == self.name()
            },
            r matches Err(error) ==> Some(error.words()) == overwrite_refusal(
                requested_video(self.target_directory(), self.name()),
                self.params().telemetry@,
                video_exists,
                sidecar_exists,
            ),
    {
        proof {
            use_type_invariant(&self);
        }
        if video_exists {
            return Err(
                McpError(text::concat2("refusing to overwrite ", self.video.display().as_str())),
            );
        }
        let sidecar = self.sidecar();
        if sidecar.is_some() && sidecar_exists {
            return Err(McpError::message("telemetry sidecar already exists"));
        }
        let mut log_name = text::concat3(".", self.basename.as_str(), ".");
        log_name.append(session_id.as_str());
        log_name.append(".log");
        let log = self.directory.join(&FilePath::from_text(log_name.as_str()));
        let arguments = launch_args(&self.directory, self.basename.as_str(), &self.params);
        let PlacedRequest { params, directory, basename, video } = self;
        Ok(Launch { params, directory, basename, session_id, video, sidecar, log, arguments })
    }
}

/// Where the telemetry of a recording goes, if any is written.
pub open spec fn requested_sidecar(video: Seq<u8>, telemetry: Seq<TelemetryKind>) -> Option<
    Seq<u8>,
> {
    if telemetry.len() > 0 {
        Some(naming::sidecar(video))
    } else {
        None
    }
}

/// What is told of a session whose recorder was started as process `pid`.
pub open spec fn started_record(launch: Launch, pid: u32, started_at: Seq<char>) -> SessionRecord {
    SessionRecord {
        session_id: launch.id(),
        state: "recording"@,
        pid,
        video_path: launch.video(),
        telemetry_path: requested_sidecar(launch.video(), launch.params().telemetry@),
        started_at,
        quality: launch.params().quality,
        audio: launch.params().audio,
        target: launch.params().target,
        exit_code: None,
        error: None,
        diagnostic_log_path: Some(launch.log_file()),
    }
}

impl Launch {
    #[verifier::type_invariant]
    spec fn well_formed(self) -> bool {
        session::optional_path(self.sidecar) == requested_sidecar(
            self.video@,
            self.params.telemetry@,
        )
    }

    /// What was requested.
    pub closed spec fn params(self) -> StartParams {
        self.params
    }

    /// The directory of the recording.
    pub closed spec fn target_directory(self) -> Seq<u8> {
        self.directory@
    }

    /// What the recording is called.
    pub closed spec fn name(self) -> Seq<char> {
        self.basename@
    }

    /// Whether the video, the diagnostic log and the arguments of the recorder are those of
    /// the request.
    pub open spec fn is_sound(self) -> bool {
        &&& self.video() == requested_video(self.target_directory(), self.name())
        &&& self.log_file() == session_log(self.target_directory(), self.name(), self.id())
        &&& self.recorder() == launch_command(self.target_directory(), self.name(), self.params())
    }

    /// The identifier of the session.
    pub closed spec fn id(self) -> Seq<char> {
        self.session_id@
    }

    /// Where the video goes.
    pub closed spec fn video(self) -> Seq<u8> {
        self.video@
    }

    /// The diagnostic log of the session.
    pub closed spec fn log_file(self) -> Seq<u8> {
        self.log@
    }

    /// The arguments of the recorder.
    pub closed spec fn recorder(self) -> Seq<Seq<u8>> {
        command::argument_bytes(self.arguments@)
    }

    /// The diagnostic log, which takes what the recorder prints. Where the recorder could not
    /// be started it is not needed.
    pub fn diagnostic_log(&self) -> (r: &FilePath)
        ensures
            r@ == self.log_file(),
    {
        &self.log
    }

    /// The arguments of the recorder.
    pub fn arguments(&self) -> (r: &Vec<Argument>)
        ensures
            command::argument_bytes(r@) == self.recorder(),
    {
        &self.arguments
    }

    /// Makes the session active whose recorder was started at `started_at`. A recorder
    /// without a process identifier cannot be stopped and is given up.
    pub fn started_at(self, slot: &mut HyprrecMcp, pid: Option<u32>, started_at: String) -> (r:
        Result<SessionInfo, McpError>)
        requires
            old(slot)@ is Empty,
        ensures
            match pid {
                Some(pid) => {
                    let record = started_record(self, pid, started_at@);
                    &&& r matches Ok(info) && info@ == record
                    &&& final(slot)@ == SlotState::Active(
                        ActiveRecord { info: record, log: self.log_file() },
                    )
                },
                None => {
                    &&& r matches Err(error) && error.words() == "recording process has no PID"@
                    &&& final(slot)@ == old(slot)@
                },
            },
    {
        proof {
            use_type_invariant(&self);
        }
        let pid: u32 = match pid {
            Some(pid) => pid,
            None => {
                return Err(McpError::message("recording process has no PID"));
            },
        };
        let ghost record = started_record(self, pid, started_at@);
        let Launch { params, directory: _, basename: _, session_id, video, sidecar, log, arguments: _ } =
            self;
        let info = SessionInfo {
            session_id,
            state: "recording",
            pid,
            video_path: video,
            telemetry_path: sidecar,
            started_at,
            quality: params.quality,
            audio: params.audio,
            target: params.target,
            exit_code: None,
            error: None,
            diagnostic_log_path: Some(log.clone()),
        };
        assert(info@ == record);
        slot.occupy(info.clone(), log);
        Ok(info)
    }

    /// Makes the session active whose recorder was started just now.
    pub fn started(self, slot: &mut HyprrecMcp, pid: Option<u32>) -> (r: Result<
        SessionInfo,
        McpError,
    >)
        requires
            old(slot)@ is Empty,
        ensures
            match pid {
                Some(pid) => exists|started_at: Seq<char>|
                    {
                        let record = #[trigger] started_record(self, pid, started_at);
                        &&& clock::is_utc_text(started_at)
                        &&& clock::utc_was_read(started_at)
                        &&& r matches Ok(info) && info@ == record
                        &&& final(slot)@ == SlotState::Active(
                            ActiveRecord { info: record, log: self.log_file() },
                        )
                    },
                None => {
                    &&& r matches Err(error) && error.words() == "recording process has no PID"@
                    &&& final(slot)@ == old(slot)@
                },
            },
    {
        let now = clock::utc_now();
        let ghost stamp = now@;
        let result = self.started_at(slot, pid, now);
        proof {
            if let Some(p) = pid {
                let record = started_record(self, p, stamp);
                assert(record == started_record(self, p, stamp));
            }
        }
        result
    }
}

/// The paths that are announced for a request are those of the recording: the recorder is given
/// the directory and the request's name, and if it accepts that name, it writes the announced
/// video, and its telemetry beside it.
pub proof fn announced_paths_are_recorded(
    launch: Launch,
    pid: u32,
    started_at: Seq<char>,
    now: Timestamp,
)
    requires
        launch.is_sound(),
    ensures
        launch.recorder()[1] == launch.target_directory(),
        launch.recorder()[3] == encode_utf8(launch.name()),
        naming::output_path(launch.target_directory(), Some(launch.name()), now) matches Some(
            recorded,
        ) ==> {
            let record = started_record(launch, pid, started_at);
            &&& record.video_path == recorded
            &&& record.telemetry_path == requested_sidecar(recorded, launch.params().telemetry@)
        },
{
}

/// A request that is not refused overwrites nothing: where `files` are there, neither the video
/// that the recorder writes nor, if telemetry is written, its file is among them.
pub proof fn started_recording_overwrites_nothing(
    directory: Seq<u8>,
    basename: Seq<char>,
    telemetry: Seq<TelemetryKind>,
    files: Set<Seq<u8>>,
    now: Timestamp,
)
    requires
        ({
            let video = requested_video(directory, basename);
            overwrite_refusal(
                video,
                telemetry,
                files.contains(video),
                files.contains(naming::sidecar(video)),
            ) is None
        }),
    ensures
        naming::output_path(directory, Some(basename), now) matches Some(recorded) ==> {
            &&& !files.contains(recorded)
            &&& telemetry.len() > 0 ==> !files.contains(naming::sidecar(recorded))
        },
{
}

/// A session that was started is the one that its identifier stops.
pub proof fn started_session_can_be_stopped(launch: Launch, pid: u32, started_at: Seq<char>)
    ensures
        slot::stop_refusal(
            SlotState::Active(
                ActiveRecord {
                    info: started_record(launch, pid, started_at),
                    log: launch.log_file(),
                },
            ),
            started_record(launch, pid, started_at).session_id,
        ) is None,
{
}

/// A session that was started is told as `recording` until its recorder has ended.
pub proof fn started_session_is_recording(
    launch: Launch,
    pid: u32,
    started_at: Seq<char>,
    seen: Seq<Seen>,
)
    requires
        slot::ends_once(seen),
        seen.len() > 0,
    ensures
        ({
            let record = started_record(launch, pid, started_at);
            let session = ActiveRecord { info: record, log: launch.log_file() };
            let after = slot::after_statuses(SlotState::Active(session), seen);
            &&& record.state == "recording"@
            &&& after matches SlotState::Active(now) && (now.info.state == "recording"@
                <==> seen.last().ended is None)
        }),
{
    let record = started_record(launch, pid, started_at);
    let session = ActiveRecord { info: record, log: launch.log_file() };
    slot::status_follows_the_recorder(session, seen);
}

/// What the recorder is asked for, option by option.
pub struct Asked {
    pub region: bool,
    pub audio: bool,
    pub dir: Option<Seq<u8>>,
    pub name: Option<Seq<u8>>,
    pub quality: Option<Seq<u8>>,
    pub telemetry: Option<Seq<u8>>,
}

/// What arguments ask for, read from the front: two switches that stand alone, and four options
/// that are followed by a value. Nothing else is understood.
pub open spec fn asked_by(arguments: Seq<Seq<u8>>) -> Option<Asked>
    decreases arguments.len(),
{
    if arguments.len() == 0 {
        Some(
            Asked {
                region: false,
                audio: false,
                dir: None,
                name: None,
                quality: None,
                telemetry: None,
            },
        )
    } else if arguments[0] == encode_utf8("--region"@) {
        match asked_by(arguments.skip(1)) {
            Some(rest) => Some(Asked { region: true, ..rest }),
            None => None,
        }
    } else if arguments[0] == encode_utf8("--audio"@) {
        match asked_by(arguments.skip(1)) {
            Some(rest) => Some(Asked { audio: true, ..rest }),
            None => None,
        }
    } else if arguments.len() == 1 {
        None
    } else {
        match asked_by(arguments.skip(2)) {
            Some(rest) => if arguments[0] == encode_utf8("--dir"@) {
                Some(Asked { dir: Some(arguments[1]), ..rest })
            } else if arguments[0] == encode_utf8("--name"@) {
                Some(Asked { name: Some(arguments[1]), ..rest })
            } else if arguments[0] == encode_utf8("--quality"@) {
                Some(Asked { quality: Some(arguments[1]), ..rest })
            } else if arguments[0] == encode_utf8("--telemetry"@) {
                Some(Asked { telemetry: Some(arguments[1]), ..rest })
            } else {
                None
            },
            None => None,
        }
    }
}

/// Where the last comma of a text is, or -1.
pub open spec fn last_comma(s: Seq<char>) -> int
    decreases s.len(),
{
    if s.len() == 0 {
        -1
    } else if s.last() == ',' {
        s.len() - 1
    } else {
        last_comma(s.drop_last())
    }
}

proof fn last_comma_is_within(s: Seq<char>)
    ensures
        -1 <= last_comma(s) < s.len(),
    decreases s.len(),
{
    if s.len() > 0 {
        last_comma_is_within(s.drop_last());
    }
}

/// The parts of a text between its commas.
pub open spec fn comma_separated(s: Seq<char>) -> Seq<Seq<char>>
    decreases s.len(),
    via comma_separated_ends
{
    if last_comma(s) < 0 {
        seq![s]
    } else {
        comma_separated(s.take(last_comma(s))).push(s.skip(last_comma(s) + 1))
    }
}

#[via_fn]
proof fn comma_separated_ends(s: Seq<char>) {
    last_comma_is_within(s);
}

proof fn comma_before_a_word(s: Seq<char>, word: Seq<char>)
    requires
        !word.contains(','),
    ensures
        last_comma(s + ","@ + word) == s.len(),
        last_comma(word) == -1,
    decreases word.len(),
{
    reveal_strlit(",");
    let whole = s + ","@ + word;
    if word.len() == 0 {
        assert(whole.last() == ',');
    } else {
        let rest = word.drop_last();
        assert(word.contains(word.last()));
        assert(!rest.contains(',')) by {
            if rest.contains(',') {
                let i = choose|i: int| 0 <= i < rest.len() && rest[i] == ',';
                assert(word[i] == ',');
            }
        }
        comma_before_a_word(s, rest);
        assert(whole.drop_last() =~= s + ","@ + rest);
        assert(whole.last() == word.last());
    }
}

proof fn kind_words_have_no_comma(kind: TelemetryKind)
    ensures
        !options::kind_word(kind).contains(','),
{
    reveal_strlit("click");
    reveal_strlit("scroll");
    reveal_strlit("keyboard-input");
    reveal_strlit("workspace-changed");
    reveal_strlit("window-focused");
}

/// The word list of telemetry categories, taken apart at its commas, gives back the word of each
/// category, in order.
pub proof fn word_list_is_taken_apart(kinds: Seq<TelemetryKind>)
    requires
        kinds.len() > 0,
    ensures
        comma_separated(joined_words(kinds)).len() == kinds.len(),
        forall|i: int|
            0 <= i < kinds.len() ==> #[trigger] comma_separated(joined_words(kinds))[i]
                == options::kind_word(kinds[i]),
    decreases kinds.len(),
{
    let word = options::kind_word(kinds.last());
    kind_words_have_no_comma(kinds.last());
    if kinds.len() == 1 {
        comma_before_a_word(seq![], word);
    } else {
        let rest = kinds.drop_last();
        let before = joined_words(rest);
        let whole = joined_words(kinds);
        word_list_is_taken_apart(rest);
        comma_before_a_word(before, word);
        reveal_strlit(",");
        assert(whole.take(before.len() as int) =~= before);
        assert(whole.skip(before.len() as int + 1) =~= word);
        assert forall|i: int| 0 <= i < kinds.len() implies #[trigger] comma_separated(whole)[i]
            == options::kind_word(kinds[i]) by {
            if i < rest.len() {
                assert(comma_separated(before)[i] == options::kind_word(rest[i]));
            }
        }
    }
}

proof fn option_words_differ()
    ensures
        encode_utf8("--region"@) != encode_utf8("--audio"@),
        encode_utf8("--region"@) != encode_utf8("--dir"@),
        encode_utf8("--region"@) != encode_utf8("--name"@),
        encode_utf8("--region"@) != encode_utf8("--quality"@),
        encode_utf8("--region"@) != encode_utf8("--telemetry"@),
        encode_utf8("--audio"@) != encode_utf8("--dir"@),
        encode_utf8("--audio"@) != encode_utf8("--name"@),
        encode_utf8("--audio"@) != encode_utf8("--quality"@),
        encode_utf8("--audio"@) != encode_utf8("--telemetry"@),
        encode_utf8("--dir"@) != encode_utf8("--name"@),
        encode_utf8("--dir"@) != encode_utf8("--quality"@),
        encode_utf8("--dir"@) != encode_utf8("--telemetry"@),
        encode_utf8("--name"@) != encode_utf8("--quality"@),
        encode_utf8("--name"@) != encode_utf8("--telemetry"@),
        encode_utf8("--quality"@) != encode_utf8("--telemetry"@),
{
    broadcast use encode_utf8_decode_utf8;

    reveal_strlit("--region");
    reveal_strlit("--audio");
    reveal_strlit("--dir");
    reveal_strlit("--name");
    reveal_strlit("--quality");
    reveal_strlit("--telemetry");
    assert(decode_utf8(encode_utf8("--region"@)).len() == 8);
    assert(decode_utf8(encode_utf8("--audio"@)).len() == 7);
    assert(decode_utf8(encode_utf8("--dir"@)).len() == 5);
    assert(decode_utf8(encode_utf8("--name"@)).len() == 6);
    assert(decode_utf8(encode_utf8("--quality"@)).len() == 9);
    assert(decode_utf8(encode_utf8("--telemetry"@)).len() == 11);
}

proof fn switch_is_read(switch: Seq<u8>, rest: Seq<Seq<u8>>)
    ensures
        (seq![switch] + rest).skip(1) == rest,
        (seq![switch] + rest)[0] == switch,
{
    assert((seq![switch] + rest).skip(1) =~= rest);
}

proof fn option_is_read(option: Seq<u8>, value: Seq<u8>, rest: Seq<Seq<u8>>)
    ensures
        (seq![option, value] + rest).skip(2) == rest,
        (seq![option, value] + rest)[0] == option,
        (seq![option, value] + rest)[1] == value,
{
    assert((seq![option, value] + rest).skip(2) =~= rest);
}

/// Whether arguments, read back option by option, ask for what was requested: for audio exactly
/// if audio was, for a region exactly if the target is one, whatever else was; for the quality,
/// the directory and the name of the request; and for telemetry exactly if any category was, then
/// for these categories in their order.
pub open spec fn asks_for(
    arguments: Seq<Seq<u8>>,
    directory: Seq<u8>,
    basename: Seq<char>,
    params: StartParams,
) -> bool {
    asked_by(arguments) matches Some(asked) && {
        &&& asked.audio <==> params.audio
        &&& asked.region <==> params.target == CaptureTarget::Region
        &&& asked.dir == Some(directory)
        &&& asked.name == Some(encode_utf8(basename))
        &&& asked.quality == Some(
            encode_utf8(
                match params.quality {
                    options::Quality::High => "high"@,
                    options::Quality::Ultra => "ultra"@,
                    options::Quality::Compact => "compact"@,
                },
            ),
        )
        &&& asked.telemetry is Some <==> params.telemetry@.len() > 0
        &&& asked.telemetry matches Some(list) ==> {
            let words = comma_separated(decode_utf8(list));
            &&& words.len() == params.telemetry@.len()
            &&& forall|i: int|
                0 <= i < words.len() ==> #[trigger] words[i] == options::kind_word(
                    params.telemetry@[i],
                )
        }
    }
}

proof fn command_asks_for_the_request(
    directory: Seq<u8>,
    basename: Seq<char>,
    params: StartParams,
)
    ensures
        asks_for(launch_command(directory, basename, params), directory, basename, params),
{
    broadcast use encode_utf8_decode_utf8;

    option_words_differ();
    let list = joined_words(params.telemetry@);
    if params.telemetry@.len() > 0 {
        word_list_is_taken_apart(params.telemetry@);
    }
    let telemetry: Seq<Seq<u8>> = if params.telemetry@.len() > 0 {
        seq![encode_utf8("--telemetry"@), encode_utf8(list)] + seq![]
    } else {
        seq![]
    };
    let region: Seq<Seq<u8>> = if params.target == CaptureTarget::Region {
        seq![encode_utf8("--region"@)] + telemetry
    } else {
        telemetry
    };
    let audio: Seq<Seq<u8>> = if params.audio {
        seq![encode_utf8("--audio"@)] + region
    } else {
        region
    };
    let word = encode_utf8(options::quality_word(params.quality));
    let quality = seq![encode_utf8("--quality"@), word] + audio;
    let name = seq![encode_utf8("--name"@), encode_utf8(basename)] + quality;
    let all = seq![encode_utf8("--dir"@), directory] + name;
    assert(launch_command(directory, basename, params) =~= all);
    option_is_read(encode_utf8("--telemetry"@), encode_utf8(list), seq![]);
    switch_is_read(encode_utf8("--region"@), telemetry);
    switch_is_read(encode_utf8("--audio"@), region);
    option_is_read(encode_utf8("--quality"@), word, audio);
    option_is_read(encode_utf8("--name"@), encode_utf8(basename), quality);
    option_is_read(encode_utf8("--dir"@), directory, name);
    assert(asked_by(seq![]) is Some);
    assert(asked_by(telemetry) is Some);
    assert(asked_by(region) is Some);
    assert(asked_by(audio) is Some);
    assert(asked_by(quality) is Some);
    assert(asked_by(name) is Some);
    assert(asked_by(all) is Some);
}

/// The recorder of a request is given arguments that, read back, ask for exactly that request.
pub proof fn recorder_is_asked_for_the_request(
    placed: PlacedRequest,
    video_exists: bool,
    sidecar_exists: bool,
    session_id: String,
    launch: Launch,
)
    requires
        call_ensures(
            PlacedRequest::confirm_free,
            (placed, video_exists, sidecar_exists, session_id),
            Ok(launch),
        ),
    ensures
        asks_for(launch.recorder(), placed.target_directory(), placed.name(), placed.params()),
        launch.id() == session_id@,
        !video_exists,
        sidecar_exists ==> placed.params().telemetry@.len() == 0,
{
    command_asks_for_the_request(placed.target_directory(), placed.name(), placed.params());
}

/// What is told of a started session is what was requested of it, and no end yet.
pub proof fn started_session_is_told_as_requested(launch: Launch, pid: u32, started_at: Seq<char>)
    ensures
        ({
            let record = started_record(launch, pid, started_at);
            &&& record.session_id == launch.id()
            &&& record.pid == pid
            &&& record.started_at == started_at
            &&& record.quality == launch.params().quality
            &&& record.audio == launch.params().audio
            &&& record.target == launch.params().target
            &&& record.video_path == launch.video()
            &&& record.diagnostic_log_path == Some(launch.log_file())
            &&& record.exit_code is None && record.error is None
            &&& record.telemetry_path is Some <==> launch.params().telemetry@.len() > 0
            &&& path::file_name(launch.video()) is Some ==> (record.telemetry_path matches Some(
                sidecar,
            ) ==> sidecar != record.video_path && path::directory_part(sidecar)
                == path::directory_part(record.video_path))
        }),
{
    if path::file_name(launch.video()) is Some {
        naming::sidecar_stands_beside(launch.video());
    }
}

/// The diagnostic log of a session is a hidden file in the directory of the recording: its name
/// starts with a dot and ends in `.log`. Two sessions of one name have logs of their own, and no
/// log is a video.
pub proof fn sessions_have_hidden_logs_of_their_own(
    directory: Seq<u8>,
    basename: Seq<char>,
    session_id: Seq<char>,
    other_id: Seq<char>,
)
    requires
        !basename.contains('/'),
        !session_id.contains('/'),
    ensures
        ({
            let log = session_log(directory, basename, session_id);
            let name = "."@ + basename + "."@ + session_id + ".log"@;
            &&& path::file_name(log) == Some(encode_utf8(name))
            &&& log == path::directory_prefix(directory) + encode_utf8(name)
            &&& session_id != other_id && !other_id.contains('/') ==> log != session_log(
                directory,
                basename,
                other_id,
            )
        }),
{
    log_has_its_name(directory, basename, session_id);
    if !other_id.contains('/') {
        log_has_its_name(directory, basename, other_id);
        let name = "."@ + basename + "."@ + session_id + ".log"@;
        let other = "."@ + basename + "."@ + other_id + ".log"@;
        encode_utf8_decode_utf8(name);
        encode_utf8_decode_utf8(other);
        if encode_utf8(name) == encode_utf8(other) {
            reveal_strlit(".");
            reveal_strlit(".log");
            assert(name.len() == basename.len() + session_id.len() + 6);
            assert(other.len() == basename.len() + other_id.len() + 6);
            let from = basename.len() as int + 2;
            assert(session_id =~= name.subrange(from, from + session_id.len()));
            assert(other_id =~= other.subrange(from, from + other_id.len()));
        }
    }
}

proof fn log_has_its_name(directory: Seq<u8>, basename: Seq<char>, session_id: Seq<char>)
    requires
        !basename.contains('/'),
        !session_id.contains('/'),
    ensures
        ({
            let log = session_log(directory, basename, session_id);
            let name = "."@ + basename + "."@ + session_id + ".log"@;
            &&& path::file_name(log) == Some(encode_utf8(name))
            &&& log == path::directory_prefix(directory) + encode_utf8(name)
        }),
{
    reveal_strlit(".");
    reveal_strlit(".log");
    let name = "."@ + basename + "."@ + session_id + ".log"@;
    assert(!name.contains('/')) by {
        if name.contains('/') {
            let i = choose|i: int| 0 <= i < name.len() && name[i] == '/';
            if 0 < i <= basename.len() {
                assert(basename[i - 1] == '/');
            } else if basename.len() + 2 <= i < basename.len() + 2 + session_id.len() {
                assert(session_id[i - basename.len() - 2] == '/');
            }
        }
    }
    path::encoding_adds_no_separator(name);
    let bytes = encode_utf8(name);
    let front = "."@ + basename + "."@ + session_id;
    path::encoding_distributes(front, ".log"@);
    is_ascii_chars_encode_utf8(".log"@);
    assert(encode_utf8(".log"@).len() == 4);
    assert(bytes.last() == encode_utf8(".log"@)[3]);
    assert(bytes.last() == 0x67);
    path::joined_names_file(directory, bytes);
}

/// A request is for the directory that it names, or else for the default one below the videos or
/// the home of the user; it is refused if neither is known.
pub proof fn a_request_names_its_directory(
    params: StartParams,
    user_dirs: Option<&UserDirs>,
    outcome: Result<Request, McpError>,
)
    requires
        call_ensures(Request::accept, (params, user_dirs), outcome),
    ensures
        outcome is Ok <==> params.dir is Some || user_dirs is Some,
        outcome is Ok ==> outcome->Ok_0.params() == params,
        outcome is Ok && params.dir is Some ==> outcome->Ok_0.target_directory()
            == params.dir->0@,
        outcome is Ok && params.dir is None ==> outcome->Ok_0.target_directory()
            == places::default_directory(*user_dirs->0),
{
}

/// A request goes on under the name that it gives, if that is one, or else under one made of the
/// time, once its directory is there. It goes on with what was requested.
pub proof fn a_request_is_placed_under_its_name(
    request: Request,
    made: Result<(), String>,
    now: Timestamp,
    outcome: Result<PlacedRequest, McpError>,
)
    requires
        call_ensures(Request::directory_made, (request, made, now), outcome),
    ensures
        made is Err ==> outcome is Err && outcome->Err_0.words() == made->Err_0@,
        made is Ok && request.params().name is None ==> outcome is Ok,
        made is Ok && outcome is Err ==> request.params().name is Some && !naming::is_basename(
            naming::normalized(request.params().name->0@),
        ) && outcome->Err_0.words() == "name must be a non-empty basename"@,
        outcome is Ok ==> {
            let placed = outcome->Ok_0;
            &&& placed.params() == request.params()
            &&& placed.target_directory() == request.target_directory()
            &&& request.params().name is Some ==> placed.name() == naming::normalized(
                request.params().name->0@,
            ) && naming::is_basename(placed.name())
            &&& request.params().name is None ==> placed.name() == naming::generated_name(now)
        },
{
}

/// A session becomes the active one with what was requested of it once its recorder runs; without
/// a process that can be stopped nothing becomes active.
pub proof fn a_started_session_is_the_active_one(
    launch: Launch,
    slot: &mut HyprrecMcp,
    pid: Option<u32>,
    started_at: String,
    outcome: Result<SessionInfo, McpError>,
)
    requires
        call_ensures(Launch::started_at, (launch, slot, pid, started_at), outcome),
    ensures
        outcome is Ok <==> pid is Some,
        outcome is Ok ==> {
            let told = outcome->Ok_0@;
            &&& final(slot)@ is Active
            &&& final(slot)@->Active_0.info == told
            &&& final(slot)@->Active_0.log == launch.log_file()
            &&& told.pid == pid->0
            &&& told.session_id == launch.id()
            &&& told.state == "recording"@
            &&& told.started_at == started_at@
            &&& told.quality == launch.params().quality
            &&& told.audio == launch.params().audio
            &&& told.target == launch.params().target
            &&& told.video_path == launch.video()
            &&& told.telemetry_path is Some <==> launch.params().telemetry@.len() > 0
            &&& told.exit_code is None && told.error is None
            &&& told.diagnostic_log_path == Some(launch.log_file())
        },
        outcome is Err ==> final(slot)@ == old(slot)@ && outcome->Err_0.words()
            == "recording process has no PID"@,
{
}

/// A request is refused exactly if its video is there, or if it writes telemetry and the file for
/// that is there; the video is told first.
pub proof fn a_request_overwrites_nothing(
    placed: PlacedRequest,
    video_exists: bool,
    sidecar_exists: bool,
    session_id: String,
    outcome: Result<Launch, McpError>,
)
    requires
        call_ensures(
            PlacedRequest::confirm_free,
            (placed, video_exists, sidecar_exists, session_id),
            outcome,
        ),
    ensures
        outcome is Err <==> video_exists || (placed.params().telemetry@.len() > 0
            && sidecar_exists),
        video_exists ==> outcome->Err_0.words() == "refusing to overwrite "@ + path::lossy_text(
            requested_video(placed.target_directory(), placed.name()),
        ),
        !video_exists && outcome is Err ==> outcome->Err_0.words()
            == "telemetry sidecar already exists"@,
        outcome is Ok ==> {
            let launch = outcome->Ok_0;
            &&& launch.params() == placed.params()
            &&& launch.target_directory() == placed.target_directory()
            &&& launch.name() == placed.name()
            &&& launch.video() == requested_video(placed.target_directory(), placed.name())
        },
{
}

} // verus!
