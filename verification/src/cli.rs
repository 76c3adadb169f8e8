//! The command line of the recorder.

use std::path::PathBuf;
use vstd::prelude::*;

use crate::options;
use crate::options::{Quality, TelemetryKind};
use crate::path::FilePath;

verus! {

/// The version that the programs give as theirs.
pub const VERSION: &'static str = "0.1.0";

/// What a recording was asked for.
#[derive(Debug)]
pub struct Cli {
    /// Select a region instead of the focused monitor.
    pub region: bool,
    /// Record audio too.
    pub audio: bool,
    /// Where to save the recording.
    pub dir: Option<FilePath>,
    /// What to call it.
    pub name: Option<String>,
    pub quality: Quality,
    /// The telemetry to write beside it.
    pub telemetry: Vec<TelemetryKind>,
}

/// Why a command line starts no recording: it has a mistake, or asks for help or the version.
#[derive(Debug, PartialEq, Eq)]
pub struct CliRefusal {
    /// What to tell the user.
    pub message: String,
    /// Whether to tell it on the error stream.
    pub use_stderr: bool,
    pub exit_code: i32,
}

/// A refusal, as values.
pub struct RefusalRecord {
    pub message: Seq<char>,
    pub use_stderr: bool,
    pub exit_code: i32,
}

impl View for CliRefusal {
    type V = RefusalRecord;

    open spec fn view(&self) -> RefusalRecord {
        RefusalRecord {
            message: self.message@,
            use_stderr: self.use_stderr,
            exit_code: self.exit_code,
        }
    }
}

/// A path of the operating system: the only type that carries a non-text argument here.
#[verifier::external_type_specification]
#[verifier::external_body]
pub struct ExPathBuf(PathBuf);

/// The bytes of a path.
pub uninterp spec fn path_bytes(path: PathBuf) -> Seq<u8>;

/// The bytes of each path.
pub open spec fn paths_bytes(paths: Seq<PathBuf>) -> Seq<Seq<u8>> {
    paths.map_values(|path: PathBuf| path_bytes(path))
}

/// `OsString::into_encoded_bytes` of the string that the path is, which `into_os_string`
/// gives. The claim is that the bytes depend on nothing but the path.
#[verifier::external_body]
fn bytes_of(path: PathBuf) -> (r: Vec<u8>)
    ensures
        r@ == path_bytes(path),
{
    path.into_os_string().into_encoded_bytes()
}

/// What a command line said, word by word.
#[derive(Debug)]
pub struct Matched {
    pub region: bool,
    pub audio: bool,
    pub dir: Option<PathBuf>,
    pub name: Option<String>,
    pub quality: Option<String>,
    pub telemetry: Option<Vec<String>>,
}

/// What a command line said, as values.
pub struct MatchedRecord {
    pub region: bool,
    pub audio: bool,
    pub dir: Option<Seq<u8>>,
    pub name: Option<Seq<char>>,
    pub quality: Option<Seq<char>>,
    pub telemetry: Option<Seq<Seq<char>>>,
}

/// The words as values.
pub open spec fn word_values(words: Seq<String>) -> Seq<Seq<char>> {
    words.map_values(|word: String| word@)
}

impl View for Matched {
    type V = MatchedRecord;

    open spec fn view(&self) -> MatchedRecord {
        MatchedRecord {
            region: self.region,
            audio: self.audio,
            dir: match self.dir {
                Some(dir) => Some(path_bytes(dir)),
                None => None,
            },
            name: match self.name {
                Some(name) => Some(name@),
                None => None,
            },
            quality: match self.quality {
                Some(quality) => Some(quality@),
                None => None,
            },
            telemetry: match self.telemetry {
                Some(telemetry) => Some(word_values(telemetry@)),
                None => None,
            },
        }
    }
}

/// Something that a command line is declared to have. An option is given by two dashes and
/// its name.
pub enum Part {
    /// The program itself.
    Program { name: Seq<char>, version: Seq<char>, about: Seq<char>, after_help: Seq<char> },
    /// An option without a value.
    Switch { name: Seq<char>, help: Seq<char> },
    /// An option with a path.
    Path { name: Seq<char>, value_name: Seq<char>, help: Seq<char> },
    /// An option with a text.
    Text { name: Seq<char>, value_name: Seq<char>, help: Seq<char> },
    /// An option with one of a few words, one of which it has when it is not given.
    Choice {
        name: Seq<char>,
        value_name: Seq<char>,
        help: Seq<char>,
        choices: Seq<Seq<char>>,
        default: Seq<char>,
    },
    /// An option with any number of a few words, which can be given repeatedly.
    Choices {
        name: Seq<char>,
        value_name: Seq<char>,
        help: Seq<char>,
        choices: Seq<Seq<char>>,
        delimiter: char,
    },
}

/// A declared command line.
#[verifier::external_type_specification]
#[verifier::external_body]
pub struct ExCommand(clap::Command);

/// What a declared command line has, in the order of declaration.
pub uninterp spec fn command_parts(command: clap::Command) -> Seq<Part>;

/// The words as values.
pub open spec fn literal_values(words: Seq<&'static str>) -> Seq<Seq<char>> {
    words.map_values(|word: &'static str| word@)
}

/// `clap::Command::new` with `version`, `about` and `after_help`: a command line that has
/// nothing but the program.
#[verifier::external_body]
fn program(
    name: &'static str,
    version: &'static str,
    about: &'static str,
    after_help: &'static str,
) -> (r: clap::Command)
    ensures
        command_parts(r) == seq![
            (Part::Program {
                name: name@,
                version: version@,
                about: about@,
                after_help: after_help@,
            }),
        ],
{
    clap::Command::new(name).version(version).about(about).after_help(after_help)
}

/// `clap::Command::arg` of a `clap::Arg` with the action `SetTrue`: the command line has a
/// switch more.
#[verifier::external_body]
fn with_switch(command: clap::Command, name: &'static str, help: &'static str) -> (r:
    clap::Command)
    ensures
        command_parts(r) == command_parts(command).push(
            (Part::Switch { name: name@, help: help@ }),
        ),
{
    command.arg(clap::Arg::new(name).long(name).help(help).action(clap::ArgAction::SetTrue))
}

/// `clap::Command::arg` of a `clap::Arg` with the action `Set` and the value parser of a
/// `PathBuf`: the command line has an option with a path more.
#[verifier::external_body]
fn with_path(
    command: clap::Command,
    name: &'static str,
    value_name: &'static str,
    help: &'static str,
) -> (r: clap::Command)
    ensures
        command_parts(r) == command_parts(command).push(
            (Part::Path { name: name@, value_name: value_name@, help: help@ }),
        ),
{
    let argument = clap::Arg::new(name).long(name).value_name(value_name).help(help);
    let parser = clap::builder::ValueParser::path_buf();
    command.arg(argument.action(clap::ArgAction::Set).value_parser(parser))
}

/// `clap::Command::arg` of a `clap::Arg` with the action `Set` and the value parser of a
/// `String`: the command line has an option with a text more.
#[verifier::external_body]
fn with_text(
    command: clap::Command,
    name: &'static str,
    value_name: &'static str,
    help: &'static str,
) -> (r: clap::Command)
    ensures
        command_parts(r) == command_parts(command).push(
            (Part::Text { name: name@, value_name: value_name@, help: help@ }),
        ),
{
    let argument = clap::Arg::new(name).long(name).value_name(value_name).help(help);
    let parser = clap::builder::ValueParser::string();
    command.arg(argument.action(clap::ArgAction::Set).value_parser(parser))
}

/// `clap::Command::arg` of a `clap::Arg` with the action `Set`, the value parser
/// `PossibleValuesParser` and a default value: the command line has an option with one of a
/// few words more.
#[verifier::external_body]
fn with_choice(
    command: clap::Command,
    name: &'static str,
    value_name: &'static str,
    help: &'static str,
    choices: Vec<&'static str>,
    default: &'static str,
) -> (r: clap::Command)
    ensures
        command_parts(r) == command_parts(command).push(
            (Part::Choice {
                name: name@,
                value_name: value_name@,
                help: help@,
                choices: literal_values(choices@),
                default: default@,
            }),
        ),
{
    let argument = clap::Arg::new(name).long(name).value_name(value_name).help(help);
    let parser = clap::builder::PossibleValuesParser::new(choices);
    command.arg(
        argument.action(clap::ArgAction::Set).value_parser(parser).default_value(default),
    )
}

/// `clap::Command::arg` of a `clap::Arg` with the action `Append`, the value parser
/// `PossibleValuesParser` and a value delimiter: the command line has an option with any
/// number of a few words more.
#[verifier::external_body]
fn with_choices(
    command: clap::Command,
    name: &'static str,
    value_name: &'static str,
    help: &'static str,
    choices: Vec<&'static str>,
    delimiter: char,
) -> (r: clap::Command)
    ensures
        command_parts(r) == command_parts(command).push(
            (Part::Choices {
                name: name@,
                value_name: value_name@,
                help: help@,
                choices: literal_values(choices@),
                delimiter,
            }),
        ),
{
    let argument = clap::Arg::new(name).long(name).value_name(value_name).help(help);
    let parser = clap::builder::PossibleValuesParser::new(choices);
    command.arg(
        argument.action(clap::ArgAction::Append).value_parser(parser).value_delimiter(delimiter),
    )
}

/// The words for the profiles.
pub open spec fn quality_words() -> Seq<Seq<char>> {
    seq![
        options::quality_word(Quality::High),
        options::quality_word(Quality::Ultra),
        options::quality_word(Quality::Compact),
    ]
}

/// The words for the telemetry categories.
pub open spec fn kind_words() -> Seq<Seq<char>> {
    seq![
        options::kind_word(TelemetryKind::Click),
        options::kind_word(TelemetryKind::Scroll),
        options::kind_word(TelemetryKind::KeyboardInput),
        options::kind_word(TelemetryKind::WorkspaceChanged),
        options::kind_word(TelemetryKind::WindowFocused),
    ]
}

/// The command line of the recorder.
pub open spec fn recorder_parts() -> Seq<Part> {
    seq![
        Part::Program {
            name: "hyprrec"@,
            version: VERSION@,
            about: "High-quality screen recording for Hyprland"@,
            after_help: "Press Ctrl+C to stop recording and finalize the video."@,
        },
        Part::Switch {
            name: "region"@,
            help: "Interactively select a region with slurp"@,
        },
        Part::Switch {
            name: "audio"@,
            help: "Record the default PipeWire audio source"@,
        },
        Part::Path {
            name: "dir"@,
            value_name: "PATH"@,
            help:
                "Directory in which to save recordings [default: $XDG_VIDEOS_DIR/hyprrec]"@,
        },
        Part::Text {
            name: "name"@,
            value_name: "NAME"@,
            help: "Output basename; .mp4 is added automatically"@,
        },
        Part::Choice {
            name: "quality"@,
            value_name: "QUALITY"@,
            help:
                "Encoding profile: high is compatible, ultra maximizes detail, compact uses efficient HEVC"@,
            choices: quality_words(),
            default: options::quality_word(Quality::High),
        },
        Part::Choices {
            name: "telemetry"@,
            value_name: "CATEGORY"@,
            help:
                "Track action telemetry (repeat or comma-separate): click, scroll, keyboard-input, workspace-changed, window-focused"@,
            choices: kind_words(),
            delimiter: ',',
        },
    ]
}

/// What a declared command line makes of arguments, the first of which is the program's name.
pub uninterp spec fn matched_arguments(
    parts: Seq<Part>,
    arguments: Seq<Seq<u8>>,
) -> Result<MatchedRecord, RefusalRecord>;

/// What came of a command line, as values.
pub open spec fn outcome(r: Result<Matched, CliRefusal>) -> Result<MatchedRecord, RefusalRecord> {
    match r {
        Ok(found) => Ok(found@),
        Err(refusal) => Err(refusal@),
    }
}

/// Whether the options with choices have words from among them.
pub open spec fn is_chosen(found: MatchedRecord) -> bool {
    &&& found.quality matches Some(word) && quality_words().contains(word)
    &&& found.telemetry matches Some(words) ==> forall|i: int|
        0 <= i < words.len() ==> kind_words().contains(#[trigger] words[i])
}

/// Whether a command line gave nothing.
pub open spec fn is_default(found: MatchedRecord) -> bool {
    &&& !found.region && !found.audio
    &&& found.dir is None && found.name is None && found.telemetry is None
    &&& found.quality == Some(options::quality_word(Quality::High))
}

/// `clap::Command::try_get_matches_from`, what `get_flag`, `remove_one` and `remove_many` of
/// the `clap::ArgMatches` give for the options, and the text, `use_stderr` and `exit_code` of
/// the error. The claim is that all of it depends on nothing but the declaration and the
/// arguments; that the words come from the choices that were declared; that the option with a
/// default has a word; and that the program's name alone is a command line without a mistake,
/// in which no switch is on and no option has a value but the default.
#[verifier::external_body]
fn matches_from(
    command: clap::Command,
    arguments: Vec<PathBuf>,
    switches: (&'static str, &'static str),
    values: (&'static str, &'static str, &'static str, &'static str),
) -> (r: Result<Matched, CliRefusal>)
    requires
        command_parts(command) == recorder_parts(),
        switches.0@ == "region"@,
        switches.1@ == "audio"@,
        values.0@ == "dir"@,
        values.1@ == "name"@,
        values.2@ == "quality"@,
        values.3@ == "telemetry"@,
    ensures
        outcome(r) == matched_arguments(recorder_parts(), paths_bytes(arguments@)),
        r is Ok ==> is_chosen(r->Ok_0@),
        arguments.len() == 1 ==> r is Ok && is_default(r->Ok_0@),
{
    match command.try_get_matches_from(arguments) {
        Ok(mut found) => Ok(Matched {
            region: found.get_flag(switches.0),
            audio: found.get_flag(switches.1),
            dir: found.remove_one::<PathBuf>(values.0),
            name: found.remove_one::<String>(values.1),
            quality: found.remove_one::<String>(values.2),
            telemetry: found.remove_many::<String>(values.3).map(Iterator::collect),
        }),
        Err(error) => {
            let (use_stderr, exit_code) = (error.use_stderr(), error.exit_code());
            Err(CliRefusal { message: error.to_string(), use_stderr, exit_code })
        },
    }
}

/// The words for telemetry categories.
pub open spec fn words_for(kinds: Seq<TelemetryKind>) -> Seq<Seq<char>> {
    kinds.map_values(|kind: TelemetryKind| options::kind_word(kind))
}

/// Whether a word asks for a profile.
pub open spec fn is_quality_word(word: Seq<char>) -> bool {
    exists|quality: Quality| word == #[trigger] options::quality_word(quality)
}

/// Whether a word asks for a telemetry category.
pub open spec fn is_kind_word(word: Seq<char>) -> bool {
    exists|kind: TelemetryKind| word == #[trigger] options::kind_word(kind)
}

/// The telemetry words of a command line.
pub open spec fn telemetry_words(found: MatchedRecord) -> Seq<Seq<char>> {
    match found.telemetry {
        Some(words) => words,
        None => seq![],
    }
}

/// Whether every word of a command line asks for something that there is.
pub open spec fn is_understood(found: MatchedRecord) -> bool {
    &&& found.quality matches Some(word) && is_quality_word(word)
    &&& forall|i: int|
        0 <= i < telemetry_words(found).len() ==> is_kind_word(
            #[trigger] telemetry_words(found)[i],
        )
}

fn understood_kinds(words: &Vec<String>) -> (r: Option<Vec<TelemetryKind>>)
    ensures
        r is Some <==> forall|i: int|
            0 <= i < words@.len() ==> is_kind_word(#[trigger] word_values(words@)[i]),
        r matches Some(kinds) ==> words_for(kinds@) == word_values(words@),
{
    let mut kinds: Vec<TelemetryKind> = Vec::new();
    let mut i: usize = 0;
    while i < words.len()
        invariant
            i <= words.len(),
            words_for(kinds@) =~= word_values(words@).take(i as int),
            forall|k: int| 0 <= k < i ==> is_kind_word(#[trigger] word_values(words@)[k]),
        decreases words.len() - i,
    {
        let ghost word = word_values(words@)[i as int];
        match TelemetryKind::from_arg(words[i].as_str()) {
            Some(kind) => {
                assert(word == options::kind_word(kind));
                let ghost before = words_for(kinds@);
                kinds.push(kind);
                assert(words_for(kinds@) =~= before.push(word));
                assert(word_values(words@).take(i + 1) =~= word_values(words@).take(i as int).push(
                    word,
                ));
            },
            None => {
                assert(!is_kind_word(word));
                return None;
            },
        }
        i += 1;
    }
    assert(word_values(words@).take(i as int) =~= word_values(words@));
    Some(kinds)
}

impl Cli {
    /// Whether this is what a command line said.
    pub open spec fn says(self, found: MatchedRecord) -> bool {
        &&& self.region == found.region
        &&& self.audio == found.audio
        &&& crate::session::optional_path(self.dir) == found.dir
        &&& crate::session::optional_text(self.name) == found.name
        &&& Some(options::quality_word(self.quality)) == found.quality
        &&& words_for(self.telemetry@) == telemetry_words(found)
    }

    /// Whether this is what a command line asks for that gives nothing: the focused monitor at
    /// the default quality, without audio and without telemetry.
    pub open spec fn is_plain(self) -> bool {
        &&& !self.region && !self.audio
        &&& self.dir is None && self.name is None
        &&& self.quality == Quality::High
        &&& self.telemetry.len() == 0
    }

    /// What the words of a command line ask for, if they are all understood.
    pub fn from_matched(found: Matched) -> (r: Option<Cli>)
        ensures
            r is Some <==> is_understood(found@),
            r matches Some(cli) ==> cli.says(found@),
    {
        let ghost said = found@;
        let quality = match found.quality {
            Some(word) => match Quality::from_arg(word.as_str()) {
                Some(quality) => quality,
                None => {
                    return None;
                },
            },
            None => {
                return None;
            },
        };
        assert(said.quality == Some(options::quality_word(quality)));
        let telemetry = match found.telemetry {
            Some(words) => {
                assert(telemetry_words(said) == word_values(words@));
                match understood_kinds(&words) {
                    Some(kinds) => kinds,
                    None => {
                        return None;
                    },
                }
            },
            None => Vec::new(),
        };
        assert(words_for(telemetry@) =~= telemetry_words(said));
        let dir = match found.dir {
            Some(dir) => Some(FilePath::from_bytes(bytes_of(dir))),
            None => None,
        };
        proof {
            assert forall|i: int| 0 <= i < telemetry_words(said).len() implies is_kind_word(
                #[trigger] telemetry_words(said)[i],
            ) by {
                assert(telemetry_words(said)[i] == options::kind_word(telemetry@[i]));
            }
        }
        Some(
            Cli {
                region: found.region,
                audio: found.audio,
                dir,
                name: found.name,
                quality,
                telemetry,
            },
        )
    }

    /// What a command line asks for, its first argument being the program's name. An argument
    /// is any string of the operating system, which a `PathBuf` holds.
    pub fn try_parse_from(arguments: Vec<PathBuf>) -> (r: Result<Cli, CliRefusal>)
        ensures
            match matched_arguments(recorder_parts(), paths_bytes(arguments@)) {
                Ok(found) => r matches Ok(cli) && cli.says(found),
                Err(refusal) => r matches Err(error) && error@ == refusal,
            },
            arguments.len() == 1 ==> r is Ok && r->Ok_0.is_plain(),
    {
        let command = recorder_command_line();
        let matched = matches_from(
            command,
            arguments,
            ("region", "audio"),
            ("dir", "name", "quality", "telemetry"),
        );
        let found = match matched {
            Ok(found) => found,
            Err(refusal) => {
                return Err(refusal);
            },
        };
        let ghost said = found@;
        proof {
            let word = said.quality->0;
            let k = choose|k: int| 0 <= k < quality_words().len() && quality_words()[k] == word;
            assert(is_quality_word(word)) by {
                assert(word == options::quality_word(
                    if k == 0 {
                        Quality::High
                    } else if k == 1 {
                        Quality::Ultra
                    } else {
                        Quality::Compact
                    },
                ));
            }
            assert forall|i: int| 0 <= i < telemetry_words(said).len() implies is_kind_word(
                #[trigger] telemetry_words(said)[i],
            ) by {
                kind_words_ask_for_kinds(telemetry_words(said)[i]);
            }
        }
        match Cli::from_matched(found) {
            Some(cli) => {
                proof {
                    options::quality_words_are_distinct(cli.quality, Quality::High);
                }
                Ok(cli)
            },
            None => vstd::pervasive::unreached(),
        }
    }
}

proof fn kind_words_ask_for_kinds(word: Seq<char>)
    requires
        kind_words().contains(word),
    ensures
        is_kind_word(word),
{
    let k = choose|k: int| 0 <= k < kind_words().len() && kind_words()[k] == word;
    assert(word == options::kind_word(
        if k == 0 {
            TelemetryKind::Click
        } else if k == 1 {
            TelemetryKind::Scroll
        } else if k == 2 {
            TelemetryKind::KeyboardInput
        } else if k == 3 {
            TelemetryKind::WorkspaceChanged
        } else {
            TelemetryKind::WindowFocused
        },
    ));
}

/// The command line of the recorder, declared.
fn recorder_command_line() -> (r: clap::Command)
    ensures
        command_parts(r) == recorder_parts(),
{
    let command = program(
        "hyprrec",
        VERSION,
        "High-quality screen recording for Hyprland",
        "Press Ctrl+C to stop recording and finalize the video.",
    );
    let command = with_switch(command, "region", "Interactively select a region with slurp");
    let command = with_switch(command, "audio", "Record the default PipeWire audio source");
    let command = with_path(
        command,
        "dir",
        "PATH",
        "Directory in which to save recordings [default: $XDG_VIDEOS_DIR/hyprrec]",
    );
    let command = with_text(
        command,
        "name",
        "NAME",
        "Output basename; .mp4 is added automatically",
    );
    let mut qualities: Vec<&'static str> = Vec::new();
    qualities.push(Quality::High.as_arg());
    qualities.push(Quality::Ultra.as_arg());
    qualities.push(Quality::Compact.as_arg());
    assert(literal_values(qualities@) =~= quality_words());
    let command = with_choice(
        command,
        "quality",
        "QUALITY",
        "Encoding profile: high is compatible, ultra maximizes detail, compact uses efficient HEVC",
        qualities,
        Quality::High.as_arg(),
    );
    let mut kinds: Vec<&'static str> = Vec::new();
    kinds.push(TelemetryKind::Click.as_arg());
    kinds.push(TelemetryKind::Scroll.as_arg());
    kinds.push(TelemetryKind::KeyboardInput.as_arg());
    kinds.push(TelemetryKind::WorkspaceChanged.as_arg());
    kinds.push(TelemetryKind::WindowFocused.as_arg());
    assert(literal_values(kinds@) =~= kind_words());
    let command = with_choices(
        command,
        "telemetry",
        "CATEGORY",
        "Track action telemetry (repeat or comma-separate): click, scroll, keyboard-input, workspace-changed, window-focused",
        kinds,
        ',',
    );
    assert(command_parts(command) =~= recorder_parts());
    command
}

/// A command line asks for the telemetry categories of its words, one for each and in their order,
/// and for the profile of its quality word; its other options are passed on as they are.
pub proof fn command_line_asks_by_its_words(cli: Cli, found: MatchedRecord, i: int)
    requires
        cli.says(found),
    ensures
        cli.region == found.region,
        cli.audio == found.audio,
        cli.dir is Some <==> found.dir is Some,
        cli.dir is Some ==> cli.dir->0@ == found.dir->0,
        cli.name is Some <==> found.name is Some,
        cli.name is Some ==> cli.name->0@ == found.name->0,
        cli.quality == Quality::High <==> found.quality == Some("high"@),
        cli.quality == Quality::Ultra <==> found.quality == Some("ultra"@),
        cli.quality == Quality::Compact <==> found.quality == Some("compact"@),
        found.telemetry is None ==> cli.telemetry@.len() == 0,
        found.telemetry is Some ==> cli.telemetry@.len() == found.telemetry->0.len(),
        found.telemetry is Some && 0 <= i < cli.telemetry@.len() ==> {
            let word = found.telemetry->0[i];
            &&& cli.telemetry@[i] == TelemetryKind::Click <==> word == "click"@
            &&& cli.telemetry@[i] == TelemetryKind::Scroll <==> word == "scroll"@
            &&& cli.telemetry@[i] == TelemetryKind::KeyboardInput <==> word == "keyboard-input"@
            &&& cli.telemetry@[i] == TelemetryKind::WorkspaceChanged <==> word
                == "workspace-changed"@
            &&& cli.telemetry@[i] == TelemetryKind::WindowFocused <==> word == "window-focused"@
        },
{
    options::quality_words_are_distinct(cli.quality, Quality::High);
    options::quality_words_are_distinct(cli.quality, Quality::Ultra);
    options::quality_words_are_distinct(cli.quality, Quality::Compact);
    assert(words_for(cli.telemetry@).len() == cli.telemetry@.len());
    if found.telemetry is Some && 0 <= i < cli.telemetry@.len() {
        let kind = cli.telemetry@[i];
        assert(words_for(cli.telemetry@)[i] == options::kind_word(kind));
        options::kind_words_are_distinct(kind, TelemetryKind::Click);
        options::kind_words_are_distinct(kind, TelemetryKind::Scroll);
        options::kind_words_are_distinct(kind, TelemetryKind::KeyboardInput);
        options::kind_words_are_distinct(kind, TelemetryKind::WorkspaceChanged);
        options::kind_words_are_distinct(kind, TelemetryKind::WindowFocused);
    }
}

/// A command line is understood exactly if its quality word is one of three and its telemetry
/// words are among five.
pub proof fn few_words_are_understood(found: MatchedRecord)
    ensures
        is_understood(found) <==> {
            &&& found.quality == Some("high"@) || found.quality == Some("ultra"@) || found.quality
                == Some("compact"@)
            &&& found.telemetry is Some ==> forall|i: int|
                0 <= i < found.telemetry->0.len() ==> seq![
                    "click"@,
                    "scroll"@,
                    "keyboard-input"@,
                    "workspace-changed"@,
                    "window-focused"@,
                ].contains(#[trigger] found.telemetry->0[i])
        },
{
    let words = seq![
        "click"@,
        "scroll"@,
        "keyboard-input"@,
        "workspace-changed"@,
        "window-focused"@,
    ];
    assert("high"@ == options::quality_word(Quality::High));
    assert("ultra"@ == options::quality_word(Quality::Ultra));
    assert("compact"@ == options::quality_word(Quality::Compact));
    assert forall|word: Seq<char>| #[trigger] is_kind_word(word) <==> words.contains(word) by {
        if is_kind_word(word) {
            let kind = choose|kind: TelemetryKind| word == #[trigger] options::kind_word(kind);
            assert(words[0] == "click"@ && words[1] == "scroll"@ && words[2] == "keyboard-input"@
                && words[3] == "workspace-changed"@ && words[4] == "window-focused"@);
            assert(words.contains(word));
        }
        if words.contains(word) {
            assert(words =~= kind_words());
            kind_words_ask_for_kinds(word);
        }
    }
    if found.telemetry is Some {
        assert(telemetry_words(found) == found.telemetry->0);
    }
}

} // verus!
