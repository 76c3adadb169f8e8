//! How the recorder is invoked, from the environment that it needs to the message that it
//! ends with.

use vstd::prelude::*;
use vstd::utf8::*;

use crate::cli::Cli;
use crate::clock::Timestamp;
use crate::command;
use crate::command::{Argument, ProcessOutput};
use crate::error::AppError;
use crate::naming;
use crate::options::{Quality, TelemetryKind};
use crate::path;
use crate::path::FilePath;
use crate::places;
use crate::places::{FileStat, UserDirs};
use crate::session;
use crate::text;

verus! {

/// What is recorded.
#[derive(Debug, PartialEq, Eq)]
pub enum CaptureTarget {
    /// The monitor of this name.
    Output(String),
    /// The region of this geometry.
    Geometry(String),
}

/// How video is encoded.
pub struct Profile {
    pub codec: Seq<char>,
    pub pixel_format: Seq<char>,
    pub crf: Seq<char>,
    pub preset: Seq<char>,
    pub extra: Option<Seq<char>>,
}

/// How video of a given quality is encoded.
pub open spec fn profile(quality: Quality) -> Profile {
    match quality {
        Quality::High => Profile {
            codec: "libx264"@,
            pixel_format: "yuv420p"@,
            crf: "crf=18"@,
            preset: "preset=veryfast"@,
            extra: None,
        },
        Quality::Ultra => Profile {
            codec: "libx264"@,
            pixel_format: "yuv444p"@,
            crf: "crf=10"@,
            preset: "preset=veryfast"@,
            extra: None,
        },
        Quality::Compact => Profile {
            codec: "libx265"@,
            pixel_format: "yuv444p"@,
            crf: "crf=12"@,
            preset: "preset=ultrafast"@,
            extra: Some("x265-params=psy-rd=0:cbqpoffs=0:crqpoffs=0"@),
        },
    }
}

/// The arguments for the encoder: codec, 60 frames per second, pixel format and codec
/// parameters.
pub open spec fn encoder_words(quality: Quality) -> Seq<Seq<char>> {
    let p = profile(quality);
    seq![
        "-c"@,
        p.codec,
        "-r"@,
        "60"@,
        "-x"@,
        p.pixel_format,
        "-p"@,
        p.crf,
        "-p"@,
        p.preset,
    ] + match p.extra {
        Some(parameter) => seq!["-p"@, parameter],
        None => seq![],
    }
}

/// Every profile records 60 frames per second.
pub proof fn every_profile_has_sixty_frames(quality: Quality)
    ensures
        exists|i: int|
            0 <= i < encoder_words(quality).len() - 1 && #[trigger] encoder_words(quality)[i] == "-r"@
                && encoder_words(quality)[i + 1] == "60"@,
{
    assert(encoder_words(quality)[2int] == "-r"@ && encoder_words(quality)[2int + 1] == "60"@);
}

/// The arguments for what is recorded.
pub open spec fn target_words(target: CaptureTarget) -> Seq<Seq<char>> {
    match target {
        CaptureTarget::Output(output) => seq!["-o"@, output@],
        CaptureTarget::Geometry(geometry) => seq!["-g"@, geometry@],
    }
}

/// The arguments for sound.
pub open spec fn audio_words(audio: bool) -> Seq<Seq<char>> {
    if audio {
        seq!["--audio-backend=pipewire"@, "--audio"@]
    } else {
        seq![]
    }
}

/// The arguments of the recorder.
pub open spec fn recorder_command(
    destination: Seq<u8>,
    target: CaptureTarget,
    audio: bool,
    quality: Quality,
) -> Seq<Seq<u8>> {
    command::word_bytes(seq!["-f"@]) + seq![destination] + command::word_bytes(
        encoder_words(quality) + target_words(target) + audio_words(audio),
    )
}

/// The arguments of the recorder.
pub fn recorder_args(
    destination: &FilePath,
    target: &CaptureTarget,
    audio: bool,
    quality: Quality,
) -> (r: Vec<Argument>)
    ensures
        command::argument_bytes(r@) == recorder_command(destination@, *target, audio, quality),
{
    let (codec, pixel_format, crf, preset, extra): (
        &'static str,
        &'static str,
        &'static str,
        &'static str,
        Option<&'static str>,
    ) = match quality {
        Quality::High => ("libx264", "yuv420p", "crf=18", "preset=veryfast", None),
        Quality::Ultra => ("libx264", "yuv444p", "crf=10", "preset=veryfast", None),
        Quality::Compact => (
            "libx265",
            "yuv444p",
            "crf=12",
            "preset=ultrafast",
            Some("x265-params=psy-rd=0:cbqpoffs=0:crqpoffs=0"),
        ),
    };
    let mut args: Vec<Argument> = Vec::new();
    command::push_word(&mut args, "-f");
    command::push_path(&mut args, destination);
    command::push_words(&mut args, "-c", codec);
    command::push_words(&mut args, "-r", "60");
    command::push_words(&mut args, "-x", pixel_format);
    command::push_words(&mut args, "-p", crf);
    command::push_words(&mut args, "-p", preset);
    if let Some(parameter) = extra {
        command::push_words(&mut args, "-p", parameter);
    }
    match target {
        CaptureTarget::Output(output) => {
            command::push_words(&mut args, "-o", output.as_str());
        },
        CaptureTarget::Geometry(geometry) => {
            command::push_words(&mut args, "-g", geometry.as_str());
        },
    }
    if audio {
        command::push_words(&mut args, "--audio-backend=pipewire", "--audio");
    }
    assert(command::argument_bytes(args@) =~= recorder_command(
        destination@,
        *target,
        audio,
        quality,
    ));
    args
}

/// Refuses to run outside Hyprland, given whether the environment names a Wayland display
/// and an instance of the compositor.
pub fn validate_session(wayland_display: bool, hyprland_signature: bool) -> (r: Result<
    (),
    AppError,
>)
    ensures
        r is Ok <==> wayland_display && hyprland_signature,
        r matches Err(error) ==> error is Message && error.words() == if !wayland_display {
            "WAYLAND_DISPLAY is not set; hyprrec must run inside a Wayland session"@
        } else {
            "HYPRLAND_INSTANCE_SIGNATURE is not set; hyprrec must run inside Hyprland"@
        },
{
    if !wayland_display {
        return Err(
            AppError::message(
                "WAYLAND_DISPLAY is not set; hyprrec must run inside a Wayland session",
            ),
        );
    }
    if !hyprland_signature {
        return Err(
            AppError::message(
                "HYPRLAND_INSTANCE_SIGNATURE is not set; hyprrec must run inside Hyprland",
            ),
        );
    }
    Ok(())
}

/// The monitor of an output listing.
#[derive(Debug, PartialEq, Eq)]
pub struct Monitor {
    pub name: String,
    pub focused: bool,
    pub disabled: bool,
}

/// Whether a monitor has the focus and shows something.
pub open spec fn is_candidate(monitor: Monitor) -> bool {
    monitor.focused && !monitor.disabled
}

/// The first monitor that has the focus and shows something.
pub open spec fn first_candidate(monitors: Seq<Monitor>) -> Option<Monitor>
    decreases monitors.len(),
{
    if monitors.len() == 0 {
        None
    } else if is_candidate(monitors[0]) {
        Some(monitors[0])
    } else {
        first_candidate(monitors.drop_first())
    }
}

/// The name of the first monitor that has the focus and is not disabled. `monitors` is what
/// the compositor's listing was parsed to, or why it could not be.
pub fn parse_focused_output(monitors: Result<Vec<Monitor>, String>) -> (r: Result<String, AppError>)
    ensures
        match monitors {
            Ok(list) => {
                &&& r is Ok <==> first_candidate(list@) is Some
                &&& r matches Ok(name) ==> first_candidate(list@)->0.name@ == name@
                &&& r matches Err(error) ==> error is Message && error.words()
                    == "Hyprland did not report a focused active monitor"@
            },
            Err(cause) => r matches Err(error) && error is Message && error.words()
                == "could not parse Hyprland monitor data: "@ + cause@,
        },
{
    let list = match monitors {
        Ok(list) => list,
        Err(cause) => {
            return Err(AppError::from_json(cause.as_str()));
        },
    };
    let mut i: usize = 0;
    assert(list@.skip(0) =~= list@);
    while i < list.len()
        invariant
            i <= list.len(),
            monitors == Ok::<Vec<Monitor>, String>(list),
            first_candidate(list@) == first_candidate(list@.skip(i as int)),
        decreases list.len() - i,
    {
        if list[i].focused && !list[i].disabled {
            return Ok(list[i].name.as_str().to_owned());
        }
        assert(list@.skip(i as int).drop_first() =~= list@.skip(i + 1));
        i += 1;
    }
    Err(AppError::message("Hyprland did not report a focused active monitor"))
}

/// Why there is no monitor listing, if there is none.
pub open spec fn listing_failure(output: Result<ProcessOutput, String>) -> Option<Seq<char>> {
    match output {
        Err(cause) => Some("could not run hyprctl: "@ + cause@),
        Ok(output) => if !output.success {
            Some("hyprctl could not list monitors (exit status "@ + output.status@ + ")"@)
        } else if !valid_utf8(output.stdout@) {
            Some("hyprctl returned invalid UTF-8: "@ + text::utf8_error_text(output.stdout@))
        } else {
            None
        },
    }
}

/// The text in which the compositor's control command lists the monitors, given what it left
/// behind or why it did not run.
pub fn monitor_listing(output: Result<ProcessOutput, String>) -> (r: Result<String, AppError>)
    ensures
        r is Ok <==> listing_failure(output) is None,
        r matches Ok(listing) ==> listing@ == decode_utf8(output->Ok_0.stdout@),
        r matches Err(error) ==> error is Message && Some(error.words()) == listing_failure(output),
{
    let output = match output {
        Ok(output) => output,
        Err(cause) => {
            return Err(
                AppError::Message(text::concat2("could not run hyprctl: ", cause.as_str())),
            );
        },
    };
    if !output.success {
        return Err(
            AppError::Message(
                text::concat3(
                    "hyprctl could not list monitors (exit status ",
                    output.status.as_str(),
                    ")",
                ),
            ),
        );
    }
    match text::decode(output.stdout) {
        Ok(listing) => Ok(listing),
        Err(error) => Err(
            AppError::Message(text::concat2("hyprctl returned invalid UTF-8: ", error.as_str())),
        ),
    }
}

/// What a finished selection printed, without surrounding white space.
pub open spec fn selected_geometry(output: ProcessOutput) -> Seq<char> {
    text::trimmed(decode_utf8(output.stdout@))
}

/// The region that was selected, given what the selection left behind or why it did not run.
/// Nothing selected is a cancellation.
pub fn select_region(output: Result<ProcessOutput, String>) -> (r: Result<String, AppError>)
    ensures
        match output {
            Err(cause) => r matches Err(error) && error is Message && error.words()
                == "could not start slurp: "@ + cause@,
            Ok(output) => if !output.success {
                r == Err::<String, AppError>(AppError::Cancelled)
            } else if !valid_utf8(output.stdout@) {
                r matches Err(error) && error is Message && error.words()
                    == "slurp returned invalid UTF-8: "@ + text::utf8_error_text(output.stdout@)
            } else if selected_geometry(output).len() == 0 {
                r == Err::<String, AppError>(AppError::Cancelled)
            } else {
                r matches Ok(geometry) && geometry@ == selected_geometry(output)
            },
        },
{
    let output = match output {
        Ok(output) => output,
        Err(cause) => {
            return Err(
                AppError::Message(text::concat2("could not start slurp: ", cause.as_str())),
            );
        },
    };
    if !output.success {
        return Err(AppError::Cancelled);
    }
    let printed = match text::decode(output.stdout) {
        Ok(printed) => printed,
        Err(error) => {
            return Err(
                AppError::Message(text::concat2("slurp returned invalid UTF-8: ", error.as_str())),
            );
        },
    };
    let geometry = text::trim(printed.as_str());
    if geometry.is_empty() {
        return Err(AppError::Cancelled);
    }
    Ok(geometry.to_owned())
}

/// What the environment offers a recording. Of a command the files are listed that were
/// found for it, in the order of the search path.
#[derive(Debug)]
pub struct Surroundings {
    pub wayland_display: bool,
    pub hyprland_signature: bool,
    pub search_path: bool,
    pub wf_recorder: Vec<Option<FileStat>>,
    pub hyprctl: Vec<Option<FileStat>>,
    pub slurp: Vec<Option<FileStat>>,
}

/// Why the environment does not allow a recording, if it does not.
pub open spec fn obstacle(surroundings: Surroundings, region: bool) -> Option<Seq<char>> {
    if !surroundings.wayland_display {
        Some("WAYLAND_DISPLAY is not set; hyprrec must run inside a Wayland session"@)
    } else if !surroundings.hyprland_signature {
        Some("HYPRLAND_INSTANCE_SIGNATURE is not set; hyprrec must run inside Hyprland"@)
    } else if !surroundings.search_path {
        Some("PATH is not set"@)
    } else if !places::some_executable(surroundings.wf_recorder@) {
        Some(missing("wf-recorder"@))
    } else if !places::some_executable(surroundings.hyprctl@) {
        Some(missing("hyprctl"@))
    } else if region && !places::some_executable(surroundings.slurp@) {
        Some(missing("slurp"@))
    } else {
        None
    }
}

/// The message for a command that is missing.
pub open spec fn missing(name: Seq<char>) -> Seq<char> {
    "required command `"@ + name + "` was not found in PATH; run hyprrec through shell.nix"@
}

/// Refuses to record where the session or a command is missing. A region is selected with a
/// command of its own.
pub fn check_surroundings(surroundings: &Surroundings, region: bool) -> (r: Result<(), AppError>)
    ensures
        r is Ok <==> obstacle(*surroundings, region) is None,
        r matches Err(error) ==> error is Message && Some(error.words()) == obstacle(
            *surroundings,
            region,
        ),
{
    if let Err(error) = validate_session(
        surroundings.wayland_display,
        surroundings.hyprland_signature,
    ) {
        return Err(error);
    }
    if !surroundings.search_path {
        return Err(AppError::message("PATH is not set"));
    }
    if let Err(error) = places::ensure_command_available("wf-recorder", &surroundings.wf_recorder) {
        return Err(error);
    }
    if let Err(error) = places::ensure_command_available("hyprctl", &surroundings.hyprctl) {
        return Err(error);
    }
    if region {
        if let Err(error) = places::ensure_command_available("slurp", &surroundings.slurp) {
            return Err(error);
        }
    }
    Ok(())
}

/// A recording whose directory has to be made next.
#[derive(Debug)]
pub struct Preparation {
    options: Cli,
    directory: FilePath,
}

/// A recording whose place has to be found free next.
#[derive(Debug)]
pub struct Placement {
    options: Cli,
    destination: FilePath,
}

/// A recording whose target has to be found next.
#[derive(Debug)]
pub struct Targeting {
    options: Cli,
    destination: FilePath,
}

/// A recording that can begin.
#[derive(Debug)]
pub struct Recording {
    destination: FilePath,
    arguments: Vec<Argument>,
    telemetry: Vec<TelemetryKind>,
}

/// How the recorder ended.
#[derive(Debug)]
pub struct RecorderExit {
    pub success: bool,
    /// The exit status in words.
    pub status: String,
}

impl Preparation {
    /// What was asked for.
    pub closed spec fn options(self) -> Cli {
        self.options
    }

    /// The directory to be made.
    pub closed spec fn target_directory(self) -> Seq<u8> {
        self.directory@
    }

    /// Begins a recording in the given surroundings.
    pub fn begin(
        options: Cli,
        surroundings: &Surroundings,
        user_dirs: Option<&UserDirs>,
    ) -> (r: Result<Preparation, AppError>)
        ensures
            r is Ok <==> obstacle(*surroundings, options.region) is None && (options.dir is Some
                || user_dirs is Some),
            r matches Ok(preparation) ==> {
                &&& preparation.options() == options
                &&& preparation.target_directory() == match options.dir {
                    Some(given) => given@,
                    None => places::default_directory(*user_dirs->0),
                }
            },
            r matches Err(error) ==> error is Message && error.words() == match obstacle(
                *surroundings,
                options.region,
            ) {
                Some(words) => words,
                None => "could not determine the current user's home directory"@,
            },
    {
        if let Err(error) = check_surroundings(surroundings, options.region) {
            return Err(error);
        }
        let given = match &options.dir {
            Some(directory) => Some(directory.clone()),
            None => None,
        };
        match places::resolve_output_directory(given, user_dirs) {
            Ok(directory) => Ok(Preparation { options, directory }),
            Err(error) => Err(error),
        }
    }

    /// The directory to be made, with its parents.
    pub fn directory(&self) -> (r: &FilePath)
        ensures
            r@ == self.target_directory(),
    {
        &self.directory
    }

    /// Goes on once making the directory succeeded, or ends with the error of making it. The
    /// name of the recording is made or checked only then.
    pub fn directory_made(self, made: Result<(), String>, now: Timestamp) -> (r: Result<
        Placement,
        AppError,
    >)
        ensures
            r is Ok <==> made is Ok && naming::output_path(
                self.target_directory(),
                session::optional_text(self.options().name),
                now,
            ) is Some,
            r matches Ok(placement) ==> {
                &&& placement.options() == self.options()
                &&& Some(placement.video()) == naming::output_path(
                    self.target_directory(),
                    session::optional_text(self.options().name),
                    now,
                )
            },
            r matches Err(error) ==> error is Message && error.words() == match made {
                Err(cause) => "could not create output directory "@ + path::lossy_text(
                    self.target_directory(),
                ) + ": "@ + cause@,
                Ok(_) => if naming::names_nothing(text::trimmed(self.options().name->0@)) {
                    "--name must contain a non-empty filename"@
                } else {
                    "--name must be a basename without path separators; use --dir for the folder"@
                },
            },
    {
        if let Err(cause) = made {
            let mut words = text::concat3(
                "could not create output directory ",
                self.directory.display().as_str(),
                ": ",
            );
            words.append(cause.as_str());
            return Err(AppError::Message(words));
        }
        let name: Option<&str> = match &self.options.name {
            Some(name) => Some(name.as_str()),
            None => None,
        };
        match naming::build_output_path(&self.directory, name, now) {
            Ok(destination) => Ok(Placement { options: self.options, destination }),
            Err(error) => Err(error),
        }
    }
}

impl Placement {
    /// What was asked for.
    pub closed spec fn options(self) -> Cli {
        self.options
    }

    /// Where the video goes.
    pub closed spec fn video(self) -> Seq<u8> {
        self.destination@
    }

    /// Where the video goes.
    pub fn destination(&self) -> (r: &FilePath)
        ensures
            r@ == self.video(),
    {
        &self.destination
    }

    /// Where telemetry goes, if any is written.
    pub fn sidecar(&self) -> (r: Option<FilePath>)
        ensures
            r is Some <==> self.options().telemetry@.len() > 0,
            r matches Some(sidecar) ==> sidecar@ == naming::sidecar(self.video()),
    {
        if self.options.telemetry.len() == 0 {
            None
        } else {
            Some(naming::telemetry_path(&self.destination))
        }
    }

    /// Goes on if nothing would be overwritten: neither the video nor, if telemetry is
    /// written, its file.
    pub fn confirm_free(self, video_exists: bool, sidecar_exists: bool) -> (r: Result<
        Targeting,
        AppError,
    >)
        ensures
            r is Ok <==> !video_exists && (self.options().telemetry@.len() > 0 ==> !sidecar_exists),
            r matches Ok(targeting) ==> targeting.options() == self.options() && targeting.video()
                == self.video(),
            r matches Err(error) ==> error is Message && error.words()
                == "refusing to overwrite existing recording: "@ + path::lossy_text(
                if video_exists {
                    self.video()
                } else {
                    naming::sidecar(self.video())
                },
            ),
    {
        if let Err(error) = naming::ensure_destination_available(&self.destination, video_exists) {
            return Err(error);
        }
        if let Some(sidecar) = self.sidecar() {
            if let Err(error) = naming::ensure_destination_available(&sidecar, sidecar_exists) {
                return Err(error);
            }
        }
        Ok(Targeting { options: self.options, destination: self.destination })
    }
}

impl Targeting {
    /// What was asked for.
    pub closed spec fn options(self) -> Cli {
        self.options
    }

    /// Where the video goes.
    pub closed spec fn video(self) -> Seq<u8> {
        self.destination@
    }

    /// Whether a region has to be selected; otherwise the focused monitor has to be found.
    pub fn wants_region(&self) -> (r: bool)
        ensures
            r == self.options().region,
    {
        self.options.region
    }

    /// The recording of what `found` names: the selected region or the focused monitor,
    /// whichever was asked for.
    pub fn aim(self, found: String) -> (r: Recording)
        ensures
            r.video() == self.video(),
            r.categories() == self.options().telemetry@,
            r.recorder() == recorder_command(
                self.video(),
                if self.options().region {
                    CaptureTarget::Geometry(found)
                } else {
                    CaptureTarget::Output(found)
                },
                self.options().audio,
                self.options().quality,
            ),
    {
        let target = if self.options.region {
            CaptureTarget::Geometry(found)
        } else {
            CaptureTarget::Output(found)
        };
        let arguments = recorder_args(
            &self.destination,
            &target,
            self.options.audio,
            self.options.quality,
        );
        Recording {
            destination: self.destination,
            arguments,
            telemetry: self.options.telemetry,
        }
    }
}

/// How a recording ended, in words: the report of success or the error.
pub open spec fn closing_words(video: Seq<u8>, outcome: Result<RecorderExit, String>) -> Seq<char> {
    match outcome {
        Ok(exit) => if exit.success {
            "Saved recording to "@ + path::lossy_text(video)
        } else {
            "wf-recorder exited with "@ + exit.status@ + "; a partial file may remain at "@
                + path::lossy_text(video)
        },
        Err(cause) => "could not start wf-recorder: "@ + cause@,
    }
}

/// Whether the recorder ran and succeeded.
pub open spec fn recorded(outcome: Result<RecorderExit, String>) -> bool {
    outcome matches Ok(exit) && exit.success
}

impl Recording {
    /// Where the video goes.
    pub closed spec fn video(self) -> Seq<u8> {
        self.destination@
    }

    /// The arguments of the recorder.
    pub closed spec fn recorder(self) -> Seq<Seq<u8>> {
        command::argument_bytes(self.arguments@)
    }

    /// The telemetry that is written.
    pub closed spec fn categories(self) -> Seq<TelemetryKind> {
        self.telemetry@
    }

    /// Where the video goes.
    pub fn destination(&self) -> (r: &FilePath)
        ensures
            r@ == self.video(),
    {
        &self.destination
    }

    /// The arguments of the recorder.
    pub fn arguments(&self) -> (r: &Vec<Argument>)
        ensures
            command::argument_bytes(r@) == self.recorder(),
    {
        &self.arguments
    }

    /// The telemetry that is written; none at all if this is empty.
    pub fn telemetry(&self) -> (r: &Vec<TelemetryKind>)
        ensures
            r@ == self.categories(),
    {
        &self.telemetry
    }

    /// The line that announces the recording.
    pub fn announcement(&self) -> (r: String)
        ensures
            r@ == "Recording to "@ + path::lossy_text(self.video()),
    {
        text::concat2("Recording to ", self.destination.display().as_str())
    }

    /// The error of a recording whose telemetry did not start because of `cause`.
    pub fn telemetry_failed(&self, cause: &str) -> (r: AppError)
        ensures
            r is Message,
            r.words() == "could not start telemetry: "@ + cause@,
    {
        AppError::Message(text::concat2("could not start telemetry: ", cause))
    }

    /// The error of a recording that could not be made to survive Ctrl+C because of `cause`.
    pub fn handler_failed(&self, cause: &str) -> (r: AppError)
        ensures
            r is Message,
            r.words() == "could not install the Ctrl+C handler: "@ + cause@,
    {
        AppError::Message(text::concat2("could not install the Ctrl+C handler: ", cause))
    }

    /// Whether telemetry is to say that the recording succeeded.
    pub fn succeeded(&self, outcome: &Result<RecorderExit, String>) -> (r: bool)
        ensures
            r == recorded(*outcome),
    {
        match outcome {
            Ok(exit) => exit.success,
            Err(_) => false,
        }
    }

    /// The report or the error that the recording ends with.
    pub fn finish(&self, outcome: Result<RecorderExit, String>) -> (r: Result<String, AppError>)
        ensures
            r is Ok <==> recorded(outcome),
            r matches Ok(report) ==> report@ == closing_words(self.video(), outcome),
            r matches Err(error) ==> error is Message && error.words() == closing_words(
                self.video(),
                outcome,
            ),
    {
        let exit = match outcome {
            Ok(exit) => exit,
            Err(cause) => {
                return Err(
                    AppError::Message(
                        text::concat2("could not start wf-recorder: ", cause.as_str()),
                    ),
                );
            },
        };
        let shown = self.destination.display();
        if !exit.success {
            let mut words = text::concat3(
                "wf-recorder exited with ",
                exit.status.as_str(),
                "; a partial file may remain at ",
            );
            words.append(shown.as_str());
            return Err(AppError::Message(words));
        }
        Ok(text::concat2("Saved recording to ", shown.as_str()))
    }
}

/// The line and the verdict that the program ends with: a cancelled selection is told of,
/// and is no failure.
pub fn exit_report(error: &AppError) -> (r: (String, bool))
    ensures
        r.0@ == "hyprrec: "@ + error.words(),
        r.1 == (*error is Cancelled),
{
    let line = text::concat2("hyprrec: ", error.to_text().as_str());
    match error {
        AppError::Cancelled => (line, true),
        AppError::Message(_) => (line, false),
    }
}

/// The recorder is told the file, the codec, the frame rate, the pixel format and the codec
/// parameters of the profile, then the target, then the sound, and nothing else: H.264 but for the
/// compact profile, which is HEVC; full colour but for the high profile; and always 60 frames per
/// second.
pub proof fn recorder_is_told_the_profile(
    destination: Seq<u8>,
    target: CaptureTarget,
    audio: bool,
    quality: Quality,
)
    ensures
        ({
            let args = recorder_command(destination, target, audio, quality);
            let n: int = if quality == Quality::Compact {
                14
            } else {
                12
            };
            &&& args[0] == encode_utf8("-f"@) && args[1] == destination
            &&& args[2] == encode_utf8("-c"@)
            &&& quality == Quality::High ==> args[3] == encode_utf8("libx264"@)
            &&& quality == Quality::Ultra ==> args[3] == encode_utf8("libx264"@)
            &&& quality == Quality::Compact ==> args[3] == encode_utf8("libx265"@)
            &&& args[4] == encode_utf8("-r"@) && args[5] == encode_utf8("60"@)
            &&& args[6] == encode_utf8("-x"@)
            &&& quality == Quality::High ==> args[7] == encode_utf8("yuv420p"@)
            &&& quality == Quality::Ultra ==> args[7] == encode_utf8("yuv444p"@)
            &&& quality == Quality::Compact ==> args[7] == encode_utf8("yuv444p"@)
            &&& args[8] == encode_utf8("-p"@)
            &&& quality == Quality::High ==> args[9] == encode_utf8("crf=18"@)
            &&& quality == Quality::Ultra ==> args[9] == encode_utf8("crf=10"@)
            &&& quality == Quality::Compact ==> args[9] == encode_utf8("crf=12"@)
            &&& args[10] == encode_utf8("-p"@)
            &&& quality == Quality::High ==> args[11] == encode_utf8("preset=veryfast"@)
            &&& quality == Quality::Ultra ==> args[11] == encode_utf8("preset=veryfast"@)
            &&& quality == Quality::Compact ==> args[11] == encode_utf8("preset=ultrafast"@)
            &&& quality == Quality::Compact ==> args[12] == encode_utf8("-p"@) && args[13]
                == encode_utf8("x265-params=psy-rd=0:cbqpoffs=0:crqpoffs=0"@)
            &&& target matches CaptureTarget::Output(output) ==> args[n] == encode_utf8("-o"@)
                && args[n + 1] == encode_utf8(output@)
            &&& target matches CaptureTarget::Geometry(geometry) ==> args[n] == encode_utf8("-g"@)
                && args[n + 1] == encode_utf8(geometry@)
            &&& audio ==> args[n + 2] == encode_utf8("--audio-backend=pipewire"@) && args[n + 3]
                == encode_utf8("--audio"@)
            &&& args.len() == if audio {
                n + 4
            } else {
                n + 2
            }
        }),
{
}

/// A recording can begin exactly where there is a Wayland display, a compositor, a search path,
/// and each command that it needs; a command to select a region is needed for a region alone.
pub proof fn obstacles_are_what_is_missing(surroundings: Surroundings, region: bool)
    ensures
        obstacle(surroundings, region) is None <==> {
            &&& surroundings.wayland_display
            &&& surroundings.hyprland_signature
            &&& surroundings.search_path
            &&& places::some_executable(surroundings.wf_recorder@)
            &&& places::some_executable(surroundings.hyprctl@)
            &&& region ==> places::some_executable(surroundings.slurp@)
        },
        !surroundings.wayland_display ==> obstacle(surroundings, region) == Some(
            "WAYLAND_DISPLAY is not set; hyprrec must run inside a Wayland session"@,
        ),
        surroundings.wayland_display && !surroundings.hyprland_signature ==> obstacle(
            surroundings,
            region,
        ) == Some("HYPRLAND_INSTANCE_SIGNATURE is not set; hyprrec must run inside Hyprland"@),
        surroundings.wayland_display && surroundings.hyprland_signature
            && !surroundings.search_path ==> obstacle(surroundings, region) == Some(
            "PATH is not set"@,
        ),
{
}

/// The monitor that is recorded has the focus and is not disabled, and no such monitor comes
/// before it in the listing; there is none only where no monitor is such.
pub proof fn recorded_monitor_is_the_first_focused(monitors: Seq<Monitor>)
    ensures
        match first_candidate(monitors) {
            Some(monitor) => exists|i: int|
                {
                    &&& 0 <= i < monitors.len()
                    &&& #[trigger] monitors[i] == monitor
                    &&& monitor.focused && !monitor.disabled
                    &&& forall|k: int|
                        0 <= k < i ==> !(#[trigger] monitors[k]).focused || monitors[k].disabled
                },
            None => forall|k: int|
                0 <= k < monitors.len() ==> !(#[trigger] monitors[k]).focused
                    || monitors[k].disabled,
        },
    decreases monitors.len(),
{
    if monitors.len() > 0 {
        if is_candidate(monitors[0]) {
            assert(monitors[0] == first_candidate(monitors)->0);
        } else {
            let rest = monitors.drop_first();
            recorded_monitor_is_the_first_focused(rest);
            match first_candidate(rest) {
                Some(monitor) => {
                    let i = choose|i: int|
                        {
                            &&& 0 <= i < rest.len()
                            &&& #[trigger] rest[i] == monitor
                            &&& monitor.focused && !monitor.disabled
                            &&& forall|k: int|
                                0 <= k < i ==> !(#[trigger] rest[k]).focused || rest[k].disabled
                        };
                    assert(monitors[i + 1] == monitor);
                    assert forall|k: int| 0 <= k < i + 1 implies !(#[trigger] monitors[k]).focused
                        || monitors[k].disabled by {
                        if k > 0 {
                            assert(rest[k - 1] == monitors[k]);
                        }
                    }
                },
                None => {
                    assert forall|k: int|
                        0 <= k < monitors.len() implies !(#[trigger] monitors[k]).focused
                        || monitors[k].disabled by {
                        if k > 0 {
                            assert(rest[k - 1] == monitors[k]);
                        }
                    }
                },
            }
        }
    }
}

/// A recording that is reported as saved ran to a successful end; the report and the error for a
/// failed recorder tell where the video is.
pub proof fn closing_words_tell_the_outcome(video: Seq<u8>, outcome: Result<RecorderExit, String>)
    ensures
        recorded(outcome) <==> (outcome is Ok && outcome->Ok_0.success),
        recorded(outcome) ==> closing_words(video, outcome) == "Saved recording to "@
            + path::lossy_text(video),
        outcome is Ok && !recorded(outcome) ==> closing_words(video, outcome)
            == "wf-recorder exited with "@ + outcome->Ok_0.status@
            + "; a partial file may remain at "@ + path::lossy_text(video),
        outcome matches Err(cause) ==> closing_words(video, outcome)
            == "could not start wf-recorder: "@ + cause@,
{
}

/// A monitor listing is read only where the command ran, succeeded and printed valid UTF-8.
pub proof fn listing_fails_with_its_cause(output: Result<ProcessOutput, String>)
    ensures
        listing_failure(output) is None <==> (output is Ok && output->Ok_0.success && valid_utf8(
            output->Ok_0.stdout@,
        )),
        output matches Err(cause) ==> listing_failure(output) == Some(
            "could not run hyprctl: "@ + cause@,
        ),
        output is Ok && !output->Ok_0.success ==> listing_failure(output) == Some(
            "hyprctl could not list monitors (exit status "@ + output->Ok_0.status@ + ")"@,
        ),
{
}

/// The first command that is missing is told, by its name.
pub proof fn missing_command_is_told(surroundings: Surroundings, region: bool)
    requires
        surroundings.wayland_display,
        surroundings.hyprland_signature,
        surroundings.search_path,
    ensures
        ({
            let recorder = places::some_executable(surroundings.wf_recorder@);
            let control = places::some_executable(surroundings.hyprctl@);
            let selector = places::some_executable(surroundings.slurp@);
            let told = obstacle(surroundings, region);
            &&& !recorder ==> told == Some(
                "required command `"@ + "wf-recorder"@
                    + "` was not found in PATH; run hyprrec through shell.nix"@,
            )
            &&& recorder && !control ==> told == Some(
                "required command `"@ + "hyprctl"@
                    + "` was not found in PATH; run hyprrec through shell.nix"@,
            )
            &&& recorder && control && region && !selector ==> told == Some(
                "required command `"@ + "slurp"@
                    + "` was not found in PATH; run hyprrec through shell.nix"@,
            )
        }),
{
}

/// A listing that is no valid UTF-8 is refused with the reason.
pub proof fn unreadable_listing_is_told(output: ProcessOutput)
    requires
        output.success,
        !valid_utf8(output.stdout@),
    ensures
        listing_failure(Ok(output)) == Some(
            "hyprctl returned invalid UTF-8: "@ + text::utf8_error_text(output.stdout@),
        ),
{
}

/// A selected region is what was printed, without the blanks around it. Nothing printed, and a
/// selection that failed, are cancellations.
pub proof fn a_region_is_what_was_printed(
    output: ProcessOutput,
    outcome: Result<String, AppError>,
)
    requires
        call_ensures(select_region, (Ok(output),), outcome),
    ensures
        ({
            let printed = text::trimmed(decode_utf8(output.stdout@));
            let readable = valid_utf8(output.stdout@);
            &&& outcome is Ok <==> output.success && readable && printed.len() > 0
            &&& outcome is Ok ==> outcome->Ok_0@ == printed
            &&& !output.success || (readable && printed.len() == 0) ==> outcome
                == Err::<String, AppError>(AppError::Cancelled)
            &&& output.success && !readable ==> outcome->Err_0.words()
                == "slurp returned invalid UTF-8: "@ + text::utf8_error_text(output.stdout@)
        }),
{
}

/// The recorder is told the region that was found if one was asked for, and the monitor otherwise;
/// the sound exactly if it was asked for; and the video of the recording.
pub proof fn a_recording_is_aimed_as_asked(targeting: Targeting, found: String, recording: Recording)
    requires
        call_ensures(Targeting::aim, (targeting, found), recording),
    ensures
        ({
            let args = recording.recorder();
            let n: int = if targeting.options().quality == Quality::Compact {
                14
            } else {
                12
            };
            &&& args[1] == targeting.video()
            &&& recording.video() == targeting.video()
            &&& recording.categories() == targeting.options().telemetry@
            &&& args[n] == if targeting.options().region {
                encode_utf8("-g"@)
            } else {
                encode_utf8("-o"@)
            }
            &&& args[n + 1] == encode_utf8(found@)
            &&& args.len() == n + 2 || args.len() == n + 4
            &&& args.len() == n + 4 <==> targeting.options().audio
        }),
{
    let target = if targeting.options().region {
        CaptureTarget::Geometry(found)
    } else {
        CaptureTarget::Output(found)
    };
    recorder_is_told_the_profile(
        targeting.video(),
        target,
        targeting.options().audio,
        targeting.options().quality,
    );
}

/// A recording goes on exactly if neither its video nor, if it writes telemetry, the file for that
/// is there, and goes on as it was.
pub proof fn a_recording_overwrites_nothing(
    placement: Placement,
    video_exists: bool,
    sidecar_exists: bool,
    outcome: Result<Targeting, AppError>,
)
    requires
        call_ensures(Placement::confirm_free, (placement, video_exists, sidecar_exists), outcome),
    ensures
        outcome is Err <==> video_exists || (placement.options().telemetry@.len() > 0
            && sidecar_exists),
        video_exists ==> outcome->Err_0.words() == "refusing to overwrite existing recording: "@
            + path::lossy_text(placement.video()),
        outcome is Ok ==> outcome->Ok_0.options() == placement.options() && outcome->Ok_0.video()
            == placement.video(),
{
}

/// A recording goes where it was asked to, or else to the default directory, unless the
/// surroundings do not allow it.
pub proof fn a_recording_goes_where_it_was_asked(
    options: Cli,
    surroundings: Surroundings,
    user_dirs: Option<&UserDirs>,
    outcome: Result<Preparation, AppError>,
)
    requires
        call_ensures(Preparation::begin, (options, &surroundings, user_dirs), outcome),
    ensures
        outcome is Ok <==> obstacle(surroundings, options.region) is None && (options.dir is Some
            || user_dirs is Some),
        outcome is Ok ==> outcome->Ok_0.options() == options,
        outcome is Ok && options.dir is Some ==> outcome->Ok_0.target_directory()
            == options.dir->0@,
        outcome is Ok && options.dir is None ==> outcome->Ok_0.target_directory()
            == places::default_directory(*user_dirs->0),
{
}

/// The program ends well exactly if nothing failed: a selection that was given up is told, and is
/// no failure.
pub proof fn giving_up_is_no_failure(error: AppError, line: String, well: bool)
    requires
        call_ensures(exit_report, (&error,), (line, well)),
    ensures
        well <==> error is Cancelled,
        error is Cancelled ==> line@ == "hyprrec: "@ + "region selection cancelled"@,
        error matches AppError::Message(message) ==> line@ == "hyprrec: "@ + message@,
{
}

/// A recording is reported as saved exactly if the recorder ended well.
pub proof fn a_saved_recording_is_reported(
    recording: Recording,
    outcome: Result<RecorderExit, String>,
    told: Result<String, AppError>,
)
    requires
        call_ensures(Recording::finish, (&recording, outcome), told),
    ensures
        told is Ok <==> outcome is Ok && outcome->Ok_0.success,
        told is Ok ==> told->Ok_0@ == "Saved recording to "@ + path::lossy_text(
            recording.video(),
        ),
        outcome is Err ==> told->Err_0.words() == "could not start wf-recorder: "@
            + outcome->Err_0@,
{
    closing_words_tell_the_outcome(recording.video(), outcome);
}

/// A recording is placed in its directory under the requested name, or under one made of the time,
/// once the directory is there, and goes on with what was asked for.
pub proof fn a_recording_is_placed_under_its_name(
    preparation: Preparation,
    made: Result<(), String>,
    now: Timestamp,
    outcome: Result<Placement, AppError>,
)
    requires
        call_ensures(Preparation::directory_made, (preparation, made, now), outcome),
    ensures
        made is Err ==> outcome is Err && outcome->Err_0.words()
            == "could not create output directory "@ + path::lossy_text(
            preparation.target_directory(),
        ) + ": "@ + made->Err_0@,
        made is Ok && preparation.options().name is None ==> outcome is Ok,
        outcome is Ok ==> outcome->Ok_0.options() == preparation.options(),
        outcome is Ok ==> Some(outcome->Ok_0.video()) == naming::output_path(
            preparation.target_directory(),
            session::optional_text(preparation.options().name),
            now,
        ),
{
}

} // verus!
