//! Where a recording and its telemetry go, and what they may be called.

use vstd::prelude::*;
use vstd::utf8::*;

use crate::clock::Timestamp;
use crate::error::{AppError, McpError};
use crate::path;
use crate::path::FilePath;
use crate::text;

verus! {

/// Whether a name says nothing: it is empty, `.` or `..`.
pub open spec fn names_nothing(name: Seq<char>) -> bool {
    name.len() == 0 || name == "."@ || name == ".."@
}

/// Whether a name reaches out of its directory.
pub open spec fn has_separator(name: Seq<char>) -> bool {
    name.contains('/') || name.contains('\\')
}

/// Whether a name can be that of a file in a directory.
pub open spec fn is_basename(name: Seq<char>) -> bool {
    !names_nothing(name) && !has_separator(name)
}

/// The file that a recording called `basename` is written to.
pub open spec fn video_file(basename: Seq<char>) -> Seq<char> {
    if ".mp4"@.is_suffix_of(text::lowercase(basename)) {
        basename
    } else {
        basename + ".mp4"@
    }
}

/// The file that a recording called `basename` is written to: with `.mp4` where it does not
/// end in that already.
pub(crate) fn video_file_name(basename: &str) -> (r: String)
    ensures
        r@ == video_file(basename@),
{
    if text::lowercase_ends_with(basename, ".mp4") {
        basename.to_owned()
    } else {
        text::concat2(basename, ".mp4")
    }
}

/// What a recording is called that was given no name.
pub open spec fn generated_name(now: Timestamp) -> Seq<char> {
    "hyprrec-"@ + now.stamp()
}

fn is_nothing(name: &str) -> (r: bool)
    ensures
        r == names_nothing(name@),
{
    name.is_empty() || text::same_text(name, ".") || text::same_text(name, "..")
}

fn reaches_out(name: &str) -> (r: bool)
    ensures
        r == has_separator(name@),
{
    text::contains_char(name, '/') || text::contains_char(name, '\\')
}

/// The requested name without surrounding white space, if it can name a file.
pub fn validate_name(name: &str) -> (r: Result<String, AppError>)
    ensures
        r is Ok <==> is_basename(text::trimmed(name@)),
        r matches Ok(basename) ==> basename@ == text::trimmed(name@),
        r matches Err(error) ==> error is Message && error.words() == if names_nothing(
            text::trimmed(name@),
        ) {
            "--name must contain a non-empty filename"@
        } else {
            "--name must be a basename without path separators; use --dir for the folder"@
        },
{
    let name = text::trim(name);
    if is_nothing(name) {
        return Err(AppError::message("--name must contain a non-empty filename"));
    }
    if reaches_out(name) {
        return Err(
            AppError::message(
                "--name must be a basename without path separators; use --dir for the folder",
            ),
        );
    }
    Ok(name.to_owned())
}

/// The characters of a requested name, if one was requested.
pub open spec fn requested_text(requested: Option<&str>) -> Option<Seq<char>> {
    match requested {
        Some(name) => Some(name@),
        None => None,
    }
}

/// The path that a recording is written to at `now`, given the name that was requested, unless
/// that is refused.
pub open spec fn output_path(
    directory: Seq<u8>,
    requested: Option<Seq<char>>,
    now: Timestamp,
) -> Option<Seq<u8>> {
    match requested {
        Some(name) => if is_basename(text::trimmed(name)) {
            Some(path::joined(directory, encode_utf8(video_file(text::trimmed(name)))))
        } else {
            None
        },
        None => Some(path::joined(directory, encode_utf8(video_file(generated_name(now))))),
    }
}

/// The path that a recording is written to: the requested name or else one made from the
/// time, with `.mp4` where it does not end in that already, in `directory`.
pub fn build_output_path(
    directory: &FilePath,
    requested_name: Option<&str>,
    now: Timestamp,
) -> (r: Result<FilePath, AppError>)
    ensures
        r is Ok <==> output_path(directory@, requested_text(requested_name), now) is Some,
        r matches Ok(destination) ==> Some(destination@) == output_path(
            directory@,
            requested_text(requested_name),
            now,
        ),
        r matches Err(error) ==> error is Message && error.words() == if names_nothing(
            text::trimmed(requested_name->0@),
        ) {
            "--name must contain a non-empty filename"@
        } else {
            "--name must be a basename without path separators; use --dir for the folder"@
        },
{
    let basename = match requested_name {
        Some(name) => match validate_name(name) {
            Ok(basename) => basename,
            Err(error) => {
                return Err(error);
            },
        },
        None => text::concat2("hyprrec-", now.to_stamp().as_str()),
    };
    let filename = video_file_name(basename.as_str());
    Ok(directory.join(&FilePath::from_text(filename.as_str())))
}

/// Where the telemetry of the recording at `destination` goes.
pub open spec fn sidecar(destination: Seq<u8>) -> Seq<u8> {
    path::extended(destination, encode_utf8("telemetry.jsonl"@))
}

/// Where the telemetry of the recording at `destination` goes: beside it, under the same
/// basename.
pub fn telemetry_path(destination: &FilePath) -> (r: FilePath)
    ensures
        r@ == sidecar(destination@),
{
    destination.with_extension("telemetry.jsonl")
}

/// Refuses a destination at which there `exists` a file already.
pub fn ensure_destination_available(destination: &FilePath, exists: bool) -> (r: Result<
    (),
    AppError,
>)
    ensures
        r is Ok <==> !exists,
        r matches Err(error) ==> error is Message && error.words()
            == "refusing to overwrite existing recording: "@ + path::lossy_text(destination@),
{
    if exists {
        Err(
            AppError::Message(
                text::concat2(
                    "refusing to overwrite existing recording: ",
                    destination.display().as_str(),
                ),
            ),
        )
    } else {
        Ok(())
    }
}

/// `name` without surrounding white space and then without a final `.mp4`.
pub open spec fn normalized(name: Seq<char>) -> Seq<char> {
    let t = text::trimmed(name);
    if ".mp4"@.is_suffix_of(t) {
        t.take(t.len() - 4)
    } else {
        t
    }
}

/// The file that is announced for a request: the one that the recorder writes when it is given
/// the name `basename`. For a name that the recorder refuses it is the name as it stands.
pub open spec fn announced_file(basename: Seq<char>) -> Seq<char> {
    if is_basename(text::trimmed(basename)) {
        video_file(text::trimmed(basename))
    } else {
        basename + ".mp4"@
    }
}

/// The file that is announced for a request.
pub(crate) fn announced_file_name(basename: &str) -> (r: String)
    ensures
        r@ == announced_file(basename@),
{
    match validate_name(basename) {
        Ok(name) => video_file_name(name.as_str()),
        Err(_) => text::concat2(basename, ".mp4"),
    }
}

/// The basename of a requested recording; its extension is optional.
pub fn normalize_requested(name: &str) -> (r: Result<String, McpError>)
    ensures
        r is Ok <==> is_basename(normalized(name@)),
        r matches Ok(basename) ==> basename@ == normalized(name@),
        r matches Err(error) ==> error.words() == "name must be a non-empty basename"@,
{
    let trimmed = text::trim(name);
    proof {
        reveal_strlit(".mp4");
    }
    let basename = match text::strip_suffix(trimmed, ".mp4") {
        Some(rest) => {
            assert(trimmed@.take(trimmed@.len() - 4) =~= rest@);
            rest
        },
        None => trimmed,
    };
    if is_nothing(basename) || reaches_out(basename) {
        return Err(McpError::message("name must be a non-empty basename"));
    }
    Ok(basename.to_owned())
}

/// The basename of a recording requested at `now`.
pub fn normalize_name_at(name: Option<String>, now: Timestamp) -> (r: Result<String, McpError>)
    ensures
        r is Ok <==> (name matches Some(n) ==> is_basename(normalized(n@))),
        r matches Ok(basename) ==> basename@ == match name {
            Some(n) => normalized(n@),
            None => generated_name(now),
        },
        r matches Err(error) ==> error.words() == "name must be a non-empty basename"@,
{
    match name {
        Some(name) => normalize_requested(name.as_str()),
        None => {
            let generated = text::concat2("hyprrec-", now.to_stamp().as_str());
            proof {
                generated_name_is_normal(now);
            }
            normalize_requested(generated.as_str())
        },
    }
}

/// The basename of a recording requested now.
pub fn normalize_name(name: Option<String>) -> (r: Result<String, McpError>)
    ensures
        r is Ok <==> (name matches Some(n) ==> is_basename(normalized(n@))),
        r matches Ok(basename) ==> match name {
            Some(n) => basename@ == normalized(n@),
            None => exists|now: Timestamp|
                #[trigger] now.on_clock() && now.is_reading() && basename@ == generated_name(now),
        },
        r matches Err(error) ==> error.words() == "name must be a non-empty basename"@,
{
    normalize_name_at(name, Timestamp::now())
}

/// A generated name is a basename as it stands: no white space to trim, no extension to
/// take off, no separator.
pub proof fn generated_name_is_normal(now: Timestamp)
    requires
        now.on_clock(),
    ensures
        text::trimmed(generated_name(now)) == generated_name(now),
        normalized(generated_name(now)) == generated_name(now),
        is_basename(generated_name(now)),
        video_file(generated_name(now)) == generated_name(now) + ".mp4"@,
{
    let name = generated_name(now);
    now.stamp_is_plain();
    reveal_strlit("hyprrec-");
    reveal_strlit(".mp4");
    reveal_strlit(".");
    reveal_strlit("..");
    assert(name[0] == 'h');
    assert(name.last() == now.stamp().last());
    let low = text::lowercase(name);
    assert(low.last() == name.last());
    assert(name.len() >= 9 && low.len() == name.len());
    assert(".mp4"@[0] == '.');
    assert(name.subrange(name.len() - 4, name.len() as int)[0] == name[name.len() - 4]);
    assert(low.subrange(low.len() - 4, low.len() as int)[0] == low[low.len() - 4]);
    assert(forall|i: int| 0 <= i < name.len() ==> name[i] != '/' && name[i] != '\\' && name[i] != '.');
}

proof fn ending_encodes(ending: Seq<char>)
    requires
        text::lowercase(ending) == ".mp4"@,
    ensures
        encode_utf8(ending).len() == 4,
        encode_utf8(ending) == seq![path::DOT] + encode_utf8(ending).skip(1),
        !encode_utf8(ending).skip(1).contains(path::SEPARATOR),
        !encode_utf8(ending).skip(1).contains(path::DOT),
        ending.len() == 4,
        !ending.contains('/'),
        ending[3] == '4',
{
    reveal_strlit(".mp4");
    let low = text::lowercase(ending);
    assert(low.len() == ending.len());
    assert(low[0] == '.' && low[1] == 'm' && low[2] == 'p' && low[3] == '4');
    assert(low[0] == text::lowercase_char(ending[0]));
    assert(low[1] == text::lowercase_char(ending[1]));
    assert(low[2] == text::lowercase_char(ending[2]));
    assert(low[3] == text::lowercase_char(ending[3]));
    assert(ending[0] == '.');
    assert(ending[1] == 'm' || ending[1] == 'M');
    assert(ending[2] == 'p' || ending[2] == 'P');
    assert(ending[3] == '4');
    assert(is_ascii_chars(ending));
    is_ascii_chars_encode_utf8(ending);
    let bytes = encode_utf8(ending);
    assert(bytes[0] == ending[0] as u8 && bytes[1] == ending[1] as u8 && bytes[2] == ending[2] as u8
        && bytes[3] == ending[3] as u8);
    assert(bytes =~= seq![path::DOT] + bytes.skip(1));
}

/// The telemetry of a recording shares the directory and the basename of its video. Only a
/// video whose whole name is its extension has no basename to share.
pub proof fn sidecar_shares_basename(directory: Seq<u8>, stem: Seq<char>, ending: Seq<char>)
    requires
        stem.len() > 0,
        !stem.contains('/'),
        text::lowercase(ending) == ".mp4"@,
    ensures
        sidecar(path::joined(directory, encode_utf8(stem + ending))) == path::joined(
            directory,
            encode_utf8(stem + ".telemetry.jsonl"@),
        ),
{
    ending_encodes(ending);
    path::encoding_adds_no_separator(stem);
    path::encoding_distributes(stem, ending);
    path::encoding_distributes(stem, ".telemetry.jsonl"@);
    path::encoding_distributes("."@, "telemetry.jsonl"@);
    reveal_strlit(".");
    reveal_strlit("telemetry.jsonl");
    reveal_strlit(".telemetry.jsonl");
    assert(".telemetry.jsonl"@ =~= "."@ + "telemetry.jsonl"@);
    is_ascii_chars_encode_utf8("."@);
    assert(encode_utf8("."@) =~= seq![path::DOT]);
    let old_extension = encode_utf8(ending).skip(1);
    let new = encode_utf8("telemetry.jsonl"@);
    path::extension_is_replaced(directory, encode_utf8(stem), old_extension, new);
    assert(encode_utf8(stem + ending) =~= encode_utf8(stem) + seq![path::DOT] + old_extension);
    assert(encode_utf8(stem + ".telemetry.jsonl"@) =~= encode_utf8(stem) + seq![path::DOT] + new);
}

proof fn sidecar_extension()
    ensures
        encode_utf8("telemetry.jsonl"@) == encode_utf8("telemetry"@) + seq![path::DOT]
            + encode_utf8("jsonl"@),
        encode_utf8("jsonl"@).len() > 0,
        !encode_utf8("jsonl"@).contains(path::DOT),
        !encode_utf8("jsonl"@).contains(path::SEPARATOR),
        !encode_utf8("telemetry"@).contains(path::SEPARATOR),
        !encode_utf8("telemetry.jsonl"@).contains(path::SEPARATOR),
        encode_utf8("telemetry.jsonl"@).last() != path::DOT,
{
    reveal_strlit("telemetry.jsonl");
    reveal_strlit("telemetry");
    reveal_strlit("jsonl");
    reveal_strlit(".");
    assert("telemetry.jsonl"@ =~= "telemetry"@ + "."@ + "jsonl"@);
    path::encoding_distributes("telemetry"@ + "."@, "jsonl"@);
    path::encoding_distributes("telemetry"@, "."@);
    is_ascii_chars_encode_utf8("."@);
    is_ascii_chars_encode_utf8("jsonl"@);
    assert(encode_utf8("."@) =~= seq![path::DOT]);
    path::encoding_adds_no_separator("telemetry"@);
    path::encoding_adds_no_separator("jsonl"@);
    path::encoding_adds_no_separator("telemetry.jsonl"@);
    assert(encode_utf8("jsonl"@).contains(encode_utf8("jsonl"@).last()));
}

/// The telemetry of a recording, wherever that is, lies in the same directory, under the name
/// of the video with its last extension replaced, and is another file than the video.
pub proof fn sidecar_stands_beside(video: Seq<u8>)
    requires
        path::file_name(video) is Some,
    ensures
        path::directory_part(sidecar(video)) == path::directory_part(video),
        path::file_name(sidecar(video)) == Some(
            path::file_stem(video)->0 + encode_utf8(".telemetry.jsonl"@),
        ),
        sidecar(video) != video,
{
    sidecar_extension();
    let new = encode_utf8("telemetry.jsonl"@);
    path::extension_keeps_directory_and_stem(video, new);
    path::dotted_extension_is_new(video, encode_utf8("telemetry"@), encode_utf8("jsonl"@));
    reveal_strlit(".telemetry.jsonl");
    reveal_strlit("telemetry.jsonl");
    reveal_strlit(".");
    assert(".telemetry.jsonl"@ =~= "."@ + "telemetry.jsonl"@);
    path::encoding_distributes("."@, "telemetry.jsonl"@);
    is_ascii_chars_encode_utf8("."@);
    assert(encode_utf8("."@) =~= seq![path::DOT]);
    assert(path::file_stem(video)->0 + seq![path::DOT] + new =~= path::file_stem(video)->0
        + encode_utf8(".telemetry.jsonl"@));
}

/// Two videos have two sidecars, if they differ in more than what trails their names.
pub proof fn videos_have_their_own_sidecars(first: Seq<u8>, second: Seq<u8>)
    requires
        path::extension(first) == Some(encode_utf8("mp4"@)),
        path::extension(second) == Some(encode_utf8("mp4"@)),
        path::without_trail(first) != path::without_trail(second),
    ensures
        sidecar(first) != sidecar(second),
{
    sidecar_extension();
    let new = encode_utf8("telemetry.jsonl"@);
    path::extension_keeps_directory_and_stem(first, new);
    path::extension_keeps_directory_and_stem(second, new);
    path::extension_ends_the_name(first, encode_utf8("mp4"@));
    path::extension_ends_the_name(second, encode_utf8("mp4"@));
    let a = path::directory_part(first) + path::file_stem(first)->0;
    let b = path::directory_part(second) + path::file_stem(second)->0;
    if sidecar(first) == sidecar(second) {
        assert(a.len() == b.len());
        assert(a =~= sidecar(first).take(a.len() as int));
        assert(b =~= sidecar(second).take(b.len() as int));
        assert(a == b);
    }
}

/// A recording called by a basename lies in the chosen directory itself, in a file that ends
/// in `.mp4` in some case.
pub proof fn recording_lies_in_directory(directory: Seq<u8>, basename: Seq<char>)
    requires
        is_basename(basename),
    ensures
        path::file_name(path::joined(directory, encode_utf8(video_file(basename)))) == Some(
            encode_utf8(video_file(basename)),
        ),
        ".mp4"@.is_suffix_of(text::lowercase(video_file(basename))),
{
    reveal_strlit(".mp4");
    let file = video_file(basename);
    let low = text::lowercase(file);
    if !".mp4"@.is_suffix_of(text::lowercase(basename)) {
        assert(low.subrange(low.len() - 4, low.len() as int) =~= ".mp4"@);
    }
    let stem = file.take(file.len() - 4);
    let ending = file.skip(file.len() - 4);
    assert(text::lowercase(ending) =~= low.subrange(low.len() - 4, low.len() as int));
    assert(file =~= stem + ending);
    ending_encodes(ending);
    assert(!stem.contains('/')) by {
        if stem.contains('/') {
            let i = choose|i: int| 0 <= i < stem.len() && stem[i] == '/';
            assert(basename[i] == '/');
        }
    }
    path::encoding_adds_no_separator(stem);
    path::encoding_distributes(stem, ending);
    let bytes = encode_utf8(file);
    let tail = encode_utf8(ending);
    assert(bytes == encode_utf8(stem) + tail);
    assert(!bytes.contains(path::SEPARATOR)) by {
        if bytes.contains(path::SEPARATOR) {
            let i = choose|i: int| 0 <= i < bytes.len() && bytes[i] == path::SEPARATOR;
            let n = encode_utf8(stem).len();
            if i < n {
                assert(encode_utf8(stem)[i] == path::SEPARATOR);
            } else if i > n {
                assert(tail.skip(1)[i - n - 1] == path::SEPARATOR);
            }
        }
    }
    assert(tail.skip(1)[2] == tail[3]);
    assert(tail.skip(1).contains(tail[3]));
    assert(bytes.last() == tail[3]);
    path::joined_names_file(directory, bytes);
}

/// A requested name may carry the extension or not: the recording is written to the same
/// file.
pub proof fn extension_is_optional(name: Seq<char>)
    requires
        !".mp4"@.is_suffix_of(text::lowercase(name)),
    ensures
        video_file(name + ".mp4"@) == video_file(name),
{
    reveal_strlit(".mp4");
    let low = text::lowercase(name + ".mp4"@);
    assert(low.subrange(low.len() - 4, low.len() as int) =~= ".mp4"@);
}

/// An accepted name is accepted again, unchanged.
pub proof fn accepted_name_is_stable(name: Seq<char>)
    requires
        is_basename(text::trimmed(name)),
    ensures
        text::trimmed(text::trimmed(name)) == text::trimmed(name),
        is_basename(text::trimmed(text::trimmed(name))),
{
    text::trimming_is_idempotent(name);
}

/// A basename is a name with something in it, other than one or two dots, and without a slash of
/// either kind.
pub proof fn basename_stays_in_its_directory(name: Seq<char>)
    ensures
        is_basename(name) <==> name.len() > 0 && name != seq!['.'] && name != seq!['.', '.']
            && forall|i: int| 0 <= i < name.len() ==> #[trigger] name[i] != '/' && name[i] != '\\',
{
    reveal_strlit(".");
    reveal_strlit("..");
    assert("."@ =~= seq!['.']);
    assert(".."@ =~= seq!['.', '.']);
    if has_separator(name) {
        if name.contains('/') {
            let i = choose|i: int| 0 <= i < name.len() && name[i] == '/';
            assert(name[i] == '/');
        } else {
            let i = choose|i: int| 0 <= i < name.len() && name[i] == '\\';
            assert(name[i] == '\\');
        }
    } else {
        assert forall|i: int| 0 <= i < name.len() implies #[trigger] name[i] != '/' && name[i]
            != '\\' by {
            assert(name.contains(name[i]));
        }
    }
}

/// A video is called by its basename, and `.mp4` is added exactly where that does not end so in
/// some case.
pub proof fn video_extension_is_added_once(basename: Seq<char>)
    ensures
        ".mp4"@.is_suffix_of(text::lowercase(basename)) ==> video_file(basename) == basename,
        !".mp4"@.is_suffix_of(text::lowercase(basename)) ==> video_file(basename) == basename
            + ".mp4"@,
        ".mp4"@.is_suffix_of(text::lowercase(video_file(basename))),
        basename.is_prefix_of(video_file(basename)),
{
    reveal_strlit(".mp4");
    let file = video_file(basename);
    let low = text::lowercase(file);
    if !".mp4"@.is_suffix_of(text::lowercase(basename)) {
        assert(low.subrange(low.len() - 4, low.len() as int) =~= ".mp4"@);
    }
    assert(file.subrange(0, basename.len() as int) =~= basename);
}

/// A normalized name is the requested one without the white space around it and without one
/// `.mp4` at its end.
pub proof fn normalizing_takes_one_extension_off(name: Seq<char>)
    ensures
        text::trimmed(name) == normalized(name) || text::trimmed(name) == normalized(name) + ".mp4"@,
        ".mp4"@.is_suffix_of(text::trimmed(name)) ==> text::trimmed(name) == normalized(name)
            + ".mp4"@,
{
    reveal_strlit(".mp4");
    let t = text::trimmed(name);
    if ".mp4"@.is_suffix_of(t) {
        assert(t =~= t.take(t.len() - 4) + ".mp4"@);
    }
}

/// A recording lies in the directory that was chosen for it, in a file of its own name: the
/// requested one without the white space around it, or else one that starts with `hyprrec-` and
/// goes on with the time. A requested name is refused exactly where it is no basename.
pub proof fn output_is_called_as_requested(
    directory: Seq<u8>,
    requested: Option<Seq<char>>,
    now: Timestamp,
)
    requires
        now.on_clock(),
    ensures
        output_path(directory, requested, now) is None <==> (requested matches Some(name)
            && !is_basename(text::trimmed(name))),
        output_path(directory, requested, now) matches Some(video) ==> {
            let called = match requested {
                Some(name) => text::trimmed(name),
                None => "hyprrec-"@ + now.stamp(),
            };
            &&& path::file_name(video) == Some(encode_utf8(called)) || path::file_name(video)
                == Some(encode_utf8(called + ".mp4"@))
            &&& path::directory_part(video) == path::directory_prefix(directory)
        },
{
    if let Some(video) = output_path(directory, requested, now) {
        let called = match requested {
            Some(name) => text::trimmed(name),
            None => "hyprrec-"@ + now.stamp(),
        };
        if requested is None {
            generated_name_is_normal(now);
        }
        recording_lies_in_directory(directory, called);
        video_extension_is_added_once(called);
        let name = encode_utf8(video_file(called));
        path::path_splits_at_its_name(video);
        path::trail_is_slashes_and_lone_dots(video);
        file_name_ends_the_path(directory, called);
        assert(path::directory_part(video) =~= path::directory_prefix(directory));
    }
}

proof fn file_name_ends_the_path(directory: Seq<u8>, basename: Seq<char>)
    requires
        is_basename(basename),
    ensures
        ({
            let name = encode_utf8(video_file(basename));
            let video = path::joined(directory, name);
            &&& video == path::directory_prefix(directory) + name
            &&& path::name_end(video) == video.len()
        }),
{
    recording_lies_in_directory(directory, basename);
    let file = video_file(basename);
    let name = encode_utf8(file);
    reveal_strlit(".mp4");
    let low = text::lowercase(file);
    let ending = file.skip(file.len() - 4);
    let stem = file.take(file.len() - 4);
    assert(text::lowercase(ending) =~= low.subrange(low.len() - 4, low.len() as int));
    ending_encodes(ending);
    assert(file =~= stem + ending);
    path::encoding_distributes(stem, ending);
    let tail = encode_utf8(ending);
    assert(tail.skip(1)[2] == tail[3]);
    assert(tail.skip(1).contains(tail[3]));
    assert(name.last() == tail[3]);
    path::path_splits_at_its_name(path::joined(directory, name));
    assert(!name.contains(path::SEPARATOR));
    path::joined_names_file(directory, name);
}

/// A name that the recorder would refuse is announced as it stands, with the extension.
pub proof fn refused_name_is_announced_as_it_stands(basename: Seq<char>)
    ensures
        !is_basename(text::trimmed(basename)) ==> announced_file(basename) == basename + ".mp4"@,
        is_basename(text::trimmed(basename)) ==> announced_file(basename) == video_file(
            text::trimmed(basename),
        ),
{
}

/// A name is accepted without the blanks around it, exactly if something is left of it that is
/// neither a directory nor reaches into one.
pub proof fn accepted_name_is_trimmed(name: &'static str, outcome: Result<String, AppError>)
    requires
        call_ensures(validate_name, (name,), outcome),
    ensures
        ({
            let kept = text::trimmed(name@);
            let empty = kept.len() == 0 || kept == "."@ || kept == ".."@;
            let reaching = kept.contains('/') || kept.contains('\\');
            &&& outcome is Ok <==> !empty && !reaching
            &&& outcome is Ok ==> outcome->Ok_0@ == kept
            &&& empty ==> outcome->Err_0.words() == "--name must contain a non-empty filename"@
            &&& !empty && reaching ==> outcome->Err_0.words()
                == "--name must be a basename without path separators; use --dir for the folder"@
        }),
{
}

/// A destination is available exactly if nothing is there, and the refusal names it.
pub proof fn destination_is_not_overwritten(
    destination: FilePath,
    exists: bool,
    outcome: Result<(), AppError>,
)
    requires
        call_ensures(ensure_destination_available, (&destination, exists), outcome),
    ensures
        outcome is Ok <==> !exists,
        exists ==> outcome->Err_0.words() == "refusing to overwrite existing recording: "@
            + path::lossy_text(destination@),
{
}

} // verus!
