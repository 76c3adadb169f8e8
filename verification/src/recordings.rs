//! The recordings that there are.

use vstd::prelude::*;
use vstd::utf8::*;

use crate::command;
use crate::command::{Argument, ProcessOutput};
use crate::error;
use crate::error::McpError;
use crate::naming;
use crate::path;
use crate::path::FilePath;
use crate::session;
use crate::text;

verus! {

/// A file of a directory that may be a recording.
#[derive(Debug)]
pub struct FoundFile {
    pub name: Vec<u8>,
    pub size_bytes: u64,
    /// Whether the file that would hold its telemetry is there.
    pub sidecar_exists: bool,
}

/// A file of a directory, as values.
pub struct FoundRecord {
    pub name: Seq<u8>,
    pub size_bytes: u64,
    pub sidecar_exists: bool,
}

impl View for FoundFile {
    type V = FoundRecord;

    open spec fn view(&self) -> FoundRecord {
        FoundRecord {
            name: self.name@,
            size_bytes: self.size_bytes,
            sidecar_exists: self.sidecar_exists,
        }
    }
}

/// A recording in a listing.
#[derive(Debug, PartialEq, Eq)]
pub struct RecordingEntry {
    pub path: FilePath,
    pub size_bytes: u64,
    pub telemetry_path: Option<FilePath>,
}

/// A recording in a listing, as values.
pub struct EntryRecord {
    pub path: Seq<u8>,
    pub size_bytes: u64,
    pub telemetry_path: Option<Seq<u8>>,
}

impl View for RecordingEntry {
    type V = EntryRecord;

    open spec fn view(&self) -> EntryRecord {
        EntryRecord {
            path: self.path@,
            size_bytes: self.size_bytes,
            telemetry_path: session::optional_path(self.telemetry_path),
        }
    }
}

/// The recordings of a directory.
#[derive(Debug, PartialEq, Eq)]
pub struct RecordingList {
    pub dir: FilePath,
    pub recordings: Vec<RecordingEntry>,
}

/// Whether `a` comes before `b` in the order of bytes.
pub open spec fn precedes(a: Seq<u8>, b: Seq<u8>) -> bool
    decreases a.len(),
{
    if b.len() == 0 {
        false
    } else if a.len() == 0 {
        true
    } else if a[0] != b[0] {
        a[0] < b[0]
    } else {
        precedes(a.drop_first(), b.drop_first())
    }
}

/// Whether a file of a directory is a recording.
pub open spec fn is_video(directory: Seq<u8>, name: Seq<u8>) -> bool {
    path::extension(path::joined(directory, name)) == Some(encode_utf8("mp4"@))
}

/// `files` with `file` put before the first that comes before it by name.
pub open spec fn inserted(files: Seq<FoundRecord>, file: FoundRecord) -> Seq<FoundRecord>
    decreases files.len(),
{
    if files.len() == 0 {
        seq![file]
    } else if precedes(files[0].name, file.name) {
        seq![file] + files
    } else {
        seq![files[0]] + inserted(files.drop_first(), file)
    }
}

/// The recordings among the files of a directory, last name first.
pub open spec fn listed(directory: Seq<u8>, files: Seq<FoundRecord>) -> Seq<FoundRecord>
    decreases files.len(),
{
    if files.len() == 0 {
        seq![]
    } else if is_video(directory, files.last().name) {
        inserted(listed(directory, files.drop_last()), files.last())
    } else {
        listed(directory, files.drop_last())
    }
}

/// What a listing tells of a recording.
pub open spec fn entry_for(directory: Seq<u8>, file: FoundRecord) -> EntryRecord {
    let video = path::joined(directory, file.name);
    EntryRecord {
        path: video,
        size_bytes: file.size_bytes,
        telemetry_path: if file.sidecar_exists {
            Some(naming::sidecar(video))
        } else {
            None
        },
    }
}

/// The files as values.
pub open spec fn found_records(files: Seq<FoundFile>) -> Seq<FoundRecord> {
    files.map_values(|file: FoundFile| file@)
}

/// The entries as values.
pub open spec fn entry_records(entries: Seq<RecordingEntry>) -> Seq<EntryRecord> {
    entries.map_values(|entry: RecordingEntry| entry@)
}

fn comes_before(a: &Vec<u8>, b: &Vec<u8>) -> (r: bool)
    ensures
        r == precedes(a@, b@),
{
    let mut i: usize = 0;
    assert(a@.skip(0) =~= a@);
    assert(b@.skip(0) =~= b@);
    while i < a.len() && i < b.len() && a[i] == b[i]
        invariant
            i <= a.len(),
            i <= b.len(),
            precedes(a@, b@) == precedes(a@.skip(i as int), b@.skip(i as int)),
        decreases a.len() - i,
    {
        assert(a@.skip(i as int).drop_first() =~= a@.skip(i + 1));
        assert(b@.skip(i as int).drop_first() =~= b@.skip(i + 1));
        i += 1;
    }
    if i >= b.len() {
        false
    } else if i >= a.len() {
        true
    } else {
        a[i] < b[i]
    }
}

proof fn inserted_at(files: Seq<FoundRecord>, file: FoundRecord, i: int)
    requires
        0 <= i <= files.len(),
        forall|k: int| 0 <= k < i ==> !precedes((#[trigger] files[k]).name, file.name),
        i < files.len() ==> precedes(files[i].name, file.name),
    ensures
        inserted(files, file) == files.insert(i, file),
    decreases files.len(),
{
    if files.len() == 0 {
        assert(files.insert(i, file) =~= seq![file]);
    } else if i == 0 {
        assert(files.insert(0, file) =~= seq![file] + files);
    } else {
        assert(!precedes(files[0].name, file.name));
        let rest = files.drop_first();
        assert forall|k: int| 0 <= k < i - 1 implies !precedes(
            (#[trigger] rest[k]).name,
            file.name,
        ) by {
            assert(rest[k] == files[k + 1]);
        }
        inserted_at(rest, file, i - 1);
        assert(files.insert(i, file) =~= seq![files[0]] + rest.insert(i - 1, file));
    }
}

fn insert_by_name(files: &mut Vec<FoundFile>, file: FoundFile)
    ensures
        found_records(final(files)@) == inserted(found_records(old(files)@), file@),
{
    let mut i: usize = 0;
    while i < files.len() && !comes_before(&files[i].name, &file.name)
        invariant
            i <= files.len(),
            *files == *old(files),
            forall|k: int| 0 <= k < i ==> !precedes((#[trigger] files@[k]).name@, file.name@),
        decreases files.len() - i,
    {
        i += 1;
    }
    let ghost before = found_records(files@);
    let ghost record = file@;
    proof {
        assert forall|k: int| 0 <= k < i implies !precedes(
            (#[trigger] before[k]).name,
            record.name,
        ) by {
            assert(before[k].name == files@[k].name@);
        }
        inserted_at(before, record, i as int);
    }
    files.insert(i, file);
    assert(found_records(files@) =~= before.insert(i as int, record));
}

/// Whether the file `name` of a directory is a recording.
pub fn is_recording(dir: &FilePath, name: &Vec<u8>) -> (r: bool)
    ensures
        r == is_video(dir@, name@),
{
    let path = dir.join(&FilePath::from_bytes(copied(name)));
    let wanted = FilePath::from_text("mp4");
    match path.extension() {
        Some(extension) => same_bytes(&extension, wanted.as_bytes()),
        None => false,
    }
}

fn copied(bytes: &Vec<u8>) -> (r: Vec<u8>)
    ensures
        r@ == bytes@,
{
    let mut out: Vec<u8> = Vec::new();
    let mut i: usize = 0;
    while i < bytes.len()
        invariant
            i <= bytes.len(),
            out@ =~= bytes@.take(i as int),
        decreases bytes.len() - i,
    {
        out.push(bytes[i]);
        i += 1;
    }
    assert(bytes@.take(i as int) =~= bytes@);
    out
}

fn same_bytes(a: &Vec<u8>, b: &Vec<u8>) -> (r: bool)
    ensures
        r == (a@ == b@),
{
    if a.len() != b.len() {
        return false;
    }
    let mut i: usize = 0;
    while i < a.len()
        invariant
            i <= a.len(),
            a.len() == b.len(),
            forall|k: int| 0 <= k < i ==> a@[k] == b@[k],
        decreases a.len() - i,
    {
        if a[i] != b[i] {
            return false;
        }
        i += 1;
    }
    assert(a@ =~= b@);
    true
}

/// Where the telemetry of the recording `name` of a directory would be.
pub fn sidecar_of(dir: &FilePath, name: &Vec<u8>) -> (r: FilePath)
    ensures
        r@ == naming::sidecar(path::joined(dir@, name@)),
{
    naming::telemetry_path(&dir.join(&FilePath::from_bytes(copied(name))))
}

/// The recordings among the files of `dir`, last name first, each with its telemetry if that
/// is there.
pub fn list_recordings(dir: FilePath, files: Vec<FoundFile>) -> (r: RecordingList)
    ensures
        r.dir@ == dir@,
        entry_records(r.recordings@) == listed(dir@, found_records(files@)).map_values(
            |file: FoundRecord| entry_for(dir@, file),
        ),
{
    let mut sorted: Vec<FoundFile> = Vec::new();
    let ghost all = found_records(files@);
    let mut i: usize = 0;
    assert(found_records(sorted@) =~= listed(dir@, all.take(0)));
    while i < files.len()
        invariant
            i <= files.len(),
            all == found_records(files@),
            found_records(sorted@) == listed(dir@, all.take(i as int)),
        decreases files.len() - i,
    {
        assert(all.take(i + 1).drop_last() =~= all.take(i as int));
        assert(all.take(i + 1).last() == files@[i as int]@);
        if is_recording(&dir, &files[i].name) {
            let file = FoundFile {
                name: copied(&files[i].name),
                size_bytes: files[i].size_bytes,
                sidecar_exists: files[i].sidecar_exists,
            };
            assert(file@ == files@[i as int]@);
            insert_by_name(&mut sorted, file);
        }
        i += 1;
    }
    assert(all.take(i as int) =~= all);
    let ghost order = found_records(sorted@);
    let mut recordings: Vec<RecordingEntry> = Vec::new();
    let mut k: usize = 0;
    while k < sorted.len()
        invariant
            k <= sorted.len(),
            order == found_records(sorted@),
            entry_records(recordings@) =~= order.take(k as int).map_values(
                |file: FoundRecord| entry_for(dir@, file),
            ),
        decreases sorted.len() - k,
    {
        let ghost before = entry_records(recordings@);
        let ghost record = order[k as int];
        let path = dir.join(&FilePath::from_bytes(copied(&sorted[k].name)));
        let telemetry_path = if sorted[k].sidecar_exists {
            Some(naming::telemetry_path(&path))
        } else {
            None
        };
        let entry = RecordingEntry { path, size_bytes: sorted[k].size_bytes, telemetry_path };
        assert(entry@ == entry_for(dir@, record));
        recordings.push(entry);
        proof {
            assert(entry_records(recordings@) =~= before.push(entry_for(dir@, record)));
            assert(order.take(k + 1) =~= order.take(k as int).push(record));
        }
        k += 1;
    }
    assert(order.take(k as int) =~= order);
    RecordingList { dir, recordings }
}

/// Whether no file comes before one that follows it by name.
pub open spec fn last_name_first(files: Seq<FoundRecord>) -> bool {
    forall|i: int, j: int|
        0 <= i < j < files.len() ==> !precedes(#[trigger] files[i].name, #[trigger] files[j].name)
}

proof fn precedes_is_transitive(a: Seq<u8>, b: Seq<u8>, c: Seq<u8>)
    ensures
        !precedes(a, b) && !precedes(b, c) ==> !precedes(a, c),
    decreases a.len(),
{
    if a.len() > 0 && b.len() > 0 && c.len() > 0 && a[0] == b[0] && b[0] == c[0] {
        precedes_is_transitive(a.drop_first(), b.drop_first(), c.drop_first());
    }
}

proof fn precedes_is_asymmetric(a: Seq<u8>, b: Seq<u8>)
    ensures
        precedes(a, b) ==> !precedes(b, a),
    decreases a.len(),
{
    if a.len() > 0 && b.len() > 0 && a[0] == b[0] {
        precedes_is_asymmetric(a.drop_first(), b.drop_first());
    }
}

proof fn inserted_keeps_order(files: Seq<FoundRecord>, file: FoundRecord)
    requires
        last_name_first(files),
    ensures
        last_name_first(inserted(files, file)),
        inserted(files, file).to_multiset() == files.to_multiset().insert(file),
    decreases files.len(),
{
    broadcast use vstd::seq_lib::group_to_multiset_ensures;

    let all = inserted(files, file);
    if files.len() == 0 {
        assert(all =~= files.push(file));
    } else if precedes(files[0].name, file.name) {
        precedes_is_asymmetric(files[0].name, file.name);
        assert forall|i: int, j: int| 0 <= i < j < all.len() implies !precedes(
            #[trigger] all[i].name,
            #[trigger] all[j].name,
        ) by {
            if i == 0 {
                assert(all[j] == files[j - 1]);
                if j > 1 {
                    precedes_is_transitive(file.name, files[0].name, files[j - 1].name);
                }
            } else {
                assert(all[i] == files[i - 1] && all[j] == files[j - 1]);
            }
        }
        assert(all =~= files.insert(0, file));
    } else {
        let first = files[0];
        let rest = files.drop_first();
        assert forall|i: int, j: int| 0 <= i < j < rest.len() implies !precedes(
            #[trigger] rest[i].name,
            #[trigger] rest[j].name,
        ) by {
            assert(rest[i] == files[i + 1] && rest[j] == files[j + 1]);
        }
        inserted_keeps_order(rest, file);
        let tail = inserted(rest, file);
        assert(all == seq![first] + tail);
        assert forall|i: int, j: int| 0 <= i < j < all.len() implies !precedes(
            #[trigger] all[i].name,
            #[trigger] all[j].name,
        ) by {
            let other = tail[j - 1];
            assert(all[j] == other);
            if i == 0 {
                assert(tail.contains(other));
                assert(tail.to_multiset().count(other) > 0);
                if other != file {
                    assert(rest.contains(other));
                    let k = choose|k: int| 0 <= k < rest.len() && rest[k] == other;
                    assert(files[k + 1] == other);
                }
            } else {
                assert(all[i] == tail[i - 1]);
            }
        }
        assert(all =~= tail.insert(0, first));
        assert(files =~= rest.insert(0, first));
        assert(all.to_multiset() =~= files.to_multiset().insert(file));
    }
}

/// A listing holds the recordings of a directory, each as often as it was found, and nothing
/// else, with the last name first.
pub proof fn listing_is_complete_and_ordered(directory: Seq<u8>, files: Seq<FoundRecord>)
    ensures
        last_name_first(listed(directory, files)),
        listed(directory, files).to_multiset() == files.filter(
            |file: FoundRecord| is_video(directory, file.name),
        ).to_multiset(),
    decreases files.len(),
{
    broadcast use vstd::seq_lib::group_to_multiset_ensures;

    let video = |file: FoundRecord| is_video(directory, file.name);
    reveal(Seq::filter);
    if files.len() > 0 {
        let rest = files.drop_last();
        listing_is_complete_and_ordered(directory, rest);
        if is_video(directory, files.last().name) {
            inserted_keeps_order(listed(directory, rest), files.last());
            assert(files.filter(video) =~= rest.filter(video).push(files.last()));
        }
    }
}

/// A recording is listed among those of its directory. Left out are those whose extension is
/// not in lower case and one whose whole name is its extension.
pub proof fn recording_is_listed(directory: Seq<u8>, basename: Seq<char>)
    requires
        naming::is_basename(basename),
        ".mp4"@.is_suffix_of(naming::video_file(basename)),
        naming::video_file(basename) != ".mp4"@,
    ensures
        is_video(directory, encode_utf8(naming::video_file(basename))),
{
    reveal_strlit(".mp4");
    reveal_strlit(".");
    reveal_strlit("mp4");
    let file = naming::video_file(basename);
    let stem = file.take(file.len() - 4);
    assert(".mp4"@ =~= "."@ + "mp4"@);
    assert(file =~= stem + ".mp4"@);
    if stem.len() == 0 {
        assert(file =~= ".mp4"@);
    }
    assert(!stem.contains('/')) by {
        if stem.contains('/') {
            let i = choose|i: int| 0 <= i < stem.len() && stem[i] == '/';
            assert(basename[i] == '/');
        }
    }
    path::encoding_adds_no_separator(stem);
    path::encoding_distributes(stem, ".mp4"@);
    path::encoding_distributes("."@, "mp4"@);
    is_ascii_chars_encode_utf8("."@);
    is_ascii_chars_encode_utf8("mp4"@);
    let extension = encode_utf8("mp4"@);
    assert(encode_utf8("."@) =~= seq![path::DOT]);
    assert(extension =~= seq![0x6du8, 0x70u8, 0x34u8]);
    assert(encode_utf8(file) =~= encode_utf8(stem) + seq![path::DOT] + extension);
    path::extension_is_replaced(directory, encode_utf8(stem), extension, extension);
}

/// The arguments with which a recording is inspected.
pub open spec fn inspection_words() -> Seq<Seq<char>> {
    seq!["-v"@, "error"@, "-show_format"@, "-show_streams"@, "-of"@, "json"@]
}

/// The arguments with which the recording at `path` is inspected.
pub fn inspection_args(path: &FilePath) -> (r: Vec<Argument>)
    ensures
        command::argument_bytes(r@) == command::word_bytes(inspection_words()) + seq![path@],
{
    let mut args: Vec<Argument> = Vec::new();
    command::push_words(&mut args, "-v", "error");
    command::push_words(&mut args, "-show_format", "-show_streams");
    command::push_words(&mut args, "-of", "json");
    command::push_path(&mut args, path);
    assert(command::argument_bytes(args@) =~= command::word_bytes(inspection_words()) + seq![path@]);
    args
}

/// A JSON document.
#[verifier::external_type_specification]
#[verifier::external_body]
pub struct ExValue(serde_json::Value);

/// What bytes are as a JSON document, or why they are none in the words of the parser.
pub uninterp spec fn json_document(bytes: Seq<u8>) -> Result<serde_json::Value, Seq<char>>;

/// `serde_json::from_slice` into a `serde_json::Value`, with the error as its `Display` puts
/// it. The claim is that both depend on nothing but the bytes.
#[verifier::external_body]
fn parse_json(bytes: &[u8]) -> (r: Result<serde_json::Value, String>)
    ensures
        match r {
            Ok(value) => json_document(bytes@) == Ok::<serde_json::Value, Seq<char>>(value),
            Err(error) => json_document(bytes@) == Err::<serde_json::Value, Seq<char>>(error@),
        },
{
    serde_json::from_slice(bytes).map_err(|error| error.to_string())
}

/// What is known of a recording.
#[derive(Debug)]
pub struct Inspection {
    pub path: FilePath,
    pub size_bytes: u64,
    pub telemetry_path: Option<FilePath>,
    /// The streams and the format.
    pub probe: serde_json::Value,
}

/// The document that an inspection printed, given what `parsed` says of it, or the error that
/// the inspection ended with.
pub fn probe_outcome(
    success: bool,
    stderr: &Vec<u8>,
    parsed: Result<serde_json::Value, String>,
) -> (r: Result<serde_json::Value, McpError>)
    ensures
        r is Ok <==> success && parsed is Ok,
        r matches Ok(probe) ==> Ok::<serde_json::Value, String>(probe) == parsed,
        r matches Err(error) ==> error.words() == if !success {
            "ffprobe failed: "@ + text::trimmed(path::lossy_text(stderr@))
        } else {
            "invalid ffprobe JSON: "@ + parsed->Err_0@
        },
{
    if !success {
        let printed = path::utf8_lossy(stderr.as_slice());
        return Err(McpError(text::concat2("ffprobe failed: ", text::trim(printed.as_str()))));
    }
    match parsed {
        Ok(probe) => Ok(probe),
        Err(error) => Err(McpError(text::concat2("invalid ffprobe JSON: ", error.as_str()))),
    }
}

/// Why an inspection tells nothing, if it does not: `output` is what the inspecting process
/// left behind, or why it did not run.
pub open spec fn inspection_failure(output: Result<ProcessOutput, String>) -> Option<Seq<char>> {
    match output {
        Err(cause) => Some(cause@),
        Ok(output) => if !output.success {
            Some("ffprobe failed: "@ + text::trimmed(path::lossy_text(output.stderr@)))
        } else {
            match json_document(output.stdout@) {
                Ok(_) => None,
                Err(error) => Some("invalid ffprobe JSON: "@ + error),
            }
        },
    }
}

/// What is known of the recording at `path`, given its size, what the inspecting process left
/// behind or why it did not run, and whether the file that would hold its telemetry is there.
pub fn inspect_recording(
    path: FilePath,
    size_bytes: u64,
    output: Result<ProcessOutput, String>,
    sidecar_exists: bool,
) -> (r: Result<Inspection, McpError>)
    ensures
        r is Ok <==> inspection_failure(output) is None,
        r matches Ok(inspection) ==> {
            &&& inspection.path@ == path@
            &&& inspection.size_bytes == size_bytes
            &&& session::optional_path(inspection.telemetry_path) == if sidecar_exists {
                Some(naming::sidecar(path@))
            } else {
                None
            }
            &&& json_document(output->Ok_0.stdout@) == Ok::<serde_json::Value, Seq<char>>(
                inspection.probe,
            )
        },
        r matches Err(error) ==> Some(error.words()) == inspection_failure(output),
{
    let output = match output {
        Ok(output) => output,
        Err(cause) => {
            return Err(error::io_error(cause));
        },
    };
    let parsed = parse_json(output.stdout.as_slice());
    let probe = match probe_outcome(output.success, &output.stderr, parsed) {
        Ok(probe) => probe,
        Err(error) => {
            return Err(error);
        },
    };
    let telemetry_path = if sidecar_exists {
        Some(naming::telemetry_path(&path))
    } else {
        None
    };
    Ok(Inspection { path, size_bytes, telemetry_path, probe })
}

/// Whether an entry of a listing tells of a file that was found: it has the file's path and size,
/// and telemetry exactly if the file for it was found. That is another file, in the same
/// directory, whose name is that of the recording with the extension replaced.
pub open spec fn tells_of(entry: EntryRecord, directory: Seq<u8>, file: FoundRecord) -> bool {
    &&& entry.path == path::joined(directory, file.name)
    &&& entry.size_bytes == file.size_bytes
    &&& entry.telemetry_path is Some <==> file.sidecar_exists
    &&& entry.telemetry_path matches Some(telemetry) ==> {
        &&& telemetry != entry.path
        &&& path::directory_part(telemetry) == path::directory_part(entry.path)
        &&& path::file_name(telemetry) == Some(
            path::file_stem(entry.path)->0 + encode_utf8(".telemetry.jsonl"@),
        )
    }
}

proof fn entry_tells_of_its_file(directory: Seq<u8>, file: FoundRecord)
    requires
        is_video(directory, file.name),
    ensures
        tells_of(entry_for(directory, file), directory, file),
{
    let video = path::joined(directory, file.name);
    assert(path::file_name(video) is Some);
    naming::sidecar_stands_beside(video);
}

proof fn listed_files_were_found(directory: Seq<u8>, files: Seq<FoundRecord>, k: int)
    requires
        0 <= k < listed(directory, files).len(),
    ensures
        is_video(directory, listed(directory, files)[k].name),
        files.contains(listed(directory, files)[k]),
    decreases files.len(),
{
    broadcast use {
        vstd::seq_lib::group_to_multiset_ensures,
        vstd::seq_lib::group_filter_ensures,
    };

    let all = listed(directory, files);
    let video = |file: FoundRecord| is_video(directory, file.name);
    listing_is_complete_and_ordered(directory, files);
    assert(all.contains(all[k]));
    assert(all.to_multiset().count(all[k]) > 0);
    assert(files.filter(video).contains(all[k]));
    files.lemma_filter_contains_rev(video, all[k]);
}

/// Every entry of a listing tells of a recording that was found in the directory, with its own
/// telemetry, and the listing has as many entries as there are recordings.
pub proof fn entries_tell_of_the_recordings(
    dir: FilePath,
    files: Vec<FoundFile>,
    list: RecordingList,
    k: int,
)
    requires
        call_ensures(list_recordings, (dir, files), list),
        0 <= k < list.recordings@.len(),
    ensures
        list.dir@ == dir@,
        list.recordings@.len() == found_records(files@).filter(
            |file: FoundRecord| is_video(dir@, file.name),
        ).len(),
        exists|i: int|
            {
                &&& 0 <= i < files@.len()
                &&& is_video(dir@, (#[trigger] files@[i])@.name)
                &&& tells_of(list.recordings@[k]@, dir@, files@[i]@)
            },
{
    broadcast use vstd::seq_lib::group_to_multiset_ensures;

    let found = found_records(files@);
    let order = listed(dir@, found);
    let told = order.map_values(|file: FoundRecord| entry_for(dir@, file));
    assert(entry_records(list.recordings@) == told);
    assert(entry_records(list.recordings@)[k] == list.recordings@[k]@);
    assert(told[k] == entry_for(dir@, order[k]));
    listed_files_were_found(dir@, found, k);
    entry_tells_of_its_file(dir@, order[k]);
    let i = choose|i: int| 0 <= i < found.len() && found[i] == order[k];
    assert(files@[i]@ == order[k]);
    listing_is_complete_and_ordered(dir@, found);
    assert(order.to_multiset().len() == order.len());
}

/// What is known of a recording that was inspected tells of it as a listing does.
pub proof fn inspection_tells_of_the_recording(
    path: FilePath,
    size_bytes: u64,
    output: Result<ProcessOutput, String>,
    sidecar_exists: bool,
    inspection: Inspection,
)
    requires
        call_ensures(inspect_recording, (path, size_bytes, output, sidecar_exists), Ok(inspection)),
        path::file_name(path@) is Some,
    ensures
        inspection.path@ == path@,
        inspection.size_bytes == size_bytes,
        inspection.telemetry_path is Some <==> sidecar_exists,
        inspection.telemetry_path matches Some(telemetry) ==> {
            &&& telemetry@ != path@
            &&& path::directory_part(telemetry@) == path::directory_part(path@)
            &&& path::file_name(telemetry@) == Some(
                path::file_stem(path@)->0 + encode_utf8(".telemetry.jsonl"@),
            )
        },
        output is Ok && output->Ok_0.success,
{
    naming::sidecar_stands_beside(path@);
}

/// A file of a directory is a recording exactly if its name ends in `.mp4` and is more than that.
pub proof fn recordings_end_in_mp4(directory: Seq<u8>, name: Seq<u8>)
    requires
        name.len() > 0,
        name.last() != 0x2e,
        !name.contains(0x2f),
    ensures
        is_video(directory, name) <==> name.len() > 4 && name.skip(name.len() - 4) == seq![
            0x2eu8,
            0x6du8,
            0x70u8,
            0x34u8,
        ],
{
    reveal_strlit("mp4");
    is_ascii_chars_encode_utf8("mp4"@);
    let mp4 = seq![0x6du8, 0x70u8, 0x34u8];
    assert(encode_utf8("mp4"@) =~= mp4);
    path::joined_names_file(directory, name);
    let video = path::joined(directory, name);
    path::name_is_stem_and_extension(video);
    let stem = path::file_stem(video)->0;
    let suffix = seq![0x2eu8, 0x6du8, 0x70u8, 0x34u8];
    if is_video(directory, name) {
        assert(name.skip(name.len() - 4) =~= suffix);
    }
    if name.len() > 4 && name.skip(name.len() - 4) == suffix {
        let n = name.len() as int;
        assert(name[n - 4] == suffix[0] && name[n - 3] == suffix[1] && name[n - 2] == suffix[2]
            && name[n - 1] == suffix[3]) by {
            assert(name.skip(n - 4)[0] == name[n - 4]);
            assert(name.skip(n - 4)[1] == name[n - 3]);
            assert(name.skip(n - 4)[2] == name[n - 2]);
            assert(name.skip(n - 4)[3] == name[n - 1]);
        }
        let ending = path::extension(video)->0;
        assert(path::extension(video) is Some);
        assert(name == stem + seq![0x2eu8] + ending);
        assert(name[n - 1 - ending.len()] == 0x2e);
        if ending.len() > 3 {
            assert(ending[ending.len() - 4] == name[n - 4]);
        }
        assert(ending.len() == 3);
        assert(ending =~= mp4) by {
            assert(ending[0] == name[n - 3]);
            assert(ending[1] == name[n - 2]);
            assert(ending[2] == name[n - 1]);
        }
    }
}

/// The order of names is that of their first difference: where they differ, the smaller byte
/// comes first, and where one goes on after the other has ended, the shorter does.
pub proof fn names_are_ordered_by_their_first_difference(a: Seq<u8>, b: Seq<u8>, k: int)
    requires
        0 <= k <= a.len(),
        k <= b.len(),
        a.take(k) == b.take(k),
        k < a.len() && k < b.len() ==> a[k] != b[k],
    ensures
        precedes(a, b) <==> k < b.len() && (k == a.len() || a[k] < b[k]),
    decreases k,
{
    if k > 0 {
        assert(a.take(k)[0] == a[0]);
        assert(b.take(k)[0] == b[0]);
        assert(a.drop_first().take(k - 1) =~= a.take(k).drop_first());
        assert(b.drop_first().take(k - 1) =~= b.take(k).drop_first());
        names_are_ordered_by_their_first_difference(a.drop_first(), b.drop_first(), k - 1);
    }
}

/// A recording is inspected for its format and its streams, as JSON, without any other output, and
/// its path comes last.
pub proof fn inspection_asks_for_json(path: FilePath, arguments: Vec<Argument>)
    requires
        call_ensures(inspection_args, (&path,), arguments),
    ensures
        arguments@.len() == 7,
        arguments@[0]@ == encode_utf8("-v"@),
        arguments@[1]@ == encode_utf8("error"@),
        arguments@[2]@ == encode_utf8("-show_format"@),
        arguments@[3]@ == encode_utf8("-show_streams"@),
        arguments@[4]@ == encode_utf8("-of"@),
        arguments@[5]@ == encode_utf8("json"@),
        arguments@[6]@ == path@,
{
    let bytes = command::argument_bytes(arguments@);
    assert(bytes.len() == 7);
    assert(bytes[0] == arguments@[0]@ && bytes[1] == arguments@[1]@ && bytes[2] == arguments@[2]@
        && bytes[3] == arguments@[3]@ && bytes[4] == arguments@[4]@ && bytes[5] == arguments@[5]@
        && bytes[6] == arguments@[6]@);
}

/// An inspection fails for the reason that the process could not run, or else that it failed, or
/// else that what it printed is no document; and only then.
pub proof fn inspection_fails_for_the_first_reason(output: Result<ProcessOutput, String>)
    ensures
        output is Err ==> inspection_failure(output) == Some(output->Err_0@),
        output is Ok && !output->Ok_0.success ==> inspection_failure(output) == Some(
            "ffprobe failed: "@ + text::trimmed(path::lossy_text(output->Ok_0.stderr@)),
        ),
        output is Ok && output->Ok_0.success && json_document(output->Ok_0.stdout@) is Err
            ==> inspection_failure(output) == Some(
            "invalid ffprobe JSON: "@ + json_document(output->Ok_0.stdout@)->Err_0,
        ),
        inspection_failure(output) is None <==> output is Ok && output->Ok_0.success
            && json_document(output->Ok_0.stdout@) is Ok,
{
}

} // verus!
