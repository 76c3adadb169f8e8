//! Where recordings go by default, and where commands are found.

use vstd::prelude::*;
use vstd::utf8::*;

use crate::error::{AppError, McpError};
use crate::path;
use crate::path::FilePath;
use crate::text;

verus! {

/// The directories of the user.
#[derive(Debug)]
pub struct UserDirs {
    pub home_dir: FilePath,
    /// The directory for videos, where one is configured.
    pub video_dir: Option<FilePath>,
}

/// Where recordings go that are given no directory.
pub open spec fn default_directory(dirs: UserDirs) -> Seq<u8> {
    let videos = match dirs.video_dir {
        Some(videos) => videos@,
        None => path::joined(dirs.home_dir@, encode_utf8("Videos"@)),
    };
    path::joined(videos, encode_utf8("hyprrec"@))
}

fn recordings_below(dirs: &UserDirs) -> (r: FilePath)
    ensures
        r@ == default_directory(*dirs),
{
    let videos = match &dirs.video_dir {
        Some(videos) => videos.clone(),
        None => dirs.home_dir.join(&FilePath::from_text("Videos")),
    };
    videos.join(&FilePath::from_text("hyprrec"))
}

/// The directory for a recording: the one that was given, or else the default one.
pub fn resolve_output_directory(
    override_directory: Option<FilePath>,
    user_dirs: Option<&UserDirs>,
) -> (r: Result<FilePath, AppError>)
    ensures
        r is Ok <==> override_directory is Some || user_dirs is Some,
        r matches Ok(directory) ==> directory@ == match override_directory {
            Some(given) => given@,
            None => default_directory(*user_dirs->0),
        },
        r matches Err(error) ==> error is Message && error.words()
            == "could not determine the current user's home directory"@,
{
    if let Some(directory) = override_directory {
        return Ok(directory);
    }
    match user_dirs {
        Some(dirs) => Ok(recordings_below(dirs)),
        None => Err(AppError::message("could not determine the current user's home directory")),
    }
}

/// The directory of a request: the one that was given, or else the default one.
pub fn resolve_dir(dir: Option<FilePath>, user_dirs: Option<&UserDirs>) -> (r: Result<
    FilePath,
    McpError,
>)
    ensures
        r is Ok <==> dir is Some || user_dirs is Some,
        r matches Ok(directory) ==> directory@ == match dir {
            Some(given) => given@,
            None => default_directory(*user_dirs->0),
        },
        r matches Err(error) ==> error.words() == "could not find home directory"@,
{
    if let Some(dir) = dir {
        return Ok(dir);
    }
    match user_dirs {
        Some(dirs) => Ok(recordings_below(dirs)),
        None => Err(McpError::message("could not find home directory")),
    }
}

/// The byte between two directories of a search path.
pub const PATH_LIST_SEPARATOR: u8 = 0x3a;

/// Where the first directory of a search path ends.
pub open spec fn first_colon(search_path: Seq<u8>) -> nat
    decreases search_path.len(),
{
    if search_path.len() == 0 || search_path[0] == PATH_LIST_SEPARATOR {
        0
    } else {
        1 + first_colon(search_path.drop_first())
    }
}

/// The files that `command` could be, one for each directory of a search path, in order. An
/// empty directory counts.
pub open spec fn candidates(search_path: Seq<u8>, command: Seq<u8>) -> Seq<Seq<u8>>
    decreases search_path.len(),
{
    let end = first_colon(search_path);
    let here = path::joined(search_path.take(end as int), command);
    if end < search_path.len() {
        seq![here] + candidates(search_path.skip(end as int + 1), command)
    } else {
        seq![here]
    }
}

/// The bytes of each path.
pub open spec fn path_bytes(paths: Seq<FilePath>) -> Seq<Seq<u8>> {
    paths.map_values(|p: FilePath| p@)
}

/// The files that `command` could be, given the search path as the environment has it.
pub fn command_candidates(search_path: Option<&Vec<u8>>, command: &str) -> (r: Result<
    Vec<FilePath>,
    AppError,
>)
    ensures
        r is Ok <==> search_path is Some,
        r matches Ok(files) ==> path_bytes(files@) == candidates(
            search_path->0@,
            encode_utf8(command@),
        ),
        r matches Err(error) ==> error is Message && error.words() == "PATH is not set"@,
{
    let list = match search_path {
        Some(list) => list,
        None => {
            return Err(AppError::message("PATH is not set"));
        },
    };
    let name = FilePath::from_text(command);
    let mut files: Vec<FilePath> = Vec::new();
    let mut start: usize = 0;
    let mut more: bool = true;
    proof {
        assert(list@.skip(0) =~= list@);
        assert(path_bytes(files@) + candidates(list@, name@) =~= candidates(list@, name@));
    }
    while more
        invariant
            start <= list.len(),
            more ==> path_bytes(files@) + candidates(list@.skip(start as int), name@) == candidates(
                list@,
                name@,
            ),
            !more ==> path_bytes(files@) == candidates(list@, name@),
        decreases list.len() - start + if more { 1int } else { 0 },
    {
        let mut end: usize = start;
        let mut directory: Vec<u8> = Vec::new();
        while end < list.len() && list[end] != PATH_LIST_SEPARATOR
            invariant
                start <= end <= list.len(),
                directory@ =~= list@.subrange(start as int, end as int),
                first_colon(list@.skip(start as int)) == end - start + first_colon(
                    list@.skip(end as int),
                ),
            decreases list.len() - end,
        {
            assert(list@.skip(end as int).drop_first() =~= list@.skip(end + 1));
            directory.push(list[end]);
            end += 1;
        }
        let ghost rest = list@.skip(start as int);
        let ghost before = path_bytes(files@);
        assert(rest.take(end - start) =~= directory@);
        let file = FilePath::from_bytes(directory).join(&name);
        let ghost here = file@;
        files.push(file);
        proof {
            assert(path_bytes(files@) =~= before.push(here));
        }
        if end < list.len() {
            proof {
                assert(rest.skip(first_colon(rest) as int + 1) =~= list@.skip(end + 1));
                assert(before + (seq![here] + candidates(list@.skip(end + 1), name@))
                    =~= before.push(here) + candidates(list@.skip(end + 1), name@));
            }
            start = end + 1;
        } else {
            assert(before + seq![here] =~= before.push(here));
            more = false;
        }
    }
    Ok(files)
}

/// What is known of a file.
#[derive(Clone, Copy, Debug, PartialEq, Eq, Structural)]
pub struct FileStat {
    pub is_file: bool,
    pub mode: u32,
}

/// Whether a file can be run by anyone at all.
pub open spec fn is_executable(stat: FileStat) -> bool {
    stat.is_file && stat.mode & 0o111 != 0
}

/// Whether one of the candidates is there and can be run.
pub open spec fn some_executable(found: Seq<Option<FileStat>>) -> bool {
    exists|i: int| 0 <= i < found.len() && #[trigger] found[i] is Some && is_executable(found[i]->0)
}

/// Refuses a command of which no candidate, as `found` on disk, can be run.
pub fn ensure_command_available(command: &str, found: &Vec<Option<FileStat>>) -> (r: Result<
    (),
    AppError,
>)
    ensures
        r is Ok <==> some_executable(found@),
        r matches Err(error) ==> error is Message && error.words() == "required command `"@
            + command@ + "` was not found in PATH; run hyprrec through shell.nix"@,
{
    let mut i: usize = 0;
    while i < found.len()
        invariant
            i <= found.len(),
            forall|k: int|
                0 <= k < i ==> !(#[trigger] found@[k] is Some && is_executable(found@[k]->0)),
        decreases found.len() - i,
    {
        if let Some(stat) = found[i] {
            if stat.is_file && stat.mode & 0o111 != 0 {
                assert(found@[i as int] is Some);
                return Ok(());
            }
        }
        i += 1;
    }
    Err(
        AppError::Message(
            text::concat3(
                "required command `",
                command,
                "` was not found in PATH; run hyprrec through shell.nix",
            ),
        ),
    )
}

/// Recordings go by default to `hyprrec` below the configured directory for videos, or else below
/// `Videos` in the home directory.
pub proof fn default_directory_is_below_the_videos(dirs: UserDirs)
    ensures
        dirs.video_dir matches Some(videos) ==> default_directory(dirs) == path::joined(
            videos@,
            encode_utf8("hyprrec"@),
        ),
        dirs.video_dir is None ==> default_directory(dirs) == path::joined(
            path::joined(dirs.home_dir@, encode_utf8("Videos"@)),
            encode_utf8("hyprrec"@),
        ),
{
}

proof fn first_colon_is_first(search_path: Seq<u8>)
    ensures
        first_colon(search_path) <= search_path.len(),
        first_colon(search_path) < search_path.len() <==> search_path.contains(0x3a),
        first_colon(search_path) < search_path.len() ==> search_path[first_colon(search_path) as int]
            == 0x3a,
        forall|i: int| 0 <= i < first_colon(search_path) ==> #[trigger] search_path[i] != 0x3a,
    decreases search_path.len(),
{
    if search_path.len() > 0 && search_path[0] != PATH_LIST_SEPARATOR {
        let rest = search_path.drop_first();
        first_colon_is_first(rest);
        assert forall|i: int| 0 <= i < first_colon(search_path) implies #[trigger] search_path[i]
            != 0x3a by {
            if i > 0 {
                assert(rest[i - 1] == search_path[i]);
            }
        }
        if search_path.contains(0x3a) {
            let k = choose|k: int| 0 <= k < search_path.len() && search_path[k] == 0x3a;
            assert(rest[k - 1] == 0x3a);
        }
    } else if search_path.len() > 0 {
        assert(search_path[0] == 0x3a);
    }
}

proof fn first_colon_stays(a: Seq<u8>, b: Seq<u8>)
    ensures
        first_colon(a + seq![0x3au8] + b) == first_colon(a),
{
    let whole = a + seq![0x3au8] + b;
    first_colon_is_first(a);
    first_colon_is_first(whole);
    let i = first_colon(a) as int;
    let j = first_colon(whole) as int;
    assert(whole[a.len() as int] == 0x3a);
    if i < a.len() {
        assert(whole[i] == a[i]);
    }
    if j < i {
        assert(whole[j] == a[j]);
    }
}

/// A search path without a colon is one directory, in which a command is looked for.
pub proof fn one_directory_has_one_candidate(directory: Seq<u8>, command: Seq<u8>)
    requires
        !directory.contains(0x3a),
    ensures
        candidates(directory, command) == seq![path::joined(directory, command)],
{
    first_colon_is_first(directory);
    assert(directory.take(directory.len() as int) =~= directory);
}

/// A command is looked for on both sides of a colon, first on its left.
pub proof fn candidates_go_in_order(left: Seq<u8>, right: Seq<u8>, command: Seq<u8>)
    ensures
        candidates(left + seq![0x3au8] + right, command) == candidates(left, command) + candidates(
            right,
            command,
        ),
    decreases left.len(),
{
    let whole = left + seq![0x3au8] + right;
    first_colon_is_first(left);
    first_colon_is_first(whole);
    first_colon_stays(left, right);
    let end = first_colon(left) as int;
    let here = path::joined(left.take(end), command);
    assert(whole.take(end) =~= left.take(end));
    if end < left.len() {
        let rest = left.skip(end + 1);
        candidates_go_in_order(rest, right, command);
        assert(whole.skip(end + 1) =~= rest + seq![0x3au8] + right);
        assert(seq![here] + (candidates(rest, command) + candidates(right, command)) =~= (seq![here]
            + candidates(rest, command)) + candidates(right, command));
    } else {
        assert(whole.skip(end + 1) =~= right);
    }
}

/// A command can be run if the file is a regular one that its owner, its group or others may
/// execute.
pub proof fn anyone_may_execute(stat: FileStat)
    ensures
        is_executable(stat) <==> stat.is_file && (stat.mode & 0o100 != 0 || stat.mode & 0o010 != 0
            || stat.mode & 0o001 != 0),
{
    let mode = stat.mode;
    assert(mode & 0o111 != 0 <==> (mode & 0o100 != 0 || mode & 0o010 != 0 || mode & 0o001 != 0))
        by (bit_vector);
}

/// A command is available as soon as one of its candidates can be run, wherever that stands.
pub proof fn one_executable_is_enough(
    before: Seq<Option<FileStat>>,
    stat: FileStat,
    after: Seq<Option<FileStat>>,
)
    ensures
        is_executable(stat) ==> some_executable(before + seq![Some(stat)] + after),
        some_executable(before + after) ==> some_executable(before + seq![Some(stat)] + after),
        !some_executable(Seq::empty()),
        some_executable(before + seq![Some(stat)] + after) && !is_executable(stat)
            ==> some_executable(before + after),
{
    let all = before + seq![Some(stat)] + after;
    let less = before + after;
    assert(all[before.len() as int] == Some(stat));
    if some_executable(less) {
        let i = choose|i: int|
            0 <= i < less.len() && #[trigger] less[i] is Some && is_executable(less[i]->0);
        if i < before.len() {
            assert(all[i] == less[i]);
        } else {
            assert(all[i + 1] == less[i]);
        }
    }
    if some_executable(all) && !is_executable(stat) {
        let i = choose|i: int|
            0 <= i < all.len() && #[trigger] all[i] is Some && is_executable(all[i]->0);
        if i < before.len() {
            assert(less[i] == all[i]);
        } else {
            assert(less[i - 1] == all[i]);
        }
    }
}

} // verus!
