//! File paths as the bytes that Unix knows them by.

use vstd::prelude::*;
use vstd::utf8::*;

verus! {

/// The byte between two path components.
pub const SEPARATOR: u8 = 0x2f;

/// The byte before a file name's extension.
pub const DOT: u8 = 0x2e;

/// A file path, absolute or relative, valid UTF-8 or not.
#[derive(Debug, PartialEq, Eq)]
pub struct FilePath {
    bytes: Vec<u8>,
}

impl View for FilePath {
    type V = Seq<u8>;

    closed spec fn view(&self) -> Seq<u8> {
        self.bytes@
    }
}

/// `tail` below the directory `directory`; an absolute `tail` stands for itself.
pub open spec fn joined(directory: Seq<u8>, tail: Seq<u8>) -> Seq<u8> {
    if tail.len() > 0 && tail[0] == SEPARATOR {
        tail
    } else if directory.len() == 0 || directory.last() == SEPARATOR {
        directory + tail
    } else {
        directory + seq![SEPARATOR] + tail
    }
}

/// Where the last component of `path` ends: separators and `.` components that trail it
/// are not part of it.
pub open spec fn name_end(path: Seq<u8>) -> nat
    decreases path.len(),
{
    if path.len() > 0 && path.last() == SEPARATOR {
        name_end(path.drop_last())
    } else if path.len() > 1 && path.last() == DOT && path[path.len() - 2] == SEPARATOR {
        name_end(path.drop_last())
    } else {
        path.len()
    }
}

/// Where what follows the last separator of `path` starts.
pub open spec fn after_last_separator(path: Seq<u8>) -> nat
    decreases path.len(),
{
    if path.len() == 0 || path.last() == SEPARATOR {
        path.len()
    } else {
        after_last_separator(path.drop_last())
    }
}

/// The last component of `path`, whatever it is.
pub open spec fn last_component(path: Seq<u8>) -> Seq<u8> {
    let trimmed = path.take(name_end(path) as int);
    trimmed.skip(after_last_separator(trimmed) as int)
}

/// Whether a last component names a file: it is neither missing nor `.` nor `..`.
pub open spec fn names_file(component: Seq<u8>) -> bool {
    &&& component.len() > 0
    &&& component != seq![DOT]
    &&& component != seq![DOT, DOT]
}

/// The file that `path` names, if its last component is one.
pub open spec fn file_name(path: Seq<u8>) -> Option<Seq<u8>> {
    if names_file(last_component(path)) {
        Some(last_component(path))
    } else {
        None
    }
}

/// Where the last dot of `name` stands, or -1.
pub open spec fn last_dot(name: Seq<u8>) -> int
    decreases name.len(),
{
    if name.len() == 0 {
        -1
    } else if name.last() == DOT {
        name.len() - 1
    } else {
        last_dot(name.drop_last())
    }
}

/// How much of the file name `name` precedes its extension. A dot in front is part of the
/// name.
pub open spec fn stem_len(name: Seq<u8>) -> int {
    if last_dot(name) > 0 {
        last_dot(name)
    } else {
        name.len() as int
    }
}

/// The directory part of a path: what stands before the file that it names.
pub open spec fn directory_part(path: Seq<u8>) -> Seq<u8> {
    path.take(name_end(path) - last_component(path).len())
}

/// A path without the separators and `.` components that trail the file that it names.
pub open spec fn without_trail(path: Seq<u8>) -> Seq<u8> {
    path.take(name_end(path) as int)
}

/// The file that `path` names, without its extension.
pub open spec fn file_stem(path: Seq<u8>) -> Option<Seq<u8>> {
    match file_name(path) {
        Some(name) => Some(name.take(stem_len(name))),
        None => None,
    }
}

/// What follows the last dot of the file that `path` names, unless that dot is in front.
pub open spec fn extension(path: Seq<u8>) -> Option<Seq<u8>> {
    match file_name(path) {
        Some(name) => if last_dot(name) > 0 {
            Some(name.skip(last_dot(name) + 1))
        } else {
            None
        },
        None => None,
    }
}

/// `path` with the extension of the file it names replaced by `.new`, or with `.new`
/// appended where there is none. A path that names no file stays as it is.
pub open spec fn extended(path: Seq<u8>, new: Seq<u8>) -> Seq<u8> {
    match file_name(path) {
        Some(name) => path.take(name_end(path) - name.len() + stem_len(name)) + seq![DOT] + new,
        None => path,
    }
}

/// The text that a path's bytes are shown as: their characters where the bytes are valid
/// UTF-8, and U+FFFD in place of what is not.
pub uninterp spec fn lossy_text(bytes: Seq<u8>) -> Seq<char>;

/// `String::from_utf8_lossy`. Valid UTF-8 comes back as the characters it encodes. Of other
/// bytes only this is claimed: equal bytes give equal text.
#[verifier::external_body]
pub(crate) fn utf8_lossy(bytes: &[u8]) -> (r: String)
    ensures
        r@ == lossy_text(bytes@),
        valid_utf8(bytes@) ==> r@ == decode_utf8(bytes@),
{
    String::from_utf8_lossy(bytes).into_owned()
}

/// A copy of `bytes` from `start` up to `end`.
fn copy_range(bytes: &Vec<u8>, start: usize, end: usize) -> (r: Vec<u8>)
    requires
        start <= end <= bytes.len(),
    ensures
        r@ == bytes@.subrange(start as int, end as int),
{
    let mut out: Vec<u8> = Vec::new();
    let mut i: usize = start;
    while i < end
        invariant
            start <= i <= end <= bytes.len(),
            out@ =~= bytes@.subrange(start as int, i as int),
        decreases end - i,
    {
        out.push(bytes[i]);
        i += 1;
    }
    out
}

fn push_all(target: &mut Vec<u8>, tail: &[u8])
    ensures
        final(target)@ == old(target)@ + tail@,
{
    let mut i: usize = 0;
    while i < tail.len()
        invariant
            i <= tail.len(),
            target@ =~= old(target)@ + tail@.take(i as int),
        decreases tail.len() - i,
    {
        target.push(tail[i]);
        i += 1;
    }
    assert(tail@.take(i as int) =~= tail@);
}

/// The parts of a path that say which file it names.
struct Name {
    bytes: Vec<u8>,
    end: usize,
}

impl Clone for FilePath {
    fn clone(&self) -> (r: Self)
        ensures
            r@ == self@,
    {
        FilePath { bytes: copy_range(&self.bytes, 0, self.bytes.len()) }
    }
}

impl FilePath {
    /// The path that `text` spells.
    pub fn from_text(text: &str) -> (r: FilePath)
        ensures
            r@ == encode_utf8(text@),
    {
        let mut bytes: Vec<u8> = Vec::new();
        push_all(&mut bytes, text.as_bytes());
        FilePath { bytes }
    }

    /// The path with these bytes.
    pub fn from_bytes(bytes: Vec<u8>) -> (r: FilePath)
        ensures
            r@ == bytes@,
    {
        FilePath { bytes }
    }

    /// The bytes of the path.
    pub fn as_bytes(&self) -> (r: &Vec<u8>)
        ensures
            r@ == self@,
    {
        &self.bytes
    }

    /// `tail` below this directory.
    pub fn join(&self, tail: &FilePath) -> (r: FilePath)
        ensures
            r@ == joined(self@, tail@),
    {
        let tail = &tail.bytes;
        if tail.len() > 0 && tail[0] == SEPARATOR {
            return FilePath { bytes: copy_range(tail, 0, tail.len()) };
        }
        let mut bytes: Vec<u8> = copy_range(&self.bytes, 0, self.bytes.len());
        if bytes.len() > 0 && bytes[bytes.len() - 1] != SEPARATOR {
            bytes.push(SEPARATOR);
        }
        push_all(&mut bytes, tail.as_slice());
        proof {
            assert(self@ == self.bytes@);
            assert(bytes@ =~= joined(self@, tail@));
        }
        FilePath { bytes }
    }

    /// The last component and where it ends.
    fn last_name(&self) -> (r: Name)
        ensures
            r.bytes@ == last_component(self@),
            r.end == name_end(self@),
            r.bytes@.len() <= r.end <= self@.len(),
    {
        let bytes = &self.bytes;
        let mut end: usize = bytes.len();
        assert(bytes@.take(end as int) =~= bytes@);
        while end > 0 && (bytes[end - 1] == SEPARATOR || (end > 1 && bytes[end - 1] == DOT
            && bytes[end - 2] == SEPARATOR))
            invariant
                end <= bytes.len(),
                name_end(bytes@) == name_end(bytes@.take(end as int)),
            decreases end,
        {
            assert(bytes@.take(end as int).drop_last() =~= bytes@.take(end - 1));
            end -= 1;
        }
        let ghost kept = bytes@.take(end as int);
        let mut start: usize = end;
        assert(kept.take(end as int) =~= kept);
        while start > 0 && bytes[start - 1] != SEPARATOR
            invariant
                start <= end <= bytes.len(),
                kept == bytes@.take(end as int),
                after_last_separator(kept) == after_last_separator(kept.take(start as int)),
            decreases start,
        {
            assert(kept.take(start as int).drop_last() =~= kept.take(start - 1));
            start -= 1;
        }
        assert(name_end(bytes@) == end);
        assert(kept.skip(start as int) =~= bytes@.subrange(start as int, end as int));
        Name { bytes: copy_range(bytes, start, end), end }
    }

    /// The bytes of the extension of the file that the path names.
    pub fn extension(&self) -> (r: Option<Vec<u8>>)
        ensures
            r is Some <==> extension(self@) is Some,
            r matches Some(e) ==> extension(self@) == Some(e@),
    {
        let name = self.last_name();
        if !is_file_name(&name.bytes) {
            return None;
        }
        let dot: usize = after_dot(&name.bytes);
        if dot > 1 {
            let ghost whole = name.bytes@;
            assert(whole.skip(dot as int) =~= whole.subrange(dot as int, whole.len() as int));
            Some(copy_range(&name.bytes, dot, name.bytes.len()))
        } else {
            None
        }
    }

    /// The path with the extension of the file it names replaced by `.new`.
    pub fn with_extension(&self, new: &str) -> (r: FilePath)
        ensures
            r@ == extended(self@, encode_utf8(new@)),
    {
        let name = self.last_name();
        if !is_file_name(&name.bytes) {
            return self.clone();
        }
        let dot: usize = after_dot(&name.bytes);
        let stem: usize = if dot > 1 {
            dot - 1
        } else {
            name.bytes.len()
        };
        let keep: usize = name.end - name.bytes.len() + stem;
        let mut bytes: Vec<u8> = copy_range(&self.bytes, 0, keep);
        bytes.push(DOT);
        push_all(&mut bytes, new.as_bytes());
        proof {
            assert(self.bytes@.subrange(0, keep as int) =~= self@.take(keep as int));
            assert(bytes@ =~= self@.take(keep as int) + seq![DOT] + encode_utf8(new@));
        }
        FilePath { bytes }
    }

    /// The path as text for a message.
    pub fn display(&self) -> (r: String)
        ensures
            r@ == lossy_text(self@),
            valid_utf8(self@) ==> r@ == decode_utf8(self@),
    {
        utf8_lossy(self.bytes.as_slice())
    }
}

fn is_file_name(component: &Vec<u8>) -> (r: bool)
    ensures
        r == names_file(component@),
{
    let n: usize = component.len();
    proof {
        assert(component@ == seq![DOT] <==> n == 1 && component@[0] == DOT) by {
            if n == 1 && component@[0] == DOT {
                assert(component@ =~= seq![DOT]);
            }
        }
        assert(component@ == seq![DOT, DOT] <==> n == 2 && component@[0] == DOT && component@[1]
            == DOT) by {
            if n == 2 && component@[0] == DOT && component@[1] == DOT {
                assert(component@ =~= seq![DOT, DOT]);
            }
        }
    }
    n > 0 && !(n == 1 && component[0] == DOT) && !(n == 2 && component[0] == DOT && component[1]
        == DOT)
}

/// One more than where the last dot stands, or 0.
fn after_dot(name: &Vec<u8>) -> (r: usize)
    ensures
        r == last_dot(name@) + 1,
        r <= name@.len(),
{
    let mut i: usize = name.len();
    assert(name@.take(i as int) =~= name@);
    while i > 0 && name[i - 1] != DOT
        invariant
            i <= name.len(),
            last_dot(name@) == last_dot(name@.take(i as int)),
        decreases i,
    {
        assert(name@.take(i as int).drop_last() =~= name@.take(i - 1));
        i -= 1;
    }
    i
}

/// The bytes of one text after another are the bytes of the two together.
pub proof fn encoding_distributes(a: Seq<char>, b: Seq<char>)
    ensures
        encode_utf8(a + b) == encode_utf8(a) + encode_utf8(b),
    decreases a.len(),
{
    if a.len() == 0 {
        assert(a + b =~= b);
        assert(encode_utf8(a) + encode_utf8(b) =~= encode_utf8(b));
    } else {
        encoding_distributes(a.drop_first(), b);
        assert((a + b).drop_first() =~= a.drop_first() + b);
        assert(encode_scalar(a[0] as u32) + (encode_utf8(a.drop_first()) + encode_utf8(b))
            =~= encode_utf8(a) + encode_utf8(b));
    }
}

proof fn scalar_bytes(c: u32)
    requires
        is_scalar(c),
    ensures
        encode_scalar(c).len() > 0,
        c > 0x7f ==> forall|i: int|
            0 <= i < encode_scalar(c).len() ==> #[trigger] encode_scalar(c)[i] >= 0x80,
        c <= 0x7f ==> encode_scalar(c) == seq![c as u8],
{
    assert(c <= 0x7f ==> (c & 0x7F) as u8 == c as u8) by (bit_vector);
    assert(0xC0 | ((c >> 6) & 0x1F) as u8 >= 0x80u8) by (bit_vector);
    assert(0xE0 | ((c >> 12) & 0x0F) as u8 >= 0x80u8) by (bit_vector);
    assert(0xF0 | ((c >> 18) & 0x7) as u8 >= 0x80u8) by (bit_vector);
    assert(0x80 | (c & 0x3F) as u8 >= 0x80u8) by (bit_vector);
    assert(0x80 | ((c >> 6) & 0x3F) as u8 >= 0x80u8) by (bit_vector);
    assert(0x80 | ((c >> 12) & 0x3F) as u8 >= 0x80u8) by (bit_vector);
}

/// Text without a slash is encoded without a separator.
pub proof fn encoding_adds_no_separator(s: Seq<char>)
    requires
        !s.contains('/'),
    ensures
        !encode_utf8(s).contains(SEPARATOR),
        s.len() > 0 ==> encode_utf8(s).len() > 0,
    decreases s.len(),
{
    if s.len() > 0 {
        let rest = s.drop_first();
        assert(!rest.contains('/')) by {
            if rest.contains('/') {
                let i = choose|i: int| 0 <= i < rest.len() && rest[i] == '/';
                assert(s[i + 1] == '/');
            }
        }
        encoding_adds_no_separator(rest);
        char_is_scalar(s[0]);
        scalar_bytes(s[0] as u32);
        let head = encode_scalar(s[0] as u32);
        assert(s[0] != '/') by {
            assert(s.contains(s[0]));
        }
        let code = s[0] as u32;
        char_u32_cast(s[0], code);
        assert(code as char == s[0]);
        assert(code != 0x2f);
        assert(code <= 0x7f ==> head =~= seq![code as u8] && head[0] == code);
        let whole = encode_utf8(s);
        assert forall|i: int| 0 <= i < whole.len() implies whole[i] != SEPARATOR by {
            if i < head.len() {
                assert(whole[i] == head[i]);
            } else {
                assert(whole[i] == encode_utf8(rest)[i - head.len()]);
            }
        }
    }
}

proof fn separator_search_stops(prefix: Seq<u8>, name: Seq<u8>)
    requires
        prefix.len() == 0 || prefix.last() == SEPARATOR,
        !name.contains(SEPARATOR),
    ensures
        after_last_separator(prefix + name) == prefix.len(),
    decreases name.len(),
{
    if name.len() == 0 {
        assert(prefix + name =~= prefix);
    } else {
        let shorter = name.drop_last();
        assert(!shorter.contains(SEPARATOR)) by {
            if shorter.contains(SEPARATOR) {
                let i = choose|i: int| 0 <= i < shorter.len() && shorter[i] == SEPARATOR;
                assert(name[i] == SEPARATOR);
            }
        }
        separator_search_stops(prefix, shorter);
        assert((prefix + name).drop_last() =~= prefix + shorter);
        assert(name.contains(name.last()));
    }
}

/// The directory part of what `joined` makes of a plain file name.
pub open spec fn directory_prefix(directory: Seq<u8>) -> Seq<u8> {
    if directory.len() == 0 || directory.last() == SEPARATOR {
        directory
    } else {
        directory + seq![SEPARATOR]
    }
}

/// A plain file name joined to a directory is the file that the path names.
pub proof fn joined_names_file(directory: Seq<u8>, name: Seq<u8>)
    requires
        names_file(name),
        !name.contains(SEPARATOR),
        name.last() != DOT,
    ensures
        joined(directory, name) == directory_prefix(directory) + name,
        name_end(joined(directory, name)) == joined(directory, name).len(),
        file_name(joined(directory, name)) == Some(name),
{
    let prefix = directory_prefix(directory);
    let path = joined(directory, name);
    assert(name.contains(name[0]));
    assert(name.contains(name.last()));
    assert(path =~= prefix + name);
    assert(path.last() == name.last());
    separator_search_stops(prefix, name);
    assert(path.take(path.len() as int) =~= path);
    assert(path.skip(prefix.len() as int) =~= name);
}

proof fn dot_search_stops(stem: Seq<u8>, tail: Seq<u8>)
    requires
        !tail.contains(DOT),
    ensures
        last_dot(stem + seq![DOT] + tail) == stem.len(),
    decreases tail.len(),
{
    let name = stem + seq![DOT] + tail;
    if tail.len() == 0 {
        assert(name.last() == DOT);
    } else {
        let shorter = tail.drop_last();
        assert(!shorter.contains(DOT)) by {
            if shorter.contains(DOT) {
                let i = choose|i: int| 0 <= i < shorter.len() && shorter[i] == DOT;
                assert(tail[i] == DOT);
            }
        }
        dot_search_stops(stem, shorter);
        assert(name.drop_last() =~= stem + seq![DOT] + shorter);
        assert(tail.contains(tail.last()));
    }
}

/// Replacing the extension of a file in a directory keeps its directory and its stem.
pub proof fn extension_is_replaced(directory: Seq<u8>, stem: Seq<u8>, old_extension: Seq<u8>, new: Seq<u8>)
    requires
        stem.len() > 0,
        !stem.contains(SEPARATOR),
        old_extension.len() > 0,
        !old_extension.contains(SEPARATOR),
        !old_extension.contains(DOT),
    ensures
        extension(joined(directory, stem + seq![DOT] + old_extension)) == Some(old_extension),
        extended(joined(directory, stem + seq![DOT] + old_extension), new) == joined(
            directory,
            stem + seq![DOT] + new,
        ),
{
    let name = stem + seq![DOT] + old_extension;
    let path = joined(directory, name);
    let prefix = directory_prefix(directory);
    assert(!name.contains(SEPARATOR)) by {
        if name.contains(SEPARATOR) {
            let i = choose|i: int| 0 <= i < name.len() && name[i] == SEPARATOR;
            if i < stem.len() {
                assert(stem[i] == SEPARATOR);
            } else if i > stem.len() {
                assert(old_extension[i - stem.len() - 1] == SEPARATOR);
            }
        }
    }
    assert(name.last() == old_extension.last());
    assert(old_extension.contains(old_extension.last()));
    assert(name.len() >= 3);
    joined_names_file(directory, name);
    dot_search_stops(stem, old_extension);
    assert(name.skip(last_dot(name) + 1) =~= old_extension);
    assert(stem.contains(stem[0]));
    let renamed = stem + seq![DOT] + new;
    assert(renamed[0] == stem[0]);
    assert(path.take(path.len() - name.len() + stem.len()) =~= prefix + stem);
    assert(joined(directory, renamed) =~= prefix + renamed);
    assert(prefix + stem + seq![DOT] + new =~= prefix + renamed);
}

proof fn name_end_is_within(path: Seq<u8>)
    ensures
        name_end(path) <= path.len(),
    decreases path.len(),
{
    if path.len() > 0 && (path.last() == SEPARATOR || (path.len() > 1 && path.last() == DOT
        && path[path.len() - 2] == SEPARATOR)) {
        name_end_is_within(path.drop_last());
    }
}

proof fn separator_splits(path: Seq<u8>)
    ensures
        after_last_separator(path) <= path.len(),
        after_last_separator(path) == 0 || path[after_last_separator(path) - 1] == SEPARATOR,
        !path.skip(after_last_separator(path) as int).contains(SEPARATOR),
    decreases path.len(),
{
    if path.len() > 0 && path.last() != SEPARATOR {
        let shorter = path.drop_last();
        separator_splits(shorter);
        let k = after_last_separator(path) as int;
        let tail = path.skip(k);
        if tail.contains(SEPARATOR) {
            let i = choose|i: int| 0 <= i < tail.len() && tail[i] == SEPARATOR;
            assert(shorter.skip(k)[i] == SEPARATOR);
        }
    }
}

proof fn last_dot_is_within(name: Seq<u8>)
    ensures
        -1 <= last_dot(name) < name.len(),
        last_dot(name) >= 0 ==> name[last_dot(name)] == DOT,
    decreases name.len(),
{
    if name.len() > 0 && name.last() != DOT {
        last_dot_is_within(name.drop_last());
    }
}

/// A path that names a file is its directory part, the file, and what trails it.
pub proof fn path_splits_at_its_name(path: Seq<u8>)
    ensures
        name_end(path) <= path.len(),
        last_component(path).len() <= name_end(path),
        without_trail(path) == directory_part(path) + last_component(path),
        directory_part(path).len() == 0 || directory_part(path).last() == SEPARATOR,
        !last_component(path).contains(SEPARATOR),
        0 <= stem_len(last_component(path)) <= last_component(path).len(),
{
    name_end_is_within(path);
    let kept = without_trail(path);
    separator_splits(kept);
    last_dot_is_within(last_component(path));
    assert(directory_part(path) =~= kept.take(after_last_separator(kept) as int));
    assert(kept =~= directory_part(path) + last_component(path));
}

/// A new extension stands in the same directory, behind the same stem. It is one that ends
/// neither in a dot nor holds a separator.
pub proof fn extension_keeps_directory_and_stem(path: Seq<u8>, new: Seq<u8>)
    requires
        file_name(path) is Some,
        new.len() > 0,
        new.last() != DOT,
        !new.contains(SEPARATOR),
    ensures
        directory_part(extended(path, new)) == directory_part(path),
        file_name(extended(path, new)) == Some(file_stem(path)->0 + seq![DOT] + new),
        extended(path, new) == directory_part(path) + file_stem(path)->0 + seq![DOT] + new,
        without_trail(extended(path, new)) == extended(path, new),
{
    path_splits_at_its_name(path);
    let name = last_component(path);
    let stem = name.take(stem_len(name));
    let prefix = directory_part(path);
    let renamed = stem + seq![DOT] + new;
    let whole = extended(path, new);
    assert(path.take(name_end(path) - name.len() + stem_len(name)) =~= prefix + stem);
    assert(whole =~= prefix + renamed);
    assert(!renamed.contains(SEPARATOR)) by {
        if renamed.contains(SEPARATOR) {
            let i = choose|i: int| 0 <= i < renamed.len() && renamed[i] == SEPARATOR;
            if i < stem.len() {
                assert(name[i] == SEPARATOR);
            } else if i > stem.len() {
                assert(new[i - stem.len() - 1] == SEPARATOR);
            }
        }
    }
    assert(new.contains(new.last()));
    assert(whole.last() == new.last());
    assert(renamed.last() == new.last());
    separator_search_stops(prefix, renamed);
    assert(name_end(whole) == whole.len());
    assert(whole.take(whole.len() as int) =~= whole);
    assert(whole.skip(prefix.len() as int) =~= renamed);
    assert(names_file(renamed)) by {
        if renamed =~= seq![DOT] {
            assert(renamed.len() >= 2);
        }
        if renamed =~= seq![DOT, DOT] {
            assert(renamed.last() == DOT);
        }
    }
    assert(whole.take(whole.len() - renamed.len()) =~= prefix);
}

/// A path that names a file with the extension `extension` is its directory part, its stem and
/// that extension, and what trails them.
pub proof fn extension_ends_the_name(path: Seq<u8>, ending: Seq<u8>)
    requires
        extension(path) == Some(ending),
    ensures
        without_trail(path) == directory_part(path) + file_stem(path)->0 + seq![DOT] + ending,
{
    path_splits_at_its_name(path);
    let name = last_component(path);
    last_dot_is_within(name);
    assert(name =~= name.take(last_dot(name)) + seq![DOT] + name.skip(last_dot(name) + 1));
    assert(without_trail(path) =~= directory_part(path) + file_stem(path)->0 + seq![DOT] + ending);
}

/// A file has another name than the same file with an extension that has a dot in it.
pub proof fn dotted_extension_is_new(path: Seq<u8>, first: Seq<u8>, second: Seq<u8>)
    requires
        file_name(path) is Some,
        second.len() > 0,
        !second.contains(DOT),
        !second.contains(SEPARATOR),
        !first.contains(SEPARATOR),
    ensures
        extended(path, first + seq![DOT] + second) != path,
{
    let new = first + seq![DOT] + second;
    assert(new.last() == second.last());
    assert(second.contains(second.last()));
    assert(!new.contains(SEPARATOR)) by {
        if new.contains(SEPARATOR) {
            let i = choose|i: int| 0 <= i < new.len() && new[i] == SEPARATOR;
            if i < first.len() {
                assert(first[i] == SEPARATOR);
            } else if i > first.len() {
                assert(second[i - first.len() - 1] == SEPARATOR);
            }
        }
    }
    extension_keeps_directory_and_stem(path, new);
    if extended(path, new) == path {
        let stem = file_stem(path)->0;
        let name = last_component(path);
        assert(name == stem + seq![DOT] + new);
        assert(name =~= (stem + seq![DOT] + first) + seq![DOT] + second);
        dot_search_stops(stem + seq![DOT] + first, second);
        path_splits_at_its_name(path);
        assert(stem.len() == stem_len(name));
        assert(false);
    }
}

/// A joined path is the directory, a slash where one is missing, and what stands below; an
/// absolute path stands for itself.
pub proof fn joining_keeps_both_parts(directory: Seq<u8>, tail: Seq<u8>)
    ensures
        tail.len() > 0 && tail[0] == 0x2f ==> joined(directory, tail) == tail,
        !(tail.len() > 0 && tail[0] == 0x2f) && (directory.len() == 0 || directory.last() == 0x2f)
            ==> joined(directory, tail) == directory + tail,
        !(tail.len() > 0 && tail[0] == 0x2f) && directory.len() > 0 && directory.last() != 0x2f
            ==> joined(directory, tail) == directory + seq![0x2fu8] + tail,
{
}

/// What trails the last component of a path is slashes and dots that stand alone between them,
/// and the component itself ends in neither.
pub proof fn trail_is_slashes_and_lone_dots(path: Seq<u8>)
    ensures
        name_end(path) <= path.len(),
        forall|i: int|
            name_end(path) <= i < path.len() ==> #[trigger] path[i] == 0x2f || (path[i] == 0x2e && i
                > 0 && path[i - 1] == 0x2f),
        name_end(path) > 0 ==> path[name_end(path) - 1] != 0x2f,
        name_end(path) > 1 ==> !(path[name_end(path) - 1] == 0x2e && path[name_end(path) - 2]
            == 0x2f),
    decreases path.len(),
{
    if path.len() > 0 && (path.last() == SEPARATOR || (path.len() > 1 && path.last() == DOT
        && path[path.len() - 2] == SEPARATOR)) {
        let shorter = path.drop_last();
        trail_is_slashes_and_lone_dots(shorter);
        assert forall|i: int| name_end(path) <= i < path.len() implies #[trigger] path[i] == 0x2f
            || (path[i] == 0x2e && i > 0 && path[i - 1] == 0x2f) by {
            if i < shorter.len() {
                assert(shorter[i] == path[i]);
                if i > 0 {
                    assert(shorter[i - 1] == path[i - 1]);
                }
            }
        }
    }
}

/// The file that a path names is what stands between the last slash before it and what trails
/// it, unless that is nothing, a dot or two dots.
pub proof fn file_name_is_the_last_component(path: Seq<u8>)
    ensures
        path.take(name_end(path) as int) == directory_part(path) + last_component(path),
        directory_part(path).len() == 0 || directory_part(path).last() == 0x2f,
        !last_component(path).contains(0x2f),
        file_name(path) == if last_component(path).len() == 0 || last_component(path) == seq![0x2eu8]
            || last_component(path) == seq![0x2eu8, 0x2eu8] {
            None
        } else {
            Some(last_component(path))
        },
{
    path_splits_at_its_name(path);
}

/// A file name is its stem, a dot and its extension, which holds no dot, if there is a dot
/// anywhere but in front; else it is its stem.
pub proof fn name_is_stem_and_extension(path: Seq<u8>)
    requires
        file_name(path) is Some,
    ensures
        ({
            let name = file_name(path)->0;
            let stem = file_stem(path)->0;
            match extension(path) {
                Some(ending) => name == stem + seq![0x2eu8] + ending && stem.len() > 0
                    && !ending.contains(0x2e),
                None => name == stem && forall|i: int|
                    0 < i < name.len() ==> #[trigger] name[i] != 0x2e,
            }
        }),
{
    let name = file_name(path)->0;
    last_dot_is_the_last(name);
    let dot = last_dot(name);
    if dot > 0 {
        let ending = name.skip(dot + 1);
        assert(name =~= name.take(dot) + seq![DOT] + ending);
        if ending.contains(DOT) {
            let i = choose|i: int| 0 <= i < ending.len() && ending[i] == DOT;
            assert(name[dot + 1 + i] == DOT);
        }
    } else {
        assert(name.take(name.len() as int) =~= name);
    }
}

proof fn last_dot_is_the_last(name: Seq<u8>)
    ensures
        -1 <= last_dot(name) < name.len(),
        last_dot(name) >= 0 ==> name[last_dot(name)] == DOT,
        forall|i: int| last_dot(name) < i < name.len() ==> #[trigger] name[i] != DOT,
    decreases name.len(),
{
    if name.len() > 0 && name.last() != DOT {
        let shorter = name.drop_last();
        last_dot_is_the_last(shorter);
        assert forall|i: int| last_dot(name) < i < name.len() implies #[trigger] name[i] != DOT by {
            if i < shorter.len() {
                assert(shorter[i] == name[i]);
            }
        }
    }
}

/// A new extension takes the place of the old one behind the directory and the stem; a path that
/// names no file stays as it is.
pub proof fn only_a_file_gets_an_extension(path: Seq<u8>, new: Seq<u8>)
    ensures
        file_name(path) is None ==> extended(path, new) == path,
        file_name(path) is Some ==> extended(path, new) == directory_part(path) + file_stem(path)->0
            + seq![0x2eu8] + new,
{
    if file_name(path) is Some {
        path_splits_at_its_name(path);
        let name = last_component(path);
        assert(path.take(name_end(path) - name.len() + stem_len(name)) =~= directory_part(path)
            + name.take(stem_len(name)));
    }
}

} // verus!
