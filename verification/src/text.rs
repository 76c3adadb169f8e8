//! Text operations on Unicode scalar values, each stated over the sequence of characters.

use vstd::prelude::*;
use vstd::utf8::*;

verus! {

/// The characters with the Unicode `White_Space` property.
pub open spec fn is_white_space(c: char) -> bool {
    let code = c as u32;
    ||| 0x09 <= code <= 0x0d
    ||| code == 0x20
    ||| code == 0x85
    ||| code == 0xa0
    ||| code == 0x1680
    ||| 0x2000 <= code <= 0x200a
    ||| code == 0x2028
    ||| code == 0x2029
    ||| code == 0x202f
    ||| code == 0x205f
    ||| code == 0x3000
}

/// Whether `c` is white space.
pub fn white_space(c: char) -> (r: bool)
    ensures
        r == is_white_space(c),
{
    let code: u32 = c as u32;
    (0x09 <= code && code <= 0x0d) || code == 0x20 || code == 0x85 || code == 0xa0 || code == 0x1680
        || (0x2000 <= code && code <= 0x200a) || code == 0x2028 || code == 0x2029 || code == 0x202f
        || code == 0x205f || code == 0x3000
}

/// `s` without its leading white space.
pub open spec fn trimmed_start(s: Seq<char>) -> Seq<char>
    decreases s.len(),
{
    if s.len() > 0 && is_white_space(s[0]) {
        trimmed_start(s.drop_first())
    } else {
        s
    }
}

/// `s` without its trailing white space.
pub open spec fn trimmed_end(s: Seq<char>) -> Seq<char>
    decreases s.len(),
{
    if s.len() > 0 && is_white_space(s.last()) {
        trimmed_end(s.drop_last())
    } else {
        s
    }
}

/// `s` without its leading and its trailing white space.
pub open spec fn trimmed(s: Seq<char>) -> Seq<char> {
    trimmed_end(trimmed_start(s))
}

proof fn trimmed_end_ends(s: Seq<char>)
    ensures
        trimmed_end(s).len() > 0 ==> !is_white_space(trimmed_end(s).last()),
        trimmed_end(s).is_prefix_of(s),
    decreases s.len(),
{
    if s.len() > 0 && is_white_space(s.last()) {
        trimmed_end_ends(s.drop_last());
        let t = trimmed_end(s);
        assert(s.drop_last().subrange(0, t.len() as int) =~= s.subrange(0, t.len() as int));
    } else {
        assert(s.subrange(0, s.len() as int) =~= s);
    }
}

proof fn trimmed_start_starts(s: Seq<char>)
    ensures
        trimmed_start(s).len() > 0 ==> !is_white_space(trimmed_start(s)[0]),
    decreases s.len(),
{
    if s.len() > 0 && is_white_space(s[0]) {
        trimmed_start_starts(s.drop_first());
    }
}

/// Trimmed text neither starts nor ends with white space, so that trimming it again changes
/// nothing.
pub proof fn trimming_is_idempotent(s: Seq<char>)
    ensures
        trimmed(trimmed(s)) == trimmed(s),
        trimmed(s).len() > 0 ==> !is_white_space(trimmed(s)[0]) && !is_white_space(
            trimmed(s).last(),
        ),
{
    let started = trimmed_start(s);
    trimmed_start_starts(s);
    trimmed_end_ends(started);
    let t = trimmed(s);
    if t.len() > 0 {
        assert(t[0] == started.subrange(0, t.len() as int)[0]);
    }
}

/// The ASCII letter `c` in lower case; any other character as it is.
pub open spec fn lowercase_char(c: char) -> char {
    if 'A' <= c && c <= 'Z' {
        ((c as u32 + 32) as u32) as char
    } else {
        c
    }
}

/// `s` with its ASCII letters in lower case.
pub open spec fn lowercase(s: Seq<char>) -> Seq<char> {
    s.map_values(|c: char| lowercase_char(c))
}

/// Why bytes that are not valid UTF-8 are not, in the words of the standard library.
pub uninterp spec fn utf8_error_text(bytes: Seq<u8>) -> Seq<char>;

/// `String::from_utf8`. The claim is that it accepts exactly valid UTF-8 and gives the
/// characters that are encoded; the words of its error are named, and only said to depend on
/// nothing but the bytes.
#[verifier::external_body]
pub(crate) fn decode(bytes: Vec<u8>) -> (r: Result<String, String>)
    ensures
        r is Ok <==> valid_utf8(bytes@),
        r matches Ok(s) ==> s@ == decode_utf8(bytes@),
        r matches Err(error) ==> error@ == utf8_error_text(bytes@),
{
    String::from_utf8(bytes).map_err(|error| error.to_string())
}

/// The characters of `s`.
pub fn characters(s: &str) -> (r: Vec<char>)
    ensures
        r@ == s@,
{
    let mut out: Vec<char> = Vec::new();
    for c in iter: s.chars()
        invariant
            out@ == iter.seq().take(iter.index() as int),
            iter.seq() == s@,
    {
        proof {
            assert(iter.seq().take(iter.index() + 1) =~= iter.seq().take(iter.index() as int).push(
                iter.seq()[iter.index() as int],
            ));
        }
        out.push(c);
    }
    assert(s@.take(s@.len() as int) =~= s@);
    out
}

/// Whether `a` and `b` hold the same characters.
pub fn same_text(a: &str, b: &str) -> (r: bool)
    ensures
        r == (a@ == b@),
{
    let left = characters(a);
    let right = characters(b);
    same_characters(&left, &right)
}

fn same_characters(left: &Vec<char>, right: &Vec<char>) -> (r: bool)
    ensures
        r == (left@ == right@),
{
    if left.len() != right.len() {
        return false;
    }
    let mut i: usize = 0;
    while i < left.len()
        invariant
            i <= left.len(),
            left.len() == right.len(),
            left@.take(i as int) =~= right@.take(i as int),
        decreases left.len() - i,
    {
        if left[i] != right[i] {
            assert(left@[i as int] != right@[i as int]);
            return false;
        }
        assert(left@.take(i + 1) =~= left@.take(i as int).push(left@[i as int]));
        assert(right@.take(i + 1) =~= right@.take(i as int).push(right@[i as int]));
        i += 1;
    }
    assert(left@.take(i as int) =~= left@);
    assert(right@.take(i as int) =~= right@);
    true
}

/// `s` without its trailing white space.
pub fn trim_end<'a>(s: &'a str) -> (r: &'a str)
    ensures
        r@ == trimmed_end(s@),
{
    let chars = characters(s);
    let mut end: usize = chars.len();
    assert(s@.take(end as int) =~= s@);
    while end > 0 && white_space(chars[end - 1])
        invariant
            end <= chars.len(),
            chars@ == s@,
            trimmed_end(s@) == trimmed_end(s@.take(end as int)),
        decreases end,
    {
        assert(s@.take(end as int).drop_last() =~= s@.take(end - 1));
        end -= 1;
    }
    assert(s@.take(end as int) =~= s@.subrange(0, end as int));
    s.substring_char(0, end)
}

/// `s` without its leading white space.
fn trim_start<'a>(s: &'a str) -> (r: &'a str)
    ensures
        r@ == trimmed_start(s@),
{
    let chars = characters(s);
    let mut start: usize = 0;
    assert(s@.skip(0) =~= s@);
    while start < chars.len() && white_space(chars[start])
        invariant
            start <= chars.len(),
            chars@ == s@,
            trimmed_start(s@) == trimmed_start(s@.skip(start as int)),
        decreases chars.len() - start,
    {
        assert(s@.skip(start as int).drop_first() =~= s@.skip(start + 1));
        start += 1;
    }
    assert(s@.skip(start as int) =~= s@.subrange(start as int, s@.len() as int));
    s.substring_char(start, chars.len())
}

/// `s` without its leading and its trailing white space.
pub fn trim<'a>(s: &'a str) -> (r: &'a str)
    ensures
        r@ == trimmed(s@),
{
    trim_end(trim_start(s))
}

/// What follows `prefix` in `s`, if `s` starts with it.
pub fn strip_prefix<'a>(s: &'a str, prefix: &str) -> (r: Option<&'a str>)
    ensures
        r is Some <==> prefix@.is_prefix_of(s@),
        r matches Some(rest) ==> s@ == prefix@ + rest@,
{
    let chars = characters(s);
    let head = characters(prefix);
    if head.len() > chars.len() {
        return None;
    }
    let mut i: usize = 0;
    while i < head.len()
        invariant
            i <= head.len() <= chars.len(),
            chars@ == s@,
            head@ == prefix@,
            forall|k: int| 0 <= k < i ==> s@[k] == prefix@[k],
        decreases head.len() - i,
    {
        if chars[i] != head[i] {
            assert(s@[i as int] != prefix@[i as int]);
            assert(s@.subrange(0, prefix@.len() as int)[i as int] != prefix@[i as int]);
            return None;
        }
        i += 1;
    }
    assert(prefix@ =~= s@.subrange(0, prefix@.len() as int));
    let rest = s.substring_char(head.len(), chars.len());
    assert(s@ =~= prefix@ + rest@);
    Some(rest)
}

/// What precedes `suffix` in `s`, if `s` ends with it.
pub fn strip_suffix<'a>(s: &'a str, suffix: &str) -> (r: Option<&'a str>)
    ensures
        r is Some <==> suffix@.is_suffix_of(s@),
        r matches Some(rest) ==> s@ == rest@ + suffix@,
{
    let chars = characters(s);
    let tail = characters(suffix);
    if tail.len() > chars.len() {
        return None;
    }
    let offset: usize = chars.len() - tail.len();
    let mut i: usize = 0;
    while i < tail.len()
        invariant
            i <= tail.len() <= chars.len(),
            offset == chars.len() - tail.len(),
            chars@ == s@,
            tail@ == suffix@,
            forall|k: int| 0 <= k < i ==> s@[offset + k] == suffix@[k],
        decreases tail.len() - i,
    {
        if chars[offset + i] != tail[i] {
            assert(s@.subrange(offset as int, s@.len() as int)[i as int] != suffix@[i as int]);
            return None;
        }
        i += 1;
    }
    assert(suffix@ =~= s@.subrange(offset as int, s@.len() as int));
    let rest = s.substring_char(0, offset);
    assert(s@ =~= rest@ + suffix@);
    Some(rest)
}

/// Where `c` first stands in `s`, or the length of `s`.
pub open spec fn position(s: Seq<char>, c: char) -> int
    decreases s.len(),
{
    if s.len() == 0 || s[0] == c {
        0
    } else {
        1 + position(s.drop_first(), c)
    }
}

/// `s` cut at the first `separator`, which belongs to neither part.
pub fn split_once<'a>(s: &'a str, separator: char) -> (r: Option<(&'a str, &'a str)>)
    ensures
        r is Some <==> s@.contains(separator),
        r matches Some((before, after)) ==> {
            &&& before@ == s@.take(position(s@, separator))
            &&& after@ == s@.skip(position(s@, separator) + 1)
        },
{
    let chars = characters(s);
    let mut i: usize = 0;
    assert(s@.skip(0) =~= s@);
    while i < chars.len()
        invariant
            i <= chars.len(),
            chars@ == s@,
            forall|k: int| 0 <= k < i ==> s@[k] != separator,
            position(s@, separator) == i + position(s@.skip(i as int), separator),
        decreases chars.len() - i,
    {
        if chars[i] == separator {
            let before = s.substring_char(0, i);
            let after = s.substring_char(i + 1, chars.len());
            assert(s@[i as int] == separator);
            assert(before@ =~= s@.take(i as int));
            assert(after@ =~= s@.skip(i + 1));
            return Some((before, after));
        }
        assert(s@.skip(i as int).drop_first() =~= s@.skip(i + 1));
        i += 1;
    }
    None
}

/// Whether `c` occurs in `s`.
pub fn contains_char(s: &str, c: char) -> (r: bool)
    ensures
        r == s@.contains(c),
{
    for x in iter: s.chars()
        invariant
            iter.seq() == s@,
            forall|k: int| 0 <= k < iter.index() ==> s@[k] != c,
    {
        if x == c {
            assert(s@[iter.index() as int] == c);
            return true;
        }
    }
    false
}

fn lower(c: char) -> (r: char)
    ensures
        r == lowercase_char(c),
{
    if 'A' <= c && c <= 'Z' {
        (c as u8 + 32) as char
    } else {
        c
    }
}

/// Whether `s` ends with `suffix` once its ASCII letters are in lower case.
pub fn lowercase_ends_with(s: &str, suffix: &str) -> (r: bool)
    ensures
        r == suffix@.is_suffix_of(lowercase(s@)),
{
    let chars = characters(s);
    let tail = characters(suffix);
    if tail.len() > chars.len() {
        return false;
    }
    let offset: usize = chars.len() - tail.len();
    let ghost low = lowercase(s@);
    let mut i: usize = 0;
    while i < tail.len()
        invariant
            i <= tail.len() <= chars.len(),
            offset == chars.len() - tail.len(),
            chars@ == s@,
            tail@ == suffix@,
            low == lowercase(s@),
            forall|k: int| 0 <= k < i ==> low[offset + k] == suffix@[k],
        decreases tail.len() - i,
    {
        if lower(chars[offset + i]) != tail[i] {
            assert(low.subrange(offset as int, low.len() as int)[i as int] != suffix@[i as int]);
            return false;
        }
        i += 1;
    }
    assert(suffix@ =~= low.subrange(offset as int, low.len() as int));
    true
}

/// `a` followed by `b`.
pub fn concat2(a: &str, b: &str) -> (r: String)
    ensures
        r@ == a@ + b@,
{
    let mut out = a.to_owned();
    out.append(b);
    out
}

/// `a`, `b` and `c`, one after the other.
pub fn concat3(a: &str, b: &str, c: &str) -> (r: String)
    ensures
        r@ == a@ + b@ + c@,
{
    let mut out = concat2(a, b);
    out.append(c);
    out
}

/// Whether a text is nothing but white space.
pub open spec fn is_blank(s: Seq<char>) -> bool {
    forall|i: int| 0 <= i < s.len() ==> is_white_space(#[trigger] s[i])
}

proof fn trimming_the_start_takes_blanks(s: Seq<char>) -> (blank: Seq<char>)
    ensures
        s == blank + trimmed_start(s),
        is_blank(blank),
    decreases s.len(),
{
    if s.len() > 0 && is_white_space(s[0]) {
        let rest = trimming_the_start_takes_blanks(s.drop_first());
        let blank = seq![s[0]] + rest;
        let kept = trimmed_start(s);
        assert(s.drop_first() == rest + kept);
        assert(s =~= seq![s[0]] + (rest + kept));
        assert(blank + kept =~= seq![s[0]] + (rest + kept));
        blank
    } else {
        assert(s =~= Seq::<char>::empty() + s);
        Seq::empty()
    }
}

/// Trimming the end takes white space off there, all of it, and nothing else.
pub proof fn trimming_the_end_takes_blanks(s: Seq<char>) -> (blank: Seq<char>)
    ensures
        s == trimmed_end(s) + blank,
        is_blank(blank),
        trimmed_end(s).len() > 0 ==> !is_white_space(trimmed_end(s).last()),
    decreases s.len(),
{
    if s.len() > 0 && is_white_space(s.last()) {
        let rest = trimming_the_end_takes_blanks(s.drop_last());
        let blank = rest.push(s.last());
        let kept = trimmed_end(s);
        assert(s.drop_last() == kept + rest);
        assert(s =~= (kept + rest).push(s.last()));
        assert(kept + blank =~= (kept + rest).push(s.last()));
        blank
    } else {
        assert(s =~= s + Seq::<char>::empty());
        Seq::empty()
    }
}

/// Trimming takes white space off both ends, all of it, and nothing else.
pub proof fn trimming_takes_blanks(s: Seq<char>) -> (blanks: (Seq<char>, Seq<char>))
    ensures
        s == blanks.0 + trimmed(s) + blanks.1,
        is_blank(blanks.0) && is_blank(blanks.1),
        trimmed(s).len() > 0 ==> !is_white_space(trimmed(s)[0]) && !is_white_space(
            trimmed(s).last(),
        ),
{
    trimming_is_idempotent(s);
    let before = trimming_the_start_takes_blanks(s);
    let after = trimming_the_end_takes_blanks(trimmed_start(s));
    assert(s =~= before + trimmed(s) + after);
    (before, after)
}

/// The capitals of the alphabet become its small letters, and no other character changes.
pub proof fn capitals_become_small(c: char)
    ensures
        forall|i: int|
            0 <= i < 26 && c == #[trigger] "ABCDEFGHIJKLMNOPQRSTUVWXYZ"@[i] ==> lowercase_char(c)
                == "abcdefghijklmnopqrstuvwxyz"@[i],
        !"ABCDEFGHIJKLMNOPQRSTUVWXYZ"@.contains(c) ==> lowercase_char(c) == c,
{
    reveal_strlit("ABCDEFGHIJKLMNOPQRSTUVWXYZ");
    reveal_strlit("abcdefghijklmnopqrstuvwxyz");
    let capitals = "ABCDEFGHIJKLMNOPQRSTUVWXYZ"@;
    if 'A' <= c && c <= 'Z' {
        assert(capitals[c as int - 'A' as int] == c);
    }
}

/// Text in lower case has the same length, each character taken for itself.
pub proof fn lowercase_goes_by_character(s: Seq<char>, i: int)
    requires
        0 <= i < s.len(),
    ensures
        lowercase(s).len() == s.len(),
        lowercase(s)[i] == lowercase_char(s[i]),
{
}

/// A position is that of the character, and the first such.
pub proof fn position_is_the_first(s: Seq<char>, c: char)
    ensures
        0 <= position(s, c) <= s.len(),
        s.contains(c) <==> position(s, c) < s.len(),
        position(s, c) < s.len() ==> s[position(s, c)] == c,
        forall|i: int| 0 <= i < position(s, c) ==> #[trigger] s[i] != c,
    decreases s.len(),
{
    if s.len() > 0 && s[0] != c {
        let rest = s.drop_first();
        position_is_the_first(rest, c);
        assert forall|i: int| 0 <= i < position(s, c) implies #[trigger] s[i] != c by {
            if i > 0 {
                assert(rest[i - 1] == s[i]);
            }
        }
        if s.contains(c) {
            let k = choose|k: int| 0 <= k < s.len() && s[k] == c;
            assert(rest[k - 1] == c);
        }
    }
}

/// Blanks after a text that does not end in one are what trimming takes off its end.
pub proof fn blanks_end_a_text(s: Seq<char>, blank: Seq<char>)
    requires
        is_blank(blank),
        s.len() > 0 ==> !is_white_space(s.last()),
    ensures
        trimmed_end(s + blank) == s,
    decreases blank.len(),
{
    let whole = s + blank;
    if blank.len() == 0 {
        assert(whole =~= s);
    } else {
        let rest = blank.drop_last();
        assert(whole.last() == blank.last());
        assert(whole.drop_last() =~= s + rest);
        assert(is_blank(rest)) by {
            assert forall|i: int| 0 <= i < rest.len() implies #[trigger] rest[i] == blank[i] by {}
        }
        blanks_end_a_text(s, rest);
    }
}

/// There are 25 white-space characters: the ASCII controls from the tab to the carriage return,
/// the space, the next line, the no-break space, and those among the letters and punctuation of
/// other scripts.
pub proof fn white_space_is_unicodes(c: char)
    ensures
        is_white_space(c) <==> seq![
            '\u{9}', '\u{a}', '\u{b}', '\u{c}', '\u{d}', '\u{20}', '\u{85}', '\u{a0}', '\u{1680}',
            '\u{2000}', '\u{2001}', '\u{2002}', '\u{2003}', '\u{2004}', '\u{2005}', '\u{2006}',
            '\u{2007}', '\u{2008}', '\u{2009}', '\u{200a}', '\u{2028}', '\u{2029}', '\u{202f}',
            '\u{205f}', '\u{3000}',
        ].contains(c),
{
    let all = seq![
        '\u{9}', '\u{a}', '\u{b}', '\u{c}', '\u{d}', '\u{20}', '\u{85}', '\u{a0}', '\u{1680}',
        '\u{2000}', '\u{2001}', '\u{2002}', '\u{2003}', '\u{2004}', '\u{2005}', '\u{2006}',
        '\u{2007}', '\u{2008}', '\u{2009}', '\u{200a}', '\u{2028}', '\u{2029}', '\u{202f}',
        '\u{205f}', '\u{3000}',
    ];
    let code = c as u32;
    if 0x09 <= code <= 0x0d {
        assert(all[code - 0x09] == c);
    }
    if 0x2000 <= code <= 0x200a {
        assert(all[code - 0x2000 + 9] == c);
    }
    assert(all[5] == '\u{20}' && all[6] == '\u{85}' && all[7] == '\u{a0}' && all[8] == '\u{1680}'
        && all[20] == '\u{2028}' && all[21] == '\u{2029}' && all[22] == '\u{202f}' && all[23]
        == '\u{205f}' && all[24] == '\u{3000}');
    if is_white_space(c) {
        assert(all.contains(c));
    }
}

} // verus!
