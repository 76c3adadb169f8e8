//! The arguments of a process.

use vstd::prelude::*;
use vstd::utf8::*;

use crate::path::FilePath;

verus! {

/// One argument of a process, as the bytes that the process is given.
#[derive(Debug, PartialEq, Eq)]
pub struct Argument {
    value: FilePath,
}

impl View for Argument {
    type V = Seq<u8>;

    closed spec fn view(&self) -> Seq<u8> {
        self.value@
    }
}

/// The bytes of each argument.
pub open spec fn argument_bytes(arguments: Seq<Argument>) -> Seq<Seq<u8>> {
    arguments.map_values(|argument: Argument| argument@)
}

/// The bytes of each word.
pub open spec fn word_bytes(words: Seq<Seq<char>>) -> Seq<Seq<u8>> {
    words.map_values(|word: Seq<char>| encode_utf8(word))
}

impl Argument {
    /// The argument that `word` spells.
    pub fn word(word: &str) -> (r: Argument)
        ensures
            r@ == encode_utf8(word@),
    {
        Argument { value: FilePath::from_text(word) }
    }

    /// The argument that a path is.
    pub fn path(path: &FilePath) -> (r: Argument)
        ensures
            r@ == path@,
    {
        Argument { value: path.clone() }
    }

    /// The bytes of the argument.
    pub fn as_bytes(&self) -> (r: &Vec<u8>)
        ensures
            r@ == self@,
    {
        self.value.as_bytes()
    }
}

/// What a process that ran to its end left behind.
#[derive(Debug)]
pub struct ProcessOutput {
    pub success: bool,
    /// The exit status in words.
    pub status: String,
    pub stdout: Vec<u8>,
    pub stderr: Vec<u8>,
}

/// Appends a word to a list of arguments.
pub(crate) fn push_word(arguments: &mut Vec<Argument>, word: &str)
    ensures
        argument_bytes(final(arguments)@) == argument_bytes(old(arguments)@) + word_bytes(
            seq![word@],
        ),
{
    arguments.push(Argument::word(word));
    assert(argument_bytes(arguments@) =~= argument_bytes(old(arguments)@) + word_bytes(
        seq![word@],
    ));
}

/// Appends two words to a list of arguments.
pub(crate) fn push_words(arguments: &mut Vec<Argument>, first: &str, second: &str)
    ensures
        argument_bytes(final(arguments)@) == argument_bytes(old(arguments)@) + word_bytes(
            seq![first@, second@],
        ),
{
    push_word(arguments, first);
    push_word(arguments, second);
    assert(word_bytes(seq![first@]) + word_bytes(seq![second@]) =~= word_bytes(
        seq![first@, second@],
    ));
    assert(argument_bytes(arguments@) =~= argument_bytes(old(arguments)@) + (word_bytes(
        seq![first@],
    ) + word_bytes(seq![second@])));
}

/// Appends a path to a list of arguments.
pub(crate) fn push_path(arguments: &mut Vec<Argument>, path: &FilePath)
    ensures
        argument_bytes(final(arguments)@) == argument_bytes(old(arguments)@) + seq![path@],
{
    arguments.push(Argument::path(path));
    assert(argument_bytes(arguments@) =~= argument_bytes(old(arguments)@) + seq![path@]);
}

} // verus!
