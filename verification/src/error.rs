//! What a recording or a request can fail with.

use vstd::prelude::*;

use crate::text;

verus! {

/// Why a recording did not take place or did not succeed.
#[derive(Debug, PartialEq, Eq)]
pub enum AppError {
    /// A failure, in words.
    Message(String),
    /// The user gave up selecting a region, which is no failure.
    Cancelled,
}

/// Why a request was refused or failed, in words.
#[derive(Debug, PartialEq, Eq)]
pub struct McpError(pub String);

impl AppError {
    /// The error in words.
    pub open spec fn words(self) -> Seq<char> {
        match self {
            AppError::Message(message) => message@,
            AppError::Cancelled => "region selection cancelled"@,
        }
    }

    /// The error in words.
    pub fn to_text(&self) -> (r: String)
        ensures
            r@ == self.words(),
    {
        match self {
            AppError::Message(message) => message.as_str().to_owned(),
            AppError::Cancelled => "region selection cancelled".to_owned(),
        }
    }

    /// The error for a fixed message.
    pub(crate) fn message(words: &str) -> (r: AppError)
        ensures
            r is Message,
            r.words() == words@,
    {
        AppError::Message(words.to_owned())
    }

    /// The error for an operation of the system that failed with `error`.
    pub fn from_io(error: String) -> (r: AppError)
        ensures
            r is Message,
            r.words() == error@,
    {
        AppError::Message(error)
    }

    /// The error for monitor data that could not be parsed because of `error`.
    pub fn from_json(error: &str) -> (r: AppError)
        ensures
            r is Message,
            r.words() == "could not parse Hyprland monitor data: "@ + error@,
    {
        AppError::Message(text::concat2("could not parse Hyprland monitor data: ", error))
    }
}

impl McpError {
    /// The error in words.
    pub open spec fn words(self) -> Seq<char> {
        self.0@
    }

    /// The error in words.
    pub fn to_text(&self) -> (r: String)
        ensures
            r@ == self.words(),
    {
        self.0.as_str().to_owned()
    }

    /// The error for a fixed message.
    pub(crate) fn message(words: &str) -> (r: McpError)
        ensures
            r.words() == words@,
    {
        McpError(words.to_owned())
    }
}

/// The error for an operation of the system that failed with `error`.
pub fn io_error(error: String) -> (r: McpError)
    ensures
        r.words() == error@,
{
    McpError(error)
}

} // verus!
