//! What a recording can be asked for, and the words that ask for it.

use vstd::prelude::*;

use crate::text;

verus! {

/// An encoding profile.
#[derive(Clone, Copy, Debug, PartialEq, Eq, Structural)]
pub enum Quality {
    /// H.264 with subsampled colour: plays everywhere.
    High,
    /// H.264 with full colour: an editing master.
    Ultra,
    /// HEVC with full colour: a smaller file.
    Compact,
}

/// A category of action telemetry.
#[derive(Clone, Copy, Debug, PartialEq, Eq, Hash, Structural)]
pub enum TelemetryKind {
    Click,
    Scroll,
    KeyboardInput,
    WorkspaceChanged,
    WindowFocused,
}

impl Default for Quality {
    /// The profile of a recording that asks for none.
    fn default() -> (r: Quality)
        ensures
            r == Quality::High,
    {
        Quality::High
    }
}

/// The word for a profile.
pub open spec fn quality_word(quality: Quality) -> Seq<char> {
    match quality {
        Quality::High => "high"@,
        Quality::Ultra => "ultra"@,
        Quality::Compact => "compact"@,
    }
}

/// The word for a telemetry category.
pub open spec fn kind_word(kind: TelemetryKind) -> Seq<char> {
    match kind {
        TelemetryKind::Click => "click"@,
        TelemetryKind::Scroll => "scroll"@,
        TelemetryKind::KeyboardInput => "keyboard-input"@,
        TelemetryKind::WorkspaceChanged => "workspace-changed"@,
        TelemetryKind::WindowFocused => "window-focused"@,
    }
}

/// No two profiles share a word.
pub proof fn quality_words_are_distinct(a: Quality, b: Quality)
    ensures
        quality_word(a) == quality_word(b) ==> a == b,
{
    reveal_strlit("high");
    reveal_strlit("ultra");
    reveal_strlit("compact");
    assert("high"@.len() == 4 && "ultra"@.len() == 5 && "compact"@.len() == 7);
}

/// No two telemetry categories share a word.
pub proof fn kind_words_are_distinct(a: TelemetryKind, b: TelemetryKind)
    ensures
        kind_word(a) == kind_word(b) ==> a == b,
{
    reveal_strlit("click");
    reveal_strlit("scroll");
    reveal_strlit("keyboard-input");
    reveal_strlit("workspace-changed");
    reveal_strlit("window-focused");
    assert("keyboard-input"@[0] == 'k' && "window-focused"@[0] == 'w');
    assert("click"@.len() == 5 && "scroll"@.len() == 6 && "workspace-changed"@.len() == 17);
}

impl Quality {
    /// The word that asks for this profile.
    pub fn as_arg(self) -> (r: &'static str)
        ensures
            r@ == quality_word(self),
    {
        match self {
            Quality::High => "high",
            Quality::Ultra => "ultra",
            Quality::Compact => "compact",
        }
    }

    /// The profile that `word` asks for.
    pub fn from_arg(word: &str) -> (r: Option<Quality>)
        ensures
            forall|q: Quality| r == Some(q) <==> word@ == #[trigger] quality_word(q),
    {
        proof {
            assert forall|a: Quality, b: Quality| quality_word(a) == quality_word(b) implies a
                == b by {
                quality_words_are_distinct(a, b);
            }
        }
        if text::same_text(word, Quality::High.as_arg()) {
            Some(Quality::High)
        } else if text::same_text(word, Quality::Ultra.as_arg()) {
            Some(Quality::Ultra)
        } else if text::same_text(word, Quality::Compact.as_arg()) {
            Some(Quality::Compact)
        } else {
            None
        }
    }
}

impl TelemetryKind {
    /// The word that asks for this category.
    pub fn as_arg(self) -> (r: &'static str)
        ensures
            r@ == kind_word(self),
    {
        match self {
            TelemetryKind::Click => "click",
            TelemetryKind::Scroll => "scroll",
            TelemetryKind::KeyboardInput => "keyboard-input",
            TelemetryKind::WorkspaceChanged => "workspace-changed",
            TelemetryKind::WindowFocused => "window-focused",
        }
    }

    /// The category that `word` asks for.
    pub fn from_arg(word: &str) -> (r: Option<TelemetryKind>)
        ensures
            forall|k: TelemetryKind| r == Some(k) <==> word@ == #[trigger] kind_word(k),
    {
        proof {
            assert forall|a: TelemetryKind, b: TelemetryKind| kind_word(a) == kind_word(b) implies a
                == b by {
                kind_words_are_distinct(a, b);
            }
        }
        if text::same_text(word, TelemetryKind::Click.as_arg()) {
            Some(TelemetryKind::Click)
        } else if text::same_text(word, TelemetryKind::Scroll.as_arg()) {
            Some(TelemetryKind::Scroll)
        } else if text::same_text(word, TelemetryKind::KeyboardInput.as_arg()) {
            Some(TelemetryKind::KeyboardInput)
        } else if text::same_text(word, TelemetryKind::WorkspaceChanged.as_arg()) {
            Some(TelemetryKind::WorkspaceChanged)
        } else if text::same_text(word, TelemetryKind::WindowFocused.as_arg()) {
            Some(TelemetryKind::WindowFocused)
        } else {
            None
        }
    }
}

/// The profiles and the telemetry categories are asked for by the words that the program's help
/// gives them.
pub proof fn options_are_asked_for_by_their_words(quality: Quality, kind: TelemetryKind)
    ensures
        quality_word(quality) == seq!["high"@, "ultra"@, "compact"@][match quality {
            Quality::High => 0int,
            Quality::Ultra => 1int,
            Quality::Compact => 2int,
        }],
        kind_word(kind) == seq![
            "click"@,
            "scroll"@,
            "keyboard-input"@,
            "workspace-changed"@,
            "window-focused"@,
        ][match kind {
            TelemetryKind::Click => 0int,
            TelemetryKind::Scroll => 1int,
            TelemetryKind::KeyboardInput => 2int,
            TelemetryKind::WorkspaceChanged => 3int,
            TelemetryKind::WindowFocused => 4int,
        }],
{
}

} // verus!
