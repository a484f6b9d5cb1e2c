//! The status line: what the timer tells the user, and how loudly.

use vstd::prelude::*;

verus! {

/// How a status message is to be presented.
#[derive(Clone, Copy, Debug, PartialEq, Eq, Structural)]
pub enum Severity {
    /// The resting presentation, before any session has run.
    Neutral,
    /// Something needs the user's attention.
    Warning,
    /// A countdown is under way.
    Running,
    /// No emphasis at all: the session is over.
    Quiet,
}

/// The messages that the status line can show.
#[derive(Clone, Copy, Debug, PartialEq, Eq, Structural)]
pub enum Status {
    /// Nothing has happened yet.
    Ready,
    /// A start was refused because the duration was out of bounds.
    InvalidTime,
    /// A countdown is under way, with more than a minute to go.
    TimerRunning,
    /// At most a minute is left.
    GettingSleepy,
    /// At most ten seconds are left.
    AlmostThere,
    /// The countdown ran out.
    SweetDreams,
    /// The countdown was cancelled.
    Cancelled,
}

/// What the line under the address field says about the last attempt
/// to load a video.
#[derive(Clone, Copy, Debug, PartialEq, Eq, Structural)]
pub enum VideoHint {
    /// Nothing to say.
    Cleared,
    /// Nothing was typed but white space, if that.
    EnterUrl,
    /// A video was found and loaded.
    Loaded,
    /// The text could not be read as a video reference.
    Unparseable,
}

impl VideoHint {
    /// The words of this hint.
    pub open spec fn text_spec(self) -> Seq<char> {
        match self {
            VideoHint::Cleared => ""@,
            VideoHint::EnterUrl => "Please enter a YouTube URL"@,
            VideoHint::Loaded => "Video loaded! Set your timer 🌙"@,
            VideoHint::Unparseable => "Could not parse YouTube URL"@,
        }
    }

    /// The style class of this hint.
    pub open spec fn class_spec(self) -> Seq<char> {
        match self {
            VideoHint::Cleared => ""@,
            VideoHint::EnterUrl => "error"@,
            VideoHint::Loaded => "success"@,
            VideoHint::Unparseable => "error"@,
        }
    }

    /// The words of this hint.
    pub fn text(self) -> (words: &'static str)
        ensures
            words@ == self.text_spec(),
    {
        match self {
            VideoHint::Cleared => "",
            VideoHint::EnterUrl => "Please enter a YouTube URL",
            VideoHint::Loaded => "Video loaded! Set your timer 🌙",
            VideoHint::Unparseable => "Could not parse YouTube URL",
        }
    }

    /// The style class of this hint.
    pub fn class(self) -> (name: &'static str)
        ensures
            name@ == self.class_spec(),
    {
        match self {
            VideoHint::Cleared => "",
            VideoHint::EnterUrl => "error",
            VideoHint::Loaded => "success",
            VideoHint::Unparseable => "error",
        }
    }
}

impl Severity {
    /// The style class that goes with this severity; empty where the
    /// message carries no emphasis.
    pub open spec fn class_spec(self) -> Seq<char> {
        match self {
            Severity::Warning => "warning"@,
            Severity::Running => "running"@,
            Severity::Neutral => ""@,
            Severity::Quiet => ""@,
        }
    }

    /// The style class that goes with this severity.
    pub fn class(self) -> (name: &'static str)
        ensures
            name@ == self.class_spec(),
    {
        match self {
            Severity::Warning => "warning",
            Severity::Running => "running",
            Severity::Neutral => "",
            Severity::Quiet => "",
        }
    }
}

impl Status {
    /// The words of this message.
    pub open spec fn text_spec(self) -> Seq<char> {
        match self {
            Status::Ready => "READY TO POD"@,
            Status::InvalidTime => "INVALID TIME (1-480 MIN)"@,
            Status::TimerRunning => "TIMER RUNNING"@,
            Status::GettingSleepy => "GETTING SLEEPY..."@,
            Status::AlmostThere => "ALMOST THERE..."@,
            Status::SweetDreams => "SWEET DREAMS WHALE!"@,
            Status::Cancelled => "TIMER CANCELLED"@,
        }
    }

    /// The presentation that goes with this message.
    pub open spec fn severity_spec(self) -> Severity {
        match self {
            Status::Ready => Severity::Neutral,
            Status::InvalidTime => Severity::Warning,
            Status::TimerRunning => Severity::Running,
            Status::GettingSleepy => Severity::Warning,
            Status::AlmostThere => Severity::Warning,
            Status::SweetDreams => Severity::Quiet,
            Status::Cancelled => Severity::Quiet,
        }
    }

    /// How urgent a message of a running countdown is: the higher, the
    /// less time is left. Messages that belong to no countdown rank zero.
    pub open spec fn urgency(self) -> nat {
        match self {
            Status::TimerRunning => 1,
            Status::GettingSleepy => 2,
            Status::AlmostThere => 3,
            _ => 0,
        }
    }

    /// The words of this message.
    pub fn text(self) -> (words: &'static str)
        ensures
            words@ == self.text_spec(),
    {
        match self {
            Status::Ready => "READY TO POD",
            Status::InvalidTime => "INVALID TIME (1-480 MIN)",
            Status::TimerRunning => "TIMER RUNNING",
            Status::GettingSleepy => "GETTING SLEEPY...",
            Status::AlmostThere => "ALMOST THERE...",
            Status::SweetDreams => "SWEET DREAMS WHALE!",
            Status::Cancelled => "TIMER CANCELLED",
        }
    }

    /// The presentation that goes with this message.
    pub fn severity(self) -> (level: Severity)
        ensures
            level == self.severity_spec(),
    {
        match self {
            Status::Ready => Severity::Neutral,
            Status::InvalidTime => Severity::Warning,
            Status::TimerRunning => Severity::Running,
            Status::GettingSleepy => Severity::Warning,
            Status::AlmostThere => Severity::Warning,
            Status::SweetDreams => Severity::Quiet,
            Status::Cancelled => Severity::Quiet,
        }
    }
}

} // verus!
