//! The fixed one-line replies.

use crate::embed::{text_response, Reply, ReplyView};
use crate::playback::VoiceStateError;
use vstd::prelude::*;

verus! {

/// A reply that is one fixed line of text.
#[derive(Clone, Copy, Debug, PartialEq, Eq, Structural)]
pub enum Notice {
    /// The invoker's voice state does not allow the command.
    Voice(VoiceStateError),
    InvalidCommand,
    ProcessingFailed,
    TookTooLong,
    NoSearchTerm,
    NoVoiceClient,
    ConnectFailed,
    PlaybackFailed,
    NothingPlaying,
    SeekFailed,
    MalformedTimestamp,
    NoTimestamp,
    NothingToSkip,
    QueueEmpty,
    NothingPaused,
    ResumeFailed,
    NothingToPause,
    PauseFailed,
    JoinFailed,
    LeaveFailed,
    Left,
    Stopped,
    MalformedExpression,
    NoExpression,
    UnsupportedExpression,
    ExpressionTooLong,
    InvalidUser,
    UserFetchFailed,
    NoAvatar,
    EndOfQueue,
}

/// The kinds of failure that a command can end in.
#[derive(Clone, Copy, Debug, PartialEq, Eq, Structural)]
pub enum ErrorClass {
    /// A parameter is missing or unusable.
    UserInput,
    /// The invoker is in no voice channel, or in the wrong one.
    VoiceState,
    /// The voice layer, or the platform, failed at what it was asked.
    Transport,
    /// The media that was asked for could not be found or reached.
    Resolve,
    /// The handler took longer than the dispatcher waits.
    Timeout,
}

impl ErrorClass {
    /// Whether a failure of this kind goes to the log as a failure. What the
    /// invoker got wrong is only told to the invoker.
    pub open spec fn is_logged(self) -> bool {
        self == ErrorClass::Transport || self == ErrorClass::Resolve || self == ErrorClass::Timeout
    }

    /// Whether a failure of this kind goes to the log as a failure.
    pub fn logged(&self) -> (r: bool)
        ensures
            r == self.is_logged(),
    {
        match self {
            ErrorClass::UserInput => false,
            ErrorClass::VoiceState => false,
            ErrorClass::Transport => true,
            ErrorClass::Resolve => true,
            ErrorClass::Timeout => true,
        }
    }
}

impl Notice {
    /// The kind of failure that the line reports; `None` for a line that
    /// reports no failure.
    pub open spec fn class_of(self) -> Option<ErrorClass> {
        match self {
            Notice::Voice(_) => Some(ErrorClass::VoiceState),
            Notice::InvalidCommand => Some(ErrorClass::UserInput),
            Notice::NoSearchTerm => Some(ErrorClass::UserInput),
            Notice::MalformedTimestamp => Some(ErrorClass::UserInput),
            Notice::NoTimestamp => Some(ErrorClass::UserInput),
            Notice::MalformedExpression => Some(ErrorClass::UserInput),
            Notice::NoExpression => Some(ErrorClass::UserInput),
            Notice::UnsupportedExpression => Some(ErrorClass::UserInput),
            Notice::ExpressionTooLong => Some(ErrorClass::UserInput),
            Notice::InvalidUser => Some(ErrorClass::UserInput),
            Notice::ProcessingFailed => Some(ErrorClass::Transport),
            Notice::NoVoiceClient => Some(ErrorClass::Transport),
            Notice::ConnectFailed => Some(ErrorClass::Transport),
            Notice::PlaybackFailed => Some(ErrorClass::Transport),
            Notice::SeekFailed => Some(ErrorClass::Transport),
            Notice::ResumeFailed => Some(ErrorClass::Transport),
            Notice::PauseFailed => Some(ErrorClass::Transport),
            Notice::JoinFailed => Some(ErrorClass::Transport),
            Notice::LeaveFailed => Some(ErrorClass::Transport),
            Notice::UserFetchFailed => Some(ErrorClass::Transport),
            Notice::TookTooLong => Some(ErrorClass::Timeout),
            Notice::NothingPlaying => None,
            Notice::NothingToSkip => None,
            Notice::QueueEmpty => None,
            Notice::NothingPaused => None,
            Notice::NothingToPause => None,
            Notice::Left => None,
            Notice::Stopped => None,
            Notice::NoAvatar => None,
            Notice::EndOfQueue => None,
        }
    }

    /// The kind of failure that the line reports, if it reports one.
    pub fn class(&self) -> (r: Option<ErrorClass>)
        ensures
            r == self.class_of(),
    {
        match self {
            Notice::Voice(_) => Some(ErrorClass::VoiceState),
            Notice::InvalidCommand
            | Notice::NoSearchTerm
            | Notice::MalformedTimestamp
            | Notice::NoTimestamp
            | Notice::MalformedExpression
            | Notice::NoExpression
            | Notice::UnsupportedExpression
            | Notice::ExpressionTooLong
            | Notice::InvalidUser => Some(ErrorClass::UserInput),
            Notice::ProcessingFailed
            | Notice::NoVoiceClient
            | Notice::ConnectFailed
            | Notice::PlaybackFailed
            | Notice::SeekFailed
            | Notice::ResumeFailed
            | Notice::PauseFailed
            | Notice::JoinFailed
            | Notice::LeaveFailed
            | Notice::UserFetchFailed => Some(ErrorClass::Transport),
            Notice::TookTooLong => Some(ErrorClass::Timeout),
            Notice::NothingPlaying
            | Notice::NothingToSkip
            | Notice::QueueEmpty
            | Notice::NothingPaused
            | Notice::NothingToPause
            | Notice::Left
            | Notice::Stopped
            | Notice::NoAvatar
            | Notice::EndOfQueue => None,
        }
    }

    /// The line shown.
    pub open spec fn text(self) -> Seq<char> {
        match self {
            Notice::Voice(e) => e.text(),
            Notice::InvalidCommand => "Invalid command"@,
            Notice::ProcessingFailed => "Error processing command"@,
            Notice::TookTooLong => "Took too long processing command"@,
            Notice::NoSearchTerm => "No search term or URL in request"@,
            Notice::NoVoiceClient => "Error getting voice client"@,
            Notice::ConnectFailed => "Not in a voice channel"@,
            Notice::PlaybackFailed => "Error playing song"@,
            Notice::NothingPlaying => "Nothing playing"@,
            Notice::SeekFailed => "Unknown error seeking"@,
            Notice::MalformedTimestamp => "Malformed timestamp provided"@,
            Notice::NoTimestamp => "No timestamp in request"@,
            Notice::NothingToSkip => "Nothing to skip"@,
            Notice::QueueEmpty => "Queue is empty"@,
            Notice::NothingPaused => "Nothing is paused"@,
            Notice::ResumeFailed => "Could not resume"@,
            Notice::NothingToPause => "Nothing is playing"@,
            Notice::PauseFailed => "Could not pause"@,
            Notice::JoinFailed => "Couldn't join channel"@,
            Notice::LeaveFailed => "Error leaving channel"@,
            Notice::Left => "Left channel"@,
            Notice::Stopped => "Stopped playback and cleared the queue"@,
            Notice::MalformedExpression => "Malformed expression provided"@,
            Notice::NoExpression => "No expression in request"@,
            Notice::UnsupportedExpression => "Unsupported function in expression"@,
            Notice::ExpressionTooLong => "Expression is too long"@,
            Notice::InvalidUser => "Invalid user provided"@,
            Notice::UserFetchFailed => "Couldn't fetch user"@,
            Notice::NoAvatar => "🍊"@,
            Notice::EndOfQueue => "End of queue"@,
        }
    }

    /// The line shown.
    pub fn message(&self) -> (r: String)
        ensures
            r@ == self.text(),
    {
        match self {
            Notice::Voice(e) => e.message(),
            Notice::InvalidCommand => String::from_str("Invalid command"),
            Notice::ProcessingFailed => String::from_str("Error processing command"),
            Notice::TookTooLong => String::from_str("Took too long processing command"),
            Notice::NoSearchTerm => String::from_str("No search term or URL in request"),
            Notice::NoVoiceClient => String::from_str("Error getting voice client"),
            Notice::ConnectFailed => String::from_str("Not in a voice channel"),
            Notice::PlaybackFailed => String::from_str("Error playing song"),
            Notice::NothingPlaying => String::from_str("Nothing playing"),
            Notice::SeekFailed => String::from_str("Unknown error seeking"),
            Notice::MalformedTimestamp => String::from_str("Malformed timestamp provided"),
            Notice::NoTimestamp => String::from_str("No timestamp in request"),
            Notice::NothingToSkip => String::from_str("Nothing to skip"),
            Notice::QueueEmpty => String::from_str("Queue is empty"),
            Notice::NothingPaused => String::from_str("Nothing is paused"),
            Notice::ResumeFailed => String::from_str("Could not resume"),
            Notice::NothingToPause => String::from_str("Nothing is playing"),
            Notice::PauseFailed => String::from_str("Could not pause"),
            Notice::JoinFailed => String::from_str("Couldn't join channel"),
            Notice::LeaveFailed => String::from_str("Error leaving channel"),
            Notice::Left => String::from_str("Left channel"),
            Notice::Stopped => String::from_str("Stopped playback and cleared the queue"),
            Notice::MalformedExpression => String::from_str("Malformed expression provided"),
            Notice::NoExpression => String::from_str("No expression in request"),
            Notice::UnsupportedExpression => String::from_str("Unsupported function in expression"),
            Notice::ExpressionTooLong => String::from_str("Expression is too long"),
            Notice::InvalidUser => String::from_str("Invalid user provided"),
            Notice::UserFetchFailed => String::from_str("Couldn't fetch user"),
            Notice::NoAvatar => String::from_str("🍊"),
            Notice::EndOfQueue => String::from_str("End of queue"),
        }
    }

    /// The reply that shows the line.
    pub fn reply(&self) -> (r: Reply)
        ensures
            r@ == ReplyView::text(self.text()),
    {
        let line = self.message();
        text_response(line.as_str())
    }
}

} // verus!
