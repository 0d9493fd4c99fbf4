//! The failures that end a capture run.

use vstd::prelude::*;

verus! {

/// What ended a capture run. Each kind names the step that failed; a run
/// ends at the first failure and returns no samples.
#[derive(Clone, Copy, Debug, PartialEq, Eq, Structural)]
pub enum CaptureError {
    /// The input stream could not be opened.
    BuildStream,
    /// The input stream could not be paused after a note.
    PauseStream,
    /// The input stream could not be started for a note.
    PlayStream,
    /// The stream reported an error while a note was being captured.
    Stream,
    /// A trigger message could not be sent.
    MidiSend,
}

impl CaptureError {
    /// The text that describes each kind of failure.
    pub open spec fn message_text(self) -> Seq<char> {
        match self {
            CaptureError::BuildStream => "could not build input stream"@,
            CaptureError::PauseStream => "could not pause input stream"@,
            CaptureError::PlayStream => "could not play input stream"@,
            CaptureError::Stream => "error during stream capture"@,
            CaptureError::MidiSend => "could not send midi message"@,
        }
    }

    /// A short description of the failure.
    pub fn message(&self) -> (text: &'static str)
        ensures
            text@ == self.message_text(),
    {
        match self {
            CaptureError::BuildStream => "could not build input stream",
            CaptureError::PauseStream => "could not pause input stream",
            CaptureError::PlayStream => "could not play input stream",
            CaptureError::Stream => "error during stream capture",
            CaptureError::MidiSend => "could not send midi message",
        }
    }
}

} // verus!
