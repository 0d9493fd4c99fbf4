//! The steps of a capture run as a state machine over plain values: what
//! a run waits for, and where each report leads.

use vstd::prelude::*;
use crate::buffer::room;
use crate::error::CaptureError;
use crate::message::{note_off_bytes, note_on_bytes};
use crate::settings::{NoteCaptureSettings, StreamConfig};
use crate::timespan::TimeSpan;

verus! {

/// Where a run stands: the action it waits for, or how it ended.
#[derive(Clone, Copy, Debug, PartialEq, Eq, Structural)]
pub enum Phase {
    /// The input stream is being opened.
    Opening,
    /// The note-on message of the current note is being sent.
    NoteOn,
    /// The stream is being started.
    Starting,
    /// The note is held.
    Holding,
    /// The note-off message of the current note is being sent.
    NoteOff,
    /// The note rings out.
    Releasing,
    /// The stream is being paused.
    Pausing,
    /// The pause after a note.
    Resting,
    /// Every note was captured; the samples wait to be collected.
    Complete,
    /// The run was given up; the failure waits to be collected.
    Failed(CaptureError),
    /// The result was collected.
    Closed,
}

/// What the caller is to do next.
#[derive(Clone, Copy, Debug, PartialEq, Eq)]
pub enum Action {
    /// Open the input stream with this configuration and hand what it
    /// delivers to the run's `deliver`, what it reports to the run's
    /// `report_stream_error`.
    OpenStream(StreamConfig),
    /// Send these three bytes over the trigger connection.
    SendMessage([u8; 3]),
    /// Start the stream.
    StartStream,
    /// Let this much time pass.
    Wait(TimeSpan),
    /// Pause the stream.
    PauseStream,
    /// Nothing is left to do: collect the result.
    Finish,
}

/// How the pending action went.
#[derive(Clone, Copy, Debug, PartialEq, Eq, Structural)]
pub enum Outcome {
    /// The action was carried out.
    Completed,
    /// The action failed.
    Failed,
}

/// The result of a run as plain sequences: the samples of each note, or
/// the failure; `None` while there is nothing to collect.
pub type ResultModel<T> = Option<Result<Seq<Seq<T>>, CaptureError>>;

/// The state of a run as plain values.
pub struct RunModel<T, E> {
    /// The settings that the run was started with.
    pub settings: NoteCaptureSettings,
    /// Whether the pause after a note is also made after the last note.
    pub trailing_gap: bool,
    /// The notes to capture, in order.
    pub notes: Seq<u8>,
    /// Where the run stands.
    pub phase: Phase,
    /// The most samples kept per note.
    pub limit: nat,
    /// The samples delivered for the current note.
    pub buffer: Seq<T>,
    /// The first error that the stream reported.
    pub stream_error: Option<E>,
    /// The samples of the notes captured so far, in the order of the notes.
    pub results: Seq<Seq<T>>,
}

impl<T, E> RunModel<T, E> {
    /// A run that has not begun: the stream is yet to be opened.
    pub open spec fn start(
        settings: NoteCaptureSettings,
        trailing_gap: bool,
        notes: Seq<u8>,
    ) -> Self {
        RunModel {
            settings,
            trailing_gap,
            notes,
            phase: Phase::Opening,
            limit: settings.sample_limit(),
            buffer: Seq::empty(),
            stream_error: None,
            results: Seq::empty(),
        }
    }

    /// What holds of every run however it is driven: no note has more
    /// samples than the limit, and the notes captured so far are those
    /// before the current note.
    pub open spec fn inv(self) -> bool {
        &&& self.limit == self.settings.sample_limit()
        &&& self.buffer.len() <= self.limit
        &&& forall|i: int|
            0 <= i < self.results.len() ==> (#[trigger] self.results[i]).len() <= self.limit
        &&& self.results.len() <= self.notes.len()
        &&& match self.phase {
            Phase::Opening => self.results.len() == 0,
            Phase::NoteOn
            | Phase::Starting
            | Phase::Holding
            | Phase::NoteOff
            | Phase::Releasing
            | Phase::Pausing => self.results.len() < self.notes.len(),
            Phase::Resting => self.results.len() >= 1,
            Phase::Complete => self.results.len() == self.notes.len(),
            Phase::Failed(_) | Phase::Closed => self.results.len() == 0,
        }
    }

    /// Whether the run is over.
    pub open spec fn finished(self) -> bool {
        self.phase is Complete || self.phase is Failed || self.phase is Closed
    }

    /// The note being captured: the one after those already captured.
    pub open spec fn current_note(self) -> u8 {
        self.notes[self.results.len() as int]
    }

    /// The action that the run waits for.
    pub open spec fn pending(self) -> Action {
        match self.phase {
            Phase::Opening => Action::OpenStream(self.settings.stream_config_of()),
            Phase::NoteOn => Action::SendMessage(
                note_on_bytes(
                    self.settings.midi_channel,
                    self.current_note(),
                    self.settings.note_on_velocity,
                ),
            ),
            Phase::Starting => Action::StartStream,
            Phase::Holding => Action::Wait(self.settings.time_on),
            Phase::NoteOff => Action::SendMessage(
                note_off_bytes(
                    self.settings.midi_channel,
                    self.current_note(),
                    self.settings.note_off_velocity,
                ),
            ),
            Phase::Releasing => Action::Wait(self.settings.time_release),
            Phase::Pausing => Action::PauseStream,
            Phase::Resting => Action::Wait(self.settings.time_between),
            Phase::Complete | Phase::Failed(_) | Phase::Closed => Action::Finish,
        }
    }

    /// The run in another phase, all else unchanged.
    pub open spec fn at(self, phase: Phase) -> Self {
        RunModel { phase, ..self }
    }

    /// The run given up: it has failed with `error`, and the samples
    /// captured so far are dropped.
    pub open spec fn aborted(self, error: CaptureError) -> Self {
        RunModel { phase: Phase::Failed(error), results: Seq::empty(), ..self }
    }

    /// The run turned to its next note, with the buffer emptied for it; or
    /// complete, where no note is left.
    pub open spec fn next_note(self) -> Self {
        if self.results.len() < self.notes.len() {
            RunModel { phase: Phase::NoteOn, buffer: Seq::empty(), ..self }
        } else {
            RunModel { phase: Phase::Complete, ..self }
        }
    }

    /// The run after the stream was paused at the end of a note. An error
    /// of the stream ends the run. Otherwise the samples in the buffer
    /// become the note's samples and the buffer is left empty; the pause
    /// between notes follows, except after the last note where the
    /// trailing pause is switched off.
    pub open spec fn window_closed(self) -> Self {
        if self.stream_error is Some {
            self.aborted(CaptureError::Stream)
        } else {
            let drained = RunModel {
                results: self.results.push(self.buffer),
                buffer: Seq::empty(),
                ..self
            };
            if self.trailing_gap || drained.results.len() < self.notes.len() {
                drained.at(Phase::Resting)
            } else {
                drained.at(Phase::Complete)
            }
        }
    }

    /// The run after the pending action went as `outcome` says.
    ///
    /// A failure ends the run with the error of the step that failed. A
    /// wait cannot fail, and a run that is over waits for nothing: there
    /// the report changes nothing.
    pub open spec fn advance(self, outcome: Outcome) -> Self {
        match outcome {
            Outcome::Failed => match failure_of(self.phase) {
                Some(error) => self.aborted(error),
                None => self,
            },
            Outcome::Completed => match self.phase {
                Phase::Opening | Phase::Resting => self.next_note(),
                Phase::NoteOn => self.at(Phase::Starting),
                Phase::Starting => self.at(Phase::Holding),
                Phase::Holding => self.at(Phase::NoteOff),
                Phase::NoteOff => self.at(Phase::Releasing),
                Phase::Releasing => self.at(Phase::Pausing),
                Phase::Pausing => self.window_closed(),
                Phase::Complete | Phase::Failed(_) | Phase::Closed => self,
            },
        }
    }

    /// The run after the stream delivered `batch`: its samples join the
    /// buffer in order as far as the limit allows, the rest is dropped.
    pub open spec fn deliver(self, batch: Seq<T>) -> Self {
        RunModel {
            buffer: self.buffer + batch.take(
                room(self.buffer.len(), self.limit, batch.len()) as int,
            ),
            ..self
        }
    }

    /// The run after the stream reported `error`: the first error is kept,
    /// later ones are dropped.
    pub open spec fn report_stream_error(self, error: E) -> Self {
        if self.stream_error is None {
            RunModel { stream_error: Some(error), ..self }
        } else {
            self
        }
    }

    /// What there is to collect: the samples of all notes after a complete
    /// run, the failure after a run given up, nothing otherwise.
    pub open spec fn result(self) -> ResultModel<T> {
        match self.phase {
            Phase::Complete => Some(Ok(self.results)),
            Phase::Failed(error) => Some(Err(error)),
            _ => None,
        }
    }

    /// The run after its current note went through without a failure while
    /// the stream delivered `heard`: the message to start the note was
    /// sent and the stream started, the samples arrived, the note was held,
    /// released and the stream paused, and the pause after the note, where
    /// one is made, has passed.
    pub open spec fn note_done(self, heard: Seq<T>) -> Self {
        let paused = self.advance(Outcome::Completed).advance(Outcome::Completed).deliver(
            heard,
        ).advance(Outcome::Completed).advance(Outcome::Completed).advance(
            Outcome::Completed,
        ).advance(Outcome::Completed);
        if paused.phase is Resting {
            paused.advance(Outcome::Completed)
        } else {
            paused
        }
    }

    /// The run after one note after the other went through without a
    /// failure, the stream delivering `heard[i]` during the `i`-th of them.
    pub open spec fn notes_done(self, heard: Seq<Seq<T>>) -> Self
        decreases heard.len(),
    {
        if heard.len() == 0 {
            self
        } else {
            self.notes_done(heard.drop_last()).note_done(heard.last())
        }
    }

    /// The stream's error as it is handed out: the first one reported,
    /// once the run is over.
    pub open spec fn error_to_release(self) -> Option<E> {
        if self.finished() {
            self.stream_error
        } else {
            None
        }
    }

    /// The run after the stream's error was asked for.
    pub open spec fn error_released(self) -> Self {
        if self.finished() {
            RunModel { stream_error: None, ..self }
        } else {
            self
        }
    }

    /// The run after its result was asked for: closed if there was one to
    /// collect, unchanged otherwise.
    pub open spec fn collected(self) -> Self {
        match self.phase {
            Phase::Complete | Phase::Failed(_) => RunModel {
                phase: Phase::Closed,
                results: Seq::empty(),
                ..self
            },
            _ => self,
        }
    }
}

/// What is kept of the samples `heard` during one note: all of them up to
/// `limit`, in order.
pub open spec fn kept<T>(heard: Seq<T>, limit: nat) -> Seq<T> {
    heard.take(room(0, limit, heard.len()) as int)
}

/// The error that a run ends with when the action pending in `phase`
/// fails: each step that can fail has its own. `None` for a wait, which
/// cannot fail, and for a run that is over.
pub open spec fn failure_of(phase: Phase) -> Option<CaptureError> {
    match phase {
        Phase::Opening => Some(CaptureError::BuildStream),
        Phase::NoteOn | Phase::NoteOff => Some(CaptureError::MidiSend),
        Phase::Starting => Some(CaptureError::PlayStream),
        Phase::Pausing => Some(CaptureError::PauseStream),
        _ => None,
    }
}

impl Phase {
    /// The error that a run ends with when the action pending in this
    /// phase fails, if it can fail.
    pub fn failure(&self) -> (error: Option<CaptureError>)
        ensures
            error == failure_of(*self),
    {
        match self {
            Phase::Opening => Some(CaptureError::BuildStream),
            Phase::NoteOn | Phase::NoteOff => Some(CaptureError::MidiSend),
            Phase::Starting => Some(CaptureError::PlayStream),
            Phase::Pausing => Some(CaptureError::PauseStream),
            _ => None,
        }
    }
}

} // verus!
