//! One capture run: the sequence of steps that triggers each note, records
//! it and collects its samples.
//!
//! A run decides and keeps state; it touches neither the audio device nor
//! the trigger connection. The caller performs the [`Action`] that is
//! pending and reports its [`Outcome`] to [`CaptureRun::advance`], which
//! names the next action. The callbacks of the input stream hand samples to
//! [`CaptureRun::deliver`] and errors to
//! [`CaptureRun::report_stream_error`].

use vstd::prelude::*;
use crate::buffer::{CaptureBuffer, ErrorSlot};
use crate::error::CaptureError;
use crate::laws::lemma_advance_keeps_inv;
use crate::message::{midi_note_off_message, midi_note_on_message};
use crate::model::{Action, Outcome, Phase, ResultModel, RunModel};
use crate::settings::NoteCaptureSettings;

verus! {

/// The samples of each note as plain sequences.
pub open spec fn sample_views<T>(samples: Seq<Vec<T>>) -> Seq<Seq<T>> {
    samples.map_values(|note: Vec<T>| note@)
}

/// What was collected from a run, as plain sequences.
pub open spec fn result_view<T>(result: Option<Result<Vec<Vec<T>>, CaptureError>>) -> ResultModel<
    T,
> {
    match result {
        Some(Ok(samples)) => Some(Ok(sample_views(samples@))),
        Some(Err(error)) => Some(Err(error)),
        None => None,
    }
}

/// The samples of one note, in the order in which the device delivered
/// them (interleaved where it has more than one channel).
pub type NoteSample<T> = Vec<T>;

/// A capture run over samples of type `T`, with stream errors of type `E`.
#[derive(Debug)]
pub struct CaptureRun<T, E> {
    settings: NoteCaptureSettings,
    trailing_gap: bool,
    notes: Vec<u8>,
    phase: Phase,
    buffer: CaptureBuffer<T>,
    slot: ErrorSlot<E>,
    results: Vec<NoteSample<T>>,
}

impl<T, E> View for CaptureRun<T, E> {
    type V = RunModel<T, E>;

    closed spec fn view(&self) -> RunModel<T, E> {
        RunModel {
            settings: self.settings,
            trailing_gap: self.trailing_gap,
            notes: self.notes@,
            phase: self.phase,
            limit: self.buffer.limit(),
            buffer: self.buffer@,
            stream_error: self.slot@,
            results: sample_views(self.results@),
        }
    }
}

impl<T, E> CaptureRun<T, E> {
    /// The run is in a state that a run can reach.
    pub open spec fn wf(&self) -> bool {
        self@.inv()
    }

    /// A run over `notes` with `settings`, about to open the stream.
    pub(crate) fn start(settings: NoteCaptureSettings, trailing_gap: bool, notes: &[u8]) -> (run:
        Self)
        ensures
            run.wf(),
            run@ == RunModel::<T, E>::start(settings, trailing_gap, notes@),
    {
        let mut owned: Vec<u8> = Vec::new();
        let mut copied: usize = 0;
        while copied < notes.len()
            invariant
                copied <= notes@.len(),
                owned@ == notes@.take(copied as int),
            decreases notes@.len() - copied,
        {
            owned.push(notes[copied]);
            copied += 1;
            assert(notes@.take(copied as int) == notes@.take(copied - 1).push(notes@[copied - 1]));
        }
        assert(owned@ == notes@);
        let run = CaptureRun {
            settings,
            trailing_gap,
            notes: owned,
            phase: Phase::Opening,
            buffer: CaptureBuffer::new(settings.num_samples()),
            slot: ErrorSlot::new(),
            results: Vec::new(),
        };
        assert(run@.results == Seq::<Seq<T>>::empty());
        run
    }

    /// Where the run stands.
    pub fn phase(&self) -> (phase: Phase)
        ensures
            phase == self@.phase,
    {
        self.phase
    }

    /// Whether the run is over.
    pub fn is_finished(&self) -> (finished: bool)
        ensures
            finished == self@.finished(),
    {
        match self.phase {
            Phase::Complete | Phase::Failed(_) | Phase::Closed => true,
            _ => false,
        }
    }

    /// The number of notes whose samples the run holds.
    pub fn captured(&self) -> (count: usize)
        ensures
            count == self@.results.len(),
    {
        self.results.len()
    }

    /// The number of samples delivered for the current note.
    pub fn buffered(&self) -> (count: usize)
        ensures
            count == self@.buffer.len(),
    {
        self.buffer.len()
    }

    /// The most samples kept per note.
    pub fn sample_limit(&self) -> (limit: usize)
        ensures
            limit == self@.limit,
    {
        self.buffer.capacity_limit()
    }

    /// The action that the run waits for.
    pub fn pending(&self) -> (action: Action)
        requires
            self.wf(),
        ensures
            action == self@.pending(),
    {
        match self.phase {
            Phase::Opening => Action::OpenStream(self.settings.stream_config()),
            Phase::NoteOn => Action::SendMessage(
                midi_note_on_message(
                    self.settings.midi_channel,
                    self.notes[self.results.len()],
                    self.settings.note_on_velocity,
                ),
            ),
            Phase::Starting => Action::StartStream,
            Phase::Holding => Action::Wait(self.settings.time_on),
            Phase::NoteOff => Action::SendMessage(
                midi_note_off_message(
                    self.settings.midi_channel,
                    self.notes[self.results.len()],
                    self.settings.note_off_velocity,
                ),
            ),
            Phase::Releasing => Action::Wait(self.settings.time_release),
            Phase::Pausing => Action::PauseStream,
            Phase::Resting => Action::Wait(self.settings.time_between),
            Phase::Complete | Phase::Failed(_) | Phase::Closed => Action::Finish,
        }
    }

    /// Gives the run up with `error` and drops what was captured.
    fn abort(&mut self, error: CaptureError)
        ensures
            final(self)@ == old(self)@.aborted(error),
    {
        self.phase = Phase::Failed(error);
        self.results = Vec::new();
        assert(sample_views(self.results@) == Seq::<Seq<T>>::empty());
    }

    /// Turns to the next note, or completes the run where none is left.
    fn begin_next_note(&mut self)
        ensures
            final(self)@ == old(self)@.next_note(),
    {
        if self.results.len() < self.notes.len() {
            self.buffer.clear_and_reserve();
            self.phase = Phase::NoteOn;
        } else {
            self.phase = Phase::Complete;
        }
    }

    /// Ends the recording of the current note: checks the stream for an
    /// error and moves the samples out of the buffer.
    fn close_window(&mut self)
        ensures
            final(self)@ == old(self)@.window_closed(),
    {
        if self.slot.is_set() {
            self.abort(CaptureError::Stream);
        } else {
            let samples = self.buffer.swap_out();
            self.results.push(samples);
            assert(sample_views(self.results@) == sample_views(old(self).results@).push(
                old(self).buffer@,
            ));
            if self.trailing_gap || self.results.len() < self.notes.len() {
                self.phase = Phase::Resting;
            } else {
                self.phase = Phase::Complete;
            }
        }
    }

    /// Takes the outcome of the pending action and names the next one.
    ///
    /// After a failure the next action is `Finish` and the failure is what
    /// `take_result` returns; no note is triggered after it.
    pub fn advance(&mut self, outcome: Outcome) -> (next: Action)
        requires
            old(self).wf(),
        ensures
            final(self).wf(),
            final(self)@ == old(self)@.advance(outcome),
            next == final(self)@.pending(),
    {
        proof {
            lemma_advance_keeps_inv(self@, outcome);
        }
        match outcome {
            Outcome::Failed => match self.phase.failure() {
                Some(error) => self.abort(error),
                None => {},
            },
            Outcome::Completed => match self.phase {
                Phase::Opening | Phase::Resting => self.begin_next_note(),
                Phase::NoteOn => self.phase = Phase::Starting,
                Phase::Starting => self.phase = Phase::Holding,
                Phase::Holding => self.phase = Phase::NoteOff,
                Phase::NoteOff => self.phase = Phase::Releasing,
                Phase::Releasing => self.phase = Phase::Pausing,
                Phase::Pausing => self.close_window(),
                Phase::Complete | Phase::Failed(_) | Phase::Closed => {},
            },
        }
        self.pending()
    }

    /// Records an error that the stream reported. The first error of a run
    /// is kept; the run ends with it when the current note has been
    /// recorded.
    pub fn report_stream_error(&mut self, error: E)
        requires
            old(self).wf(),
        ensures
            final(self).wf(),
            final(self)@ == old(self)@.report_stream_error(error),
    {
        self.slot.record(error);
    }

    /// Hands out the result once: the samples of every note in the order
    /// of the notes after a complete run, the failure after a run given
    /// up. `None` while the run goes on and after the result was taken.
    pub fn take_result(&mut self) -> (result: Option<Result<Vec<NoteSample<T>>, CaptureError>>)
        requires
            old(self).wf(),
        ensures
            final(self).wf(),
            final(self)@ == old(self)@.collected(),
            result_view(result) == old(self)@.result(),
            result matches Some(Ok(samples)) ==> {
                &&& samples@.len() == old(self)@.notes.len()
                &&& forall|i: int|
                    0 <= i < samples@.len() ==> (#[trigger] samples@[i])@.len() <= old(
                        self,
                    )@.settings.sample_limit()
            },
    {
        match self.phase {
            Phase::Complete => {
                let mut samples: Vec<Vec<T>> = Vec::new();
                std::mem::swap(&mut self.results, &mut samples);
                self.phase = Phase::Closed;
                assert(sample_views(self.results@) == Seq::<Seq<T>>::empty());
                assert forall|i: int| 0 <= i < samples@.len() implies (
                #[trigger] samples@[i])@.len() <= old(self)@.settings.sample_limit() by {
                    assert(sample_views(samples@)[i] == samples@[i]@);
                }
                Some(Ok(samples))
            },
            Phase::Failed(error) => {
                self.phase = Phase::Closed;
                self.results = Vec::new();
                assert(sample_views(self.results@) == Seq::<Seq<T>>::empty());
                Some(Err(error))
            },
            _ => None,
        }
    }

    /// Hands out the error that the stream reported, once the run is over.
    /// `None` while the run goes on, and where the stream reported none.
    pub fn take_stream_error(&mut self) -> (error: Option<E>)
        requires
            old(self).wf(),
        ensures
            final(self).wf(),
            error == old(self)@.error_to_release(),
            final(self)@ == old(self)@.error_released(),
    {
        if self.is_finished() {
            self.slot.take()
        } else {
            None
        }
    }
}

impl<T: Copy, E> CaptureRun<T, E> {
    /// Takes a batch of samples from the stream. They are kept for the
    /// current note as far as the limit allows; the rest is dropped.
    pub fn deliver(&mut self, batch: &[T])
        requires
            old(self).wf(),
        ensures
            final(self).wf(),
            final(self)@ == old(self)@.deliver(batch@),
    {
        self.buffer.append_bounded(batch);
    }
}

} // verus!
