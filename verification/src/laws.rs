//! What holds of every capture run, proved of the state machine that runs
//! follow.

use vstd::prelude::*;
use crate::error::CaptureError;
use crate::message::{note_off_bytes, note_on_bytes};
use crate::model::{failure_of, kept, Action, Outcome, Phase, RunModel};
use crate::notes::{lemma_empty_range, note_sequence};
use crate::settings::NoteCaptureSettings;

verus! {

/// A run that has just been started is within its bounds and asks for the
/// stream to be opened with the configuration of its settings.
pub proof fn lemma_start<T, E>(settings: NoteCaptureSettings, trailing_gap: bool, notes: Seq<u8>)
    ensures
        RunModel::<T, E>::start(settings, trailing_gap, notes).inv(),
        RunModel::<T, E>::start(settings, trailing_gap, notes).pending() == Action::OpenStream(
            settings.stream_config_of(),
        ),
        RunModel::<T, E>::start(settings, trailing_gap, notes).limit == settings.sample_limit(),
{
}

/// Whatever the outcome reported, a run stays within its bounds: no note
/// holds more samples than the limit, and the samples held are those of
/// the notes before the current one.
pub proof fn lemma_advance_keeps_inv<T, E>(run: RunModel<T, E>, outcome: Outcome)
    requires
        run.inv(),
    ensures
        run.advance(outcome).inv(),
{
}

/// Whatever the stream delivers, and however much, a run stays within its
/// bounds: the buffer never holds more than the limit, and nothing but the
/// buffer changes.
pub proof fn lemma_deliver_keeps_inv<T, E>(run: RunModel<T, E>, batch: Seq<T>)
    requires
        run.inv(),
    ensures
        run.deliver(batch).inv(),
        run.deliver(batch).buffer.len() <= run.settings.sample_limit(),
        run.deliver(batch).results == run.results,
        run.deliver(batch).phase == run.phase,
        run.buffer.len() + batch.len() <= run.limit ==> run.deliver(batch).buffer == run.buffer
            + batch,
{
    assert(batch.take(batch.len() as int) == batch);
}

/// How the stream cuts its samples into batches makes no difference: two
/// batches delivered one after the other leave the run as their samples
/// delivered in one batch do.
pub proof fn lemma_batches_join<T, E>(run: RunModel<T, E>, first: Seq<T>, second: Seq<T>)
    requires
        run.inv(),
    ensures
        run.deliver(first).deliver(second) == run.deliver(first + second),
{
    let one = run.deliver(first);
    let two = one.deliver(second);
    let joined = run.deliver(first + second);
    assert(two.buffer =~= joined.buffer);
}

/// Errors of the stream leave a run within its bounds, and only the first
/// of them is kept.
pub proof fn lemma_first_stream_error_kept<T, E>(run: RunModel<T, E>, first: E, second: E)
    requires
        run.inv(),
        run.stream_error is None,
    ensures
        run.report_stream_error(first).inv(),
        run.report_stream_error(first).stream_error == Some(first),
        run.report_stream_error(first).report_stream_error(second) == run.report_stream_error(
            first,
        ),
{
}

/// The samples that a run returns are those of its notes, one sequence
/// per note, and none is longer than the limit that the settings give.
pub proof fn lemma_result_complete_and_bounded<T, E>(run: RunModel<T, E>)
    requires
        run.inv(),
    ensures
        run.result() matches Some(Ok(samples)) ==> {
            &&& samples.len() == run.notes.len()
            &&& forall|i: int|
                0 <= i < samples.len() ==> (#[trigger] samples[i]).len()
                    <= run.settings.sample_limit()
        },
{
}

/// The samples held grow by one note at a time and in the order of the
/// notes: a step either leaves them as they are, or adds the buffer as the
/// samples of the current note when the stream has been paused after it,
/// or drops them all because the run has failed.
pub proof fn lemma_results_in_note_order<T, E>(run: RunModel<T, E>, outcome: Outcome)
    requires
        run.inv(),
    ensures
        ({
            let next = run.advance(outcome);
            ||| next.results == run.results
            ||| {
                &&& run.phase is Pausing
                &&& outcome is Completed
                &&& run.stream_error is None
                &&& next.results == run.results.push(run.buffer)
                &&& next.results.len() == run.results.len() + 1
            }
            ||| {
                &&& next.phase is Failed
                &&& next.results == Seq::<Seq<T>>::empty()
            }
        }),
{
}

/// The first failure ends a run: the run has failed with the error of the
/// step that failed, the samples captured before are dropped, and the only
/// action left is to collect the failure.
pub proof fn lemma_failure_ends_run<T, E>(run: RunModel<T, E>, error: CaptureError)
    requires
        run.inv(),
        failure_of(run.phase) == Some(error),
    ensures
        run.advance(Outcome::Failed).inv(),
        run.advance(Outcome::Failed).phase == Phase::Failed(error),
        run.advance(Outcome::Failed).results == Seq::<Seq<T>>::empty(),
        run.advance(Outcome::Failed).pending() == Action::Finish,
        run.advance(Outcome::Failed).result() == Some(Err::<Seq<Seq<T>>, CaptureError>(error)),
{
}

/// An error that the stream reported ends the run when the stream has been
/// paused after the note: the note's samples are not kept and those of
/// earlier notes are dropped.
pub proof fn lemma_stream_error_ends_run<T, E>(run: RunModel<T, E>)
    requires
        run.inv(),
        run.phase is Pausing,
        run.stream_error is Some,
    ensures
        run.advance(Outcome::Completed).phase == Phase::Failed(CaptureError::Stream),
        run.advance(Outcome::Completed).results == Seq::<Seq<T>>::empty(),
        run.advance(Outcome::Completed).pending() == Action::Finish,
{
}

/// A run that is over stays as it is whatever is reported to it, and asks
/// for nothing more.
pub proof fn lemma_finished_run_stays<T, E>(run: RunModel<T, E>, outcome: Outcome)
    requires
        run.finished(),
    ensures
        run.advance(outcome) == run,
        run.pending() == Action::Finish,
{
}

/// A wait cannot fail: a failure reported while a run waits leaves the run
/// as it is, still waiting.
pub proof fn lemma_wait_cannot_fail<T, E>(run: RunModel<T, E>)
    requires
        run.phase is Holding || run.phase is Releasing || run.phase is Resting,
    ensures
        run.pending() is Wait,
        run.advance(Outcome::Failed) == run,
{
}

/// A run without notes is complete as soon as the stream is open: it
/// returns no samples, and no message is sent and the stream is neither
/// started nor paused.
pub proof fn lemma_run_without_notes<T, E>(settings: NoteCaptureSettings, trailing_gap: bool)
    ensures
        ({
            let opened = RunModel::<T, E>::start(settings, trailing_gap, Seq::empty()).advance(
                Outcome::Completed,
            );
            &&& opened.phase is Complete
            &&& opened.pending() == Action::Finish
            &&& opened.result() == Some(Ok::<Seq<Seq<T>>, CaptureError>(Seq::empty()))
        }),
{
}

/// Settings whose first note lies above their last give a run without
/// notes: once the stream is open the run is complete and returns no
/// samples; no message is sent and the stream is never started.
pub proof fn lemma_empty_range_run<T, E>(settings: NoteCaptureSettings, trailing_gap: bool)
    requires
        settings.first_note > settings.last_note,
    ensures
        ({
            let notes = note_sequence(
                settings.first_note,
                settings.last_note,
                settings.note_spacing,
            );
            let opened = RunModel::<T, E>::start(settings, trailing_gap, notes).advance(
                Outcome::Completed,
            );
            &&& notes == Seq::<u8>::empty()
            &&& opened.pending() == Action::Finish
            &&& opened.result() == Some(Ok::<Seq<Seq<T>>, CaptureError>(Seq::empty()))
        }),
{
    lemma_empty_range(
        settings.first_note,
        settings.last_note,
        settings.note_spacing,
    );
    lemma_run_without_notes::<T, E>(settings, trailing_gap);
}

/// Where a run stands after the first `done` of its notes went through
/// without a failure: it holds what was kept of each of them, in their
/// order, and is about to trigger the next note, or is complete.
proof fn lemma_notes_done<T, E>(
    settings: NoteCaptureSettings,
    trailing_gap: bool,
    notes: Seq<u8>,
    heard: Seq<Seq<T>>,
    done: nat,
)
    requires
        done <= heard.len(),
        done <= notes.len(),
    ensures
        ({
            let opened = RunModel::<T, E>::start(settings, trailing_gap, notes).advance(
                Outcome::Completed,
            );
            let run = opened.notes_done(heard.take(done as int));
            &&& run.inv()
            &&& run.settings == settings
            &&& run.notes == notes
            &&& run.trailing_gap == trailing_gap
            &&& run.stream_error is None
            &&& run.results.len() == done
            &&& forall|i: int|
                0 <= i < done ==> #[trigger] run.results[i] == kept(
                    heard[i],
                    settings.sample_limit(),
                )
            &&& done < notes.len() ==> run.phase is NoteOn && run.buffer.len() == 0
            &&& done == notes.len() ==> run.phase is Complete
        }),
    decreases done,
{
    let opened = RunModel::<T, E>::start(settings, trailing_gap, notes).advance(
        Outcome::Completed,
    );
    if done == 0 {
        assert(heard.take(0).len() == 0);
    } else {
        let before = (done - 1) as nat;
        lemma_notes_done::<T, E>(settings, trailing_gap, notes, heard, before);
        let prefix = heard.take(done as int);
        assert(prefix.drop_last() == heard.take(before as int));
        assert(prefix.last() == heard[before as int]);
        let run = opened.notes_done(heard.take(before as int));
        assert(opened.notes_done(prefix) == run.note_done(heard[before as int]));
        let sounding = run.advance(Outcome::Completed).advance(Outcome::Completed);
        assert(sounding.phase is Holding);
        let filled = sounding.deliver(heard[before as int]);
        assert(filled.buffer == kept(heard[before as int], settings.sample_limit()));
        let paused = filled.advance(Outcome::Completed).advance(Outcome::Completed).advance(
            Outcome::Completed,
        );
        assert(paused.phase is Pausing);
        let closed = paused.advance(Outcome::Completed);
        assert(closed.results == run.results.push(filled.buffer));
    }
}

/// A run in which nothing fails triggers its notes in the order given and
/// returns, for each note in that order, what was kept of the samples that
/// the stream delivered while that note sounded: as many sequences as there
/// are notes, the `i`-th for the `i`-th note, none longer than the limit.
pub proof fn lemma_faultless_run<T, E>(
    settings: NoteCaptureSettings,
    trailing_gap: bool,
    notes: Seq<u8>,
    heard: Seq<Seq<T>>,
)
    requires
        heard.len() == notes.len(),
    ensures
        ({
            let run = RunModel::<T, E>::start(settings, trailing_gap, notes).advance(
                Outcome::Completed,
            ).notes_done(heard);
            &&& run.pending() == Action::Finish
            &&& run.result() == Some(
                Ok::<Seq<Seq<T>>, CaptureError>(
                    heard.map_values(|samples: Seq<T>| kept(samples, settings.sample_limit())),
                ),
            )
        }),
        forall|i: int|
            0 <= i < notes.len() ==> (#[trigger] RunModel::<T, E>::start(
                settings,
                trailing_gap,
                notes,
            ).advance(Outcome::Completed).notes_done(heard.take(i))).pending()
                == Action::SendMessage(
                note_on_bytes(settings.midi_channel, notes[i], settings.note_on_velocity),
            ),
{
    assert forall|i: int| 0 <= i < notes.len() implies (#[trigger] RunModel::<T, E>::start(
        settings,
        trailing_gap,
        notes,
    ).advance(Outcome::Completed).notes_done(heard.take(i))).pending() == Action::SendMessage(
        note_on_bytes(settings.midi_channel, notes[i], settings.note_on_velocity),
    ) by {
        lemma_notes_done::<T, E>(settings, trailing_gap, notes, heard, i as nat);
    }
    lemma_notes_done::<T, E>(settings, trailing_gap, notes, heard, heard.len());
    assert(heard.take(heard.len() as int) == heard);
    let run = RunModel::<T, E>::start(settings, trailing_gap, notes).advance(
        Outcome::Completed,
    ).notes_done(heard);
    assert(run.results =~= heard.map_values(
        |samples: Seq<T>| kept(samples, settings.sample_limit()),
    ));
}

/// An error that the stream reports while a note sounds ends the run at
/// that note: once the stream has been paused the run has failed with the
/// stream's error, it holds no samples, not even those of the notes that
/// went through before, and no later note is triggered.
pub proof fn lemma_stream_error_during_note<T, E>(
    settings: NoteCaptureSettings,
    trailing_gap: bool,
    notes: Seq<u8>,
    heard: Seq<Seq<T>>,
    error: E,
)
    requires
        heard.len() < notes.len(),
    ensures
        ({
            let run = RunModel::<T, E>::start(settings, trailing_gap, notes).advance(
                Outcome::Completed,
            ).notes_done(heard);
            let stopped = run.advance(Outcome::Completed).advance(
                Outcome::Completed,
            ).report_stream_error(error).advance(Outcome::Completed).advance(
                Outcome::Completed,
            ).advance(Outcome::Completed).advance(Outcome::Completed);
            &&& stopped.phase == Phase::Failed(CaptureError::Stream)
            &&& stopped.pending() == Action::Finish
            &&& stopped.result() == Some(Err::<Seq<Seq<T>>, CaptureError>(CaptureError::Stream))
            &&& stopped.results == Seq::<Seq<T>>::empty()
            &&& stopped.error_to_release() == Some(error)
        }),
{
    lemma_notes_done::<T, E>(settings, trailing_gap, notes, heard, heard.len());
    assert(heard.take(heard.len() as int) == heard);
}

/// While a note is being captured, the messages that a run asks to send
/// name that note: the one after those whose samples it holds.
pub proof fn lemma_messages_name_current_note<T, E>(run: RunModel<T, E>)
    requires
        run.inv(),
    ensures
        run.phase is NoteOn ==> run.pending() == Action::SendMessage(
            note_on_bytes(
                run.settings.midi_channel,
                run.notes[run.results.len() as int],
                run.settings.note_on_velocity,
            ),
        ),
        run.phase is NoteOff ==> run.pending() == Action::SendMessage(
            note_off_bytes(
                run.settings.midi_channel,
                run.notes[run.results.len() as int],
                run.settings.note_off_velocity,
            ),
        ),
        run.phase is NoteOn || run.phase is NoteOff ==> run.results.len() < run.notes.len(),
{
}

} // verus!
