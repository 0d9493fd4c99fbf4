//! Note capture for multisampling: a sound source is triggered note by note
//! while an audio input is recorded, giving one buffer of raw samples per
//! note.
//!
//! The library holds the decisions of a capture run and proves them; it
//! never touches a device. A [`NoteCapturer`] binds settings to an input
//! device and starts a [`CaptureRun`]. The caller owns the audio stream and
//! the trigger connection: it performs the [`Action`] that the run asks
//! for, reports the [`Outcome`], and goes on until the run asks for
//! nothing more. The callbacks of the stream hand samples and errors to the
//! run, which the caller therefore keeps behind a lock.
//!
//! What a run does is laid down in [`model`] as a state machine over plain
//! values; [`laws`] proves what holds of every run: each note gets its own
//! samples in the order of the notes, no note keeps more samples than the
//! settings allow, and the first failure ends the run.

pub mod buffer;
pub mod capturer;
pub mod error;
pub mod laws;
pub mod message;
pub mod model;
pub mod notes;
pub mod run;
pub mod settings;
pub mod timespan;

pub use crate::buffer::{CaptureBuffer, ErrorSlot};
pub use crate::capturer::NoteCapturer;
pub use crate::error::CaptureError;
pub use crate::message::{midi_note_off_message, midi_note_on_message};
pub use crate::notes::derive_notes;
pub use crate::model::{Action, Outcome, Phase};
pub use crate::run::{CaptureRun, NoteSample};
pub use crate::settings::{NoteCaptureSettings, StreamConfig};
pub use crate::timespan::TimeSpan;
