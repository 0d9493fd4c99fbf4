//! The note capturer: settings bound to an input device.

use vstd::prelude::*;
use crate::notes::{derive_notes, note_sequence};
use crate::model::RunModel;
use crate::run::CaptureRun;
use crate::settings::NoteCaptureSettings;

verus! {

/// Captures notes from one input device.
///
/// The capturer borrows the device and never opens or closes it: the
/// device is only handed back to whoever drives a run. Its settings are the
/// standard ones until others are applied, and only settings that pass
/// `verify` are ever applied.
#[derive(Debug)]
pub struct NoteCapturer<'d, D> {
    device: &'d D,
    settings: NoteCaptureSettings,
    trailing_gap: bool,
}

impl<'d, D> NoteCapturer<'d, D> {
    #[verifier::type_invariant]
    spec fn settings_valid(self) -> bool {
        self.settings.valid()
    }

    /// The settings in use.
    pub closed spec fn active_settings(self) -> NoteCaptureSettings {
        self.settings
    }

    /// The device captured from.
    pub closed spec fn bound_device(self) -> &'d D {
        self.device
    }

    /// Whether runs pause after their last note as they do between notes.
    pub closed spec fn pauses_after_last(self) -> bool {
        self.trailing_gap
    }

    /// A capturer for `input_device` with the standard settings. Its runs
    /// pause after every note, the last one too.
    pub fn new(input_device: &'d D) -> (capturer: Self)
        ensures
            capturer.active_settings() == NoteCaptureSettings::standard(),
            capturer.bound_device() == input_device,
            capturer.pauses_after_last(),
    {
        NoteCapturer {
            device: input_device,
            settings: NoteCaptureSettings::default(),
            trailing_gap: true,
        }
    }

    /// Puts `config` in use if it passes `verify`, and says whether it did.
    /// Settings that do not pass are turned down in silence: those in use
    /// stay as they were.
    pub fn apply_config(&mut self, config: &NoteCaptureSettings) -> (accepted: bool)
        ensures
            accepted == config.valid(),
            final(self).active_settings() == (if config.valid() {
                *config
            } else {
                old(self).active_settings()
            }),
            final(self).bound_device() == old(self).bound_device(),
            final(self).pauses_after_last() == old(self).pauses_after_last(),
    {
        if config.verify() {
            self.settings = *config;
            true
        } else {
            false
        }
    }

    /// Chooses whether runs started from now on pause after their last
    /// note too, or only between notes.
    pub fn set_trailing_gap(&mut self, pause_after_last: bool)
        ensures
            final(self).pauses_after_last() == pause_after_last,
            final(self).active_settings() == old(self).active_settings(),
            final(self).bound_device() == old(self).bound_device(),
    {
        proof {
            use_type_invariant(&*self);
        }
        self.trailing_gap = pause_after_last;
    }

    /// The settings in use. They always pass `verify`.
    pub fn settings(&self) -> (settings: NoteCaptureSettings)
        ensures
            settings == self.active_settings(),
            settings.valid(),
    {
        proof {
            use_type_invariant(self);
        }
        self.settings
    }

    /// The device captured from.
    pub fn device(&self) -> (device: &'d D)
        ensures
            device == self.bound_device(),
    {
        self.device
    }

    /// Whether runs pause after their last note.
    pub fn trailing_gap(&self) -> (pause_after_last: bool)
        ensures
            pause_after_last == self.pauses_after_last(),
    {
        self.trailing_gap
    }

    /// Starts a run over the notes of the settings' range: every
    /// `note_spacing`-th note from `first_note`, and `last_note` itself.
    /// An empty range gives a run without notes.
    pub fn capture_notes<T, E>(&self) -> (run: CaptureRun<T, E>)
        requires
            self.active_settings().note_spacing >= 1,
        ensures
            run.wf(),
            run@ == RunModel::<T, E>::start(
                self.active_settings(),
                self.pauses_after_last(),
                note_sequence(
                    self.active_settings().first_note,
                    self.active_settings().last_note,
                    self.active_settings().note_spacing,
                ),
            ),
            run@.settings.valid(),
    {
        let notes = derive_notes(
            self.settings.first_note,
            self.settings.last_note,
            self.settings.note_spacing,
        );
        self.capture_note_list(notes.as_slice())
    }

    /// Starts a run over `notes`, captured in the order given.
    pub fn capture_note_list<T, E>(&self, notes: &[u8]) -> (run: CaptureRun<T, E>)
        ensures
            run.wf(),
            run@ == RunModel::<T, E>::start(
                self.active_settings(),
                self.pauses_after_last(),
                notes@,
            ),
            run@.settings.valid(),
    {
        proof {
            use_type_invariant(self);
        }
        CaptureRun::start(self.settings, self.trailing_gap, notes)
    }
}

} // verus!
