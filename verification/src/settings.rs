//! The settings of a capture run and what follows from them: the most
//! samples kept per note and the configuration of the input stream.

use vstd::prelude::*;
use crate::timespan::{TimeSpan, NANOS_PER_SEC};

verus! {

/// Recording time added to each note beyond its hold and release times, in
/// nanoseconds (ten milliseconds).
pub const SAFETY_MARGIN_NANOS: u32 = 10_000_000;

/// Half a second in nanoseconds: what rounds a count of samples to the
/// nearest whole number.
pub const HALF_SEC_NANOS: u32 = 500_000_000;

/// The configuration that the input stream is opened with. The size of the
/// device's own buffers is left to the device.
#[derive(Clone, Copy, Debug, PartialEq, Eq, Structural)]
pub struct StreamConfig {
    /// Channels per frame.
    pub channels: u16,
    /// Frames per second.
    pub sample_rate: u32,
}

/// How notes are triggered and recorded.
#[derive(Clone, Copy, Debug, PartialEq, Eq, Structural)]
pub struct NoteCaptureSettings {
    /// How long a note is held.
    pub time_on: TimeSpan,
    /// How long the recording goes on after the note is released.
    pub time_release: TimeSpan,
    /// The pause after each note.
    pub time_between: TimeSpan,
    /// Channels of the input stream: one or two.
    pub channels: u8,
    /// Frames per second of the input stream.
    pub sample_rate: usize,
    /// The channel that trigger messages are sent on.
    pub midi_channel: u8,
    /// Velocity of each note-on message.
    pub note_on_velocity: u8,
    /// Velocity of each note-off message.
    pub note_off_velocity: u8,
    /// The lowest note captured.
    pub first_note: u8,
    /// The highest note captured.
    pub last_note: u8,
    /// Every how many notes of the range one is captured.
    pub note_spacing: u8,
}

impl Default for NoteCaptureSettings {
    fn default() -> (settings: Self)
        ensures
            settings == NoteCaptureSettings::standard(),
    {
        NoteCaptureSettings {
            time_on: TimeSpan::from_millis(20),
            time_release: TimeSpan::from_millis(20),
            time_between: TimeSpan::from_secs(1),
            channels: 1,
            sample_rate: 44100,
            midi_channel: 1,
            note_on_velocity: 64,
            note_off_velocity: 64,
            first_note: 21,
            last_note: 108,
            note_spacing: 1,
        }
    }
}

impl NoteCaptureSettings {
    /// The standard settings: mono at 44100 frames per second, every note of
    /// a piano's range on channel one at medium velocity, each held and
    /// released for twenty milliseconds, with a second between notes.
    pub open spec fn standard() -> NoteCaptureSettings {
        NoteCaptureSettings {
            time_on: TimeSpan::of(0, 20_000_000),
            time_release: TimeSpan::of(0, 20_000_000),
            time_between: TimeSpan::of(1, 0),
            channels: 1,
            sample_rate: 44100,
            midi_channel: 1,
            note_on_velocity: 64,
            note_off_velocity: 64,
            first_note: 21,
            last_note: 108,
            note_spacing: 1,
        }
    }

    /// Whether the settings can be used: the channel count is one or two.
    /// Nothing else is looked at.
    pub open spec fn valid(self) -> bool {
        1 <= self.channels <= 2
    }

    /// The time recorded for each note, in nanoseconds: hold, release and
    /// the safety margin.
    pub open spec fn window_nanos(self) -> nat {
        self.time_on.total_nanos() + self.time_release.total_nanos() + SAFETY_MARGIN_NANOS as nat
    }

    /// The samples that the stream delivers in the time recorded for one
    /// note, rounded to the nearest whole sample (half a sample rounds up).
    pub open spec fn window_samples(self) -> nat {
        (self.sample_rate as nat * self.channels as nat * self.window_nanos()
            + HALF_SEC_NANOS as nat) / (NANOS_PER_SEC as nat)
    }

    /// The most samples kept per note: the samples of one recording window,
    /// or the largest `usize` where they are more than that.
    pub open spec fn sample_limit(self) -> nat {
        if self.window_samples() <= usize::MAX {
            self.window_samples()
        } else {
            usize::MAX as nat
        }
    }

    /// The configuration of the input stream: the channel count as it is,
    /// the sample rate cut to 32 bits.
    pub open spec fn stream_config_of(self) -> StreamConfig {
        StreamConfig {
            channels: self.channels as u16,
            sample_rate: #[verifier::truncate] (self.sample_rate as u32),
        }
    }

    /// With the standard settings a note is recorded for fifty
    /// milliseconds, which at 44100 frames per second makes 2205 samples.
    pub proof fn lemma_standard_limit()
        ensures
            NoteCaptureSettings::standard().valid(),
            NoteCaptureSettings::standard().window_nanos() == 50_000_000,
            NoteCaptureSettings::standard().sample_limit() == 2205,
    {
        let standard = NoteCaptureSettings::standard();
        TimeSpan::lemma_of(0, 20_000_000);
        assert(standard.sample_rate as nat * standard.channels as nat * standard.window_nanos()
            == 2_205_000_000_000) by (nonlinear_arith)
            requires
                standard.sample_rate == 44100,
                standard.channels == 1,
                standard.window_nanos() == 50_000_000,
        ;
    }

    /// The most samples kept for each note.
    pub fn num_samples(&self) -> (limit: usize)
        ensures
            limit == self.sample_limit(),
    {
        assert(self.sample_rate * self.channels <= usize::MAX * u8::MAX) by (nonlinear_arith);
        let frames: u128 = (self.sample_rate as u128) * (self.channels as u128);
        let window: u128 = self.time_on.as_nanos() + self.time_release.as_nanos()
            + SAFETY_MARGIN_NANOS as u128;
        let scaled: Option<u128> = frames.checked_mul(window);
        let rounded: Option<u128> = match scaled {
            Some(product) => product.checked_add(HALF_SEC_NANOS as u128),
            None => None,
        };
        match rounded {
            Some(biased) => {
                let samples: u128 = biased / (NANOS_PER_SEC as u128);
                if samples > usize::MAX as u128 {
                    usize::MAX
                } else {
                    samples as usize
                }
            },
            None => usize::MAX,
        }
    }

    /// Whether the settings can be used. Only the channel count is tested.
    pub fn verify(&self) -> (ok: bool)
        ensures
            ok == self.valid(),
    {
        if self.channels < 1 || self.channels > 2 {
            return false;
        }
        true
    }

    /// The configuration to open the input stream with.
    pub fn stream_config(&self) -> (config: StreamConfig)
        ensures
            config == self.stream_config_of(),
            config.channels == self.channels,
            self.sample_rate <= u32::MAX ==> config.sample_rate == self.sample_rate,
    {
        StreamConfig {
            channels: self.channels as u16,
            sample_rate: #[verifier::truncate] (self.sample_rate as u32),
        }
    }
}

} // verus!
