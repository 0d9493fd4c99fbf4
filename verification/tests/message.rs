use audio_multisample::{midi_note_off_message, midi_note_on_message};

#[test]
fn note_on_is_status_note_velocity() {
    assert_eq!(midi_note_on_message(1, 60, 64), [0x91, 60, 64]);
    assert_eq!(midi_note_on_message(0, 21, 127), [0x90, 21, 127]);
    assert_eq!(midi_note_on_message(15, 108, 1), [0x9F, 108, 1]);
}

#[test]
fn note_off_is_status_note_velocity() {
    assert_eq!(midi_note_off_message(1, 60, 64), [0x81, 60, 64]);
    assert_eq!(midi_note_off_message(0, 21, 0), [0x80, 21, 0]);
    assert_eq!(midi_note_off_message(15, 108, 127), [0x8F, 108, 127]);
}

#[test]
fn only_the_low_four_bits_of_the_channel_count() {
    assert_eq!(midi_note_on_message(16, 60, 64), [0x90, 60, 64]);
    assert_eq!(midi_note_on_message(17, 60, 64), [0x91, 60, 64]);
    assert_eq!(midi_note_on_message(255, 60, 64), [0x9F, 60, 64]);
    assert_eq!(midi_note_off_message(16, 60, 64), [0x80, 60, 64]);
    assert_eq!(midi_note_off_message(0xF3, 60, 64), [0x83, 60, 64]);
}

#[test]
fn note_and_velocity_are_not_masked() {
    assert_eq!(midi_note_on_message(2, 200, 255), [0x92, 200, 255]);
    assert_eq!(midi_note_off_message(2, 128, 129), [0x82, 128, 129]);
}

#[test]
fn every_channel_gives_its_status_byte() {
    for channel in 0..=255u8 {
        assert_eq!(midi_note_on_message(channel, 1, 2)[0], 0x90 + channel % 16);
        assert_eq!(midi_note_off_message(channel, 1, 2)[0], 0x80 + channel % 16);
    }
}
