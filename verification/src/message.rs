//! The three-byte messages that trigger and release a note.

use vstd::prelude::*;

verus! {

/// Status bits of a note-on message; the channel fills the low four bits.
pub const NOTE_ON: u8 = 0x90;

/// Status bits of a note-off message; the channel fills the low four bits.
pub const NOTE_OFF: u8 = 0x80;

/// The bits of a channel number that a status byte carries.
pub const CHANNEL_MASK: u8 = 0x0F;

/// The status byte for `kind` on `channel`: the kind in the high four bits,
/// the low four bits of the channel below them.
pub open spec fn status_byte(kind: u8, channel: u8) -> u8 {
    kind | (channel & CHANNEL_MASK)
}

/// The message that starts `note` at `velocity` on `channel`.
pub open spec fn note_on_bytes(channel: u8, note: u8, velocity: u8) -> [u8; 3] {
    [status_byte(NOTE_ON, channel), note, velocity]
}

/// The message that ends `note` at `velocity` on `channel`.
pub open spec fn note_off_bytes(channel: u8, note: u8, velocity: u8) -> [u8; 3] {
    [status_byte(NOTE_OFF, channel), note, velocity]
}

/// The raw bytes of a note-on message. Only the low four bits of the
/// channel are used; note and velocity are passed on as they are.
pub fn midi_note_on_message(channel: u8, note: u8, velocity: u8) -> (message: [u8; 3])
    ensures
        message == note_on_bytes(channel, note, velocity),
        message[0] == NOTE_ON + channel % 16,
        message[1] == note,
        message[2] == velocity,
{
    proof {
        lemma_status_byte(channel);
    }
    [NOTE_ON | (channel & CHANNEL_MASK), note, velocity]
}

/// The raw bytes of a note-off message. Only the low four bits of the
/// channel are used; note and velocity are passed on as they are.
pub fn midi_note_off_message(channel: u8, note: u8, velocity: u8) -> (message: [u8; 3])
    ensures
        message == note_off_bytes(channel, note, velocity),
        message[0] == NOTE_OFF + channel % 16,
        message[1] == note,
        message[2] == velocity,
{
    proof {
        lemma_status_byte(channel);
    }
    [NOTE_OFF | (channel & CHANNEL_MASK), note, velocity]
}

/// A status byte is its kind plus the channel taken modulo sixteen, so
/// channels that differ by a multiple of sixteen give the same byte and the
/// kind can always be read back from the high four bits.
pub proof fn lemma_status_byte(channel: u8)
    ensures
        status_byte(NOTE_ON, channel) == NOTE_ON + channel % 16,
        status_byte(NOTE_OFF, channel) == NOTE_OFF + channel % 16,
        status_byte(NOTE_ON, channel) & 0xF0 == NOTE_ON,
        status_byte(NOTE_OFF, channel) & 0xF0 == NOTE_OFF,
        status_byte(NOTE_ON, channel) & CHANNEL_MASK == channel % 16,
        status_byte(NOTE_OFF, channel) & CHANNEL_MASK == channel % 16,
{
    assert((0x90u8 | (channel & 0x0Fu8)) == 0x90u8 + channel % 16) by (bit_vector);
    assert((0x80u8 | (channel & 0x0Fu8)) == 0x80u8 + channel % 16) by (bit_vector);
    assert((0x90u8 | (channel & 0x0Fu8)) & 0xF0u8 == 0x90u8) by (bit_vector);
    assert((0x80u8 | (channel & 0x0Fu8)) & 0xF0u8 == 0x80u8) by (bit_vector);
    assert((0x90u8 | (channel & 0x0Fu8)) & 0x0Fu8 == channel % 16) by (bit_vector);
    assert((0x80u8 | (channel & 0x0Fu8)) & 0x0Fu8 == channel % 16) by (bit_vector);
}

} // verus!
