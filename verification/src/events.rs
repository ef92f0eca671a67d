//! Decoding of incoming wire events into the four kinds the engine routes.
//!
//! An event arrives as a status byte and two data bytes. The status byte's
//! high nibble selects the kind (the low nibble is the channel, which this
//! engine ignores); anything else is reported as `Other` and ignored by the
//! caller.

use vstd::prelude::*;

verus! {

/// The controller number of the sustain pedal in a control-change event.
pub const SUSTAIN_CONTROLLER: u8 = 64;

/// Control-change value that engages the sustain pedal.
pub const SUSTAIN_ENGAGE: u8 = 127;

/// Control-change value that releases the sustain pedal.
pub const SUSTAIN_RELEASE: u8 = 0;

/// A decoded note event. Note-on and note-off carry the note identifier
/// (velocity is ignored); a control change carries the controller number
/// and its value; a pitch bend carries the bend magnitude, 0 to 127 with 64
/// neutral.
#[derive(Clone, Copy, Debug, PartialEq, Eq, Structural)]
pub enum NoteEvent {
    NoteOn(u8),
    NoteOff(u8),
    ControlChange(u8, u8),
    PitchBend(u8),
    Other,
}

/// Classifies a raw three-byte message by its status byte: 144–159 note-on,
/// 128–143 note-off, 176–191 control change, 224–239 pitch bend (whose
/// magnitude is the second data byte), anything else `Other`.
pub fn decode_event(status: u8, data1: u8, data2: u8) -> (e: NoteEvent)
    ensures
        144 <= status <= 159 ==> e == NoteEvent::NoteOn(data1),
        128 <= status <= 143 ==> e == NoteEvent::NoteOff(data1),
        176 <= status <= 191 ==> e == NoteEvent::ControlChange(data1, data2),
        224 <= status <= 239 ==> e == NoteEvent::PitchBend(data2),
        !(128 <= status <= 159 || 176 <= status <= 191 || 224 <= status <= 239) ==> e
            == NoteEvent::Other,
{
    if 144 <= status && status <= 159 {
        NoteEvent::NoteOn(data1)
    } else if 128 <= status && status <= 143 {
        NoteEvent::NoteOff(data1)
    } else if 176 <= status && status <= 191 {
        NoteEvent::ControlChange(data1, data2)
    } else if 224 <= status && status <= 239 {
        NoteEvent::PitchBend(data2)
    } else {
        NoteEvent::Other
    }
}

} // verus!
