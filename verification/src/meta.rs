//! Meta-event payloads.
//!
//! A meta event names its kind in a sub-type byte and declares its
//! payload length in a VLQ.  Fixed-size kinds demand that the declared
//! length equal the size their layout mandates; the text family, the
//! sequencer-specific kind and unknown kinds take the declared length as
//! given and consume exactly that many bytes.

use vstd::prelude::*;

use crate::bytes::{
    decodes_to, read_be_u16, read_u8, spec_be_u16, spec_take, spec_u8, take_bytes,
};
use crate::error::DecodeError;
use crate::{read_vlv, spec_read_vlv};

verus! {

/// The result of folding a byte payload through UTF-8 replacement
/// decoding, as `String::from_utf8_lossy` computes it: valid UTF-8 is
/// kept, invalid sequences become replacement characters.
pub uninterp spec fn utf8_lossy_of(bytes: Seq<u8>) -> Seq<char>;

/// Relies on `String::from_utf8_lossy`: the resulting characters are a
/// function of the bytes alone.
#[verifier::external_body]
fn utf8_lossy(bytes: &Vec<u8>) -> (r: String)
    ensures
        r@ == utf8_lossy_of(bytes@),
{
    String::from_utf8_lossy(bytes).into_owned()
}

/// The sequence's position in a set of related sequences.
#[derive(Clone, Copy, Debug, PartialEq, Eq)]
pub struct SequenceNumber {
    pub sequence_number: u16,
}

impl View for SequenceNumber {
    type V = SequenceNumber;

    open spec fn view(&self) -> SequenceNumber {
        *self
    }
}

/// A textual payload, decoded from bytes by UTF-8 replacement decoding.
#[derive(Clone, Debug, PartialEq, Eq)]
pub struct Text {
    pub text: String,
}

/// The mathematical value of a [`Text`].
pub struct SpecText {
    pub text: Seq<char>,
}

impl View for Text {
    type V = SpecText;

    open spec fn view(&self) -> SpecText {
        SpecText { text: self.text@ }
    }
}

/// The channel that following meta and sysex events associate with.
#[derive(Clone, Copy, Debug, PartialEq, Eq)]
pub struct MIDIChannelPrefix {
    pub channel: u8,
}

impl View for MIDIChannelPrefix {
    type V = MIDIChannelPrefix;

    open spec fn view(&self) -> MIDIChannelPrefix {
        *self
    }
}

/// The output port for the track's events.
#[derive(Clone, Copy, Debug, PartialEq, Eq)]
pub struct MIDIPort {
    pub port: u8,
}

impl View for MIDIPort {
    type V = MIDIPort;

    open spec fn view(&self) -> MIDIPort {
        *self
    }
}

/// The mandatory final event of a track; its payload is empty.
#[derive(Clone, Copy, Debug, PartialEq, Eq)]
pub struct EndOfTrack {}

impl View for EndOfTrack {
    type V = EndOfTrack;

    open spec fn view(&self) -> EndOfTrack {
        *self
    }
}

/// The tempo as microseconds per quarter note, a 3-byte big-endian value.
#[derive(Clone, Copy, Debug, PartialEq, Eq)]
pub struct SetTempo {
    pub tempo: u32,
}

impl View for SetTempo {
    type V = SetTempo;

    open spec fn view(&self) -> SetTempo {
        *self
    }
}

/// Where in SMPTE time the track starts: hour, minute, second, frame and
/// hundredths of a frame.
#[derive(Clone, Copy, Debug, PartialEq, Eq)]
pub struct SMTPEOffset {
    pub hour: u8,
    pub minute: u8,
    pub seconds: u8,
    pub frames: u8,
    pub hundred_of_frame: u8,
}

impl View for SMTPEOffset {
    type V = SMTPEOffset;

    open spec fn view(&self) -> SMTPEOffset {
        *self
    }
}

/// The time signature: numerator, denominator as a power of two, MIDI
/// clocks per metronome tick, and 32nd notes per quarter note.
#[derive(Clone, Copy, Debug, PartialEq, Eq)]
pub struct TimeSignature {
    pub nominator: u8,
    pub denominator: u8,
    pub midi_ticks_per_metronome_tick: u8,
    pub thing: u8,
}

impl View for TimeSignature {
    type V = TimeSignature;

    open spec fn view(&self) -> TimeSignature {
        *self
    }
}

/// The key signature: the raw signed count of sharps (positive) or flats
/// (negative) in two's complement, and whether the key is major (flag
/// byte zero) rather than minor.
#[derive(Clone, Copy, Debug, PartialEq, Eq)]
pub struct KeySignature {
    pub number_of_sharp_flats: u8,
    pub major_key: bool,
}

impl View for KeySignature {
    type V = KeySignature;

    open spec fn view(&self) -> KeySignature {
        *self
    }
}

/// A sequencer-specific payload: a VLQ manufacturer id, then the rest of
/// the declared bytes verbatim.
#[derive(Clone, Debug, PartialEq, Eq)]
pub struct SequencerSpecific {
    pub length: u32,
    pub id: u32,
    pub data: Vec<u8>,
}

/// The mathematical value of a [`SequencerSpecific`].
pub struct SpecSequencerSpecific {
    pub length: u32,
    pub id: u32,
    pub data: Seq<u8>,
}

impl View for SequencerSpecific {
    type V = SpecSequencerSpecific;

    open spec fn view(&self) -> SpecSequencerSpecific {
        SpecSequencerSpecific { length: self.length, id: self.id, data: self.data@ }
    }
}

/// A meta event of a sub-type this decoder does not know; its declared
/// bytes are retained verbatim, not interpreted.
#[derive(Clone, Debug, PartialEq, Eq)]
pub struct Unknown {
    pub data: Vec<u8>,
}

/// The mathematical value of an [`Unknown`].
pub struct SpecUnknown {
    pub data: Seq<u8>,
}

impl View for Unknown {
    type V = SpecUnknown;

    open spec fn view(&self) -> SpecUnknown {
        SpecUnknown { data: self.data@ }
    }
}

/// A sequence number payload: one big-endian 16-bit value.
pub open spec fn spec_sequence_number(s: Seq<u8>, pos: int) -> Result<
    (SequenceNumber, int),
    DecodeError,
> {
    match spec_be_u16(s, pos) {
        Ok(v) => Ok((SequenceNumber { sequence_number: v }, pos + 2)),
        Err(e) => Err(e),
    }
}

/// A text payload: `length` raw bytes, replacement-decoded as UTF-8.
pub open spec fn spec_text(s: Seq<u8>, pos: int, length: u32) -> Result<
    (SpecText, int),
    DecodeError,
> {
    match spec_take(s, pos, length as int) {
        Ok(b) => Ok((SpecText { text: utf8_lossy_of(b) }, pos + length)),
        Err(e) => Err(e),
    }
}

/// A channel prefix payload: one byte.
pub open spec fn spec_midi_channel_prefix(s: Seq<u8>, pos: int) -> Result<
    (MIDIChannelPrefix, int),
    DecodeError,
> {
    match spec_u8(s, pos) {
        Ok(b) => Ok((MIDIChannelPrefix { channel: b }, pos + 1)),
        Err(e) => Err(e),
    }
}

/// A port payload: one byte.
pub open spec fn spec_midi_port(s: Seq<u8>, pos: int) -> Result<(MIDIPort, int), DecodeError> {
    match spec_u8(s, pos) {
        Ok(b) => Ok((MIDIPort { port: b }, pos + 1)),
        Err(e) => Err(e),
    }
}

/// A tempo payload: one big-endian 3-byte value.
pub open spec fn spec_set_tempo(s: Seq<u8>, pos: int) -> Result<(SetTempo, int), DecodeError> {
    if 0 <= pos && pos + 3 <= s.len() {
        Ok(
            (
                SetTempo {
                    tempo: ((s[pos] as int) * 0x10000 + (s[pos + 1] as int) * 0x100 + (s[pos
                        + 2] as int)) as u32,
                },
                pos + 3,
            ),
        )
    } else {
        Err(DecodeError::UnexpectedEndOfInput)
    }
}

/// An SMPTE offset payload: five bytes.
pub open spec fn spec_smtpe_offset(s: Seq<u8>, pos: int) -> Result<
    (SMTPEOffset, int),
    DecodeError,
> {
    if 0 <= pos && pos + 5 <= s.len() {
        Ok(
            (
                SMTPEOffset {
                    hour: s[pos],
                    minute: s[pos + 1],
                    seconds: s[pos + 2],
                    frames: s[pos + 3],
                    hundred_of_frame: s[pos + 4],
                },
                pos + 5,
            ),
        )
    } else {
        Err(DecodeError::UnexpectedEndOfInput)
    }
}

/// A time signature payload: four bytes.
pub open spec fn spec_time_signature(s: Seq<u8>, pos: int) -> Result<
    (TimeSignature, int),
    DecodeError,
> {
    if 0 <= pos && pos + 4 <= s.len() {
        Ok(
            (
                TimeSignature {
                    nominator: s[pos],
                    denominator: s[pos + 1],
                    midi_ticks_per_metronome_tick: s[pos + 2],
                    thing: s[pos + 3],
                },
                pos + 4,
            ),
        )
    } else {
        Err(DecodeError::UnexpectedEndOfInput)
    }
}

/// A key signature payload: the raw sharps-or-flats byte, then the
/// major/minor flag, zero meaning major.
pub open spec fn spec_key_signature(s: Seq<u8>, pos: int) -> Result<
    (KeySignature, int),
    DecodeError,
> {
    if 0 <= pos && pos + 2 <= s.len() {
        Ok(
            (
                KeySignature { number_of_sharp_flats: s[pos], major_key: s[pos + 1] == 0 },
                pos + 2,
            ),
        )
    } else {
        Err(DecodeError::UnexpectedEndOfInput)
    }
}

/// A sequencer-specific payload: a VLQ manufacturer id, then the rest of
/// the `total_length` declared bytes.  An id whose encoding is longer
/// than the declared length fails the declared-length reconciliation.
pub open spec fn spec_sequencer_specific(s: Seq<u8>, pos: int, total_length: u32) -> Result<
    (SpecSequencerSpecific, int),
    DecodeError,
> {
    match spec_read_vlv(s, pos) {
        Err(e) => Err(e),
        Ok((v, n)) => {
            if n > total_length {
                Err(
                    DecodeError::MetaLengthMismatch {
                        sub_type: 0x7F,
                        expected: n as u32,
                        declared: total_length,
                    },
                )
            } else {
                match spec_take(s, pos + n, total_length - n) {
                    Ok(b) => Ok(
                        (
                            SpecSequencerSpecific {
                                length: total_length,
                                id: (v % 0x1_0000_0000) as u32,
                                data: b,
                            },
                            pos + total_length,
                        ),
                    ),
                    Err(e) => Err(e),
                }
            }
        },
    }
}

/// An unknown payload: `length` raw bytes kept verbatim.
pub open spec fn spec_unknown(s: Seq<u8>, pos: int, length: u32) -> Result<
    (SpecUnknown, int),
    DecodeError,
> {
    match spec_take(s, pos, length as int) {
        Ok(b) => Ok((SpecUnknown { data: b }, pos + length)),
        Err(e) => Err(e),
    }
}

impl SequenceNumber {
    /// Decodes a sequence number payload.
    pub fn read(data: &[u8], pos: usize) -> (r: Result<(SequenceNumber, usize), DecodeError>)
        ensures
            decodes_to(r, spec_sequence_number(data@, pos as int)),
    {
        match read_be_u16(data, pos) {
            Ok(v) => Ok((SequenceNumber { sequence_number: v }, pos + 2)),
            Err(e) => Err(e),
        }
    }
}

impl Text {
    /// Decodes a text payload of `length` bytes.
    pub fn read(data: &[u8], pos: usize, length: u32) -> (r: Result<(Text, usize), DecodeError>)
        ensures
            decodes_to(r, spec_text(data@, pos as int, length)),
    {
        let payload: Vec<u8> = match take_bytes(data, pos, length as usize) {
            Ok(v) => v,
            Err(e) => return Err(e),
        };
        Ok((Text { text: utf8_lossy(&payload) }, pos + (length as usize)))
    }
}

impl MIDIChannelPrefix {
    /// Decodes a channel prefix payload.
    pub fn read(data: &[u8], pos: usize) -> (r: Result<(MIDIChannelPrefix, usize), DecodeError>)
        ensures
            decodes_to(r, spec_midi_channel_prefix(data@, pos as int)),
    {
        match read_u8(data, pos) {
            Ok(b) => Ok((MIDIChannelPrefix { channel: b }, pos + 1)),
            Err(e) => Err(e),
        }
    }
}

impl MIDIPort {
    /// Decodes a port payload.
    pub fn read(data: &[u8], pos: usize) -> (r: Result<(MIDIPort, usize), DecodeError>)
        ensures
            decodes_to(r, spec_midi_port(data@, pos as int)),
    {
        match read_u8(data, pos) {
            Ok(b) => Ok((MIDIPort { port: b }, pos + 1)),
            Err(e) => Err(e),
        }
    }
}

impl SetTempo {
    /// Decodes a tempo payload.
    pub fn read(data: &[u8], pos: usize) -> (r: Result<(SetTempo, usize), DecodeError>)
        ensures
            decodes_to(r, spec_set_tempo(data@, pos as int)),
    {
        if data.len() >= 3 && pos <= data.len() - 3 {
            Ok(
                (
                    SetTempo {
                        tempo: (data[pos] as u32) * 0x10000 + (data[pos + 1] as u32) * 0x100 + (
                        data[pos + 2] as u32),
                    },
                    pos + 3,
                ),
            )
        } else {
            Err(DecodeError::UnexpectedEndOfInput)
        }
    }
}

impl SMTPEOffset {
    /// Decodes an SMPTE offset payload.
    pub fn read(data: &[u8], pos: usize) -> (r: Result<(SMTPEOffset, usize), DecodeError>)
        ensures
            decodes_to(r, spec_smtpe_offset(data@, pos as int)),
    {
        if data.len() >= 5 && pos <= data.len() - 5 {
            Ok(
                (
                    SMTPEOffset {
                        hour: data[pos],
                        minute: data[pos + 1],
                        seconds: data[pos + 2],
                        frames: data[pos + 3],
                        hundred_of_frame: data[pos + 4],
                    },
                    pos + 5,
                ),
            )
        } else {
            Err(DecodeError::UnexpectedEndOfInput)
        }
    }
}

impl TimeSignature {
    /// Decodes a time signature payload.
    pub fn read(data: &[u8], pos: usize) -> (r: Result<(TimeSignature, usize), DecodeError>)
        ensures
            decodes_to(r, spec_time_signature(data@, pos as int)),
    {
        if data.len() >= 4 && pos <= data.len() - 4 {
            Ok(
                (
                    TimeSignature {
                        nominator: data[pos],
                        denominator: data[pos + 1],
                        midi_ticks_per_metronome_tick: data[pos + 2],
                        thing: data[pos + 3],
                    },
                    pos + 4,
                ),
            )
        } else {
            Err(DecodeError::UnexpectedEndOfInput)
        }
    }
}

impl KeySignature {
    /// Decodes a key signature payload.
    pub fn read(data: &[u8], pos: usize) -> (r: Result<(KeySignature, usize), DecodeError>)
        ensures
            decodes_to(r, spec_key_signature(data@, pos as int)),
    {
        if data.len() >= 2 && pos <= data.len() - 2 {
            Ok(
                (
                    KeySignature {
                        number_of_sharp_flats: data[pos],
                        major_key: data[pos + 1] == 0,
                    },
                    pos + 2,
                ),
            )
        } else {
            Err(DecodeError::UnexpectedEndOfInput)
        }
    }
}

impl SequencerSpecific {
    /// Decodes a sequencer-specific payload of `total_length` declared
    /// bytes.
    pub fn read(data: &[u8], pos: usize, total_length: u32) -> (r: Result<
        (SequencerSpecific, usize),
        DecodeError,
    >)
        ensures
            decodes_to(r, spec_sequencer_specific(data@, pos as int, total_length)),
    {
        let (vlv, p): (crate::VLV, usize) = match read_vlv(data, pos) {
            Ok(v) => v,
            Err(e) => return Err(e),
        };
        if (vlv.real_length as u32) > total_length {
            return Err(
                DecodeError::MetaLengthMismatch {
                    sub_type: 0x7F,
                    expected: vlv.real_length as u32,
                    declared: total_length,
                },
            );
        }
        let rest: u32 = total_length - (vlv.real_length as u32);
        let payload: Vec<u8> = match take_bytes(data, p, rest as usize) {
            Ok(v) => v,
            Err(e) => return Err(e),
        };
        Ok(
            (
                SequencerSpecific { length: total_length, id: vlv.data, data: payload },
                pos + (total_length as usize),
            ),
        )
    }
}

} // verus!
