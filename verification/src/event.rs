//! The running-status event decoder: one decode step of a track.
//!
//! A step reads one byte.  A byte with its high bit set is a new status:
//! `0x80..=0xEF` is a channel message (and becomes the track's running
//! status), `0xF0`/`0xF7` opens a system-exclusive payload, `0xFF` a meta
//! event, and anything else is unsupported.  A byte with its high bit
//! clear is the first data byte of a channel message reusing the running
//! status; without a prior status in the track it is an error.  Meta and
//! system-exclusive events are transparent to running status: they
//! neither consume nor reset it.

use vstd::prelude::*;

use crate::bytes::{decodes_to, decodes_to_with_status, read_u8, spec_u8};
use crate::error::DecodeError;
use crate::meta::{
    spec_key_signature, spec_midi_channel_prefix, spec_midi_port, spec_sequence_number,
    spec_sequencer_specific, spec_set_tempo, spec_smtpe_offset, spec_text, spec_time_signature,
    spec_unknown, EndOfTrack, KeySignature, MIDIChannelPrefix, MIDIPort, SequenceNumber,
    SequencerSpecific, SetTempo, SMTPEOffset, SpecSequencerSpecific, SpecText, SpecUnknown, Text,
    TimeSignature, Unknown,
};
use crate::midi::{
    spec_channel_key_pressure, spec_controller_change, spec_note_change, spec_pitch_bend,
    spec_polyphonic_key_pressure, spec_program_change, ChannelKeyPressure, ControllerChange,
    NoteChange, PitchBend, PolyphonicKeyPressure, ProgramChange,
};
use crate::sysex::{spec_sysex, SpecSysex, Sysex};
use crate::bytes::take_bytes;
use crate::{read_vlv, spec_read_vlv};

verus! {

/// A channel message's decoded payload, tagged by its kind.
#[derive(Clone, Copy, Debug, PartialEq, Eq)]
pub enum MidiEventType {
    NoteOff(NoteChange),
    NoteOn(NoteChange),
    PolyphonicKeyPressure(PolyphonicKeyPressure),
    ControllerChange(ControllerChange),
    ProgramChange(ProgramChange),
    ChannelKeyPressure(ChannelKeyPressure),
    PitchBend(PitchBend),
}

impl View for MidiEventType {
    type V = MidiEventType;

    open spec fn view(&self) -> MidiEventType {
        *self
    }
}

/// A decoded channel message: the status high nibble, the channel (the
/// status low nibble) and the payload.
#[derive(Clone, Copy, Debug, PartialEq, Eq)]
pub struct MidiEvent {
    pub code_byte: u8,
    pub channel: u8,
    pub event: MidiEventType,
}

impl View for MidiEvent {
    type V = MidiEvent;

    open spec fn view(&self) -> MidiEvent {
        *self
    }
}

/// A system-exclusive payload, tagged by its opening status byte: `0xF0`
/// starts a message, `0xF7` continues one.  The two differ only in the
/// tag; the byte-level handling is identical.
#[derive(Clone, Debug, PartialEq, Eq)]
pub enum SysexEventType {
    F0SysexEvent(Sysex),
    F7SysexEvent(Sysex),
}

/// The mathematical value of a [`SysexEventType`].
pub enum SpecSysexEventType {
    F0SysexEvent(SpecSysex),
    F7SysexEvent(SpecSysex),
}

impl View for SysexEventType {
    type V = SpecSysexEventType;

    open spec fn view(&self) -> SpecSysexEventType {
        match self {
            SysexEventType::F0SysexEvent(sx) => SpecSysexEventType::F0SysexEvent(sx@),
            SysexEventType::F7SysexEvent(sx) => SpecSysexEventType::F7SysexEvent(sx@),
        }
    }
}

/// A decoded system-exclusive event.
#[derive(Clone, Debug, PartialEq, Eq)]
pub struct SysexEvent {
    pub event: SysexEventType,
}

/// The mathematical value of a [`SysexEvent`].
pub struct SpecSysexEvent {
    pub event: SpecSysexEventType,
}

impl View for SysexEvent {
    type V = SpecSysexEvent;

    open spec fn view(&self) -> SpecSysexEvent {
        SpecSysexEvent { event: self.event@ }
    }
}

/// A meta event's decoded payload, tagged by its sub-type.
#[derive(Clone, Debug, PartialEq, Eq)]
pub enum MetaEventType {
    SequenceNumber(SequenceNumber),
    TextEvent(Text),
    CopyrightNotice(Text),
    SequenceTrackName(Text),
    InstrumentName(Text),
    Lyric(Text),
    Marker(Text),
    CuePoint(Text),
    ProgramName(Text),
    DeviceName(Text),
    MIDIChannelPrefix(MIDIChannelPrefix),
    MIDIPort(MIDIPort),
    EndOfTrack(EndOfTrack),
    SetTempo(SetTempo),
    SMTPEOffset(SMTPEOffset),
    TimeSignature(TimeSignature),
    KeySignature(KeySignature),
    SequencerSpecific(SequencerSpecific),
    Unknown(Unknown),
}

/// The mathematical value of a [`MetaEventType`].
pub enum SpecMetaEventType {
    SequenceNumber(SequenceNumber),
    TextEvent(SpecText),
    CopyrightNotice(SpecText),
    SequenceTrackName(SpecText),
    InstrumentName(SpecText),
    Lyric(SpecText),
    Marker(SpecText),
    CuePoint(SpecText),
    ProgramName(SpecText),
    DeviceName(SpecText),
    MIDIChannelPrefix(MIDIChannelPrefix),
    MIDIPort(MIDIPort),
    EndOfTrack(EndOfTrack),
    SetTempo(SetTempo),
    SMTPEOffset(SMTPEOffset),
    TimeSignature(TimeSignature),
    KeySignature(KeySignature),
    SequencerSpecific(SpecSequencerSpecific),
    Unknown(SpecUnknown),
}

impl View for MetaEventType {
    type V = SpecMetaEventType;

    open spec fn view(&self) -> SpecMetaEventType {
        match self {
            MetaEventType::SequenceNumber(v) => SpecMetaEventType::SequenceNumber(*v),
            MetaEventType::TextEvent(v) => SpecMetaEventType::TextEvent(v@),
            MetaEventType::CopyrightNotice(v) => SpecMetaEventType::CopyrightNotice(v@),
            MetaEventType::SequenceTrackName(v) => SpecMetaEventType::SequenceTrackName(v@),
            MetaEventType::InstrumentName(v) => SpecMetaEventType::InstrumentName(v@),
            MetaEventType::Lyric(v) => SpecMetaEventType::Lyric(v@),
            MetaEventType::Marker(v) => SpecMetaEventType::Marker(v@),
            MetaEventType::CuePoint(v) => SpecMetaEventType::CuePoint(v@),
            MetaEventType::ProgramName(v) => SpecMetaEventType::ProgramName(v@),
            MetaEventType::DeviceName(v) => SpecMetaEventType::DeviceName(v@),
            MetaEventType::MIDIChannelPrefix(v) => SpecMetaEventType::MIDIChannelPrefix(*v),
            MetaEventType::MIDIPort(v) => SpecMetaEventType::MIDIPort(*v),
            MetaEventType::EndOfTrack(v) => SpecMetaEventType::EndOfTrack(*v),
            MetaEventType::SetTempo(v) => SpecMetaEventType::SetTempo(*v),
            MetaEventType::SMTPEOffset(v) => SpecMetaEventType::SMTPEOffset(*v),
            MetaEventType::TimeSignature(v) => SpecMetaEventType::TimeSignature(*v),
            MetaEventType::KeySignature(v) => SpecMetaEventType::KeySignature(*v),
            MetaEventType::SequencerSpecific(v) => SpecMetaEventType::SequencerSpecific(v@),
            MetaEventType::Unknown(v) => SpecMetaEventType::Unknown(v@),
        }
    }
}

/// A decoded meta event: its sub-type byte, its declared payload length
/// and its payload.
#[derive(Clone, Debug, PartialEq, Eq)]
pub struct MetaEvent {
    pub sub_code_byte: u8,
    pub length: u32,
    pub event: MetaEventType,
}

/// The mathematical value of a [`MetaEvent`].
pub struct SpecMetaEvent {
    pub sub_code_byte: u8,
    pub length: u32,
    pub event: SpecMetaEventType,
}

impl View for MetaEvent {
    type V = SpecMetaEvent;

    open spec fn view(&self) -> SpecMetaEvent {
        SpecMetaEvent {
            sub_code_byte: self.sub_code_byte,
            length: self.length,
            event: self.event@,
        }
    }
}

/// One decoded event of any family.
#[derive(Clone, Debug, PartialEq, Eq)]
pub enum EventType {
    MidiEvent(MidiEvent),
    SysExEvent(SysexEvent),
    MetaEvent(MetaEvent),
}

/// The mathematical value of an [`EventType`].
pub enum SpecEventType {
    MidiEvent(MidiEvent),
    SysExEvent(SpecSysexEvent),
    MetaEvent(SpecMetaEvent),
}

impl View for EventType {
    type V = SpecEventType;

    open spec fn view(&self) -> SpecEventType {
        match self {
            EventType::MidiEvent(v) => SpecEventType::MidiEvent(*v),
            EventType::SysExEvent(v) => SpecEventType::SysExEvent(v@),
            EventType::MetaEvent(v) => SpecEventType::MetaEvent(v@),
        }
    }
}

/// A decoded event together with the status byte that selected it: for a
/// channel message the effective (possibly inherited) status, else the
/// dispatch byte itself.
#[derive(Clone, Debug, PartialEq, Eq)]
pub struct Event {
    pub code_byte: u8,
    pub event: EventType,
}

/// The mathematical value of an [`Event`].
pub struct SpecEvent {
    pub code_byte: u8,
    pub event: SpecEventType,
}

impl View for Event {
    type V = SpecEvent;

    open spec fn view(&self) -> SpecEvent {
        SpecEvent { code_byte: self.code_byte, event: self.event@ }
    }
}

/// The status byte's high nibble, kept in place: the message kind.
pub open spec fn high_nibble(status: u8) -> u8 {
    ((status / 16) * 16) as u8
}

/// The status byte's low nibble: the channel.
pub open spec fn low_nibble(status: u8) -> u8 {
    (status % 16) as u8
}

/// The channel message selected by `status`, its first data byte already
/// consumed when `first` is set.
pub open spec fn spec_midi_event(s: Seq<u8>, pos: int, status: u8, first: Option<u8>) -> Result<
    (MidiEvent, int),
    DecodeError,
> {
    let code = high_nibble(status);
    let channel = low_nibble(status);
    if code == 0x80 {
        match spec_note_change(s, pos, first) {
            Ok((v, p)) => Ok(
                (MidiEvent { code_byte: code, channel, event: MidiEventType::NoteOff(v) }, p),
            ),
            Err(e) => Err(e),
        }
    } else if code == 0x90 {
        match spec_note_change(s, pos, first) {
            Ok((v, p)) => Ok(
                (MidiEvent { code_byte: code, channel, event: MidiEventType::NoteOn(v) }, p),
            ),
            Err(e) => Err(e),
        }
    } else if code == 0xA0 {
        match spec_polyphonic_key_pressure(s, pos, first) {
            Ok((v, p)) => Ok(
                (
                    MidiEvent {
                        code_byte: code,
                        channel,
                        event: MidiEventType::PolyphonicKeyPressure(v),
                    },
                    p,
                ),
            ),
            Err(e) => Err(e),
        }
    } else if code == 0xB0 {
        match spec_controller_change(s, pos, first) {
            Ok((v, p)) => Ok(
                (
                    MidiEvent {
                        code_byte: code,
                        channel,
                        event: MidiEventType::ControllerChange(v),
                    },
                    p,
                ),
            ),
            Err(e) => Err(e),
        }
    } else if code == 0xC0 {
        match spec_program_change(s, pos, first) {
            Ok((v, p)) => Ok(
                (
                    MidiEvent { code_byte: code, channel, event: MidiEventType::ProgramChange(v) },
                    p,
                ),
            ),
            Err(e) => Err(e),
        }
    } else if code == 0xD0 {
        match spec_channel_key_pressure(s, pos, first) {
            Ok((v, p)) => Ok(
                (
                    MidiEvent {
                        code_byte: code,
                        channel,
                        event: MidiEventType::ChannelKeyPressure(v),
                    },
                    p,
                ),
            ),
            Err(e) => Err(e),
        }
    } else if code == 0xE0 {
        match spec_pitch_bend(s, pos, first) {
            Ok((v, p)) => Ok(
                (MidiEvent { code_byte: code, channel, event: MidiEventType::PitchBend(v) }, p),
            ),
            Err(e) => Err(e),
        }
    } else {
        Err(DecodeError::UnsupportedStatus { status })
    }
}

/// The system-exclusive event opened by `code`: `0xF0` or `0xF7`.
pub open spec fn spec_sysex_event(s: Seq<u8>, pos: int, code: u8) -> Result<
    (SpecSysexEvent, int),
    DecodeError,
> {
    if code == 0xF0 {
        match spec_sysex(s, pos) {
            Ok((sx, p)) => Ok(
                (SpecSysexEvent { event: SpecSysexEventType::F0SysexEvent(sx) }, p),
            ),
            Err(e) => Err(e),
        }
    } else if code == 0xF7 {
        match spec_sysex(s, pos) {
            Ok((sx, p)) => Ok(
                (SpecSysexEvent { event: SpecSysexEventType::F7SysexEvent(sx) }, p),
            ),
            Err(e) => Err(e),
        }
    } else {
        Err(DecodeError::UnsupportedStatus { status: code })
    }
}

/// The text-family variant selected by a sub-type in `0x01..=0x09`.
pub open spec fn spec_text_variant(sub: u8, t: SpecText) -> SpecMetaEventType {
    if sub == 0x01 {
        SpecMetaEventType::TextEvent(t)
    } else if sub == 0x02 {
        SpecMetaEventType::CopyrightNotice(t)
    } else if sub == 0x03 {
        SpecMetaEventType::SequenceTrackName(t)
    } else if sub == 0x04 {
        SpecMetaEventType::InstrumentName(t)
    } else if sub == 0x05 {
        SpecMetaEventType::Lyric(t)
    } else if sub == 0x06 {
        SpecMetaEventType::Marker(t)
    } else if sub == 0x07 {
        SpecMetaEventType::CuePoint(t)
    } else if sub == 0x08 {
        SpecMetaEventType::ProgramName(t)
    } else {
        SpecMetaEventType::DeviceName(t)
    }
}

/// The meta event at `pos`: sub-type byte, VLQ declared length, then the
/// payload its sub-type mandates.  Fixed-size sub-types reject a declared
/// length other than their own; unknown sub-types keep their declared
/// bytes verbatim.
pub open spec fn spec_meta_event(s: Seq<u8>, pos: int) -> Result<(SpecMetaEvent, int), DecodeError> {
    match spec_u8(s, pos) {
        Err(e) => Err(e),
        Ok(sub) => match spec_read_vlv(s, pos + 1) {
            Err(e) => Err(e),
            Ok((v, n)) => {
                let declared = (v % 0x1_0000_0000) as u32;
                let p = pos + 1 + n;
                if sub == 0x00 {
                    if declared != 2 {
                        Err(
                            DecodeError::MetaLengthMismatch {
                                sub_type: sub,
                                expected: 2,
                                declared,
                            },
                        )
                    } else {
                        match spec_sequence_number(s, p) {
                            Ok((ev, p2)) => Ok(
                                (
                                    SpecMetaEvent {
                                        sub_code_byte: sub,
                                        length: declared,
                                        event: SpecMetaEventType::SequenceNumber(ev),
                                    },
                                    p2,
                                ),
                            ),
                            Err(e) => Err(e),
                        }
                    }
                } else if 0x01 <= sub <= 0x09 {
                    match spec_text(s, p, declared) {
                        Ok((t, p2)) => Ok(
                            (
                                SpecMetaEvent {
                                    sub_code_byte: sub,
                                    length: declared,
                                    event: spec_text_variant(sub, t),
                                },
                                p2,
                            ),
                        ),
                        Err(e) => Err(e),
                    }
                } else if sub == 0x20 {
                    if declared != 1 {
                        Err(
                            DecodeError::MetaLengthMismatch {
                                sub_type: sub,
                                expected: 1,
                                declared,
                            },
                        )
                    } else {
                        match spec_midi_channel_prefix(s, p) {
                            Ok((ev, p2)) => Ok(
                                (
                                    SpecMetaEvent {
                                        sub_code_byte: sub,
                                        length: declared,
                                        event: SpecMetaEventType::MIDIChannelPrefix(ev),
                                    },
                                    p2,
                                ),
                            ),
                            Err(e) => Err(e),
                        }
                    }
                } else if sub == 0x21 {
                    if declared != 1 {
                        Err(
                            DecodeError::MetaLengthMismatch {
                                sub_type: sub,
                                expected: 1,
                                declared,
                            },
                        )
                    } else {
                        match spec_midi_port(s, p) {
                            Ok((ev, p2)) => Ok(
                                (
                                    SpecMetaEvent {
                                        sub_code_byte: sub,
                                        length: declared,
                                        event: SpecMetaEventType::MIDIPort(ev),
                                    },
                                    p2,
                                ),
                            ),
                            Err(e) => Err(e),
                        }
                    }
                } else if sub == 0x2F {
                    if declared != 0 {
                        Err(
                            DecodeError::MetaLengthMismatch {
                                sub_type: sub,
                                expected: 0,
                                declared,
                            },
                        )
                    } else {
                        Ok(
                            (
                                SpecMetaEvent {
                                    sub_code_byte: sub,
                                    length: declared,
                                    event: SpecMetaEventType::EndOfTrack(EndOfTrack {}),
                                },
                                p,
                            ),
                        )
                    }
                } else if sub == 0x51 {
                    if declared != 3 {
                        Err(
                            DecodeError::MetaLengthMismatch {
                                sub_type: sub,
                                expected: 3,
                                declared,
                            },
                        )
                    } else {
                        match spec_set_tempo(s, p) {
                            Ok((ev, p2)) => Ok(
                                (
                                    SpecMetaEvent {
                                        sub_code_byte: sub,
                                        length: declared,
                                        event: SpecMetaEventType::SetTempo(ev),
                                    },
                                    p2,
                                ),
                            ),
                            Err(e) => Err(e),
                        }
                    }
                } else if sub == 0x54 {
                    if declared != 5 {
                        Err(
                            DecodeError::MetaLengthMismatch {
                                sub_type: sub,
                                expected: 5,
                                declared,
                            },
                        )
                    } else {
                        match spec_smtpe_offset(s, p) {
                            Ok((ev, p2)) => Ok(
                                (
                                    SpecMetaEvent {
                                        sub_code_byte: sub,
                                        length: declared,
                                        event: SpecMetaEventType::SMTPEOffset(ev),
                                    },
                                    p2,
                                ),
                            ),
                            Err(e) => Err(e),
                        }
                    }
                } else if sub == 0x58 {
                    if declared != 4 {
                        Err(
                            DecodeError::MetaLengthMismatch {
                                sub_type: sub,
                                expected: 4,
                                declared,
                            },
                        )
                    } else {
                        match spec_time_signature(s, p) {
                            Ok((ev, p2)) => Ok(
                                (
                                    SpecMetaEvent {
                                        sub_code_byte: sub,
                                        length: declared,
                                        event: SpecMetaEventType::TimeSignature(ev),
                                    },
                                    p2,
                                ),
                            ),
                            Err(e) => Err(e),
                        }
                    }
                } else if sub == 0x59 {
                    if declared != 2 {
                        Err(
                            DecodeError::MetaLengthMismatch {
                                sub_type: sub,
                                expected: 2,
                                declared,
                            },
                        )
                    } else {
                        match spec_key_signature(s, p) {
                            Ok((ev, p2)) => Ok(
                                (
                                    SpecMetaEvent {
                                        sub_code_byte: sub,
                                        length: declared,
                                        event: SpecMetaEventType::KeySignature(ev),
                                    },
                                    p2,
                                ),
                            ),
                            Err(e) => Err(e),
                        }
                    }
                } else if sub == 0x7F {
                    match spec_sequencer_specific(s, p, declared) {
                        Ok((ev, p2)) => Ok(
                            (
                                SpecMetaEvent {
                                    sub_code_byte: sub,
                                    length: declared,
                                    event: SpecMetaEventType::SequencerSpecific(ev),
                                },
                                p2,
                            ),
                        ),
                        Err(e) => Err(e),
                    }
                } else {
                    match spec_unknown(s, p, declared) {
                        Ok((ev, p2)) => Ok(
                            (
                                SpecMetaEvent {
                                    sub_code_byte: sub,
                                    length: declared,
                                    event: SpecMetaEventType::Unknown(ev),
                                },
                                p2,
                            ),
                        ),
                        Err(e) => Err(e),
                    }
                }
            },
        },
    }
}

/// One decode step of the running-status state machine: the event at
/// `pos`, the position after it, and the running status for the next
/// step.  Only a channel message with an explicit status byte changes
/// the running status; meta and system-exclusive events leave it as it
/// was.
pub open spec fn spec_event(s: Seq<u8>, pos: int, rs: Option<u8>) -> Result<
    (SpecEvent, int, Option<u8>),
    DecodeError,
> {
    match spec_u8(s, pos) {
        Err(e) => Err(e),
        Ok(b) => {
            if b < 0x80 {
                match rs {
                    None => Err(DecodeError::NoRunningStatus { data_byte: b }),
                    Some(st) => match spec_midi_event(s, pos + 1, st, Some(b)) {
                        Ok((me, p)) => Ok(
                            (
                                SpecEvent { code_byte: st, event: SpecEventType::MidiEvent(me) },
                                p,
                                rs,
                            ),
                        ),
                        Err(e) => Err(e),
                    },
                }
            } else if b <= 0xEF {
                match spec_midi_event(s, pos + 1, b, None) {
                    Ok((me, p)) => Ok(
                        (
                            SpecEvent { code_byte: b, event: SpecEventType::MidiEvent(me) },
                            p,
                            Some(b),
                        ),
                    ),
                    Err(e) => Err(e),
                }
            } else if b == 0xF0 || b == 0xF7 {
                match spec_sysex_event(s, pos + 1, b) {
                    Ok((se, p)) => Ok(
                        (SpecEvent { code_byte: b, event: SpecEventType::SysExEvent(se) }, p, rs),
                    ),
                    Err(e) => Err(e),
                }
            } else if b == 0xFF {
                match spec_meta_event(s, pos + 1) {
                    Ok((me, p)) => Ok(
                        (SpecEvent { code_byte: b, event: SpecEventType::MetaEvent(me) }, p, rs),
                    ),
                    Err(e) => Err(e),
                }
            } else {
                Err(DecodeError::UnsupportedStatus { status: b })
            }
        },
    }
}

/// A channel message decoded from a position inside the input ends
/// inside the input (it may consume nothing when its single data byte
/// was already consumed by the dispatcher).
pub proof fn lemma_spec_midi_event_bounds(s: Seq<u8>, pos: int, status: u8, first: Option<u8>)
    requires
        0 <= pos <= s.len(),
    ensures
        match spec_midi_event(s, pos, status, first) {
            Ok((m, p)) => pos <= p <= s.len(),
            Err(_) => true,
        },
{
}

/// A successful system-exclusive event consumes at least its length
/// quantity and stays inside the input.
pub proof fn lemma_spec_sysex_event_bounds(s: Seq<u8>, pos: int, code: u8)
    ensures
        match spec_sysex_event(s, pos, code) {
            Ok((se, p)) => 0 <= pos && pos < p <= s.len(),
            Err(_) => true,
        },
{
    crate::lemma_vlv_len(s, pos);
}

/// A successful meta event consumes at least its sub-type byte and
/// length quantity and stays inside the input.
pub proof fn lemma_spec_meta_event_bounds(s: Seq<u8>, pos: int)
    ensures
        match spec_meta_event(s, pos) {
            Ok((m, p)) => 0 <= pos && pos < p <= s.len(),
            Err(_) => true,
        },
{
    match spec_u8(s, pos) {
        Ok(sub) => {
            crate::lemma_vlv_len(s, pos + 1);
            match spec_read_vlv(s, pos + 1) {
                Ok((v, n)) => {
                    crate::lemma_vlv_len(s, pos + 1 + n);
                },
                Err(_) => {},
            }
        },
        Err(_) => {},
    }
}

/// A successful decode step consumes at least one byte and stays inside
/// the input.
pub proof fn lemma_spec_event_bounds(s: Seq<u8>, pos: int, rs: Option<u8>)
    ensures
        match spec_event(s, pos, rs) {
            Ok((e, p, rs2)) => 0 <= pos && pos < p <= s.len(),
            Err(_) => true,
        },
{
    match spec_u8(s, pos) {
        Ok(b) => {
            if b < 0x80 {
                match rs {
                    Some(st) => lemma_spec_midi_event_bounds(s, pos + 1, st, Some(b)),
                    None => {},
                }
            } else if b <= 0xEF {
                lemma_spec_midi_event_bounds(s, pos + 1, b, None);
            } else if b == 0xF0 || b == 0xF7 {
                lemma_spec_sysex_event_bounds(s, pos + 1, b);
            } else if b == 0xFF {
                lemma_spec_meta_event_bounds(s, pos + 1);
            }
        },
        Err(_) => {},
    }
}

impl MidiEvent {
    /// Decodes the channel message selected by `code_byte` (the full
    /// status byte, channel nibble included).  When the message reuses
    /// the track's running status, `first_data` carries its already
    /// consumed first data byte.
    pub fn read(data: &[u8], pos: usize, code_byte: u8, first_data: Option<u8>) -> (r: Result<
        (MidiEvent, usize),
        DecodeError,
    >)
        ensures
            decodes_to(r, spec_midi_event(data@, pos as int, code_byte, first_data)),
    {
        let code: u8 = (code_byte / 16) * 16;
        let channel: u8 = code_byte % 16;
        if code == 0x80 {
            match NoteChange::read(data, pos, first_data) {
                Ok((v, p)) => Ok(
                    (MidiEvent { code_byte: code, channel, event: MidiEventType::NoteOff(v) }, p),
                ),
                Err(e) => Err(e),
            }
        } else if code == 0x90 {
            match NoteChange::read(data, pos, first_data) {
                Ok((v, p)) => Ok(
                    (MidiEvent { code_byte: code, channel, event: MidiEventType::NoteOn(v) }, p),
                ),
                Err(e) => Err(e),
            }
        } else if code == 0xA0 {
            match PolyphonicKeyPressure::read(data, pos, first_data) {
                Ok((v, p)) => Ok(
                    (
                        MidiEvent {
                            code_byte: code,
                            channel,
                            event: MidiEventType::PolyphonicKeyPressure(v),
                        },
                        p,
                    ),
                ),
                Err(e) => Err(e),
            }
        } else if code == 0xB0 {
            match ControllerChange::read(data, pos, first_data) {
                Ok((v, p)) => Ok(
                    (
                        MidiEvent {
                            code_byte: code,
                            channel,
                            event: MidiEventType::ControllerChange(v),
                        },
                        p,
                    ),
                ),
                Err(e) => Err(e),
            }
        } else if code == 0xC0 {
            match ProgramChange::read(data, pos, first_data) {
                Ok((v, p)) => Ok(
                    (
                        MidiEvent {
                            code_byte: code,
                            channel,
                            event: MidiEventType::ProgramChange(v),
                        },
                        p,
                    ),
                ),
                Err(e) => Err(e),
            }
        } else if code == 0xD0 {
            match ChannelKeyPressure::read(data, pos, first_data) {
                Ok((v, p)) => Ok(
                    (
                        MidiEvent {
                            code_byte: code,
                            channel,
                            event: MidiEventType::ChannelKeyPressure(v),
                        },
                        p,
                    ),
                ),
                Err(e) => Err(e),
            }
        } else if code == 0xE0 {
            match PitchBend::read(data, pos, first_data) {
                Ok((v, p)) => Ok(
                    (
                        MidiEvent { code_byte: code, channel, event: MidiEventType::PitchBend(v) },
                        p,
                    ),
                ),
                Err(e) => Err(e),
            }
        } else {
            Err(DecodeError::UnsupportedStatus { status: code_byte })
        }
    }
}

impl SysexEvent {
    /// Decodes the system-exclusive event opened by `code_byte` (`0xF0`
    /// or `0xF7`; anything else is unsupported).
    pub fn read(data: &[u8], pos: usize, code_byte: u8) -> (r: Result<
        (SysexEvent, usize),
        DecodeError,
    >)
        ensures
            decodes_to(r, spec_sysex_event(data@, pos as int, code_byte)),
    {
        if code_byte == 0xF0 {
            match Sysex::read(data, pos) {
                Ok((sx, p)) => Ok((SysexEvent { event: SysexEventType::F0SysexEvent(sx) }, p)),
                Err(e) => Err(e),
            }
        } else if code_byte == 0xF7 {
            match Sysex::read(data, pos) {
                Ok((sx, p)) => Ok((SysexEvent { event: SysexEventType::F7SysexEvent(sx) }, p)),
                Err(e) => Err(e),
            }
        } else {
            Err(DecodeError::UnsupportedStatus { status: code_byte })
        }
    }
}

impl MetaEvent {
    /// Decodes the meta event whose `0xFF` dispatch byte has already been
    /// consumed: sub-type, declared length, payload.
    pub fn read(data: &[u8], pos: usize) -> (r: Result<(MetaEvent, usize), DecodeError>)
        ensures
            decodes_to(r, spec_meta_event(data@, pos as int)),
    {
        let sub: u8 = match read_u8(data, pos) {
            Ok(b) => b,
            Err(e) => return Err(e),
        };
        let (vlv, p): (crate::VLV, usize) = match read_vlv(data, pos + 1) {
            Ok(v) => v,
            Err(e) => return Err(e),
        };
        let declared: u32 = vlv.data;
        if sub == 0x00 {
            if declared != 2 {
                return Err(
                    DecodeError::MetaLengthMismatch { sub_type: sub, expected: 2, declared },
                );
            }
            match SequenceNumber::read(data, p) {
                Ok((ev, p2)) => Ok(
                    (
                        MetaEvent {
                            sub_code_byte: sub,
                            length: declared,
                            event: MetaEventType::SequenceNumber(ev),
                        },
                        p2,
                    ),
                ),
                Err(e) => Err(e),
            }
        } else if 0x01 <= sub && sub <= 0x09 {
            match Text::read(data, p, declared) {
                Ok((t, p2)) => {
                    let ev: MetaEventType = if sub == 0x01 {
                        MetaEventType::TextEvent(t)
                    } else if sub == 0x02 {
                        MetaEventType::CopyrightNotice(t)
                    } else if sub == 0x03 {
                        MetaEventType::SequenceTrackName(t)
                    } else if sub == 0x04 {
                        MetaEventType::InstrumentName(t)
                    } else if sub == 0x05 {
                        MetaEventType::Lyric(t)
                    } else if sub == 0x06 {
                        MetaEventType::Marker(t)
                    } else if sub == 0x07 {
                        MetaEventType::CuePoint(t)
                    } else if sub == 0x08 {
                        MetaEventType::ProgramName(t)
                    } else {
                        MetaEventType::DeviceName(t)
                    };
                    Ok((MetaEvent { sub_code_byte: sub, length: declared, event: ev }, p2))
                },
                Err(e) => Err(e),
            }
        } else if sub == 0x20 {
            if declared != 1 {
                return Err(
                    DecodeError::MetaLengthMismatch { sub_type: sub, expected: 1, declared },
                );
            }
            match MIDIChannelPrefix::read(data, p) {
                Ok((ev, p2)) => Ok(
                    (
                        MetaEvent {
                            sub_code_byte: sub,
                            length: declared,
                            event: MetaEventType::MIDIChannelPrefix(ev),
                        },
                        p2,
                    ),
                ),
                Err(e) => Err(e),
            }
        } else if sub == 0x21 {
            if declared != 1 {
                return Err(
                    DecodeError::MetaLengthMismatch { sub_type: sub, expected: 1, declared },
                );
            }
            match MIDIPort::read(data, p) {
                Ok((ev, p2)) => Ok(
                    (
                        MetaEvent {
                            sub_code_byte: sub,
                            length: declared,
                            event: MetaEventType::MIDIPort(ev),
                        },
                        p2,
                    ),
                ),
                Err(e) => Err(e),
            }
        } else if sub == 0x2F {
            if declared != 0 {
                return Err(
                    DecodeError::MetaLengthMismatch { sub_type: sub, expected: 0, declared },
                );
            }
            Ok(
                (
                    MetaEvent {
                        sub_code_byte: sub,
                        length: declared,
                        event: MetaEventType::EndOfTrack(EndOfTrack {}),
                    },
                    p,
                ),
            )
        } else if sub == 0x51 {
            if declared != 3 {
                return Err(
                    DecodeError::MetaLengthMismatch { sub_type: sub, expected: 3, declared },
                );
            }
            match SetTempo::read(data, p) {
                Ok((ev, p2)) => Ok(
                    (
                        MetaEvent {
                            sub_code_byte: sub,
                            length: declared,
                            event: MetaEventType::SetTempo(ev),
                        },
                        p2,
                    ),
                ),
                Err(e) => Err(e),
            }
        } else if sub == 0x54 {
            if declared != 5 {
                return Err(
                    DecodeError::MetaLengthMismatch { sub_type: sub, expected: 5, declared },
                );
            }
            match SMTPEOffset::read(data, p) {
                Ok((ev, p2)) => Ok(
                    (
                        MetaEvent {
                            sub_code_byte: sub,
                            length: declared,
                            event: MetaEventType::SMTPEOffset(ev),
                        },
                        p2,
                    ),
                ),
                Err(e) => Err(e),
            }
        } else if sub == 0x58 {
            if declared != 4 {
                return Err(
                    DecodeError::MetaLengthMismatch { sub_type: sub, expected: 4, declared },
                );
            }
            match TimeSignature::read(data, p) {
                Ok((ev, p2)) => Ok(
                    (
                        MetaEvent {
                            sub_code_byte: sub,
                            length: declared,
                            event: MetaEventType::TimeSignature(ev),
                        },
                        p2,
                    ),
                ),
                Err(e) => Err(e),
            }
        } else if sub == 0x59 {
            if declared != 2 {
                return Err(
                    DecodeError::MetaLengthMismatch { sub_type: sub, expected: 2, declared },
                );
            }
            match KeySignature::read(data, p) {
                Ok((ev, p2)) => Ok(
                    (
                        MetaEvent {
                            sub_code_byte: sub,
                            length: declared,
                            event: MetaEventType::KeySignature(ev),
                        },
                        p2,
                    ),
                ),
                Err(e) => Err(e),
            }
        } else if sub == 0x7F {
            match SequencerSpecific::read(data, p, declared) {
                Ok((ev, p2)) => Ok(
                    (
                        MetaEvent {
                            sub_code_byte: sub,
                            length: declared,
                            event: MetaEventType::SequencerSpecific(ev),
                        },
                        p2,
                    ),
                ),
                Err(e) => Err(e),
            }
        } else {
            match take_bytes(data, p, declared as usize) {
                Ok(raw) => Ok(
                    (
                        MetaEvent {
                            sub_code_byte: sub,
                            length: declared,
                            event: MetaEventType::Unknown(Unknown { data: raw }),
                        },
                        p + (declared as usize),
                    ),
                ),
                Err(e) => Err(e),
            }
        }
    }
}

impl Event {
    /// Runs one step of the running-status state machine: decodes the
    /// event at `pos` under the track's current `running_status`, and
    /// returns the event, the position after it, and the running status
    /// for the next step.
    pub fn new(data: &[u8], pos: usize, running_status: Option<u8>) -> (r: Result<
        (Event, usize, Option<u8>),
        DecodeError,
    >)
        ensures
            decodes_to_with_status(r, spec_event(data@, pos as int, running_status)),
    {
        let b: u8 = match read_u8(data, pos) {
            Ok(v) => v,
            Err(e) => return Err(e),
        };
        if b < 0x80 {
            match running_status {
                None => Err(DecodeError::NoRunningStatus { data_byte: b }),
                Some(st) => match MidiEvent::read(data, pos + 1, st, Some(b)) {
                    Ok((me, p)) => Ok(
                        (
                            Event { code_byte: st, event: EventType::MidiEvent(me) },
                            p,
                            running_status,
                        ),
                    ),
                    Err(e) => Err(e),
                },
            }
        } else if b <= 0xEF {
            match MidiEvent::read(data, pos + 1, b, None) {
                Ok((me, p)) => Ok(
                    (Event { code_byte: b, event: EventType::MidiEvent(me) }, p, Some(b)),
                ),
                Err(e) => Err(e),
            }
        } else if b == 0xF0 || b == 0xF7 {
            match SysexEvent::read(data, pos + 1, b) {
                Ok((se, p)) => Ok(
                    (Event { code_byte: b, event: EventType::SysExEvent(se) }, p, running_status),
                ),
                Err(e) => Err(e),
            }
        } else if b == 0xFF {
            match MetaEvent::read(data, pos + 1) {
                Ok((me, p)) => Ok(
                    (Event { code_byte: b, event: EventType::MetaEvent(me) }, p, running_status),
                ),
                Err(e) => Err(e),
            }
        } else {
            Err(DecodeError::UnsupportedStatus { status: b })
        }
    }
}

} // verus!
