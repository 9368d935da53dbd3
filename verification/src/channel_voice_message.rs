//! Standalone decoders for channel voice messages.
//!
//! These mirror the payloads of [`crate::midi`] but carry the channel
//! (the status byte's low nibble) inside the decoded value, for callers
//! that work with single messages rather than with a track's event
//! stream.  Each decoder reads its full complement of data bytes; running
//! status is the track decoder's concern, not these.

use vstd::prelude::*;

use crate::bytes::{decodes_to, read_u8, spec_u8};
use crate::error::DecodeError;

verus! {

/// A note-on or note-off message on one channel.
#[derive(Clone, Copy, Debug, PartialEq, Eq)]
pub struct NoteChange {
    pub channel: u8,
    pub key: u8,
    pub velocity: u8,
}

impl View for NoteChange {
    type V = NoteChange;

    open spec fn view(&self) -> NoteChange {
        *self
    }
}

/// Pressure applied to one held key on one channel.
#[derive(Clone, Copy, Debug, PartialEq, Eq)]
pub struct PolyphonicKeyPressure {
    pub channel: u8,
    pub key: u8,
    pub pressure: u8,
}

impl View for PolyphonicKeyPressure {
    type V = PolyphonicKeyPressure;

    open spec fn view(&self) -> PolyphonicKeyPressure {
        *self
    }
}

/// A controller moved to a new value on one channel.
#[derive(Clone, Copy, Debug, PartialEq, Eq)]
pub struct ControllerChange {
    pub channel: u8,
    pub controller_number: u8,
    pub controller_value: u8,
}

impl View for ControllerChange {
    type V = ControllerChange;

    open spec fn view(&self) -> ControllerChange {
        *self
    }
}

/// A program (patch) selection on one channel.
#[derive(Clone, Copy, Debug, PartialEq, Eq)]
pub struct ProgramChange {
    pub channel: u8,
    pub new_program_number: u8,
}

impl View for ProgramChange {
    type V = ProgramChange;

    open spec fn view(&self) -> ProgramChange {
        *self
    }
}

/// Pressure applied to a whole channel.
#[derive(Clone, Copy, Debug, PartialEq, Eq)]
pub struct ChannelKeyPressure {
    pub channel: u8,
    pub value: u8,
}

impl View for ChannelKeyPressure {
    type V = ChannelKeyPressure;

    open spec fn view(&self) -> ChannelKeyPressure {
        *self
    }
}

/// A 14-bit pitch-bend value on one channel.
#[derive(Clone, Copy, Debug, PartialEq, Eq)]
pub struct PitchBend {
    pub channel: u8,
    pub value: u16,
}

impl View for PitchBend {
    type V = PitchBend;

    open spec fn view(&self) -> PitchBend {
        *self
    }
}

/// One of the channel voice messages, channel included.
#[derive(Clone, Copy, Debug, PartialEq, Eq)]
pub enum VoiceEventType {
    NoteOff(NoteChange),
    NoteOn(NoteChange),
    PolyphonicKeyPressure(PolyphonicKeyPressure),
    ControllerChange(ControllerChange),
    ProgramChange(ProgramChange),
    ChannelKeyPressure(ChannelKeyPressure),
    PitchBend(PitchBend),
}

/// The two data bytes at `pos`.
pub open spec fn spec_two_bytes(s: Seq<u8>, pos: int) -> Result<((u8, u8), int), DecodeError> {
    match spec_u8(s, pos) {
        Err(e) => Err(e),
        Ok(d1) => match spec_u8(s, pos + 1) {
            Ok(d2) => Ok(((d1, d2), pos + 2)),
            Err(e) => Err(e),
        },
    }
}

/// A note change for `channel`: key then velocity.
pub open spec fn spec_voice_note_change(s: Seq<u8>, pos: int, channel: u8) -> Result<
    (NoteChange, int),
    DecodeError,
> {
    match spec_two_bytes(s, pos) {
        Ok(((d1, d2), p)) => Ok((NoteChange { channel, key: d1, velocity: d2 }, p)),
        Err(e) => Err(e),
    }
}

/// A polyphonic key pressure for `channel`: key then pressure.
pub open spec fn spec_voice_polyphonic_key_pressure(s: Seq<u8>, pos: int, channel: u8) -> Result<
    (PolyphonicKeyPressure, int),
    DecodeError,
> {
    match spec_two_bytes(s, pos) {
        Ok(((d1, d2), p)) => Ok((PolyphonicKeyPressure { channel, key: d1, pressure: d2 }, p)),
        Err(e) => Err(e),
    }
}

/// A controller change for `channel`: controller number then value.
pub open spec fn spec_voice_controller_change(s: Seq<u8>, pos: int, channel: u8) -> Result<
    (ControllerChange, int),
    DecodeError,
> {
    match spec_two_bytes(s, pos) {
        Ok(((d1, d2), p)) => Ok(
            (ControllerChange { channel, controller_number: d1, controller_value: d2 }, p),
        ),
        Err(e) => Err(e),
    }
}

/// A program change for `channel`: the single program number byte.
pub open spec fn spec_voice_program_change(s: Seq<u8>, pos: int, channel: u8) -> Result<
    (ProgramChange, int),
    DecodeError,
> {
    match spec_u8(s, pos) {
        Ok(d1) => Ok((ProgramChange { channel, new_program_number: d1 }, pos + 1)),
        Err(e) => Err(e),
    }
}

/// A channel key pressure for `channel`: the single pressure byte.
pub open spec fn spec_voice_channel_key_pressure(s: Seq<u8>, pos: int, channel: u8) -> Result<
    (ChannelKeyPressure, int),
    DecodeError,
> {
    match spec_u8(s, pos) {
        Ok(d1) => Ok((ChannelKeyPressure { channel, value: d1 }, pos + 1)),
        Err(e) => Err(e),
    }
}

/// A pitch bend for `channel`: least significant seven bits first.
pub open spec fn spec_voice_pitch_bend(s: Seq<u8>, pos: int, channel: u8) -> Result<
    (PitchBend, int),
    DecodeError,
> {
    match spec_two_bytes(s, pos) {
        Ok(((d1, d2), p)) => Ok(
            (PitchBend { channel, value: ((d2 as int) * 0x80 + (d1 as int)) as u16 }, p),
        ),
        Err(e) => Err(e),
    }
}

impl NoteChange {
    /// Decodes a note change for `channel` at `pos`.
    pub fn read(data: &[u8], pos: usize, channel: u8) -> (r: Result<
        (NoteChange, usize),
        DecodeError,
    >)
        ensures
            decodes_to(r, spec_voice_note_change(data@, pos as int, channel)),
    {
        let d1: u8 = match read_u8(data, pos) {
            Ok(b) => b,
            Err(e) => return Err(e),
        };
        let d2: u8 = match read_u8(data, pos + 1) {
            Ok(b) => b,
            Err(e) => return Err(e),
        };
        Ok((NoteChange { channel, key: d1, velocity: d2 }, pos + 2))
    }
}

impl PolyphonicKeyPressure {
    /// Decodes a polyphonic key pressure for `channel` at `pos`.
    pub fn read(data: &[u8], pos: usize, channel: u8) -> (r: Result<
        (PolyphonicKeyPressure, usize),
        DecodeError,
    >)
        ensures
            decodes_to(r, spec_voice_polyphonic_key_pressure(data@, pos as int, channel)),
    {
        let d1: u8 = match read_u8(data, pos) {
            Ok(b) => b,
            Err(e) => return Err(e),
        };
        let d2: u8 = match read_u8(data, pos + 1) {
            Ok(b) => b,
            Err(e) => return Err(e),
        };
        Ok((PolyphonicKeyPressure { channel, key: d1, pressure: d2 }, pos + 2))
    }
}

impl ControllerChange {
    /// Decodes a controller change for `channel` at `pos`.
    pub fn read(data: &[u8], pos: usize, channel: u8) -> (r: Result<
        (ControllerChange, usize),
        DecodeError,
    >)
        ensures
            decodes_to(r, spec_voice_controller_change(data@, pos as int, channel)),
    {
        let d1: u8 = match read_u8(data, pos) {
            Ok(b) => b,
            Err(e) => return Err(e),
        };
        let d2: u8 = match read_u8(data, pos + 1) {
            Ok(b) => b,
            Err(e) => return Err(e),
        };
        Ok((ControllerChange { channel, controller_number: d1, controller_value: d2 }, pos + 2))
    }
}

impl ProgramChange {
    /// Decodes a program change for `channel` at `pos`.
    pub fn read(data: &[u8], pos: usize, channel: u8) -> (r: Result<
        (ProgramChange, usize),
        DecodeError,
    >)
        ensures
            decodes_to(r, spec_voice_program_change(data@, pos as int, channel)),
    {
        let d1: u8 = match read_u8(data, pos) {
            Ok(b) => b,
            Err(e) => return Err(e),
        };
        Ok((ProgramChange { channel, new_program_number: d1 }, pos + 1))
    }
}

impl ChannelKeyPressure {
    /// Decodes a channel key pressure for `channel` at `pos`.
    pub fn read(data: &[u8], pos: usize, channel: u8) -> (r: Result<
        (ChannelKeyPressure, usize),
        DecodeError,
    >)
        ensures
            decodes_to(r, spec_voice_channel_key_pressure(data@, pos as int, channel)),
    {
        let d1: u8 = match read_u8(data, pos) {
            Ok(b) => b,
            Err(e) => return Err(e),
        };
        Ok((ChannelKeyPressure { channel, value: d1 }, pos + 1))
    }
}

impl PitchBend {
    /// Decodes a pitch bend for `channel` at `pos`.
    pub fn read(data: &[u8], pos: usize, channel: u8) -> (r: Result<
        (PitchBend, usize),
        DecodeError,
    >)
        ensures
            decodes_to(r, spec_voice_pitch_bend(data@, pos as int, channel)),
    {
        let d1: u8 = match read_u8(data, pos) {
            Ok(b) => b,
            Err(e) => return Err(e),
        };
        let d2: u8 = match read_u8(data, pos + 1) {
            Ok(b) => b,
            Err(e) => return Err(e),
        };
        Ok((PitchBend { channel, value: (d2 as u16) * 0x80 + (d1 as u16) }, pos + 2))
    }
}

} // verus!
