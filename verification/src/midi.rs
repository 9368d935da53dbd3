//! Channel-message payload decoding for the running-status event decoder.
//!
//! Each `read` takes the first data byte as an `Option`: when an event
//! reuses the track's running status, its first data byte has already been
//! consumed by the dispatcher (it was the byte whose clear high bit
//! signalled the reuse), and must not be read again from the stream.
//! Data bytes are stored as read; their 7-bit range is not re-validated,
//! mirroring the permissiveness of common SMF readers.

use vstd::prelude::*;

use crate::bytes::{decodes_to, read_u8, spec_u8};
use crate::error::DecodeError;

verus! {

/// A note going on or off: the key and how hard it was struck or released.
#[derive(Clone, Copy, Debug, PartialEq, Eq)]
pub struct NoteChange {
    pub key: u8,
    pub velocity: u8,
}

impl View for NoteChange {
    type V = NoteChange;

    open spec fn view(&self) -> NoteChange {
        *self
    }
}

/// Pressure applied to one held key.
#[derive(Clone, Copy, Debug, PartialEq, Eq)]
pub struct PolyphonicKeyPressure {
    pub key: u8,
    pub pressure: u8,
}

impl View for PolyphonicKeyPressure {
    type V = PolyphonicKeyPressure;

    open spec fn view(&self) -> PolyphonicKeyPressure {
        *self
    }
}

/// A controller moved to a new value.
#[derive(Clone, Copy, Debug, PartialEq, Eq)]
pub struct ControllerChange {
    pub controller_number: u8,
    pub controller_value: u8,
}

impl View for ControllerChange {
    type V = ControllerChange;

    open spec fn view(&self) -> ControllerChange {
        *self
    }
}

/// A program (patch) selection.
#[derive(Clone, Copy, Debug, PartialEq, Eq)]
pub struct ProgramChange {
    pub new_program_number: u8,
}

impl View for ProgramChange {
    type V = ProgramChange;

    open spec fn view(&self) -> ProgramChange {
        *self
    }
}

/// Pressure applied to the whole channel.
#[derive(Clone, Copy, Debug, PartialEq, Eq)]
pub struct ChannelKeyPressure {
    pub value: u8,
}

impl View for ChannelKeyPressure {
    type V = ChannelKeyPressure;

    open spec fn view(&self) -> ChannelKeyPressure {
        *self
    }
}

/// A 14-bit pitch-bend value, composed as `lsb | (msb << 7)` from the two
/// data bytes, least significant first.
#[derive(Clone, Copy, Debug, PartialEq, Eq)]
pub struct PitchBend {
    pub value: u16,
}

impl View for PitchBend {
    type V = PitchBend;

    open spec fn view(&self) -> PitchBend {
        *self
    }
}

/// The first data byte of a channel message: the byte already consumed by
/// the dispatcher when running status was reused, or the byte at `pos`.
pub open spec fn spec_data_one(s: Seq<u8>, pos: int, first: Option<u8>) -> Result<
    (u8, int),
    DecodeError,
> {
    match first {
        Some(d) => Ok((d, pos)),
        None => match spec_u8(s, pos) {
            Ok(b) => Ok((b, pos + 1)),
            Err(e) => Err(e),
        },
    }
}

/// The two data bytes of a channel message, honouring an already-consumed
/// first byte.
pub open spec fn spec_data_two(s: Seq<u8>, pos: int, first: Option<u8>) -> Result<
    ((u8, u8), int),
    DecodeError,
> {
    match spec_data_one(s, pos, first) {
        Err(e) => Err(e),
        Ok((d1, p)) => match spec_u8(s, p) {
            Ok(d2) => Ok(((d1, d2), p + 1)),
            Err(e) => Err(e),
        },
    }
}

/// A note-on or note-off payload: key then velocity.
pub open spec fn spec_note_change(s: Seq<u8>, pos: int, first: Option<u8>) -> Result<
    (NoteChange, int),
    DecodeError,
> {
    match spec_data_two(s, pos, first) {
        Ok(((d1, d2), p)) => Ok((NoteChange { key: d1, velocity: d2 }, p)),
        Err(e) => Err(e),
    }
}

/// A polyphonic key pressure payload: key then pressure.
pub open spec fn spec_polyphonic_key_pressure(s: Seq<u8>, pos: int, first: Option<u8>) -> Result<
    (PolyphonicKeyPressure, int),
    DecodeError,
> {
    match spec_data_two(s, pos, first) {
        Ok(((d1, d2), p)) => Ok((PolyphonicKeyPressure { key: d1, pressure: d2 }, p)),
        Err(e) => Err(e),
    }
}

/// A controller change payload: controller number then value.
pub open spec fn spec_controller_change(s: Seq<u8>, pos: int, first: Option<u8>) -> Result<
    (ControllerChange, int),
    DecodeError,
> {
    match spec_data_two(s, pos, first) {
        Ok(((d1, d2), p)) => Ok(
            (ControllerChange { controller_number: d1, controller_value: d2 }, p),
        ),
        Err(e) => Err(e),
    }
}

/// A program change payload: the single program number byte.
pub open spec fn spec_program_change(s: Seq<u8>, pos: int, first: Option<u8>) -> Result<
    (ProgramChange, int),
    DecodeError,
> {
    match spec_data_one(s, pos, first) {
        Ok((d1, p)) => Ok((ProgramChange { new_program_number: d1 }, p)),
        Err(e) => Err(e),
    }
}

/// A channel key pressure payload: the single pressure byte.
pub open spec fn spec_channel_key_pressure(s: Seq<u8>, pos: int, first: Option<u8>) -> Result<
    (ChannelKeyPressure, int),
    DecodeError,
> {
    match spec_data_one(s, pos, first) {
        Ok((d1, p)) => Ok((ChannelKeyPressure { value: d1 }, p)),
        Err(e) => Err(e),
    }
}

/// A pitch-bend payload: least significant seven bits first, then the most
/// significant seven, composed by shift and or.
pub open spec fn spec_pitch_bend(s: Seq<u8>, pos: int, first: Option<u8>) -> Result<
    (PitchBend, int),
    DecodeError,
> {
    match spec_data_two(s, pos, first) {
        Ok(((d1, d2), p)) => Ok(
            (PitchBend { value: ((d2 as int) * 0x80 + (d1 as int)) as u16 }, p),
        ),
        Err(e) => Err(e),
    }
}

impl NoteChange {
    /// Decodes a note-on or note-off payload.
    pub fn read(data: &[u8], pos: usize, first_data: Option<u8>) -> (r: Result<
        (NoteChange, usize),
        DecodeError,
    >)
        ensures
            decodes_to(r, spec_note_change(data@, pos as int, first_data)),
    {
        let (d1, p1): (u8, usize) = match read_first(data, pos, first_data) {
            Ok(v) => v,
            Err(e) => return Err(e),
        };
        let d2: u8 = match read_u8(data, p1) {
            Ok(b) => b,
            Err(e) => return Err(e),
        };
        Ok((NoteChange { key: d1, velocity: d2 }, p1 + 1))
    }
}

impl PolyphonicKeyPressure {
    /// Decodes a polyphonic key pressure payload.
    pub fn read(data: &[u8], pos: usize, first_data: Option<u8>) -> (r: Result<
        (PolyphonicKeyPressure, usize),
        DecodeError,
    >)
        ensures
            decodes_to(r, spec_polyphonic_key_pressure(data@, pos as int, first_data)),
    {
        let (d1, p1): (u8, usize) = match read_first(data, pos, first_data) {
            Ok(v) => v,
            Err(e) => return Err(e),
        };
        let d2: u8 = match read_u8(data, p1) {
            Ok(b) => b,
            Err(e) => return Err(e),
        };
        Ok((PolyphonicKeyPressure { key: d1, pressure: d2 }, p1 + 1))
    }
}

impl ControllerChange {
    /// Decodes a controller change payload.
    pub fn read(data: &[u8], pos: usize, first_data: Option<u8>) -> (r: Result<
        (ControllerChange, usize),
        DecodeError,
    >)
        ensures
            decodes_to(r, spec_controller_change(data@, pos as int, first_data)),
    {
        let (d1, p1): (u8, usize) = match read_first(data, pos, first_data) {
            Ok(v) => v,
            Err(e) => return Err(e),
        };
        let d2: u8 = match read_u8(data, p1) {
            Ok(b) => b,
            Err(e) => return Err(e),
        };
        Ok((ControllerChange { controller_number: d1, controller_value: d2 }, p1 + 1))
    }
}

impl ProgramChange {
    /// Decodes a program change payload.
    pub fn read(data: &[u8], pos: usize, first_data: Option<u8>) -> (r: Result<
        (ProgramChange, usize),
        DecodeError,
    >)
        ensures
            decodes_to(r, spec_program_change(data@, pos as int, first_data)),
    {
        let (d1, p1): (u8, usize) = match read_first(data, pos, first_data) {
            Ok(v) => v,
            Err(e) => return Err(e),
        };
        Ok((ProgramChange { new_program_number: d1 }, p1))
    }
}

impl ChannelKeyPressure {
    /// Decodes a channel key pressure payload.
    pub fn read(data: &[u8], pos: usize, first_data: Option<u8>) -> (r: Result<
        (ChannelKeyPressure, usize),
        DecodeError,
    >)
        ensures
            decodes_to(r, spec_channel_key_pressure(data@, pos as int, first_data)),
    {
        let (d1, p1): (u8, usize) = match read_first(data, pos, first_data) {
            Ok(v) => v,
            Err(e) => return Err(e),
        };
        Ok((ChannelKeyPressure { value: d1 }, p1))
    }
}

impl PitchBend {
    /// Decodes a pitch-bend payload, composing the 14-bit value from its
    /// two 7-bit halves.
    pub fn read(data: &[u8], pos: usize, first_data: Option<u8>) -> (r: Result<
        (PitchBend, usize),
        DecodeError,
    >)
        ensures
            decodes_to(r, spec_pitch_bend(data@, pos as int, first_data)),
    {
        let (d1, p1): (u8, usize) = match read_first(data, pos, first_data) {
            Ok(v) => v,
            Err(e) => return Err(e),
        };
        let d2: u8 = match read_u8(data, p1) {
            Ok(b) => b,
            Err(e) => return Err(e),
        };
        Ok((PitchBend { value: (d2 as u16) * 0x80 + (d1 as u16) }, p1 + 1))
    }
}

/// Yields the already-consumed first data byte, or reads it at `pos`.
fn read_first(data: &[u8], pos: usize, first_data: Option<u8>) -> (r: Result<
    (u8, usize),
    DecodeError,
>)
    ensures
        match (r, spec_data_one(data@, pos as int, first_data)) {
            (Ok((d, p)), Ok((sd, sp))) => d == sd && p as int == sp,
            (Err(e), Err(se)) => e == se,
            _ => false,
        },
{
    match first_data {
        Some(d) => Ok((d, pos)),
        None => match read_u8(data, pos) {
            Ok(b) => Ok((b, pos + 1)),
            Err(e) => Err(e),
        },
    }
}

} // verus!
