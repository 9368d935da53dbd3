//! The Standard MIDI File header chunk.
//!
//! Layout, big-endian throughout: the tag `MThd`, a 4-byte declared
//! length, then the three 2-byte fields format, track count and division.
//! Any declared bytes beyond the six fixed field bytes are skipped, so a
//! forward-compatible extended header is tolerated; the chunk's total
//! extent is always `8 + length` bytes.

use vstd::prelude::*;

use crate::bytes::{decodes_to, read_be_u16, read_be_u32, spec_be_u16, spec_be_u32};
use crate::error::DecodeError;

verus! {

/// The file's track layout, from the header's format field.
#[derive(Clone, Copy, Debug, PartialEq, Eq)]
pub enum MidiFormat {
    SingleTrack,
    SimultaneousTracks,
    IndependentTracks,
}

/// The header's division field: how delta-times are to be interpreted.
#[derive(Clone, Copy, Debug, PartialEq, Eq)]
pub enum MidiDivisionsType {
    TicksPerQuarterNote(MidiTPQNDivisions),
    SMTPEFrames(MidiSMTPEDivisions),
}

/// Delta-times count ticks of a quarter note divided in this many parts.
#[derive(Clone, Copy, Debug, PartialEq, Eq)]
pub struct MidiTPQNDivisions {
    pub ticks_per_quarter_note: u16,
}

/// Delta-times count ticks of an SMPTE frame.
///
/// `smtpe_frames_per_second` holds the division field's high byte
/// unchanged: a two's-complement code for the negative of the frame rate
/// (for example `0xE8` for 24 frames per second), with bit 7 set.
/// `ticks_per_smtpe_frame` holds the low byte.
#[derive(Clone, Copy, Debug, PartialEq, Eq)]
pub struct MidiSMTPEDivisions {
    pub ticks_per_smtpe_frame: u16,
    pub smtpe_frames_per_second: u16,
}

/// The decoded header chunk.
#[derive(Clone, Copy, Debug, PartialEq, Eq)]
pub struct SMFHeaderChunk {
    pub length: u32,
    pub format: MidiFormat,
    pub nb_tracks: u16,
    pub division_system: MidiDivisionsType,
}

impl View for SMFHeaderChunk {
    type V = SMFHeaderChunk;

    open spec fn view(&self) -> SMFHeaderChunk {
        *self
    }
}

/// Whether the four bytes at `pos` are exactly `t0 t1 t2 t3`.
pub open spec fn spec_magic_matches(s: Seq<u8>, pos: int, t0: u8, t1: u8, t2: u8, t3: u8) -> bool {
    s[pos] == t0 && s[pos + 1] == t1 && s[pos + 2] == t2 && s[pos + 3] == t3
}

/// The division field decoded: bit 15 clear means ticks per quarter note,
/// bit 15 set means SMPTE, with the high byte the frames-per-second code
/// and the low byte the ticks per frame.
pub open spec fn spec_division(div: u16) -> MidiDivisionsType {
    if div < 0x8000 {
        MidiDivisionsType::TicksPerQuarterNote(
            MidiTPQNDivisions { ticks_per_quarter_note: div },
        )
    } else {
        MidiDivisionsType::SMTPEFrames(
            MidiSMTPEDivisions {
                ticks_per_smtpe_frame: (div % 0x100) as u16,
                smtpe_frames_per_second: (div / 0x100) as u16,
            },
        )
    }
}

/// The header's format field decoded; codes outside `{0, 1, 2}` are
/// unsupported.
pub open spec fn spec_format(format_num: u16) -> Result<MidiFormat, DecodeError> {
    if format_num == 0 {
        Ok(MidiFormat::SingleTrack)
    } else if format_num == 1 {
        Ok(MidiFormat::SimultaneousTracks)
    } else if format_num == 2 {
        Ok(MidiFormat::IndependentTracks)
    } else {
        Err(DecodeError::UnsupportedFormat { format: format_num })
    }
}

/// The header chunk starting at `pos`, and the position just past its
/// declared extent.
pub open spec fn spec_header(s: Seq<u8>, pos: int) -> Result<(SMFHeaderChunk, int), DecodeError> {
    if pos < 0 || pos + 4 > s.len() {
        Err(DecodeError::UnexpectedEndOfInput)
    } else if !spec_magic_matches(s, pos, 0x4D, 0x54, 0x68, 0x64) {
        Err(DecodeError::BadMagic)
    } else {
        match spec_be_u32(s, pos + 4) {
            Err(e) => Err(e),
            Ok(length) => match spec_be_u16(s, pos + 8) {
                Err(e) => Err(e),
                Ok(format_num) => match spec_format(format_num) {
                    Err(e) => Err(e),
                    Ok(format) => match spec_be_u16(s, pos + 10) {
                        Err(e) => Err(e),
                        Ok(nb_tracks) => match spec_be_u16(s, pos + 12) {
                            Err(e) => Err(e),
                            Ok(div) => {
                                if pos + 8 + length <= s.len() {
                                    Ok(
                                        (
                                            SMFHeaderChunk {
                                                length,
                                                format,
                                                nb_tracks,
                                                division_system: spec_division(div),
                                            },
                                            pos + 8 + length,
                                        ),
                                    )
                                } else {
                                    Err(DecodeError::UnexpectedEndOfInput)
                                }
                            },
                        },
                    },
                },
            },
        }
    }
}

impl SMFHeaderChunk {
    /// Decodes the header chunk at `pos`.
    ///
    /// On success the returned position lies just past the chunk's
    /// declared extent: declared bytes beyond the six field bytes are
    /// skipped unread.
    pub fn read(data: &[u8], pos: usize) -> (r: Result<(SMFHeaderChunk, usize), DecodeError>)
        ensures
            decodes_to(r, spec_header(data@, pos as int)),
    {
        if data.len() < 4 || pos > data.len() - 4 {
            return Err(DecodeError::UnexpectedEndOfInput);
        }
        if !(data[pos] == 0x4D && data[pos + 1] == 0x54 && data[pos + 2] == 0x68 && data[pos + 3]
            == 0x64) {
            return Err(DecodeError::BadMagic);
        }
        let length: u32 = match read_be_u32(data, pos + 4) {
            Ok(v) => v,
            Err(e) => return Err(e),
        };
        let format_num: u16 = match read_be_u16(data, pos + 8) {
            Ok(v) => v,
            Err(e) => return Err(e),
        };
        let format: MidiFormat = if format_num == 0 {
            MidiFormat::SingleTrack
        } else if format_num == 1 {
            MidiFormat::SimultaneousTracks
        } else if format_num == 2 {
            MidiFormat::IndependentTracks
        } else {
            return Err(DecodeError::UnsupportedFormat { format: format_num });
        };
        let nb_tracks: u16 = match read_be_u16(data, pos + 10) {
            Ok(v) => v,
            Err(e) => return Err(e),
        };
        let div: u16 = match read_be_u16(data, pos + 12) {
            Ok(v) => v,
            Err(e) => return Err(e),
        };
        let division_system: MidiDivisionsType = if div < 0x8000 {
            MidiDivisionsType::TicksPerQuarterNote(
                MidiTPQNDivisions { ticks_per_quarter_note: div },
            )
        } else {
            MidiDivisionsType::SMTPEFrames(
                MidiSMTPEDivisions {
                    ticks_per_smtpe_frame: div % 0x100,
                    smtpe_frames_per_second: div / 0x100,
                },
            )
        };
        let payload_start: usize = pos + 8;
        if (length as usize) > data.len() - payload_start {
            return Err(DecodeError::UnexpectedEndOfInput);
        }
        Ok(
            (
                SMFHeaderChunk { length, format, nb_tracks, division_system },
                payload_start + (length as usize),
            ),
        )
    }
}

} // verus!
