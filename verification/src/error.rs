//! The error taxonomy of the decoder.
//!
//! Every error is fatal for the decode call that raised it: the decoder
//! returns the first error it meets and never yields a partial result.

use vstd::prelude::*;

verus! {

/// Why a decode call failed.
///
/// The variants carry the offending byte or the expected-versus-declared
/// sizes so that a caller can report what went wrong.
#[derive(Clone, Copy, Debug, PartialEq, Eq)]
pub enum DecodeError {
    /// A chunk tag was not the one expected for its context
    /// (`MThd` for the header chunk, `MTrk` for a track chunk).
    BadMagic,
    /// The header's format code was outside `{0, 1, 2}`.
    UnsupportedFormat { format: u16 },
    /// A variable-length quantity ran past five encoded bytes.
    VlqOverflow,
    /// A data byte (high bit clear) appeared with no prior channel-message
    /// status byte in the same track.
    NoRunningStatus { data_byte: u8 },
    /// A status byte in the unassigned range `0xF1..=0xF6` or `0xF8..=0xFE`.
    UnsupportedStatus { status: u8 },
    /// A fixed-size meta event declared a payload length other than the
    /// size its sub-type mandates.
    MetaLengthMismatch { sub_type: u8, expected: u32, declared: u32 },
    /// A track's event loop consumed more bytes than the chunk declared.
    ChunkLengthMismatch { declared: u32, consumed: usize },
    /// The input ended before a required read completed.
    UnexpectedEndOfInput,
}

} // verus!
