//! Primitive reads from an in-memory byte stream.
//!
//! The decoder works over a borrowed byte slice and an explicit position.
//! Each helper has a spec-level counterpart over `Seq<u8>` and an `int`
//! position, and the executable read is proved to return exactly what the
//! spec-level read describes.  A read past the end of the slice fails with
//! [`DecodeError::UnexpectedEndOfInput`].

use vstd::prelude::*;

use crate::error::DecodeError;

verus! {

/// Relates an executable decode result to its spec-level counterpart: on
/// success the decoded value's view and the new position agree, on failure
/// the errors agree.
pub open spec fn decodes_to<T: View>(
    r: Result<(T, usize), DecodeError>,
    s: Result<(T::V, int), DecodeError>,
) -> bool {
    match (r, s) {
        (Ok((v, p)), Ok((sv, sp))) => v@ == sv && p as int == sp,
        (Err(e), Err(se)) => e == se,
        _ => false,
    }
}

/// As [`decodes_to`], for decoders that also hand back the track's
/// running-status state.
pub open spec fn decodes_to_with_status<T: View>(
    r: Result<(T, usize, Option<u8>), DecodeError>,
    s: Result<(T::V, int, Option<u8>), DecodeError>,
) -> bool {
    match (r, s) {
        (Ok((v, p, rs)), Ok((sv, sp, srs))) => v@ == sv && p as int == sp && rs == srs,
        (Err(e), Err(se)) => e == se,
        _ => false,
    }
}

/// The byte at `pos`, or an end-of-input error.
pub open spec fn spec_u8(s: Seq<u8>, pos: int) -> Result<u8, DecodeError> {
    if 0 <= pos < s.len() {
        Ok(s[pos])
    } else {
        Err(DecodeError::UnexpectedEndOfInput)
    }
}

/// The big-endian 16-bit integer at `pos`.
pub open spec fn spec_be_u16(s: Seq<u8>, pos: int) -> Result<u16, DecodeError> {
    if 0 <= pos && pos + 2 <= s.len() {
        Ok(((s[pos] as int) * 0x100 + (s[pos + 1] as int)) as u16)
    } else {
        Err(DecodeError::UnexpectedEndOfInput)
    }
}

/// The big-endian 32-bit integer at `pos`.
pub open spec fn spec_be_u32(s: Seq<u8>, pos: int) -> Result<u32, DecodeError> {
    if 0 <= pos && pos + 4 <= s.len() {
        Ok(((s[pos] as int) * 0x1000000 + (s[pos + 1] as int) * 0x10000 + (s[pos + 2] as int)
            * 0x100 + (s[pos + 3] as int)) as u32)
    } else {
        Err(DecodeError::UnexpectedEndOfInput)
    }
}

/// The `n` raw bytes starting at `pos`.
pub open spec fn spec_take(s: Seq<u8>, pos: int, n: int) -> Result<Seq<u8>, DecodeError> {
    if 0 <= pos && 0 <= n && pos + n <= s.len() {
        Ok(s.subrange(pos, pos + n))
    } else {
        Err(DecodeError::UnexpectedEndOfInput)
    }
}

/// Reads one byte.
pub fn read_u8(data: &[u8], pos: usize) -> (r: Result<u8, DecodeError>)
    ensures
        r == spec_u8(data@, pos as int),
        data@.len() <= usize::MAX,
{
    if pos < data.len() {
        Ok(data[pos])
    } else {
        Err(DecodeError::UnexpectedEndOfInput)
    }
}

/// Reads a big-endian 16-bit integer.
pub fn read_be_u16(data: &[u8], pos: usize) -> (r: Result<u16, DecodeError>)
    ensures
        r == spec_be_u16(data@, pos as int),
        data@.len() <= usize::MAX,
{
    if data.len() >= 2 && pos <= data.len() - 2 {
        Ok((data[pos] as u16) * 0x100 + (data[pos + 1] as u16))
    } else {
        Err(DecodeError::UnexpectedEndOfInput)
    }
}

/// Reads a big-endian 32-bit integer.
pub fn read_be_u32(data: &[u8], pos: usize) -> (r: Result<u32, DecodeError>)
    ensures
        r == spec_be_u32(data@, pos as int),
        data@.len() <= usize::MAX,
{
    if data.len() >= 4 && pos <= data.len() - 4 {
        Ok(
            (data[pos] as u32) * 0x1000000 + (data[pos + 1] as u32) * 0x10000 + (data[pos
                + 2] as u32) * 0x100 + (data[pos + 3] as u32),
        )
    } else {
        Err(DecodeError::UnexpectedEndOfInput)
    }
}

/// Copies the `n` raw bytes starting at `pos` into an owned vector.
pub fn take_bytes(data: &[u8], pos: usize, n: usize) -> (r: Result<Vec<u8>, DecodeError>)
    ensures
        match (r, spec_take(data@, pos as int, n as int)) {
            (Ok(v), Ok(sv)) => v@ == sv,
            (Err(e), Err(se)) => e == se,
            _ => false,
        },
        data@.len() <= usize::MAX,
{
    if data.len() >= n && pos <= data.len() - n {
        let mut out: Vec<u8> = Vec::new();
        let mut i: usize = 0;
        while i < n
            invariant
                i <= n,
                pos + n <= data.len(),
                out@ == data@.subrange(pos as int, pos + i),
            decreases n - i,
        {
            out.push(data[pos + i]);
            i = i + 1;
            proof {
                assert(out@ =~= data@.subrange(pos as int, pos + i));
            }
        }
        Ok(out)
    } else {
        Err(DecodeError::UnexpectedEndOfInput)
    }
}

} // verus!
