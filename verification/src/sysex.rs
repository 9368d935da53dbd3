//! System-exclusive payloads.
//!
//! A sysex event carries a VLQ-encoded length followed by that many raw
//! bytes, stored verbatim: the payload is vendor-defined and never
//! interpreted here.

use vstd::prelude::*;

use crate::bytes::{decodes_to, spec_take, take_bytes};
use crate::error::DecodeError;
use crate::{read_vlv, spec_read_vlv};

verus! {

/// A raw system-exclusive payload: its declared length and its bytes.
#[derive(Clone, Debug, PartialEq, Eq)]
pub struct Sysex {
    pub length: u32,
    pub data: Vec<u8>,
}

/// The mathematical value of a [`Sysex`]: the same fields with the bytes
/// as a sequence.
pub struct SpecSysex {
    pub length: u32,
    pub data: Seq<u8>,
}

impl View for Sysex {
    type V = SpecSysex;

    open spec fn view(&self) -> SpecSysex {
        SpecSysex { length: self.length, data: self.data@ }
    }
}

/// The sysex payload at `pos`: a VLQ length, then exactly that many raw
/// bytes.
pub open spec fn spec_sysex(s: Seq<u8>, pos: int) -> Result<(SpecSysex, int), DecodeError> {
    match spec_read_vlv(s, pos) {
        Err(e) => Err(e),
        Ok((v, n)) => {
            let declared = (v % 0x1_0000_0000) as u32;
            match spec_take(s, pos + n, declared as int) {
                Ok(b) => Ok((SpecSysex { length: declared, data: b }, pos + n + declared)),
                Err(e) => Err(e),
            }
        },
    }
}

impl Sysex {
    /// Decodes a sysex payload at `pos`.
    pub fn read(data: &[u8], pos: usize) -> (r: Result<(Sysex, usize), DecodeError>)
        ensures
            decodes_to(r, spec_sysex(data@, pos as int)),
    {
        let (vlv, p): (crate::VLV, usize) = match read_vlv(data, pos) {
            Ok(v) => v,
            Err(e) => return Err(e),
        };
        let declared: u32 = vlv.data;
        let payload: Vec<u8> = match take_bytes(data, p, declared as usize) {
            Ok(v) => v,
            Err(e) => return Err(e),
        };
        Ok((Sysex { length: declared, data: payload }, p + (declared as usize)))
    }
}

} // verus!
