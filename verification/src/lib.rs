//! A decoder for Standard MIDI Files (SMF).
//!
//! The crate turns an in-memory byte stream into a structured file value:
//! a header chunk followed by track chunks, each track an ordered sequence
//! of delta-timed events (channel messages, system-exclusive payloads and
//! meta events).  Every decoding function is specified against a spec-level
//! parser over `Seq<u8>`, and the executable code is proved to return
//! exactly what that parser describes, including which error each
//! malformed input yields.
//!
//! This module holds the variable-length-quantity (VLQ) codec: MIDI's
//! big-endian base-128 integer encoding, one to five bytes, where bit 7 of
//! each byte flags a continuation and the low seven bits carry the value.

use vstd::prelude::*;

pub mod bytes;
pub mod channel_mode_message;
pub mod channel_voice_message;
pub mod error;
pub mod event;
pub mod file;
pub mod header;
pub mod meta;
pub mod midi;
pub mod sysex;
pub mod track;

use crate::error::DecodeError;

verus! {

/// A decoded variable-length quantity: the value and how many encoded
/// bytes it occupied.
///
/// `real_length` is always between 1 and 5: a quantity of more than five
/// encoded bytes is rejected with [`DecodeError::VlqOverflow`].
#[derive(Clone, Copy, Debug, PartialEq, Eq)]
pub struct VLV {
    pub real_length: u8,
    pub data: u32,
}

/// One step of the spec-level VLQ scan: `acc` is the value of the bytes
/// already consumed and `count` how many continuation bytes preceded the
/// current position.  On success the result is the full (untruncated)
/// value together with the total number of encoded bytes.
///
/// For a byte `b`, `b >= 0x80` says the continuation bit is set and
/// `b % 0x80` is its seven value bits, so the accumulation
/// `acc * 0x80 + b % 0x80` is the shift-and-or composition of the
/// published format.
pub open spec fn spec_vlv_step(s: Seq<u8>, pos: int, acc: nat, count: nat) -> Result<
    (nat, nat),
    DecodeError,
>
    decreases 5 - count,
{
    if pos < 0 || pos >= s.len() {
        Err(DecodeError::UnexpectedEndOfInput)
    } else {
        let b = s[pos];
        let acc2 = acc * 0x80 + (b % 0x80) as nat;
        if b < 0x80 {
            Ok((acc2, count + 1))
        } else if count >= 4 {
            Err(DecodeError::VlqOverflow)
        } else {
            spec_vlv_step(s, pos + 1, acc2, count + 1)
        }
    }
}

/// The VLQ starting at `pos`: its full value and its length in bytes.
pub open spec fn spec_read_vlv(s: Seq<u8>, pos: int) -> Result<(nat, nat), DecodeError> {
    spec_vlv_step(s, pos, 0, 0)
}

/// A successful scan that started after `count` continuation bytes ends
/// after at most five bytes in all, and stays within the input.
pub proof fn lemma_vlv_step_len(s: Seq<u8>, pos: int, acc: nat, count: nat)
    requires
        count <= 4,
    ensures
        match spec_vlv_step(s, pos, acc, count) {
            Ok((v, n)) => count < n <= 5 && 0 <= pos && pos + (n - count) <= s.len(),
            Err(_) => true,
        },
    decreases 5 - count,
{
    if 0 <= pos < s.len() {
        let b = s[pos];
        if b >= 0x80 && count < 4 {
            lemma_vlv_step_len(s, pos + 1, acc * 0x80 + (b % 0x80) as nat, count + 1);
        }
    }
}

/// A successful VLQ occupies between one and five bytes, all inside the
/// input.
pub proof fn lemma_vlv_len(s: Seq<u8>, pos: int)
    ensures
        match spec_read_vlv(s, pos) {
            Ok((v, n)) => 1 <= n <= 5 && 0 <= pos && pos + n <= s.len(),
            Err(_) => true,
        },
{
    lemma_vlv_step_len(s, pos, 0, 0);
}

/// Reads one variable-length quantity.
///
/// The stored `data` field is the decoded value reduced to 32 bits: only a
/// five-byte quantity can carry more than 32 value bits, and its high bits
/// are discarded, as a 32-bit shift-and-or accumulator would discard them.
pub fn read_vlv(data: &[u8], pos: usize) -> (r: Result<(VLV, usize), DecodeError>)
    ensures
        match (r, spec_read_vlv(data@, pos as int)) {
            (Ok((v, p)), Ok(sv)) => v.data == sv.0 % 0x1_0000_0000 && v.real_length == sv.1 && p
                == pos + sv.1 && 1 <= sv.1 <= 5 && p <= data@.len(),
            (Err(e), Err(se)) => e == se,
            _ => false,
        },
        data@.len() <= usize::MAX,
{
    let mut acc: u64 = 0;
    let mut count: u8 = 0;
    let mut p: usize = pos;
    loop
        invariant
            p == pos + count,
            count <= 4,
            count == 0 ==> acc == 0,
            count == 1 ==> acc < 0x80,
            count == 2 ==> acc < 0x4000,
            count == 3 ==> acc < 0x20_0000,
            count == 4 ==> acc < 0x1000_0000,
            spec_read_vlv(data@, pos as int) == spec_vlv_step(
                data@,
                p as int,
                acc as nat,
                count as nat,
            ),
        decreases 5 - count,
    {
        if p >= data.len() {
            return Err(DecodeError::UnexpectedEndOfInput);
        }
        let b = data[p];
        p = p + 1;
        acc = acc * 0x80 + (b % 0x80) as u64;
        if b < 0x80 {
            return Ok(
                (
                    VLV { real_length: count + 1, data: (acc % 0x1_0000_0000) as u32 },
                    p,
                ),
            );
        }
        if count >= 4 {
            return Err(DecodeError::VlqOverflow);
        }
        count = count + 1;
    }
}

/// The base-128 digits of `v`'s high part (everything above the final
/// digit), each with its continuation bit set, most significant first.
pub open spec fn spec_encode_vlv_hi(v: nat) -> Seq<u8>
    decreases v,
{
    if v == 0 {
        Seq::empty()
    } else {
        spec_encode_vlv_hi(v / 0x80).push((0x80 + v % 0x80) as u8)
    }
}

/// The VLQ encoding of `v`: its high digits with continuation bits set,
/// then its final digit with the bit clear.  This is the shortest
/// encoding of `v`.
pub open spec fn spec_encode_vlv(v: nat) -> Seq<u8> {
    spec_encode_vlv_hi(v / 0x80).push((v % 0x80) as u8)
}

/// The least number of base-128 digits that can carry `v`: the length
/// of `v`'s minimal VLQ encoding.
pub open spec fn spec_vlv_min_len(v: nat) -> nat {
    if v < 0x80 {
        1
    } else if v < 0x4000 {
        2
    } else if v < 0x20_0000 {
        3
    } else if v < 0x1000_0000 {
        4
    } else {
        5
    }
}

/// 128 raised to `n`: the place value of the `n`-th base-128 digit.
pub open spec fn pow128(n: nat) -> nat
    decreases n,
{
    if n == 0 {
        1nat
    } else {
        128 * pow128((n - 1) as nat)
    }
}

/// How many high digits a value below 2^32 has.
pub proof fn lemma_encode_hi_len(v: nat)
    requires
        v < 0x1_0000_0000,
    ensures
        spec_encode_vlv_hi(v).len() == (if v == 0 {
            0nat
        } else if v < 0x80 {
            1nat
        } else if v < 0x4000 {
            2nat
        } else if v < 0x20_0000 {
            3nat
        } else if v < 0x1000_0000 {
            4nat
        } else {
            5nat
        }),
    decreases v,
{
    if v > 0 {
        lemma_encode_hi_len(v / 0x80);
    }
}

/// Scanning across the encoded high digits of `w` multiplies the
/// accumulator by the digits' place value and adds `w`, and leaves the
/// scan just past them.
proof fn lemma_scan_hi(s: Seq<u8>, pos: int, acc: nat, count: nat, w: nat)
    requires
        0 <= pos,
        pos + spec_encode_vlv_hi(w).len() <= s.len(),
        s.subrange(pos, pos + spec_encode_vlv_hi(w).len()) == spec_encode_vlv_hi(w),
        count + spec_encode_vlv_hi(w).len() <= 4,
    ensures
        spec_vlv_step(s, pos, acc, count) == spec_vlv_step(
            s,
            pos + spec_encode_vlv_hi(w).len(),
            acc * pow128(spec_encode_vlv_hi(w).len()) + w,
            count + spec_encode_vlv_hi(w).len(),
        ),
    decreases w,
{
    let hi = spec_encode_vlv_hi(w);
    let len = hi.len();
    if w == 0 {
        assert(acc * pow128(0) + 0 == acc);
    } else {
        let hi_prev = spec_encode_vlv_hi(w / 0x80);
        let lp = hi_prev.len();
        let b = (0x80 + w % 0x80) as u8;
        assert(hi == hi_prev.push(b));
        assert(s.subrange(pos, pos + lp) =~= hi_prev);
        lemma_scan_hi(s, pos, acc, count, w / 0x80);
        let acc2 = acc * pow128(lp) + w / 0x80;
        assert(hi[lp as int] == b);
        assert(s.subrange(pos, pos + len as int)[lp as int] == s[pos + lp]);
        assert(s[pos + lp] == b);
        assert(b >= 0x80 && b % 0x80 == w % 0x80);
        assert(spec_vlv_step(s, pos + lp, acc2, count + lp) == spec_vlv_step(
            s,
            pos + len,
            acc2 * 0x80 + w % 0x80,
            count + len,
        ));
        assert(acc2 * 0x80 + w % 0x80 == acc * pow128(len) + w) by (nonlinear_arith)
            requires
                acc2 == acc * pow128(lp) + w / 0x80,
                pow128(len) == 0x80 * pow128(lp),
                w == 0x80 * (w / 0x80) + w % 0x80,
        ;
    }
}

/// The round trip law of the VLQ codec: decoding the encoding of any
/// value in the 28-bit range yields that value back, having consumed
/// exactly the encoding, whose length is the minimal number of base-128
/// digits for the value.
pub proof fn lemma_vlv_round_trip(v: u32)
    requires
        v <= 0x0FFF_FFFF,
    ensures
        spec_encode_vlv(v as nat).len() == spec_vlv_min_len(v as nat),
        spec_read_vlv(spec_encode_vlv(v as nat), 0) == Ok::<(nat, nat), DecodeError>(
            ((v as nat), spec_vlv_min_len(v as nat)),
        ),
{
    let w = (v as nat) / 0x80;
    let enc = spec_encode_vlv(v as nat);
    lemma_encode_hi_len(w);
    let hi_len = spec_encode_vlv_hi(w).len();
    assert(enc.subrange(0, hi_len as int) =~= spec_encode_vlv_hi(w));
    lemma_scan_hi(enc, 0, 0, 0, w);
    assert(0 * pow128(hi_len) + w == w);
    assert(enc[hi_len as int] == ((v as nat) % 0x80) as u8);
    assert(spec_vlv_step(enc, hi_len as int, w, hi_len) == Ok::<(nat, nat), DecodeError>(
        (w * 0x80 + (v as nat) % 0x80, hi_len + 1),
    ));
}

/// Appends the encoded high digits of `v`, continuation bits set, most
/// significant first.
fn encode_vlv_hi(v: u32, out: &mut Vec<u8>)
    ensures
        final(out)@ == old(out)@ + spec_encode_vlv_hi(v as nat),
    decreases v,
{
    if v > 0 {
        encode_vlv_hi(v / 0x80, out);
        out.push(0x80 + (v % 0x80) as u8);
    } else {
        proof {
            assert(old(out)@ + spec_encode_vlv_hi(0) =~= old(out)@);
        }
    }
}

/// Encodes `v` as a VLQ, in the fewest bytes that can carry it.
pub fn encode_vlv(v: u32) -> (out: Vec<u8>)
    ensures
        out@ == spec_encode_vlv(v as nat),
        out@.len() == spec_vlv_min_len(v as nat),
{
    proof {
        lemma_encode_hi_len((v as nat) / 0x80);
    }
    let mut out: Vec<u8> = Vec::new();
    encode_vlv_hi(v / 0x80, &mut out);
    out.push((v % 0x80) as u8);
    proof {
        assert(Seq::<u8>::empty() + spec_encode_vlv_hi((v as nat) / 0x80) =~= spec_encode_vlv_hi(
            (v as nat) / 0x80,
        ));
    }
    out
}

} // verus!
