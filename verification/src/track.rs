//! Track chunks: the event loop with its per-track state.
//!
//! A track chunk is the tag `MTrk`, a 4-byte big-endian declared length,
//! then a payload of (delta-time, event) pairs.  The loop keeps two
//! pieces of state, both scoped to the one track: the byte offset into
//! the payload and the running status.  It decodes pairs while the
//! offset is short of the declared length; on exit the offset must equal
//! the declared length exactly, else the chunk's framing does not
//! reconcile and the decode fails.

use vstd::prelude::*;

use crate::bytes::{decodes_to, decodes_to_with_status, read_be_u32, spec_be_u32};
use crate::error::DecodeError;
use crate::event::{lemma_spec_event_bounds, spec_event, Event, SpecEvent};
use crate::header::spec_magic_matches;
use crate::{read_vlv, spec_read_vlv};

verus! {

/// One event of a track, with the delta-time (in ticks since the
/// previous event of the same track) that precedes it.
#[derive(Clone, Debug, PartialEq, Eq)]
pub struct TrackEvent {
    pub delta_time: u32,
    pub event: Event,
}

/// The mathematical value of a [`TrackEvent`].
pub struct SpecTrackEvent {
    pub delta_time: u32,
    pub event: SpecEvent,
}

impl View for TrackEvent {
    type V = SpecTrackEvent;

    open spec fn view(&self) -> SpecTrackEvent {
        SpecTrackEvent { delta_time: self.delta_time, event: self.event@ }
    }
}

/// A decoded track chunk: its declared payload length and its events in
/// performance order.
#[derive(Clone, Debug, PartialEq, Eq)]
pub struct SMFTrackChunk {
    pub length: u32,
    pub track_events: Vec<TrackEvent>,
}

/// The mathematical value of an [`SMFTrackChunk`].
pub struct SpecTrackChunk {
    pub length: u32,
    pub track_events: Seq<SpecTrackEvent>,
}

/// The views of a vector of track events, in order.
pub open spec fn view_events(evs: Seq<TrackEvent>) -> Seq<SpecTrackEvent> {
    evs.map_values(|t: TrackEvent| t@)
}

impl View for SMFTrackChunk {
    type V = SpecTrackChunk;

    open spec fn view(&self) -> SpecTrackChunk {
        SpecTrackChunk { length: self.length, track_events: view_events(self.track_events@) }
    }
}

/// One (delta-time, event) pair, and the running status for the next
/// pair.
pub open spec fn spec_track_event(s: Seq<u8>, pos: int, rs: Option<u8>) -> Result<
    (SpecTrackEvent, int, Option<u8>),
    DecodeError,
> {
    match spec_read_vlv(s, pos) {
        Err(e) => Err(e),
        Ok((v, n)) => match spec_event(s, pos + n, rs) {
            Err(e) => Err(e),
            Ok((ev, p, rs2)) => Ok(
                (
                    SpecTrackEvent { delta_time: (v % 0x1_0000_0000) as u32, event: ev },
                    p,
                    rs2,
                ),
            ),
        },
    }
}

/// A successful pair consumes at least two bytes and stays inside the
/// input.
pub proof fn lemma_spec_track_event_bounds(s: Seq<u8>, pos: int, rs: Option<u8>)
    ensures
        match spec_track_event(s, pos, rs) {
            Ok((te, p, rs2)) => 0 <= pos && pos < p <= s.len(),
            Err(_) => true,
        },
{
    crate::lemma_vlv_len(s, pos);
    match spec_read_vlv(s, pos) {
        Ok((v, n)) => lemma_spec_event_bounds(s, pos + n, rs),
        Err(_) => {},
    }
}

/// The (delta-time, event) pairs from `pos` up to `end`, threading the
/// running status from pair to pair.  The scan stops at the first
/// position at or past `end`; a pair that straddles `end` is decoded
/// whole, and the caller sees the overshoot in the returned position.
pub open spec fn spec_track_events(s: Seq<u8>, pos: int, end: int, rs: Option<u8>) -> Result<
    (Seq<SpecTrackEvent>, int, Option<u8>),
    DecodeError,
>
    decreases (if end - pos >= 0 { end - pos } else { 0 }),
{
    if pos >= end {
        Ok((Seq::empty(), pos, rs))
    } else {
        match spec_track_event(s, pos, rs) {
            Err(e) => Err(e),
            Ok((te, p2, rs2)) => {
                proof {
                    lemma_spec_track_event_bounds(s, pos, rs);
                }
                match spec_track_events(s, p2, end, rs2) {
                    Err(e) => Err(e),
                    Ok((rest, pe, rse)) => Ok((seq![te] + rest, pe, rse)),
                }
            },
        }
    }
}

/// The track chunk at `pos`: tag, declared length, then pairs that must
/// consume the declared length exactly.  The running status starts
/// cleared: it never crosses a track boundary.
pub open spec fn spec_track_chunk(s: Seq<u8>, pos: int) -> Result<
    (SpecTrackChunk, int),
    DecodeError,
> {
    if pos < 0 || pos + 4 > s.len() {
        Err(DecodeError::UnexpectedEndOfInput)
    } else if !spec_magic_matches(s, pos, 0x4D, 0x54, 0x72, 0x6B) {
        Err(DecodeError::BadMagic)
    } else {
        match spec_be_u32(s, pos + 4) {
            Err(e) => Err(e),
            Ok(length) => {
                let track_start = pos + 8;
                let track_end = track_start + length;
                match spec_track_events(s, track_start, track_end, Option::None) {
                    Err(e) => Err(e),
                    Ok((evs, p, rs)) => {
                        if p == track_end {
                            Ok((SpecTrackChunk { length, track_events: evs }, track_end))
                        } else {
                            Err(
                                DecodeError::ChunkLengthMismatch {
                                    declared: length,
                                    consumed: (p - track_start) as usize,
                                },
                            )
                        }
                    },
                }
            },
        }
    }
}

impl TrackEvent {
    /// Decodes one (delta-time, event) pair under the track's current
    /// `running_status`, and returns the pair, the position after it,
    /// and the running status for the next pair.
    pub fn new(data: &[u8], pos: usize, running_status: Option<u8>) -> (r: Result<
        (TrackEvent, usize, Option<u8>),
        DecodeError,
    >)
        ensures
            decodes_to_with_status(r, spec_track_event(data@, pos as int, running_status)),
    {
        let (vlv, p): (crate::VLV, usize) = match read_vlv(data, pos) {
            Ok(v) => v,
            Err(e) => return Err(e),
        };
        match Event::new(data, p, running_status) {
            Ok((ev, p2, rs2)) => Ok(
                (TrackEvent { delta_time: vlv.data, event: ev }, p2, rs2),
            ),
            Err(e) => Err(e),
        }
    }
}

impl SMFTrackChunk {
    /// Decodes the track chunk at `pos`.
    ///
    /// The event loop runs while the payload offset is short of the
    /// declared length; on success the offset came out exactly equal,
    /// and the returned position lies just past the payload.
    #[verifier::loop_isolation(false)]
    pub fn read(data: &[u8], pos: usize) -> (r: Result<(SMFTrackChunk, usize), DecodeError>)
        ensures
            decodes_to(r, spec_track_chunk(data@, pos as int)),
    {
        if data.len() < 4 || pos > data.len() - 4 {
            return Err(DecodeError::UnexpectedEndOfInput);
        }
        if !(data[pos] == 0x4D && data[pos + 1] == 0x54 && data[pos + 2] == 0x72 && data[pos + 3]
            == 0x6B) {
            return Err(DecodeError::BadMagic);
        }
        let length: u32 = match read_be_u32(data, pos + 4) {
            Ok(v) => v,
            Err(e) => return Err(e),
        };
        let track_start: usize = pos + 8;
        let ghost track_end: int = track_start + length;
        let mut track_events: Vec<TrackEvent> = Vec::new();
        let mut cur: usize = track_start;
        let mut running: Option<u8> = Option::None;
        while cur - track_start < length as usize
            invariant
                track_start <= cur,
                match spec_track_events(data@, cur as int, track_end, running) {
                    Ok((rest, pe, rse)) => spec_track_events(
                        data@,
                        track_start as int,
                        track_end,
                        Option::None,
                    ) == Ok::<_, DecodeError>((view_events(track_events@) + rest, pe, rse)),
                    Err(e) => spec_track_events(
                        data@,
                        track_start as int,
                        track_end,
                        Option::None,
                    ) == Err::<(Seq<SpecTrackEvent>, int, Option<u8>), DecodeError>(e),
                },
            decreases (if track_end - cur >= 0 { track_end - cur } else { 0 }),
        {
            match TrackEvent::new(data, cur, running) {
                Ok((te, p2, rs2)) => {
                    proof {
                        lemma_spec_track_event_bounds(data@, cur as int, running);
                    }
                    let ghost old_events = track_events@;
                    track_events.push(te);
                    cur = p2;
                    running = rs2;
                    proof {
                        assert(view_events(track_events@) =~= view_events(old_events).push(te@));
                        match spec_track_events(data@, cur as int, track_end, running) {
                            Ok((rest2, pe, rse)) => {
                                assert(view_events(old_events) + (seq![te@] + rest2)
                                    =~= view_events(track_events@) + rest2);
                            },
                            Err(_) => {},
                        }
                    }
                },
                Err(e) => return Err(e),
            }
        }
        proof {
            assert(view_events(track_events@) + Seq::<SpecTrackEvent>::empty() =~= view_events(
                track_events@,
            ));
        }
        if cur - track_start == length as usize {
            Ok((SMFTrackChunk { length, track_events }, cur))
        } else {
            Err(
                DecodeError::ChunkLengthMismatch {
                    declared: length,
                    consumed: cur - track_start,
                },
            )
        }
    }
}

} // verus!
