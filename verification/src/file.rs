//! The file assembler: one header, then the declared number of tracks.

use vstd::prelude::*;

use crate::error::DecodeError;
use crate::header::{spec_header, SMFHeaderChunk};
use crate::track::{spec_track_chunk, SMFTrackChunk, SpecTrackChunk};

verus! {

/// A decoded Standard MIDI File: its header and its tracks.
///
/// The header's track count and the number of decoded tracks always
/// agree: the assembler decodes exactly `header.nb_tracks` chunks or
/// fails.
#[derive(Clone, Debug, PartialEq, Eq)]
pub struct SMF {
    pub header: SMFHeaderChunk,
    pub tracks: Vec<SMFTrackChunk>,
}

/// The mathematical value of an [`SMF`].
pub struct SpecSmf {
    pub header: SMFHeaderChunk,
    pub tracks: Seq<SpecTrackChunk>,
}

/// The views of a vector of track chunks, in order.
pub open spec fn view_tracks(ts: Seq<SMFTrackChunk>) -> Seq<SpecTrackChunk> {
    ts.map_values(|t: SMFTrackChunk| t@)
}

impl View for SMF {
    type V = SpecSmf;

    open spec fn view(&self) -> SpecSmf {
        SpecSmf { header: self.header, tracks: view_tracks(self.tracks@) }
    }
}

/// `n` consecutive track chunks from `pos`, and the position after the
/// last.
pub open spec fn spec_tracks(s: Seq<u8>, pos: int, n: nat) -> Result<
    (Seq<SpecTrackChunk>, int),
    DecodeError,
>
    decreases n,
{
    if n == 0 {
        Ok((Seq::empty(), pos))
    } else {
        match spec_track_chunk(s, pos) {
            Err(e) => Err(e),
            Ok((tc, p2)) => match spec_tracks(s, p2, (n - 1) as nat) {
                Err(e) => Err(e),
                Ok((rest, pe)) => Ok((seq![tc] + rest, pe)),
            },
        }
    }
}

/// The whole file: the header at position zero, then exactly the
/// declared number of track chunks.  Bytes after the last declared
/// track are ignored.
pub open spec fn spec_smf(s: Seq<u8>) -> Result<SpecSmf, DecodeError> {
    match spec_header(s, 0) {
        Err(e) => Err(e),
        Ok((h, p)) => match spec_tracks(s, p, h.nb_tracks as nat) {
            Err(e) => Err(e),
            Ok((ts, pe)) => Ok(SpecSmf { header: h, tracks: ts }),
        },
    }
}

impl SMF {
    /// Decodes a whole Standard MIDI File from the start of `data`.
    ///
    /// On success the number of tracks equals the header's declared
    /// track count.  The first error anywhere in the file aborts the
    /// decode; there is no partial result.
    #[verifier::loop_isolation(false)]
    pub fn read(data: &[u8]) -> (r: Result<SMF, DecodeError>)
        ensures
            match (r, spec_smf(data@)) {
                (Ok(f), Ok(sf)) => f@ == sf && f.tracks@.len() == f.header.nb_tracks,
                (Err(e), Err(se)) => e == se,
                _ => false,
            },
    {
        let (header, start): (SMFHeaderChunk, usize) = match SMFHeaderChunk::read(data, 0) {
            Ok(v) => v,
            Err(e) => return Err(e),
        };
        let mut tracks: Vec<SMFTrackChunk> = Vec::new();
        let mut cur: usize = start;
        let mut i: u16 = 0;
        while i < header.nb_tracks
            invariant
                i <= header.nb_tracks,
                tracks@.len() == i,
                match spec_tracks(data@, cur as int, (header.nb_tracks - i) as nat) {
                    Ok((rest, pe)) => spec_tracks(data@, start as int, header.nb_tracks as nat)
                        == Ok::<_, DecodeError>((view_tracks(tracks@) + rest, pe)),
                    Err(e) => spec_tracks(data@, start as int, header.nb_tracks as nat) == Err::<
                        (Seq<SpecTrackChunk>, int),
                        DecodeError,
                    >(e),
                },
            decreases header.nb_tracks - i,
        {
            match SMFTrackChunk::read(data, cur) {
                Ok((tc, p2)) => {
                    let ghost old_tracks = tracks@;
                    tracks.push(tc);
                    cur = p2;
                    i = i + 1;
                    proof {
                        assert(view_tracks(tracks@) =~= view_tracks(old_tracks).push(tc@));
                        match spec_tracks(data@, cur as int, (header.nb_tracks - i) as nat) {
                            Ok((rest2, pe)) => {
                                assert(view_tracks(old_tracks) + (seq![tc@] + rest2)
                                    =~= view_tracks(tracks@) + rest2);
                            },
                            Err(_) => {},
                        }
                    }
                },
                Err(e) => return Err(e),
            }
        }
        proof {
            assert(view_tracks(tracks@) + Seq::<SpecTrackChunk>::empty() =~= view_tracks(
                tracks@,
            ));
        }
        Ok(SMF { header, tracks })
    }
}

} // verus!
