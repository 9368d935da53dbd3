use midi_smf::error::DecodeError;
use midi_smf::header::{MidiDivisionsType, MidiFormat, SMFHeaderChunk};

fn standard_header() -> Vec<u8> {
    vec![
        0x4D, 0x54, 0x68, 0x64, // MThd
        0x00, 0x00, 0x00, 0x06, // length 6
        0x00, 0x01, // format 1
        0x00, 0x02, // two tracks
        0x00, 0x60, // 96 ticks per quarter note
    ]
}

#[test]
fn header_standard_fields() {
    let (h, end) = SMFHeaderChunk::read(&standard_header(), 0).unwrap();
    assert_eq!(h.length, 6);
    assert_eq!(h.format, MidiFormat::SimultaneousTracks);
    assert_eq!(h.nb_tracks, 2);
    match h.division_system {
        MidiDivisionsType::TicksPerQuarterNote(d) => {
            assert_eq!(d.ticks_per_quarter_note, 96);
        },
        MidiDivisionsType::SMTPEFrames(_) => panic!("expected ticks per quarter note"),
    }
    assert_eq!(end, 14);
}

#[test]
fn header_format_codes() {
    let mut data = standard_header();
    data[9] = 0x00;
    assert_eq!(
        SMFHeaderChunk::read(&data, 0).unwrap().0.format,
        MidiFormat::SingleTrack
    );
    data[9] = 0x02;
    assert_eq!(
        SMFHeaderChunk::read(&data, 0).unwrap().0.format,
        MidiFormat::IndependentTracks
    );
}

#[test]
fn header_unsupported_format() {
    let mut data = standard_header();
    data[9] = 0x03;
    assert_eq!(
        SMFHeaderChunk::read(&data, 0),
        Err(DecodeError::UnsupportedFormat { format: 3 })
    );
}

#[test]
fn header_bad_magic() {
    let mut data = standard_header();
    data[3] = b'x';
    assert_eq!(SMFHeaderChunk::read(&data, 0), Err(DecodeError::BadMagic));
}

#[test]
fn header_smpte_division() {
    let mut data = standard_header();
    data[12] = 0xE7; // two's-complement code for -25 frames per second
    data[13] = 0x28; // 40 ticks per frame
    let (h, _) = SMFHeaderChunk::read(&data, 0).unwrap();
    match h.division_system {
        MidiDivisionsType::SMTPEFrames(d) => {
            assert_eq!(d.smtpe_frames_per_second, 0xE7);
            assert_eq!(d.ticks_per_smtpe_frame, 0x28);
        },
        MidiDivisionsType::TicksPerQuarterNote(_) => panic!("expected SMPTE division"),
    }
}

#[test]
fn header_extended_length_skips_extra_bytes() {
    let mut data = standard_header();
    data[7] = 0x08; // declares two extension bytes
    data.push(0xAA);
    data.push(0xBB);
    let (h, end) = SMFHeaderChunk::read(&data, 0).unwrap();
    assert_eq!(h.length, 8);
    assert_eq!(h.nb_tracks, 2);
    assert_eq!(end, 16);
}

#[test]
fn header_truncated_fields() {
    let data = standard_header();
    assert_eq!(
        SMFHeaderChunk::read(&data[..10], 0),
        Err(DecodeError::UnexpectedEndOfInput)
    );
    assert_eq!(
        SMFHeaderChunk::read(&data[..3], 0),
        Err(DecodeError::UnexpectedEndOfInput)
    );
}

#[test]
fn header_extension_past_end_of_input() {
    let mut data = standard_header();
    data[7] = 0x09; // declares more payload than the stream holds
    data.push(0xAA);
    data.push(0xBB);
    assert_eq!(
        SMFHeaderChunk::read(&data, 0),
        Err(DecodeError::UnexpectedEndOfInput)
    );
}
