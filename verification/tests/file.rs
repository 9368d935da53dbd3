use midi_smf::error::DecodeError;
use midi_smf::file::SMF;
use midi_smf::header::MidiFormat;

fn header(nb_tracks: u16) -> Vec<u8> {
    vec![
        0x4D, 0x54, 0x68, 0x64, 0x00, 0x00, 0x00, 0x06, 0x00, 0x01,
        (nb_tracks >> 8) as u8, nb_tracks as u8, 0x00, 0x60,
    ]
}

fn track_chunk(payload: &[u8]) -> Vec<u8> {
    let mut data = vec![0x4D, 0x54, 0x72, 0x6B, 0x00, 0x00, 0x00, payload.len() as u8];
    data.extend_from_slice(payload);
    data
}

#[test]
fn file_with_two_tracks() {
    let mut data = header(2);
    data.extend_from_slice(&track_chunk(&[0x00, 0x90, 0x40, 0x7F, 0x00, 0xFF, 0x2F, 0x00]));
    data.extend_from_slice(&track_chunk(&[0x00, 0xFF, 0x2F, 0x00]));
    let smf = SMF::read(&data).unwrap();
    assert_eq!(smf.header.format, MidiFormat::SimultaneousTracks);
    assert_eq!(smf.header.nb_tracks, 2);
    assert_eq!(smf.tracks.len(), 2);
    assert_eq!(smf.tracks[0].track_events.len(), 2);
    assert_eq!(smf.tracks[1].track_events.len(), 1);
}

#[test]
fn file_track_count_matches_header() {
    let mut data = header(3);
    for _ in 0..3 {
        data.extend_from_slice(&track_chunk(&[0x00, 0xFF, 0x2F, 0x00]));
    }
    let smf = SMF::read(&data).unwrap();
    assert_eq!(smf.tracks.len() as u16, smf.header.nb_tracks);
}

#[test]
fn file_missing_declared_track() {
    let mut data = header(2);
    data.extend_from_slice(&track_chunk(&[0x00, 0xFF, 0x2F, 0x00]));
    assert_eq!(SMF::read(&data), Err(DecodeError::UnexpectedEndOfInput));
}

#[test]
fn file_trailing_bytes_are_ignored() {
    let mut data = header(1);
    data.extend_from_slice(&track_chunk(&[0x00, 0xFF, 0x2F, 0x00]));
    data.extend_from_slice(&[0xDE, 0xAD]);
    let smf = SMF::read(&data).unwrap();
    assert_eq!(smf.tracks.len(), 1);
}

#[test]
fn file_running_status_is_scoped_to_one_track() {
    // The first track establishes a running status; the second track
    // opens with a data byte.  The status must not carry across the
    // track boundary.
    let mut data = header(2);
    data.extend_from_slice(&track_chunk(&[0x00, 0x90, 0x40, 0x7F, 0x00, 0xFF, 0x2F, 0x00]));
    data.extend_from_slice(&track_chunk(&[0x00, 0x3C, 0x40]));
    assert_eq!(
        SMF::read(&data),
        Err(DecodeError::NoRunningStatus { data_byte: 0x3C })
    );
}

#[test]
fn file_propagates_header_errors() {
    let mut data = header(1);
    data[9] = 0x07;
    data.extend_from_slice(&track_chunk(&[0x00, 0xFF, 0x2F, 0x00]));
    assert_eq!(SMF::read(&data), Err(DecodeError::UnsupportedFormat { format: 7 }));
}

#[test]
fn file_empty_input() {
    let data: Vec<u8> = Vec::new();
    assert_eq!(SMF::read(&data), Err(DecodeError::UnexpectedEndOfInput));
}
