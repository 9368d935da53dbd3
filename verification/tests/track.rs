use midi_smf::error::DecodeError;
use midi_smf::event::{EventType, MetaEventType, MidiEventType};
use midi_smf::track::{SMFTrackChunk, TrackEvent};

fn track_chunk(payload: &[u8], declared: u32) -> Vec<u8> {
    let mut data = vec![0x4D, 0x54, 0x72, 0x6B];
    data.extend_from_slice(&[
        (declared >> 24) as u8,
        (declared >> 16) as u8,
        (declared >> 8) as u8,
        declared as u8,
    ]);
    data.extend_from_slice(payload);
    data
}

#[test]
fn track_event_pairs_delta_and_event() {
    let data = vec![0x81u8, 0x48, 0x92, 0x40, 0x7F];
    let (te, end, rs) = TrackEvent::new(&data, 0, None).unwrap();
    assert_eq!(te.delta_time, 200);
    assert_eq!(te.event.code_byte, 0x92);
    assert_eq!(end, 5);
    assert_eq!(rs, Some(0x92));
}

#[test]
fn track_running_status_two_note_ons() {
    // delta 0, NoteOn(0x40, 0x7F); delta 0, running-status NoteOn(0x3C, 0x00).
    let data = track_chunk(&[0x00, 0x90, 0x40, 0x7F, 0x00, 0x3C, 0x00], 7);
    let (tc, end) = SMFTrackChunk::read(&data, 0).unwrap();
    assert_eq!(tc.length, 7);
    assert_eq!(end, data.len());
    assert_eq!(tc.track_events.len(), 2);
    for (te, key, velocity) in [
        (&tc.track_events[0], 0x40u8, 0x7Fu8),
        (&tc.track_events[1], 0x3C, 0x00),
    ] {
        assert_eq!(te.delta_time, 0);
        assert_eq!(te.event.code_byte, 0x90);
        match &te.event.event {
            EventType::MidiEvent(me) => {
                assert_eq!(me.channel, 0);
                match me.event {
                    MidiEventType::NoteOn(nc) => {
                        assert_eq!((nc.key, nc.velocity), (key, velocity));
                    },
                    _ => panic!("expected a note on"),
                }
            },
            _ => panic!("expected a channel message"),
        }
    }
}

#[test]
fn track_missing_running_status() {
    let data = track_chunk(&[0x00, 0x40, 0x7F], 3);
    assert_eq!(
        SMFTrackChunk::read(&data, 0),
        Err(DecodeError::NoRunningStatus { data_byte: 0x40 })
    );
}

#[test]
fn track_end_of_track_consumes_exact_length() {
    let data = track_chunk(&[0x00, 0xFF, 0x2F, 0x00], 4);
    let (tc, end) = SMFTrackChunk::read(&data, 0).unwrap();
    assert_eq!(end, data.len());
    assert_eq!(tc.track_events.len(), 1);
    let te = &tc.track_events[0];
    assert_eq!(te.delta_time, 0);
    match &te.event.event {
        EventType::MetaEvent(me) => {
            assert!(matches!(me.event, MetaEventType::EndOfTrack(_)));
        },
        _ => panic!("expected a meta event"),
    }
}

#[test]
fn track_overshoot_is_a_length_mismatch() {
    // The declared length 3 ends inside the only event, which consumes 4
    // bytes: the framing does not reconcile.
    let data = track_chunk(&[0x00, 0xFF, 0x2F, 0x00], 3);
    assert_eq!(
        SMFTrackChunk::read(&data, 0),
        Err(DecodeError::ChunkLengthMismatch { declared: 3, consumed: 4 })
    );
}

#[test]
fn track_declared_longer_than_payload() {
    // Declared length 5 sends the loop past the last payload byte into
    // the end of the input.
    let data = track_chunk(&[0x00, 0xFF, 0x2F, 0x00], 5);
    assert_eq!(
        SMFTrackChunk::read(&data, 0),
        Err(DecodeError::UnexpectedEndOfInput)
    );
}

#[test]
fn track_empty_payload() {
    let data = track_chunk(&[], 0);
    let (tc, end) = SMFTrackChunk::read(&data, 0).unwrap();
    assert_eq!(tc.track_events.len(), 0);
    assert_eq!(end, 8);
}

#[test]
fn track_bad_magic() {
    let mut data = track_chunk(&[0x00, 0xFF, 0x2F, 0x00], 4);
    data[2] = b'x';
    assert_eq!(SMFTrackChunk::read(&data, 0), Err(DecodeError::BadMagic));
}

#[test]
fn track_meta_is_transparent_to_running_status() {
    // NoteOn, then EndOfTrack-like meta (not final), then a running-status
    // data byte: the meta event must not have cleared the status.
    let payload = [
        0x00, 0x90, 0x40, 0x7F, // NoteOn
        0x00, 0xFF, 0x01, 0x02, b'h', b'i', // text meta
        0x00, 0x3C, 0x40, // running-status NoteOn
    ];
    let data = track_chunk(&payload, payload.len() as u32);
    let (tc, _) = SMFTrackChunk::read(&data, 0).unwrap();
    assert_eq!(tc.track_events.len(), 3);
    assert_eq!(tc.track_events[2].event.code_byte, 0x90);
}
