use midi_smf::channel_voice_message as voice;
use midi_smf::error::DecodeError;
use midi_smf::event::{Event, EventType, MetaEvent, MetaEventType, MidiEvent, MidiEventType,
    SysexEvent, SysexEventType};
use midi_smf::meta::{SequenceNumber, SetTempo, Text};
use midi_smf::midi;
use midi_smf::sysex::Sysex;

#[test]
fn midi_note_on_with_explicit_status() {
    let data = vec![0x40u8, 0x7F];
    let (me, end) = MidiEvent::read(&data, 0, 0x93, None).unwrap();
    assert_eq!(me.code_byte, 0x90);
    assert_eq!(me.channel, 3);
    assert_eq!(end, 2);
    match me.event {
        MidiEventType::NoteOn(nc) => {
            assert_eq!(nc.key, 0x40);
            assert_eq!(nc.velocity, 0x7F);
        },
        _ => panic!("expected a note on"),
    }
}

#[test]
fn midi_first_data_byte_not_reread() {
    // The dispatcher already consumed the first data byte 0x40: only the
    // velocity is read from the stream.
    let data = vec![0x7Fu8];
    let (me, end) = MidiEvent::read(&data, 0, 0x82, Some(0x40)).unwrap();
    assert_eq!(me.code_byte, 0x80);
    assert_eq!(me.channel, 2);
    assert_eq!(end, 1);
    match me.event {
        MidiEventType::NoteOff(nc) => {
            assert_eq!(nc.key, 0x40);
            assert_eq!(nc.velocity, 0x7F);
        },
        _ => panic!("expected a note off"),
    }
}

#[test]
fn midi_program_change_consumes_one_byte() {
    let data = vec![0x2Au8];
    let (me, end) = MidiEvent::read(&data, 0, 0xC5, None).unwrap();
    assert_eq!(end, 1);
    match me.event {
        MidiEventType::ProgramChange(pc) => assert_eq!(pc.new_program_number, 0x2A),
        _ => panic!("expected a program change"),
    }
}

#[test]
fn midi_pitch_bend_composition() {
    // lsb first: value = lsb | (msb << 7) = 0x21 | (0x40 << 7) = 8225.
    let data = vec![0x21u8, 0x40];
    let (me, _) = MidiEvent::read(&data, 0, 0xE0, None).unwrap();
    match me.event {
        MidiEventType::PitchBend(pb) => assert_eq!(pb.value, 8225),
        _ => panic!("expected a pitch bend"),
    }
    // Center position: 0x00 0x40 -> 0x2000.
    let data = vec![0x00u8, 0x40];
    let (pb, _) = midi::PitchBend::read(&data, 0, None).unwrap();
    assert_eq!(pb.value, 0x2000);
}

#[test]
fn midi_remaining_message_kinds() {
    let data = vec![0x45u8, 0x33];
    let (me, _) = MidiEvent::read(&data, 0, 0xA1, None).unwrap();
    match me.event {
        MidiEventType::PolyphonicKeyPressure(pk) => {
            assert_eq!((pk.key, pk.pressure), (0x45, 0x33));
        },
        _ => panic!("expected a polyphonic key pressure"),
    }
    let (me, _) = MidiEvent::read(&data, 0, 0xB2, None).unwrap();
    match me.event {
        MidiEventType::ControllerChange(cc) => {
            assert_eq!((cc.controller_number, cc.controller_value), (0x45, 0x33));
        },
        _ => panic!("expected a controller change"),
    }
    let (me, end) = MidiEvent::read(&data, 0, 0xD3, None).unwrap();
    assert_eq!(end, 1);
    match me.event {
        MidiEventType::ChannelKeyPressure(kp) => assert_eq!(kp.value, 0x45),
        _ => panic!("expected a channel key pressure"),
    }
}

#[test]
fn midi_one_byte_message_with_consumed_data_byte() {
    // Running status handed the single data byte over already: nothing
    // is read from the stream.
    let data: Vec<u8> = Vec::new();
    let (pc, end) = midi::ProgramChange::read(&data, 0, Some(0x19)).unwrap();
    assert_eq!(pc.new_program_number, 0x19);
    assert_eq!(end, 0);
    let (kp, end) = midi::ChannelKeyPressure::read(&data, 0, Some(0x33)).unwrap();
    assert_eq!(kp.value, 0x33);
    assert_eq!(end, 0);
}

#[test]
fn midi_unsupported_status_nibble() {
    let data = vec![0x40u8, 0x7F];
    assert_eq!(
        MidiEvent::read(&data, 0, 0xF4, None),
        Err(DecodeError::UnsupportedStatus { status: 0xF4 })
    );
}

#[test]
fn voice_reads_carry_the_channel() {
    let data = vec![0x3Cu8, 0x64];
    let (nc, end) = voice::NoteChange::read(&data, 0, 9).unwrap();
    assert_eq!((nc.channel, nc.key, nc.velocity), (9, 0x3C, 0x64));
    assert_eq!(end, 2);
    let (cc, _) = voice::ControllerChange::read(&data, 0, 1).unwrap();
    assert_eq!(
        (cc.channel, cc.controller_number, cc.controller_value),
        (1, 0x3C, 0x64)
    );
    let (pb, _) = voice::PitchBend::read(&data, 0, 2).unwrap();
    assert_eq!(pb.value, 0x64 * 0x80 + 0x3C);
    let (pc, end) = voice::ProgramChange::read(&data, 0, 3).unwrap();
    assert_eq!((pc.channel, pc.new_program_number), (3, 0x3C));
    assert_eq!(end, 1);
}

#[test]
fn voice_pressure_reads() {
    let data = vec![0x45u8, 0x33];
    let (pk, end) = voice::PolyphonicKeyPressure::read(&data, 0, 4).unwrap();
    assert_eq!((pk.channel, pk.key, pk.pressure), (4, 0x45, 0x33));
    assert_eq!(end, 2);
    let (kp, end) = voice::ChannelKeyPressure::read(&data, 0, 6).unwrap();
    assert_eq!((kp.channel, kp.value), (6, 0x45));
    assert_eq!(end, 1);
    assert_eq!(
        voice::NoteChange::read(&data[..1], 0, 0),
        Err(DecodeError::UnexpectedEndOfInput)
    );
}

#[test]
fn sysex_event_f0_payload() {
    let data = vec![0x02u8, 0x11, 0x22, 0x99];
    let (se, end) = SysexEvent::read(&data, 0, 0xF0).unwrap();
    assert_eq!(end, 3);
    match se.event {
        SysexEventType::F0SysexEvent(sx) => {
            assert_eq!(sx.length, 2);
            assert_eq!(sx.data, vec![0x11, 0x22]);
        },
        _ => panic!("expected an F0 sysex"),
    }
}

#[test]
fn sysex_event_f7_continuation() {
    let data = vec![0x01u8, 0x55];
    let (se, _) = SysexEvent::read(&data, 0, 0xF7).unwrap();
    assert!(matches!(se.event, SysexEventType::F7SysexEvent(_)));
}

#[test]
fn sysex_truncated_payload() {
    let data = vec![0x05u8, 0x11];
    assert_eq!(
        SysexEvent::read(&data, 0, 0xF0),
        Err(DecodeError::UnexpectedEndOfInput)
    );
}

#[test]
fn meta_sequence_number() {
    let data = vec![0x00u8, 0x02, 0x00, 0x05];
    let (me, end) = MetaEvent::read(&data, 0).unwrap();
    assert_eq!((me.sub_code_byte, me.length), (0x00, 2));
    assert_eq!(end, 4);
    match me.event {
        MetaEventType::SequenceNumber(sn) => assert_eq!(sn.sequence_number, 5),
        _ => panic!("expected a sequence number"),
    }
}

#[test]
fn meta_track_name_text() {
    let mut data = vec![0x03u8, 0x05];
    data.extend_from_slice(b"Hello");
    let (me, end) = MetaEvent::read(&data, 0).unwrap();
    assert_eq!(end, 7);
    match me.event {
        MetaEventType::SequenceTrackName(t) => assert_eq!(t.text, "Hello"),
        _ => panic!("expected a track name"),
    }
}

#[test]
fn meta_text_invalid_utf8_is_replaced() {
    let data = vec![0x01u8, 0x03, 0xFF, b'a', 0xFE];
    let (me, _) = MetaEvent::read(&data, 0).unwrap();
    match me.event {
        MetaEventType::TextEvent(t) => assert_eq!(t.text, "\u{FFFD}a\u{FFFD}"),
        _ => panic!("expected a text event"),
    }
}

#[test]
fn meta_set_tempo_value() {
    let data = vec![0x51u8, 0x03, 0x07, 0xA1, 0x20];
    let (me, end) = MetaEvent::read(&data, 0).unwrap();
    assert_eq!(end, 5);
    match me.event {
        MetaEventType::SetTempo(st) => assert_eq!(st.tempo, 500_000),
        _ => panic!("expected a tempo"),
    }
}

#[test]
fn meta_set_tempo_length_mismatch() {
    let data = vec![0x51u8, 0x02, 0x07, 0xA1];
    assert_eq!(
        MetaEvent::read(&data, 0),
        Err(DecodeError::MetaLengthMismatch { sub_type: 0x51, expected: 3, declared: 2 })
    );
}

#[test]
fn meta_fixed_sizes_are_enforced() {
    assert_eq!(
        MetaEvent::read(&[0x00u8, 0x03, 0, 0, 0], 0),
        Err(DecodeError::MetaLengthMismatch { sub_type: 0x00, expected: 2, declared: 3 })
    );
    assert_eq!(
        MetaEvent::read(&[0x20u8, 0x02, 0, 0], 0),
        Err(DecodeError::MetaLengthMismatch { sub_type: 0x20, expected: 1, declared: 2 })
    );
    assert_eq!(
        MetaEvent::read(&[0x2Fu8, 0x01, 0], 0),
        Err(DecodeError::MetaLengthMismatch { sub_type: 0x2F, expected: 0, declared: 1 })
    );
    assert_eq!(
        MetaEvent::read(&[0x59u8, 0x03, 0, 0, 0], 0),
        Err(DecodeError::MetaLengthMismatch { sub_type: 0x59, expected: 2, declared: 3 })
    );
}

#[test]
fn meta_smpte_offset_and_time_signature() {
    let data = vec![0x54u8, 0x05, 1, 2, 3, 4, 5];
    let (me, _) = MetaEvent::read(&data, 0).unwrap();
    match me.event {
        MetaEventType::SMTPEOffset(so) => {
            assert_eq!(
                (so.hour, so.minute, so.seconds, so.frames, so.hundred_of_frame),
                (1, 2, 3, 4, 5)
            );
        },
        _ => panic!("expected an SMPTE offset"),
    }
    let data = vec![0x58u8, 0x04, 4, 2, 24, 8];
    let (me, _) = MetaEvent::read(&data, 0).unwrap();
    match me.event {
        MetaEventType::TimeSignature(ts) => {
            assert_eq!(
                (ts.nominator, ts.denominator, ts.midi_ticks_per_metronome_tick, ts.thing),
                (4, 2, 24, 8)
            );
        },
        _ => panic!("expected a time signature"),
    }
}

#[test]
fn meta_key_signature_flag() {
    let data = vec![0x59u8, 0x02, 0xFD, 0x00];
    let (me, _) = MetaEvent::read(&data, 0).unwrap();
    match me.event {
        MetaEventType::KeySignature(ks) => {
            assert_eq!(ks.number_of_sharp_flats, 0xFD); // three flats, two's complement
            assert!(ks.major_key);
        },
        _ => panic!("expected a key signature"),
    }
    let data = vec![0x59u8, 0x02, 0x02, 0x01];
    let (me, _) = MetaEvent::read(&data, 0).unwrap();
    match me.event {
        MetaEventType::KeySignature(ks) => assert!(!ks.major_key),
        _ => panic!("expected a key signature"),
    }
}

#[test]
fn meta_channel_prefix_and_port() {
    let (me, _) = MetaEvent::read(&[0x20u8, 0x01, 0x07], 0).unwrap();
    match me.event {
        MetaEventType::MIDIChannelPrefix(cp) => assert_eq!(cp.channel, 7),
        _ => panic!("expected a channel prefix"),
    }
    let (me, _) = MetaEvent::read(&[0x21u8, 0x01, 0x02], 0).unwrap();
    match me.event {
        MetaEventType::MIDIPort(mp) => assert_eq!(mp.port, 2),
        _ => panic!("expected a port"),
    }
}

#[test]
fn meta_sequencer_specific_splits_id_and_data() {
    let data = vec![0x7Fu8, 0x03, 0x41, 0x01, 0x02];
    let (me, end) = MetaEvent::read(&data, 0).unwrap();
    assert_eq!(end, 5);
    match me.event {
        MetaEventType::SequencerSpecific(ss) => {
            assert_eq!(ss.length, 3);
            assert_eq!(ss.id, 0x41);
            assert_eq!(ss.data, vec![0x01, 0x02]);
        },
        _ => panic!("expected a sequencer-specific event"),
    }
}

#[test]
fn meta_sequencer_specific_id_longer_than_declared() {
    let data = vec![0x7Fu8, 0x00, 0x00];
    assert_eq!(
        MetaEvent::read(&data, 0),
        Err(DecodeError::MetaLengthMismatch { sub_type: 0x7F, expected: 1, declared: 0 })
    );
}

#[test]
fn meta_unknown_sub_type_keeps_bytes() {
    let data = vec![0x60u8, 0x02, 0xAA, 0xBB];
    let (me, end) = MetaEvent::read(&data, 0).unwrap();
    assert_eq!(end, 4);
    assert_eq!((me.sub_code_byte, me.length), (0x60, 2));
    match me.event {
        MetaEventType::Unknown(u) => assert_eq!(u.data, vec![0xAA, 0xBB]),
        _ => panic!("expected an unknown meta event"),
    }
}

#[test]
fn leaf_payload_reads_standalone() {
    let (sn, end) = SequenceNumber::read(&[0x01, 0x30], 0).unwrap();
    assert_eq!(sn.sequence_number, 0x0130);
    assert_eq!(end, 2);
    let (st, _) = SetTempo::read(&[0x0F, 0x42, 0x40], 0).unwrap();
    assert_eq!(st.tempo, 1_000_000);
    let (t, end) = Text::read(b"abcdef", 1, 3).unwrap();
    assert_eq!(t.text, "bcd");
    assert_eq!(end, 4);
    let (sx, end) = Sysex::read(&[0x03, 0x10, 0x20, 0x30, 0x40], 0).unwrap();
    assert_eq!(sx.length, 3);
    assert_eq!(sx.data, vec![0x10, 0x20, 0x30]);
    assert_eq!(end, 4);
}

#[test]
fn event_new_status_byte_updates_running_status() {
    let data = vec![0x91u8, 0x40, 0x7F];
    let (ev, end, rs) = Event::new(&data, 0, None).unwrap();
    assert_eq!(ev.code_byte, 0x91);
    assert_eq!(end, 3);
    assert_eq!(rs, Some(0x91));
    assert!(matches!(ev.event, EventType::MidiEvent(_)));
}

#[test]
fn event_new_without_running_status_fails() {
    let data = vec![0x40u8, 0x7F];
    assert_eq!(
        Event::new(&data, 0, None),
        Err(DecodeError::NoRunningStatus { data_byte: 0x40 })
    );
}

#[test]
fn event_new_reuses_running_status() {
    let data = vec![0x3Cu8, 0x00];
    let (ev, end, rs) = Event::new(&data, 0, Some(0x90)).unwrap();
    assert_eq!(ev.code_byte, 0x90);
    assert_eq!(end, 2);
    assert_eq!(rs, Some(0x90));
    match ev.event {
        EventType::MidiEvent(me) => match me.event {
            MidiEventType::NoteOn(nc) => assert_eq!((nc.key, nc.velocity), (0x3C, 0x00)),
            _ => panic!("expected a note on"),
        },
        _ => panic!("expected a channel message"),
    }
}

#[test]
fn event_new_meta_and_sysex_leave_running_status() {
    let data = vec![0xFFu8, 0x2F, 0x00];
    let (ev, _, rs) = Event::new(&data, 0, Some(0x95)).unwrap();
    assert_eq!(rs, Some(0x95));
    assert!(matches!(ev.event, EventType::MetaEvent(_)));
    let data = vec![0xF0u8, 0x01, 0x55];
    let (ev, _, rs) = Event::new(&data, 0, Some(0x95)).unwrap();
    assert_eq!(rs, Some(0x95));
    assert!(matches!(ev.event, EventType::SysExEvent(_)));
}

#[test]
fn event_new_unassigned_status_bytes_fail() {
    for status in [0xF1u8, 0xF4, 0xF6, 0xF8, 0xFE] {
        let data = vec![status, 0x00];
        assert_eq!(
            Event::new(&data, 0, Some(0x90)),
            Err(DecodeError::UnsupportedStatus { status })
        );
    }
}
