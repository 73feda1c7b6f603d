use alpha_sign::clock::{TimeError, TimeOfDay, Weekday};
use alpha_sign::text::{ReadText, TextPosition, TransitionMode, WriteText};
use alpha_sign::write_special::{
    ClearMemoryAndFlash, ClearSerialErrorStatusRegister, ColorStatus, ConfigureMemory, FileType,
    GenerateSpeakerTone, MemoryConfiguration, OnPeriod, ProgrammmableTone, RunDays,
    RunSequenceType, RunTimeTable, SetDayOfWeek, SetRunDayTable, SetRunSequence, SetRunTimeTable,
    SetTime, SetTimeFormat, SoftReset, StartStopTime, ToggleSpeaker, ToneError, ToneType,
    WriteSpecial,
};
use alpha_sign::{Command, EncodeError, Packet, SignSelector, SignType};

fn special(c: WriteSpecial) -> Vec<u8> {
    c.encode().unwrap()
}

fn text_file(label: char, size: u16) -> MemoryConfiguration {
    MemoryConfiguration::new(
        label,
        FileType::Text {
            size,
            on_period: OnPeriod::Always,
        },
        false,
    )
}

#[test]
fn write_text_without_escape() {
    let w = WriteText::new('A', "hi".to_string());
    assert_eq!(w.encode(), vec![0x41, b'A', b'h', b'i']);
}

#[test]
fn write_text_with_top_line_has_escape() {
    let w = WriteText::new('A', "hi".to_string()).position(TextPosition::TopLine);
    assert_eq!(w.encode(), vec![0x41, b'A', 0x1B, 0x22, 0x6F, b'h', b'i']);
}

#[test]
fn write_text_with_special_mode_has_escape() {
    let w = WriteText::new('B', "x".to_string()).mode(TransitionMode::Snow);
    assert_eq!(w.encode(), vec![0x41, b'B', 0x1B, 0x20, 0x6E, 0x32, b'x']);
}

#[test]
fn read_text_encoding() {
    assert_eq!(ReadText::new('Q').encode(), vec![0x42, b'Q']);
}

#[test]
fn full_packet_bytes() {
    let pkt = Packet::new(
        vec![SignSelector::new(SignType::All, 0)],
        vec![Command::WriteText(WriteText::new('A', "hi".to_string()))],
    );
    let sum: u32 = [0x02u32, 0x41, 0x41, 0x68, 0x69, 0x03].iter().sum();
    assert_eq!(sum, 0x158);
    let expected = vec![
        0x00, 0x00, 0x00, 0x00, 0x00, 0x01, 0x5A, 0x30, 0x30, 0x02, 0x41, 0x41, 0x68, 0x69, 0x03,
        b'0', b'1', b'5', b'8', 0x04,
    ];
    assert_eq!(pkt.encode().unwrap(), expected);
}

#[test]
fn encoding_twice_gives_the_same_bytes() {
    let pkt = Packet::new(
        vec![SignSelector::default(), SignSelector::new(SignType::Betabrite, 0x1F)],
        vec![
            Command::WriteText(WriteText::new('A', "same bytes".to_string())),
            Command::ReadText(ReadText::new('A')),
        ],
    );
    assert_eq!(pkt.encode().unwrap(), pkt.encode().unwrap());
}

#[test]
fn checksum_is_sum_of_section_bytes() {
    let message = "~".repeat(600);
    let pkt = Packet::new(
        vec![SignSelector::default()],
        vec![Command::WriteText(WriteText::new('A', message.clone()))],
    );
    let bytes = pkt.encode().unwrap();
    // header (6) + selector (3), then the section
    let section_start = 9;
    let etx = bytes.len() - 6;
    assert_eq!(bytes[etx], 0x03);
    let sum: u32 = bytes[section_start..=etx].iter().map(|b| *b as u32).sum();
    let expected = format!("{:04X}", sum % 65536);
    assert!(sum > 65535);
    assert_eq!(&bytes[etx + 1..etx + 5], expected.as_bytes());
    assert_eq!(bytes[bytes.len() - 1], 0x04);
}

#[test]
fn selector_address_round_trip_for_every_byte() {
    for address in 0..=255u8 {
        let sel = SignSelector::new(SignType::OneLineSign, address);
        let mut out = Vec::new();
        sel.encode_into(&mut out);
        assert_eq!(out.len(), 3);
        assert_eq!(out[0], 0x31);
        let (rest, back) = SignSelector::parse(&out).unwrap();
        assert!(rest.is_empty());
        assert_eq!(back.address, address);
        assert_eq!(back, sel);
    }
}

#[test]
fn selector_address_is_upper_case_hex() {
    let mut out = Vec::new();
    SignSelector::new(SignType::All, 0xAB).encode_into(&mut out);
    assert_eq!(out, vec![0x5A, b'A', b'B']);
}

#[test]
fn selector_parse_accepts_lower_case_and_leading_zeros() {
    let (rest, sel) = SignSelector::parse(&[0x5A, b'0', b'0', b'f', b'f', b',']).unwrap();
    assert_eq!(sel, SignSelector::new(SignType::All, 0xFF));
    assert_eq!(rest, &[b','][..]);
}

#[test]
fn round_trip_with_position_and_mode() {
    let pkt = Packet::new(
        vec![SignSelector::new(SignType::AllSigns, 7)],
        vec![
            Command::WriteText(
                WriteText::new('A', "top".to_string()).position(TextPosition::TopLine),
            ),
            Command::WriteText(
                WriteText::new('B', "rolling".to_string())
                    .position(TextPosition::Fill)
                    .mode(TransitionMode::CycleColors),
            ),
            Command::WriteText(WriteText::new('C', String::new()).mode(TransitionMode::Hold)),
            Command::ReadText(ReadText::new('C')),
        ],
    );
    let bytes = pkt.encode().unwrap();
    let (rest, back) = Packet::parse(&bytes).unwrap();
    assert!(rest.is_empty());
    assert_eq!(back, pkt);
}

#[test]
fn parse_leaves_trailing_bytes() {
    let pkt = Packet::new(
        vec![SignSelector::default()],
        vec![Command::ReadText(ReadText::new('A'))],
    );
    let mut bytes = pkt.encode().unwrap();
    bytes.extend_from_slice(&[9, 8, 7]);
    let (rest, back) = Packet::parse(&bytes).unwrap();
    assert_eq!(rest, &[9, 8, 7][..]);
    assert_eq!(back, pkt);
}

#[test]
fn packet_without_commands_round_trips() {
    let pkt = Packet::new(vec![SignSelector::new(SignType::Sign430i, 0x42)], vec![]);
    let bytes = pkt.encode().unwrap();
    assert_eq!(bytes, vec![0, 0, 0, 0, 0, 1, 0x43, b'4', b'2', 0x04]);
    let (rest, back) = Packet::parse(&bytes).unwrap();
    assert!(rest.is_empty());
    assert_eq!(back, pkt);
}

#[test]
fn is_read_only_for_read_text() {
    assert!(Command::ReadText(ReadText::new('A')).is_read());
    assert!(!Command::WriteText(WriteText::new('A', "a".to_string())).is_read());
    assert!(!Command::WriteSpecial(WriteSpecial::SoftReset(SoftReset::new())).is_read());
}

#[test]
fn configure_memory_zero_size_must_be_last() {
    let bad = ConfigureMemory::new(vec![text_file('A', 0), text_file('B', 10)]);
    assert!(bad.is_err());
    let good = ConfigureMemory::new(vec![text_file('A', 10), text_file('B', 0)]);
    assert!(good.is_ok());
}

#[test]
fn configure_memory_encoding() {
    let start = StartStopTime::new(0, 5).unwrap();
    let end = StartStopTime::new(23, 5).unwrap();
    let layout = ConfigureMemory::new(vec![
        MemoryConfiguration::new(
            'A',
            FileType::Text {
                size: 256,
                on_period: OnPeriod::Range {
                    start_time: start,
                    end_time: end,
                },
            },
            true,
        ),
        MemoryConfiguration::new('B', FileType::String { size: 32 }, false),
        MemoryConfiguration::new(
            'C',
            FileType::Dots {
                x: 80,
                y: 7,
                color_status: ColorStatus::Tricolor,
            },
            false,
        ),
    ])
    .unwrap();
    let bytes = special(WriteSpecial::ConfigureMemory(layout));
    let mut expected = vec![0x45, 0x24];
    expected.extend_from_slice(b"AAU0256508F");
    expected.extend_from_slice(b"BBL00320000");
    expected.extend_from_slice(b"CCL07802000");
    assert_eq!(bytes, expected);
}

#[test]
fn on_period_is_padded_on_the_right() {
    let tables = SetRunTimeTable::new(vec![
        RunTimeTable::new('A', OnPeriod::AllDay),
        RunTimeTable::new(
            'B',
            OnPeriod::Range {
                start_time: StartStopTime::new(0, 1).unwrap(),
                end_time: StartStopTime::new(2, 0).unwrap(),
            },
        ),
    ]);
    let bytes = special(WriteSpecial::SetRunTimeTable(tables));
    let mut expected = vec![0x45, 0x29];
    expected.extend_from_slice(b"AFD00");
    expected.extend_from_slice(b"B10C0");
    assert_eq!(bytes, expected);
}

#[test]
fn start_stop_time_bounds() {
    assert_eq!(StartStopTime::new(24, 0), Err(TimeError::HourOutOfRange));
    assert_eq!(StartStopTime::new(0, 6), Err(TimeError::MinuteOutOfRange));
    let t = StartStopTime::new(23, 5).unwrap().time();
    assert_eq!((t.hour(), t.minute()), (23, 50));
}

#[test]
fn time_of_day_bounds() {
    assert_eq!(TimeOfDay::new(24, 0), Err(TimeError::HourOutOfRange));
    assert_eq!(TimeOfDay::new(23, 60), Err(TimeError::MinuteOutOfRange));
    assert!(TimeOfDay::new(23, 59).is_ok());
}

#[test]
fn programmable_tone_limits() {
    assert_eq!(ProgrammmableTone::new(0xFF, 0, 0), Err(ToneError::FrequencyOutOfRange));
    assert_eq!(ProgrammmableTone::new(0x10, 0x10, 0), Err(ToneError::DurationOutOfRange));
    assert_eq!(ProgrammmableTone::new(0x10, 0, 0x10), Err(ToneError::RepeatsOutOfRange));
    let tone = ProgrammmableTone::new(0xFE, 0xF, 0xF).unwrap();
    assert_eq!((tone.frequency(), tone.duration(), tone.repeats()), (0xFE, 0xF, 0xF));
    let bytes = special(WriteSpecial::GenerateSpeakerTone(GenerateSpeakerTone::new(
        ToneType::ProgrammmableTone {
            programmable_tone: tone,
        },
    )));
    assert_eq!(bytes, vec![0x45, 0x28, 0x32, b'F', b'E', b'F', b'F']);
}

#[test]
fn programmable_tone_low_frequency_is_padded_on_the_right() {
    let tone = ProgrammmableTone::new(0x5, 0x2, 0xA).unwrap();
    let bytes = special(WriteSpecial::GenerateSpeakerTone(GenerateSpeakerTone::new(
        ToneType::ProgrammmableTone {
            programmable_tone: tone,
        },
    )));
    assert_eq!(bytes, vec![0x45, 0x28, 0x32, b'5', b'0', b'2', b'A']);
}

#[test]
fn speaker_tones() {
    let tone = |t| special(WriteSpecial::GenerateSpeakerTone(GenerateSpeakerTone::new(t)));
    assert_eq!(tone(ToneType::SpeakerOn), vec![0x45, 0x28, 0x41]);
    assert_eq!(tone(ToneType::SpeakerOff), vec![0x45, 0x28, 0x42]);
    assert_eq!(tone(ToneType::Continuous2Seconds), vec![0x45, 0x28, 0x30]);
    assert_eq!(tone(ToneType::ShortBeep2Seconds), vec![0x45, 0x28, 0x31]);
}

#[test]
fn unsupported_commands_fail_to_encode() {
    assert_eq!(
        WriteSpecial::DisplayAtXYPosition().encode(),
        Err(EncodeError::Unsupported)
    );
    assert_eq!(WriteSpecial::SetDimminRegister().encode(), Err(EncodeError::Unsupported));
    assert_eq!(WriteSpecial::SetDimmingTimes().encode(), Err(EncodeError::Unsupported));
    let stored = WriteSpecial::GenerateSpeakerTone(GenerateSpeakerTone::new(
        ToneType::StoreProgrammableSound,
    ));
    assert_eq!(stored.encode(), Err(EncodeError::Unsupported));
    let pkt = Packet::new(
        vec![SignSelector::default()],
        vec![
            Command::ReadText(ReadText::new('A')),
            Command::WriteSpecial(WriteSpecial::GenerateSpeakerTone(GenerateSpeakerTone::new(
                ToneType::TriggerProgrammableSound,
            ))),
        ],
    );
    assert_eq!(pkt.encode(), Err(EncodeError::Unsupported));
}

#[test]
fn simple_special_commands() {
    let time = SetTime::new(TimeOfDay::new(9, 5).unwrap());
    assert_eq!(special(WriteSpecial::SetTime(time)), b"E\x200905".to_vec());
    assert_eq!(special(WriteSpecial::ToggleSpeaker(ToggleSpeaker::new(true))), b"E!00".to_vec());
    assert_eq!(special(WriteSpecial::ToggleSpeaker(ToggleSpeaker::new(false))), b"E!FF".to_vec());
    assert_eq!(special(WriteSpecial::ClearMemoryAndFlash(ClearMemoryAndFlash::new())), b"E$$$$".to_vec());
    assert_eq!(special(WriteSpecial::SetDayOfWeek(SetDayOfWeek::new(Weekday::Sunday))), b"E&1".to_vec());
    assert_eq!(special(WriteSpecial::SetDayOfWeek(SetDayOfWeek::new(Weekday::Saturday))), b"E&7".to_vec());
    assert_eq!(special(WriteSpecial::SetTimeFormat(SetTimeFormat::new(true))), b"E'M".to_vec());
    assert_eq!(special(WriteSpecial::SetTimeFormat(SetTimeFormat::new(false))), b"E'S".to_vec());
    assert_eq!(special(WriteSpecial::SoftReset(SoftReset::default())), b"E,".to_vec());
    assert_eq!(
        special(WriteSpecial::ClearSerialErrorStatusRegister(ClearSerialErrorStatusRegister::default())),
        b"E4".to_vec()
    );
}

#[test]
fn run_sequence_and_day_table() {
    let seq = SetRunSequence::new(RunSequenceType::FollowFileTimes, true, vec!['A', 'B', '0']).unwrap();
    assert_eq!(special(WriteSpecial::SetRunSequence(seq)), b"E.UAB0".to_vec());
    let full = SetRunSequence::new(RunSequenceType::IgnoreFileTimes, false, vec!['A'; 128]);
    assert!(full.is_ok());
    let too_many = SetRunSequence::new(RunSequenceType::DeleteAtOffTime, false, vec!['A'; 129]);
    assert!(too_many.is_err());
    let day = |d| special(WriteSpecial::SetRunDayTable(SetRunDayTable::new('A', d)));
    assert_eq!(day(RunDays::Daily), b"E2A00".to_vec());
    assert_eq!(day(RunDays::WeekDays), b"E2A80".to_vec());
    assert_eq!(day(RunDays::Weekends), b"E2A90".to_vec());
    assert_eq!(day(RunDays::Always), b"E2AA0".to_vec());
    assert_eq!(day(RunDays::Never), b"E2AB0".to_vec());
    assert_eq!(
        day(RunDays::Range {
            start_day: Weekday::Monday,
            stop_day: Weekday::Friday
        }),
        b"E2A26".to_vec()
    );
}

#[test]
fn transition_mode_codes() {
    assert_eq!(TransitionMode::Rotate.encode(), vec![0x61]);
    assert_eq!(TransitionMode::CycleColors.encode(), vec![0x6E, 0x43]);
    assert_eq!(TransitionMode::from_code(&[0x6E, 0x3A]), TransitionMode::NewsFlash);
    assert_eq!(TransitionMode::from_code(&[0x64]), TransitionMode::AutoMode);
    assert_eq!(TransitionMode::from_code(&[0x6E, 0x7F]), TransitionMode::AutoMode);
    assert_eq!(TransitionMode::from_code(&[0x61, 0x62]), TransitionMode::AutoMode);
}

#[test]
fn message_validity() {
    assert!(WriteText::is_valid_message("Hello, world ~"));
    assert!(WriteText::is_valid_message(""));
    assert!(!WriteText::is_valid_message("tab\there"));
    assert!(!WriteText::is_valid_message("caf\u{e9}"));
    assert!(!WriteText::is_valid_message("del\u{7f}"));
}
