use alpha_sign::text::{TextPosition, TransitionMode, WriteText};
use alpha_sign::write_special::{SetTime, WriteSpecial};
use alpha_sign::{Command, Packet, ParseError, ParseErrorKind, SignSelector, SignType};

fn kind_of(bytes: &[u8]) -> ParseErrorKind {
    Packet::parse(bytes).unwrap_err().kind
}

#[test]
fn too_few_nulls() {
    let e = Packet::parse(&[0, 0, 0, 0, 1, 0x5A, b'0', b'0', 4]).unwrap_err();
    assert_eq!(e, ParseError { position: 4, kind: ParseErrorKind::StartOfHeading });
}

#[test]
fn too_many_nulls() {
    let mut bytes = vec![0u8; 101];
    bytes.extend_from_slice(&[1, 0x5A, b'0', b'0', 4]);
    assert_eq!(kind_of(&bytes), ParseErrorKind::StartOfHeading);
    let mut ok = vec![0u8; 100];
    ok.extend_from_slice(&[1, 0x5A, b'0', b'0', 4]);
    assert!(Packet::parse(&ok).is_ok());
}

#[test]
fn unknown_sign_type() {
    let e = Packet::parse(&[0, 0, 0, 0, 0, 1, 0x10, b'0', b'0', 4]).unwrap_err();
    assert_eq!(e, ParseError { position: 6, kind: ParseErrorKind::UnknownSignType });
}

#[test]
fn address_without_digits() {
    let e = Packet::parse(&[0, 0, 0, 0, 0, 1, 0x5A, b'G', 4]).unwrap_err();
    assert_eq!(e, ParseError { position: 7, kind: ParseErrorKind::InvalidAddress });
}

#[test]
fn address_above_a_byte() {
    let e = SignSelector::parse(&[0x5A, b'1', b'0', b'0']).unwrap_err();
    assert_eq!(e, ParseError { position: 1, kind: ParseErrorKind::InvalidAddress });
}

#[test]
fn missing_end_of_transmission() {
    let e = Packet::parse(&[0, 0, 0, 0, 0, 1, 0x5A, b'0', b'0']).unwrap_err();
    assert_eq!(e, ParseError { position: 9, kind: ParseErrorKind::EndOfTransmission });
}

#[test]
fn unsupported_special_command() {
    let bytes = [0, 0, 0, 0, 0, 1, 0x5A, b'0', b'0', 2, 0x45, 0x2C, 3, 4];
    let e = Packet::parse(&bytes).unwrap_err();
    assert_eq!(e, ParseError { position: 11, kind: ParseErrorKind::Unsupported });
}

#[test]
fn invalid_time() {
    let bytes = [0, 0, 0, 0, 0, 1, 0x5A, b'0', b'0', 2, 0x45, 0x20, b'2', b'5', b'0', b'0', 4];
    assert_eq!(kind_of(&bytes), ParseErrorKind::InvalidTime);
    let e = SetTime::parse(&[0x20, b'1', b'2', b'6', b'0']).unwrap_err();
    assert_eq!(e, ParseError { position: 1, kind: ParseErrorKind::InvalidTime });
}

#[test]
fn no_command() {
    let e = Command::parse(b"hello").unwrap_err();
    assert_eq!(e, ParseError { position: 0, kind: ParseErrorKind::NoCommand });
    assert_eq!(WriteText::parse(&[2, 0x42, b'A']).unwrap_err().kind, ParseErrorKind::NoCommand);
    assert_eq!(WriteSpecial::parse(&[2, 0x41, b'A']).unwrap_err().kind, ParseErrorKind::NoCommand);
}

#[test]
fn unknown_text_position_and_unexpected_end() {
    assert_eq!(
        TextPosition::parse(&[0x99]).unwrap_err(),
        ParseError { position: 0, kind: ParseErrorKind::UnknownTextPosition }
    );
    assert_eq!(
        TransitionMode::parse(&[]).unwrap_err(),
        ParseError { position: 0, kind: ParseErrorKind::UnexpectedEnd }
    );
    assert_eq!(
        SignSelector::parse(&[]).unwrap_err(),
        ParseError { position: 0, kind: ParseErrorKind::UnexpectedEnd }
    );
}

#[test]
fn sub_parsers_return_the_rest() {
    let (rest, mode) = TransitionMode::parse(&[0x6E, 0x31, b'x']).unwrap();
    assert_eq!(mode, TransitionMode::Sparkle);
    assert_eq!(rest, &[b'x'][..]);
    let (rest, mode) = TransitionMode::parse(&[0x6F, b'h', b'i']).unwrap();
    assert_eq!(mode, TransitionMode::AutoMode);
    assert_eq!(rest, &[b'h', b'i'][..]);
    let (rest, pos) = TextPosition::parse(&[0x26, 0x61]).unwrap();
    assert_eq!(pos, TextPosition::BottomLine);
    assert_eq!(rest, &[0x61][..]);
}

#[test]
fn write_text_parse_reads_message_and_checksum() {
    let bytes = [2, 0x41, b'A', 0x1B, 0x22, 0x6F, b'h', b'i', 3, b'0', b'1', b'F', b'F', 4];
    let (rest, w) = WriteText::parse(&bytes).unwrap();
    assert_eq!(rest, &[4][..]);
    assert_eq!(w.message, "hi");
    assert_eq!(w.label, 'A');
    assert_eq!(w.position, TextPosition::TopLine);
    assert_eq!(w.mode, TransitionMode::AutoMode);
}

#[test]
fn write_text_parse_without_checksum() {
    let (rest, w) = WriteText::parse(&[2, 0x41, b'0', b'o', b'k', 4]).unwrap();
    assert_eq!(rest, &[4][..]);
    assert_eq!(w, WriteText::new('0', "ok".to_string()));
}

#[test]
fn reply_without_checksums_parses() {
    let bytes = [0, 0, 0, 0, 0, 1, 0x30, b'0', b'0', 2, 0x41, b'A', b'o', b'n', 4];
    let (rest, pkt) = Packet::parse(&bytes).unwrap();
    assert!(rest.is_empty());
    assert_eq!(pkt.selectors, vec![SignSelector::new(SignType::ResponsePacket, 0)]);
    assert_eq!(
        pkt.commands,
        vec![Command::WriteText(WriteText::new('A', "on".to_string()))]
    );
}

#[test]
fn strict_parse_accepts_encoded_packets() {
    let pkt = Packet::new(
        vec![SignSelector::default(), SignSelector::new(SignType::All, 3)],
        vec![
            Command::WriteText(WriteText::new('A', "checked".to_string())),
            Command::WriteText(WriteText::new('B', "too".to_string()).mode(TransitionMode::Snow)),
        ],
    );
    let bytes = pkt.encode().unwrap();
    let (rest, back) = Packet::parse_strict(&bytes).unwrap();
    assert!(rest.is_empty());
    assert_eq!(back, pkt);
}

#[test]
fn strict_parse_rejects_a_wrong_checksum() {
    let pkt = Packet::new(
        vec![SignSelector::default()],
        vec![Command::WriteText(WriteText::new('A', "hi".to_string()))],
    );
    let mut bytes = pkt.encode().unwrap();
    let last_digit = bytes.len() - 2;
    assert_eq!(bytes[last_digit], b'8');
    bytes[last_digit] = b'9';
    assert!(Packet::parse(&bytes).is_ok());
    let e = Packet::parse_strict(&bytes).unwrap_err();
    assert_eq!(e, ParseError { position: 9, kind: ParseErrorKind::ChecksumMismatch });
}

#[test]
fn strict_parse_rejects_a_missing_checksum() {
    let bytes = [0, 0, 0, 0, 0, 1, 0x30, b'0', b'0', 2, 0x41, b'A', b'o', b'n', 4];
    assert_eq!(
        Packet::parse_strict(&bytes).unwrap_err().kind,
        ParseErrorKind::ChecksumMismatch
    );
}
