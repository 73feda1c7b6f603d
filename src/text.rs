//! Commands that write and read text files, and the display effects of text.

use vstd::prelude::*;
use vstd::slice::{slice_subrange, slice_to_vec};
use crate::frame::{
    error_at, parsed_as, parsed_as_view, parsed_rest, parsed_rest_view, skip_trailer, trailer_end,
    ParseError, ParseErrorKind, ESCAPE, START_OF_TEXT,
};

verus! {

/// Where on the sign a text is shown.
#[derive(Clone, Copy, Debug, PartialEq, Eq, Structural)]
pub enum TextPosition {
    MiddleLine,
    TopLine,
    BottomLine,
    Fill,
    Left,
    Right,
}

impl TextPosition {
    /// The byte that stands for this position on the wire.
    pub open spec fn byte(self) -> u8 {
        match self {
            TextPosition::MiddleLine => 0x20,
            TextPosition::TopLine => 0x22,
            TextPosition::BottomLine => 0x26,
            TextPosition::Fill => 0x30,
            TextPosition::Left => 0x31,
            TextPosition::Right => 0x32,
        }
    }

    /// The position that a byte stands for, if any.
    pub open spec fn from_byte_spec(b: u8) -> Option<TextPosition> {
        match b {
            0x20 => Some(TextPosition::MiddleLine),
            0x22 => Some(TextPosition::TopLine),
            0x26 => Some(TextPosition::BottomLine),
            0x30 => Some(TextPosition::Fill),
            0x31 => Some(TextPosition::Left),
            0x32 => Some(TextPosition::Right),
            _ => None,
        }
    }

    /// Exec counterpart of [`TextPosition::byte`].
    pub fn to_byte(self) -> (r: u8)
        ensures
            r == self.byte(),
    {
        match self {
            TextPosition::MiddleLine => 0x20,
            TextPosition::TopLine => 0x22,
            TextPosition::BottomLine => 0x26,
            TextPosition::Fill => 0x30,
            TextPosition::Left => 0x31,
            TextPosition::Right => 0x32,
        }
    }

    /// The position at offset `p` of `s`, and the offset after it.
    pub open spec fn parse_spec(s: Seq<u8>, p: int) -> Result<(TextPosition, int), ParseError> {
        if !(0 <= p < s.len()) {
            Err(error_at(p, ParseErrorKind::UnexpectedEnd))
        } else {
            match Self::from_byte_spec(s[p]) {
                Some(t) => Ok((t, p + 1)),
                None => Err(error_at(p, ParseErrorKind::UnknownTextPosition)),
            }
        }
    }

    /// Exec counterpart of [`TextPosition::parse_spec`].
    pub fn parse_at(s: &[u8], p: usize) -> (r: Result<(TextPosition, usize), ParseError>)
        requires
            p <= s@.len(),
        ensures
            parsed_as(r, Self::parse_spec(s@, p as int)),
    {
        if p >= s.len() {
            return Err(ParseError { position: p, kind: ParseErrorKind::UnexpectedEnd });
        }
        let t = match s[p] {
            0x20 => TextPosition::MiddleLine,
            0x22 => TextPosition::TopLine,
            0x26 => TextPosition::BottomLine,
            0x30 => TextPosition::Fill,
            0x31 => TextPosition::Left,
            0x32 => TextPosition::Right,
            _ => {
                return Err(ParseError { position: p, kind: ParseErrorKind::UnknownTextPosition });
            },
        };
        Ok((t, p + 1))
    }

    /// Parses a position at the start of `input`, returning the bytes after it.
    pub fn parse(input: &[u8]) -> (r: Result<(&[u8], TextPosition), ParseError>)
        ensures
            parsed_rest(input@, r, Self::parse_spec(input@, 0)),
    {
        match Self::parse_at(input, 0) {
            Ok((t, q)) => Ok((slice_subrange(input, q, input.len()), t)),
            Err(e) => Err(e),
        }
    }
}

/// How a text enters the display. Most modes are one byte on the wire; the
/// special ones are the byte 0x6E followed by a second byte.
#[derive(Clone, Copy, Debug, PartialEq, Eq, Structural)]
pub enum TransitionMode {
    Rotate,
    Hold,
    Flash,
    RollUp,
    RollDown,
    RollLeft,
    RollRight,
    WipeUp,
    WipeDown,
    WipeLeft,
    WipeRight,
    Scroll,
    AutoMode,
    RollIn,
    RollOut,
    WipeIn,
    WipeOut,
    CompressedRotate,
    Explode,
    Clock,
    // The modes below are special and do not work on every sign.
    Twinkle,
    Sparkle,
    Snow,
    Interlock,
    Switch,
    Slide,
    Spray,
    Starburst,
    Welcome,
    SlotMachine,
    NewsFlash,
    TrumpetAnimation,
    CycleColors,
}

/// The first byte of every two-byte transition mode.
pub const SPECIAL_MODE: u8 = 0x6E;

impl TransitionMode {
    /// The bytes that stand for this mode on the wire.
    pub open spec fn code(self) -> Seq<u8> {
        match self {
            TransitionMode::Rotate => seq![0x61u8],
            TransitionMode::Hold => seq![0x62u8],
            TransitionMode::Flash => seq![0x63u8],
            TransitionMode::RollUp => seq![0x65u8],
            TransitionMode::RollDown => seq![0x66u8],
            TransitionMode::RollLeft => seq![0x67u8],
            TransitionMode::RollRight => seq![0x68u8],
            TransitionMode::WipeUp => seq![0x69u8],
            TransitionMode::WipeDown => seq![0x6Au8],
            TransitionMode::WipeLeft => seq![0x6Bu8],
            TransitionMode::WipeRight => seq![0x6Cu8],
            TransitionMode::Scroll => seq![0x6Du8],
            TransitionMode::AutoMode => seq![0x6Fu8],
            TransitionMode::RollIn => seq![0x70u8],
            TransitionMode::RollOut => seq![0x71u8],
            TransitionMode::WipeIn => seq![0x72u8],
            TransitionMode::WipeOut => seq![0x73u8],
            TransitionMode::CompressedRotate => seq![0x74u8],
            TransitionMode::Explode => seq![0x75u8],
            TransitionMode::Clock => seq![0x76u8],
            TransitionMode::Twinkle => seq![0x6Eu8, 0x30u8],
            TransitionMode::Sparkle => seq![0x6Eu8, 0x31u8],
            TransitionMode::Snow => seq![0x6Eu8, 0x32u8],
            TransitionMode::Interlock => seq![0x6Eu8, 0x33u8],
            TransitionMode::Switch => seq![0x6Eu8, 0x34u8],
            TransitionMode::Slide => seq![0x6Eu8, 0x35u8],
            TransitionMode::Spray => seq![0x6Eu8, 0x36u8],
            TransitionMode::Starburst => seq![0x6Eu8, 0x37u8],
            TransitionMode::Welcome => seq![0x6Eu8, 0x38u8],
            TransitionMode::SlotMachine => seq![0x6Eu8, 0x39u8],
            TransitionMode::NewsFlash => seq![0x6Eu8, 0x3Au8],
            TransitionMode::TrumpetAnimation => seq![0x6Eu8, 0x3Bu8],
            TransitionMode::CycleColors => seq![0x6Eu8, 0x43u8],
        }
    }

    /// The one-byte mode that `b` stands for, if any.
    pub open spec fn simple_mode(b: u8) -> Option<TransitionMode> {
        match b {
            0x61 => Some(TransitionMode::Rotate),
            0x62 => Some(TransitionMode::Hold),
            0x63 => Some(TransitionMode::Flash),
            0x65 => Some(TransitionMode::RollUp),
            0x66 => Some(TransitionMode::RollDown),
            0x67 => Some(TransitionMode::RollLeft),
            0x68 => Some(TransitionMode::RollRight),
            0x69 => Some(TransitionMode::WipeUp),
            0x6A => Some(TransitionMode::WipeDown),
            0x6B => Some(TransitionMode::WipeLeft),
            0x6C => Some(TransitionMode::WipeRight),
            0x6D => Some(TransitionMode::Scroll),
            0x6F => Some(TransitionMode::AutoMode),
            0x70 => Some(TransitionMode::RollIn),
            0x71 => Some(TransitionMode::RollOut),
            0x72 => Some(TransitionMode::WipeIn),
            0x73 => Some(TransitionMode::WipeOut),
            0x74 => Some(TransitionMode::CompressedRotate),
            0x75 => Some(TransitionMode::Explode),
            0x76 => Some(TransitionMode::Clock),
            _ => None,
        }
    }

    /// The special mode that `0x6E` followed by `b` stands for, if any.
    pub open spec fn special_mode(b: u8) -> Option<TransitionMode> {
        match b {
            0x30 => Some(TransitionMode::Twinkle),
            0x31 => Some(TransitionMode::Sparkle),
            0x32 => Some(TransitionMode::Snow),
            0x33 => Some(TransitionMode::Interlock),
            0x34 => Some(TransitionMode::Switch),
            0x35 => Some(TransitionMode::Slide),
            0x36 => Some(TransitionMode::Spray),
            0x37 => Some(TransitionMode::Starburst),
            0x38 => Some(TransitionMode::Welcome),
            0x39 => Some(TransitionMode::SlotMachine),
            0x3A => Some(TransitionMode::NewsFlash),
            0x3B => Some(TransitionMode::TrumpetAnimation),
            0x43 => Some(TransitionMode::CycleColors),
            _ => None,
        }
    }

    /// The mode that a one- or two-byte code stands for. A code that stands
    /// for no mode is read as [`TransitionMode::AutoMode`].
    pub open spec fn from_code_spec(code: Seq<u8>) -> TransitionMode {
        let found = if code.len() == 1 {
            Self::simple_mode(code[0])
        } else if code.len() == 2 && code[0] == SPECIAL_MODE {
            Self::special_mode(code[1])
        } else {
            None
        };
        match found {
            Some(m) => m,
            None => TransitionMode::AutoMode,
        }
    }

    /// Exec counterpart of [`TransitionMode::code`].
    pub fn encode(&self) -> (r: Vec<u8>)
        ensures
            r@ == self.code(),
    {
        match self {
            TransitionMode::Rotate => vec![0x61u8],
            TransitionMode::Hold => vec![0x62u8],
            TransitionMode::Flash => vec![0x63u8],
            TransitionMode::RollUp => vec![0x65u8],
            TransitionMode::RollDown => vec![0x66u8],
            TransitionMode::RollLeft => vec![0x67u8],
            TransitionMode::RollRight => vec![0x68u8],
            TransitionMode::WipeUp => vec![0x69u8],
            TransitionMode::WipeDown => vec![0x6Au8],
            TransitionMode::WipeLeft => vec![0x6Bu8],
            TransitionMode::WipeRight => vec![0x6Cu8],
            TransitionMode::Scroll => vec![0x6Du8],
            TransitionMode::AutoMode => vec![0x6Fu8],
            TransitionMode::RollIn => vec![0x70u8],
            TransitionMode::RollOut => vec![0x71u8],
            TransitionMode::WipeIn => vec![0x72u8],
            TransitionMode::WipeOut => vec![0x73u8],
            TransitionMode::CompressedRotate => vec![0x74u8],
            TransitionMode::Explode => vec![0x75u8],
            TransitionMode::Clock => vec![0x76u8],
            TransitionMode::Twinkle => vec![0x6Eu8, 0x30u8],
            TransitionMode::Sparkle => vec![0x6Eu8, 0x31u8],
            TransitionMode::Snow => vec![0x6Eu8, 0x32u8],
            TransitionMode::Interlock => vec![0x6Eu8, 0x33u8],
            TransitionMode::Switch => vec![0x6Eu8, 0x34u8],
            TransitionMode::Slide => vec![0x6Eu8, 0x35u8],
            TransitionMode::Spray => vec![0x6Eu8, 0x36u8],
            TransitionMode::Starburst => vec![0x6Eu8, 0x37u8],
            TransitionMode::Welcome => vec![0x6Eu8, 0x38u8],
            TransitionMode::SlotMachine => vec![0x6Eu8, 0x39u8],
            TransitionMode::NewsFlash => vec![0x6Eu8, 0x3Au8],
            TransitionMode::TrumpetAnimation => vec![0x6Eu8, 0x3Bu8],
            TransitionMode::CycleColors => vec![0x6Eu8, 0x43u8],
        }
    }

    /// Exec counterpart of [`TransitionMode::from_code_spec`].
    pub fn from_code(code: &[u8]) -> (r: TransitionMode)
        ensures
            r == Self::from_code_spec(code@),
    {
        let found = if code.len() == 1 {
            match code[0] {
                0x61 => Some(TransitionMode::Rotate),
                0x62 => Some(TransitionMode::Hold),
                0x63 => Some(TransitionMode::Flash),
                0x65 => Some(TransitionMode::RollUp),
                0x66 => Some(TransitionMode::RollDown),
                0x67 => Some(TransitionMode::RollLeft),
                0x68 => Some(TransitionMode::RollRight),
                0x69 => Some(TransitionMode::WipeUp),
                0x6A => Some(TransitionMode::WipeDown),
                0x6B => Some(TransitionMode::WipeLeft),
                0x6C => Some(TransitionMode::WipeRight),
                0x6D => Some(TransitionMode::Scroll),
                0x6F => Some(TransitionMode::AutoMode),
                0x70 => Some(TransitionMode::RollIn),
                0x71 => Some(TransitionMode::RollOut),
                0x72 => Some(TransitionMode::WipeIn),
                0x73 => Some(TransitionMode::WipeOut),
                0x74 => Some(TransitionMode::CompressedRotate),
                0x75 => Some(TransitionMode::Explode),
                0x76 => Some(TransitionMode::Clock),
                _ => None,
            }
        } else if code.len() == 2 && code[0] == SPECIAL_MODE {
            match code[1] {
                0x30 => Some(TransitionMode::Twinkle),
                0x31 => Some(TransitionMode::Sparkle),
                0x32 => Some(TransitionMode::Snow),
                0x33 => Some(TransitionMode::Interlock),
                0x34 => Some(TransitionMode::Switch),
                0x35 => Some(TransitionMode::Slide),
                0x36 => Some(TransitionMode::Spray),
                0x37 => Some(TransitionMode::Starburst),
                0x38 => Some(TransitionMode::Welcome),
                0x39 => Some(TransitionMode::SlotMachine),
                0x3A => Some(TransitionMode::NewsFlash),
                0x3B => Some(TransitionMode::TrumpetAnimation),
                0x43 => Some(TransitionMode::CycleColors),
                _ => None,
            }
        } else {
            None
        };
        match found {
            Some(m) => m,
            None => TransitionMode::AutoMode,
        }
    }

    /// How many bytes the mode at offset `p` of `s` takes: two after the byte
    /// 0x6E, when a second byte follows; else one.
    pub open spec fn code_len_at(s: Seq<u8>, p: int) -> int {
        if s[p] == SPECIAL_MODE && p + 1 < s.len() {
            2
        } else {
            1
        }
    }

    /// The mode at offset `p` of `s`, and the offset after it.
    pub open spec fn parse_spec(s: Seq<u8>, p: int) -> Result<(TransitionMode, int), ParseError> {
        if !(0 <= p < s.len()) {
            Err(error_at(p, ParseErrorKind::UnexpectedEnd))
        } else {
            let n = Self::code_len_at(s, p);
            Ok((Self::from_code_spec(s.subrange(p, p + n)), p + n))
        }
    }

    /// Exec counterpart of [`TransitionMode::parse_spec`].
    pub fn parse_at(s: &[u8], p: usize) -> (r: Result<(TransitionMode, usize), ParseError>)
        requires
            p <= s@.len(),
        ensures
            parsed_as(r, Self::parse_spec(s@, p as int)),
            r is Ok ==> p < r->Ok_0.1 <= s@.len(),
    {
        if p >= s.len() {
            return Err(ParseError { position: p, kind: ParseErrorKind::UnexpectedEnd });
        }
        let n: usize = if s[p] == SPECIAL_MODE && p + 1 < s.len() {
            2
        } else {
            1
        };
        let code = slice_subrange(s, p, p + n);
        Ok((Self::from_code(code), p + n))
    }

    /// Parses a mode at the start of `input`, returning the bytes after it.
    pub fn parse(input: &[u8]) -> (r: Result<(&[u8], TransitionMode), ParseError>)
        ensures
            parsed_rest(input@, r, Self::parse_spec(input@, 0)),
    {
        match Self::parse_at(input, 0) {
            Ok((m, q)) => Ok((slice_subrange(input, q, input.len()), m)),
            Err(e) => Err(e),
        }
    }
}

/// The byte that a label character is sent as: its code, truncated to a byte.
pub open spec fn label_byte(c: char) -> u8 {
    c as u8
}

/// Whether `b` is a printable ASCII byte: the bytes a message may hold.
pub open spec fn is_printable(b: u8) -> bool {
    0x20 <= b && b <= 0x7E
}

/// Whether every character of `m` is printable ASCII.
pub open spec fn is_printable_text(m: Seq<char>) -> bool {
    forall|i: int| #![trigger m[i]] 0 <= i < m.len() ==> ' ' <= m[i] && m[i] <= '~'
}

/// The characters that the bytes `b` stand for in ASCII.
pub open spec fn ascii_chars(b: Seq<u8>) -> Seq<char> {
    Seq::new(b.len(), |i: int| b[i] as char)
}

/// The number of printable bytes in `s` from offset `p` on, up to the first
/// byte that is not one.
pub open spec fn printable_run_len(s: Seq<u8>, p: int) -> nat
    decreases s.len() - p,
{
    if 0 <= p < s.len() && is_printable(s[p]) {
        1 + printable_run_len(s, p + 1)
    } else {
        0
    }
}

/// Appends one character to a string.
/// Relies on std's `String::push`, which appends `c` at the end of `s`.
#[verifier::external_body]
fn push_char(s: &mut String, c: char)
    ensures
        final(s)@ == old(s)@.push(c),
{
    s.push(c)
}

/// Reads the printable run at `p`: its length, and its text.
fn scan_message(s: &[u8], p: usize) -> (r: (usize, String))
    requires
        p <= s@.len(),
    ensures
        r.0 == printable_run_len(s@, p as int),
        p + r.0 <= s@.len(),
        r.1@ == ascii_chars(s@.subrange(p as int, p + r.0)),
{
    let mut i: usize = p;
    let mut m = String::new();
    while i < s.len() && 0x20 <= s[i] && s[i] <= 0x7E
        invariant
            p <= i <= s@.len(),
            printable_run_len(s@, p as int) == (i - p) + printable_run_len(s@, i as int),
            m@ == ascii_chars(s@.subrange(p as int, i as int)),
        decreases s@.len() - i,
    {
        push_char(&mut m, s[i] as char);
        i = i + 1;
        assert(m@ =~= ascii_chars(s@.subrange(p as int, i as int)));
    }
    (i - p, m)
}

/// A command that writes a message into a text file of the sign.
#[derive(Debug, PartialEq, Eq)]
pub struct WriteText {
    /// The file to write to.
    pub label: char,
    /// The text; printable ASCII.
    pub message: String,
    pub position: TextPosition,
    pub mode: TransitionMode,
}

/// The value of a [`WriteText`], with its message as characters.
pub struct WriteTextView {
    pub label: char,
    pub message: Seq<char>,
    pub position: TextPosition,
    pub mode: TransitionMode,
}

impl View for WriteText {
    type V = WriteTextView;

    open spec fn view(&self) -> WriteTextView {
        WriteTextView {
            label: self.label,
            message: self.message@,
            position: self.position,
            mode: self.mode,
        }
    }
}

/// The opcode of [`WriteText`].
pub const WRITE_TEXT: u8 = 0x41;

/// The opcode of [`ReadText`].
pub const READ_TEXT: u8 = 0x42;

impl WriteTextView {
    /// Whether the position and mode are sent: only where either differs
    /// from its default.
    pub open spec fn has_escape(self) -> bool {
        self.position != TextPosition::MiddleLine || self.mode != TransitionMode::AutoMode
    }

    /// The bytes of the command: the opcode, the label, the escape with
    /// position and mode where [`WriteTextView::has_escape`], and the message.
    pub open spec fn encoding(self) -> Seq<u8> {
        seq![WRITE_TEXT, label_byte(self.label)] + (if self.has_escape() {
            seq![ESCAPE, self.position.byte()] + self.mode.code()
        } else {
            Seq::empty()
        }) + vstd::utf8::encode_utf8(self.message)
    }

    /// The escape at offset `q` of `s`, if one is there: the position, the
    /// mode and the offset after them.
    pub open spec fn escape_spec(s: Seq<u8>, q: int) -> Option<(TextPosition, TransitionMode, int)> {
        if 0 <= q && q + 2 < s.len() && s[q] == ESCAPE {
            match TextPosition::from_byte_spec(s[q + 1]) {
                Some(position) => match TransitionMode::parse_spec(s, q + 2) {
                    Ok((mode, e)) => Some((position, mode, e)),
                    Err(_) => None,
                },
                None => None,
            }
        } else {
            None
        }
    }

    /// The write-text command at offset `p` of `s`, and the offset after it
    /// and its optional checksum trailer. The message is the run of printable
    /// bytes after the label and the optional escape.
    pub open spec fn parse_spec(s: Seq<u8>, p: int) -> Result<(WriteTextView, int), ParseError> {
        if 0 <= p && p + 2 < s.len() && s[p] == START_OF_TEXT && s[p + 1] == WRITE_TEXT {
            let label = s[p + 2] as char;
            let (position, mode, q) = match Self::escape_spec(s, p + 3) {
                Some(t) => t,
                None => (TextPosition::MiddleLine, TransitionMode::AutoMode, p + 3),
            };
            let n = printable_run_len(s, q);
            Ok(
                (
                    WriteTextView {
                        label,
                        message: ascii_chars(s.subrange(q, q + n)),
                        position,
                        mode,
                    },
                    trailer_end(s, q + n),
                ),
            )
        } else {
            Err(error_at(p, ParseErrorKind::NoCommand))
        }
    }
}

impl WriteText {
    /// The label of the priority text file.
    pub const PRIORITY_LABEL: char = '0';

    /// A command that writes `message` to the file `label`, in the middle line
    /// and with the automatic transition.
    pub fn new(label: char, message: String) -> (r: Self)
        requires
            is_printable_text(message@),
        ensures
            r@ == (WriteTextView {
                label,
                message: message@,
                position: TextPosition::MiddleLine,
                mode: TransitionMode::AutoMode,
            }),
    {
        WriteText {
            label,
            message,
            position: TextPosition::MiddleLine,
            mode: TransitionMode::AutoMode,
        }
    }

    /// Whether `message` can be the message of a command: printable ASCII.
    pub fn is_valid_message(message: &str) -> (r: bool)
        ensures
            r == is_printable_text(message@),
    {
        broadcast use vstd::string::is_ascii_spec_bytes;

        if !message.is_ascii() {
            assert(!is_printable_text(message@)) by {
                if is_printable_text(message@) {
                    assert forall|i: int| #![trigger message@[i]] 0 <= i < message@.len() implies '\0'
                        <= message@[i] && message@[i] <= '\u{7f}' by {}
                }
            }
            return false;
        }
        let bytes = message.as_bytes();
        assert(bytes@.len() == message@.len());
        let mut i: usize = 0;
        while i < bytes.len()
            invariant
                i <= bytes@.len(),
                bytes@.len() == message@.len(),
                vstd::string::is_ascii(message),
                forall|k: int| 0 <= k < bytes@.len() ==> bytes@[k] == #[trigger] message@[k] as u8,
                forall|k: int| #![trigger message@[k]] 0 <= k < i ==> ' ' <= message@[k] && message@[k] <= '~',
            decreases bytes@.len() - i,
        {
            let b = bytes[i];
            assert(message@[i as int] <= '\u{7f}');
            if b < 0x20 || b > 0x7E {
                return false;
            }
            i = i + 1;
        }
        true
    }

    /// The same command with the position `position`.
    pub fn position(self, position: TextPosition) -> (r: Self)
        ensures
            r@ == (WriteTextView { position, ..self@ }),
    {
        WriteText { position, ..self }
    }

    /// The same command with the transition `mode`.
    pub fn mode(self, mode: TransitionMode) -> (r: Self)
        ensures
            r@ == (WriteTextView { mode, ..self@ }),
    {
        WriteText { mode, ..self }
    }

    /// The bytes of the command, without the framing of a packet.
    pub fn encode(&self) -> (r: Vec<u8>)
        ensures
            r@ == self@.encoding(),
            self.position == TextPosition::MiddleLine && self.mode == TransitionMode::AutoMode
                ==> r@ == seq![WRITE_TEXT, label_byte(self.label)] + vstd::utf8::encode_utf8(
                self.message@,
            ),
            self.position != TextPosition::MiddleLine || self.mode != TransitionMode::AutoMode
                ==> r@ == seq![WRITE_TEXT, label_byte(self.label), ESCAPE, self.position.byte()]
                + self.mode.code() + vstd::utf8::encode_utf8(self.message@),
    {
        let mut res: Vec<u8> = Vec::new();
        res.push(WRITE_TEXT);
        res.push(self.label as u8);
        if self.position != TextPosition::MiddleLine || self.mode != TransitionMode::AutoMode {
            res.push(ESCAPE);
            res.push(self.position.to_byte());
            let mut code = self.mode.encode();
            res.append(&mut code);
        }
        let mut body = slice_to_vec(self.message.as_str().as_bytes());
        res.append(&mut body);
        assert(res@ =~= self@.encoding());
        assert(seq![WRITE_TEXT, label_byte(self.label)] + (seq![ESCAPE, self.position.byte()]
            + self.mode.code()) =~= seq![WRITE_TEXT, label_byte(self.label), ESCAPE, self.position.byte()]
            + self.mode.code());
        assert(seq![WRITE_TEXT, label_byte(self.label)] + Seq::<u8>::empty() =~= seq![
            WRITE_TEXT,
            label_byte(self.label),
        ]);
        res
    }

    /// Exec counterpart of [`WriteTextView::parse_spec`].
    pub fn parse_at(s: &[u8], p: usize) -> (r: Result<(WriteText, usize), ParseError>)
        requires
            p <= s@.len(),
        ensures
            parsed_as_view(r, WriteTextView::parse_spec(s@, p as int)),
            r is Ok ==> p < r->Ok_0.1 <= s@.len(),
    {
        if !(s.len() > 2 && p < s.len() - 2 && s[p] == START_OF_TEXT && s[p + 1] == WRITE_TEXT) {
            return Err(ParseError { position: p, kind: ParseErrorKind::NoCommand });
        }
        let label = s[p + 2] as char;
        let mut position = TextPosition::MiddleLine;
        let mut mode = TransitionMode::AutoMode;
        let mut q: usize = p + 3;
        if s.len() > 2 && q < s.len() - 2 && s[q] == ESCAPE {
            if let Ok((pos, _)) = TextPosition::parse_at(s, q + 1) {
                if let Ok((m, e)) = TransitionMode::parse_at(s, q + 2) {
                    position = pos;
                    mode = m;
                    q = e;
                }
            }
        }
        let (n, message) = scan_message(s, q);
        let end = skip_trailer(s, q + n);
        Ok((WriteText { label, message, position, mode }, end))
    }

    /// Parses a write-text command at the start of `input`, returning the
    /// bytes after it.
    pub fn parse(input: &[u8]) -> (r: Result<(&[u8], WriteText), ParseError>)
        ensures
            parsed_rest_view(input@, r, WriteTextView::parse_spec(input@, 0)),
    {
        match Self::parse_at(input, 0) {
            Ok((w, q)) => Ok((slice_subrange(input, q, input.len()), w)),
            Err(e) => Err(e),
        }
    }
}

/// A command that asks the sign for the contents of a text file.
#[derive(Clone, Copy, Debug, PartialEq, Eq, Structural)]
pub struct ReadText {
    pub label: char,
}

impl ReadText {
    /// A command that reads the file `label`.
    pub fn new(label: char) -> (r: Self)
        ensures
            r == (ReadText { label }),
    {
        ReadText { label }
    }

    /// The bytes of the command: the opcode and the label.
    pub open spec fn encoding(self) -> Seq<u8> {
        seq![READ_TEXT, label_byte(self.label)]
    }

    /// The bytes of the command, without the framing of a packet.
    pub fn encode(&self) -> (r: Vec<u8>)
        ensures
            r@ == self.encoding(),
    {
        vec![READ_TEXT, self.label as u8]
    }

    /// The read-text command at offset `p` of `s`, and the offset after it
    /// and its optional checksum trailer.
    pub open spec fn parse_spec(s: Seq<u8>, p: int) -> Result<(ReadText, int), ParseError> {
        if 0 <= p && p + 2 < s.len() && s[p] == START_OF_TEXT && s[p + 1] == READ_TEXT {
            Ok((ReadText { label: s[p + 2] as char }, trailer_end(s, p + 3)))
        } else {
            Err(error_at(p, ParseErrorKind::NoCommand))
        }
    }

    /// Exec counterpart of [`ReadText::parse_spec`].
    pub fn parse_at(s: &[u8], p: usize) -> (r: Result<(ReadText, usize), ParseError>)
        requires
            p <= s@.len(),
        ensures
            parsed_as(r, Self::parse_spec(s@, p as int)),
            r is Ok ==> p < r->Ok_0.1 <= s@.len(),
    {
        if s.len() > 2 && p < s.len() - 2 && s[p] == START_OF_TEXT && s[p + 1] == READ_TEXT {
            Ok((ReadText { label: s[p + 2] as char }, skip_trailer(s, p + 3)))
        } else {
            Err(ParseError { position: p, kind: ParseErrorKind::NoCommand })
        }
    }

    /// Parses a read-text command at the start of `input`, returning the bytes
    /// after it.
    pub fn parse(input: &[u8]) -> (r: Result<(&[u8], ReadText), ParseError>)
        ensures
            parsed_rest(input@, r, Self::parse_spec(input@, 0)),
    {
        match Self::parse_at(input, 0) {
            Ok((t, q)) => Ok((slice_subrange(input, q, input.len()), t)),
            Err(e) => Err(e),
        }
    }
}

/// Reading a mode's code gives the mode back.
pub proof fn lemma_transition_mode_code(m: TransitionMode)
    ensures
        TransitionMode::from_code_spec(m.code()) == m,
        m.code().len() == 1 ==> m.code()[0] != SPECIAL_MODE,
        m.code().len() == 2 ==> m.code()[0] == SPECIAL_MODE,
        m.code().len() == 1 || m.code().len() == 2,
{
}

/// Reading a position's byte gives the position back.
pub proof fn lemma_text_position_byte(t: TextPosition)
    ensures
        TextPosition::from_byte_spec(t.byte()) == Some(t),
{
}

} // verus!
