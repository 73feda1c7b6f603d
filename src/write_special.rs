//! Special commands: the sign's clock, speaker, memory layout, schedules and
//! resets.

use vstd::prelude::*;
use vstd::slice::slice_subrange;
use crate::clock::{TimeOfDay, Weekday};
use crate::digits::{
    decimal_padded, hex_byte_right_padded, is_decimal_digit, hex_digit, hex_digit_of, push_decimal_padded,
    push_hex_byte_right_padded,
};
use crate::frame::{
    error_at, parsed_as, parsed_as_view, parsed_rest, parsed_rest_view, skip_trailer, trailer_end, EncodeError, ParseError,
    ParseErrorKind, START_OF_TEXT,
};
use crate::text::label_byte;

verus! {

/// The opcode of every special command.
pub const WRITE_SPECIAL: u8 = 0x45;

/// The value of two decimal digits, tens first.
pub open spec fn two_digit_value(tens: u8, units: u8) -> nat {
    ((tens - 0x30) * 10 + (units - 0x30)) as nat
}

fn is_decimal_byte(b: u8) -> (r: bool)
    ensures
        r == is_decimal_digit(b),
{
    0x30 <= b && b <= 0x39
}

/// Sets the time of day of the sign's clock.
#[derive(Clone, Copy, Debug, PartialEq, Eq, Structural)]
pub struct SetTime {
    pub time: TimeOfDay,
}

impl SetTime {
    /// A command that sets the clock to `time`.
    pub fn new(time: TimeOfDay) -> (r: Self)
        ensures
            r == (SetTime { time }),
    {
        SetTime { time }
    }

    /// The label 0x20, then hour and minute as two decimal digits each.
    pub open spec fn encoding(self) -> Seq<u8> {
        seq![0x20u8] + decimal_padded(self.time.hour_spec() as nat, 2) + decimal_padded(
            self.time.minute_spec() as nat,
            2,
        )
    }

    /// The set-time data at offset `q` of `s` (the label 0x20 and four
    /// decimal digits), and the offset after it. Digits that give an hour
    /// above 23 or a minute above 59 are an error.
    pub open spec fn parse_spec(s: Seq<u8>, q: int) -> Result<(SetTime, int), ParseError> {
        if 0 <= q && q + 4 < s.len() && s[q] == 0x20 && is_decimal_digit(s[q + 1]) && is_decimal_digit(
            s[q + 2],
        ) && is_decimal_digit(s[q + 3]) && is_decimal_digit(s[q + 4]) {
            let hour = two_digit_value(s[q + 1], s[q + 2]);
            let minute = two_digit_value(s[q + 3], s[q + 4]);
            if hour < 24 && minute < 60 {
                Ok((SetTime { time: TimeOfDay::from_parts(hour as u8, minute as u8) }, q + 5))
            } else {
                Err(error_at(q + 1, ParseErrorKind::InvalidTime))
            }
        } else {
            Err(error_at(q, ParseErrorKind::NoCommand))
        }
    }

    /// Exec counterpart of [`SetTime::parse_spec`].
    pub fn parse_at(s: &[u8], q: usize) -> (r: Result<(SetTime, usize), ParseError>)
        requires
            q <= s@.len(),
        ensures
            parsed_as(r, Self::parse_spec(s@, q as int)),
            r is Ok ==> q < r->Ok_0.1 <= s@.len(),
    {
        if s.len() > 4 && q < s.len() - 4 && s[q] == 0x20 && is_decimal_byte(s[q + 1])
            && is_decimal_byte(s[q + 2]) && is_decimal_byte(s[q + 3]) && is_decimal_byte(s[q + 4]) {
            let hour = (s[q + 1] - 0x30) * 10 + (s[q + 2] - 0x30);
            let minute = (s[q + 3] - 0x30) * 10 + (s[q + 4] - 0x30);
            match TimeOfDay::new(hour, minute) {
                Ok(time) => Ok((SetTime { time }, q + 5)),
                Err(_) => Err(ParseError { position: q + 1, kind: ParseErrorKind::InvalidTime }),
            }
        } else {
            Err(ParseError { position: q, kind: ParseErrorKind::NoCommand })
        }
    }

    /// Parses set-time data (the label 0x20 and four decimal digits) at the
    /// start of `input`, returning the bytes after it.
    pub fn parse(input: &[u8]) -> (r: Result<(&[u8], SetTime), ParseError>)
        ensures
            parsed_rest(input@, r, Self::parse_spec(input@, 0)),
    {
        match Self::parse_at(input, 0) {
            Ok((t, q)) => Ok((slice_subrange(input, q, input.len()), t)),
            Err(e) => Err(e),
        }
    }

    fn encode(&self) -> (r: Vec<u8>)
        ensures
            r@ == self.encoding(),
    {
        let mut res: Vec<u8> = vec![0x20];
        push_decimal_padded(&mut res, self.time.hour() as u16, 2);
        push_decimal_padded(&mut res, self.time.minute() as u16, 2);
        assert(res@ =~= self.encoding());
        res
    }
}

/// Turns the speaker on or off.
#[derive(Clone, Copy, Debug, PartialEq, Eq, Structural)]
pub struct ToggleSpeaker {
    pub enabled: bool,
}

impl ToggleSpeaker {
    /// A command that enables (`true`) or disables the speaker.
    pub fn new(enabled: bool) -> (r: Self)
        ensures
            r == (ToggleSpeaker { enabled }),
    {
        ToggleSpeaker { enabled }
    }

    /// The label 0x21, then `00` to enable or `FF` to disable.
    pub open spec fn encoding(self) -> Seq<u8> {
        if self.enabled {
            seq![0x21u8, 0x30u8, 0x30u8]
        } else {
            seq![0x21u8, 0x46u8, 0x46u8]
        }
    }

    /// The toggle-speaker data at offset `q` of `s`, and the offset after it.
    pub open spec fn parse_spec(s: Seq<u8>, q: int) -> Result<(ToggleSpeaker, int), ParseError> {
        if 0 <= q && q + 2 < s.len() && s[q] == 0x21 && s[q + 1] == 0x30 && s[q + 2] == 0x30 {
            Ok((ToggleSpeaker { enabled: true }, q + 3))
        } else if 0 <= q && q + 2 < s.len() && s[q] == 0x21 && s[q + 1] == 0x46 && s[q + 2] == 0x46 {
            Ok((ToggleSpeaker { enabled: false }, q + 3))
        } else {
            Err(error_at(q, ParseErrorKind::NoCommand))
        }
    }

    fn parse_at(s: &[u8], q: usize) -> (r: Result<(ToggleSpeaker, usize), ParseError>)
        requires
            q <= s@.len(),
        ensures
            parsed_as(r, Self::parse_spec(s@, q as int)),
            r is Ok ==> q < r->Ok_0.1 <= s@.len(),
    {
        if s.len() > 2 && q < s.len() - 2 && s[q] == 0x21 {
            if s[q + 1] == 0x30 && s[q + 2] == 0x30 {
                return Ok((ToggleSpeaker { enabled: true }, q + 3));
            } else if s[q + 1] == 0x46 && s[q + 2] == 0x46 {
                return Ok((ToggleSpeaker { enabled: false }, q + 3));
            }
        }
        Err(ParseError { position: q, kind: ParseErrorKind::NoCommand })
    }

    fn encode(&self) -> (r: Vec<u8>)
        ensures
            r@ == self.encoding(),
    {
        if self.enabled {
            vec![0x21, 0x30, 0x30]
        } else {
            vec![0x21, 0x46, 0x46]
        }
    }
}

/// The colours a dots picture file holds.
#[derive(Clone, Copy, Debug, PartialEq, Eq, Structural)]
pub enum ColorStatus {
    Monochrome,
    Tricolor,
    Octocolor,
}

impl ColorStatus {
    /// The digit that stands for the colour status: `1`, `2` or `8`.
    pub open spec fn digit(self) -> u8 {
        match self {
            ColorStatus::Monochrome => 0x31,
            ColorStatus::Tricolor => 0x32,
            ColorStatus::Octocolor => 0x38,
        }
    }
}

/// A start or stop time of a schedule: a whole hour plus a number of ten
/// minute steps.
#[derive(Clone, Copy, Debug, PartialEq, Eq, Structural)]
pub struct StartStopTime {
    time: TimeOfDay,
}

impl StartStopTime {
    /// The time of day.
    pub closed spec fn time_spec(self) -> TimeOfDay {
        self.time
    }

    /// The index of the ten minute slot of the day that the time starts:
    /// six slots an hour.
    pub open spec fn slot(self) -> nat {
        self.time_spec().hour_spec() as nat * 6 + self.time_spec().minute_spec() as nat / 10
    }

    /// The time `hour` o'clock plus `tens` times ten minutes; fails where the
    /// hour is above 23 or `tens` above 5.
    pub fn new(hour: u8, tens: u8) -> (r: Result<Self, crate::clock::TimeError>)
        ensures
            r is Ok <==> hour < 24 && tens < 6,
            r is Ok ==> r->Ok_0.time_spec() == TimeOfDay::from_parts(hour, (tens * 10) as u8),
            hour >= 24 ==> r == Err::<Self, crate::clock::TimeError>(
                crate::clock::TimeError::HourOutOfRange,
            ),
            hour < 24 && tens >= 6 ==> r == Err::<Self, crate::clock::TimeError>(
                crate::clock::TimeError::MinuteOutOfRange,
            ),
    {
        if tens >= 6 {
            if hour >= 24 {
                return Err(crate::clock::TimeError::HourOutOfRange);
            }
            return Err(crate::clock::TimeError::MinuteOutOfRange);
        }
        match TimeOfDay::new(hour, tens * 10) {
            Ok(time) => Ok(StartStopTime { time }),
            Err(e) => Err(e),
        }
    }

    /// The time of day.
    pub fn time(&self) -> (r: TimeOfDay)
        ensures
            r == self.time_spec(),
    {
        self.time
    }

    fn slot_of(&self) -> (r: u8)
        ensures
            r as nat == self.slot(),
            r < 144,
    {
        let h = self.time.hour();
        let m = self.time.minute();
        h * 6 + m / 10
    }
}

/// When a text file is shown.
#[derive(Clone, Copy, Debug, PartialEq, Eq, Structural)]
pub enum OnPeriod {
    Always,
    Never,
    AllDay,
    Range { start_time: StartStopTime, end_time: StartStopTime },
}

impl OnPeriod {
    /// The two bytes that stand for the period before they are written out.
    pub open spec fn pair(self) -> (u8, u8) {
        match self {
            OnPeriod::Always => (0xFF, 0x00),
            OnPeriod::Never => (0xFE, 0x00),
            OnPeriod::AllDay => (0xFD, 0x00),
            OnPeriod::Range { start_time, end_time } => (
                start_time.slot() as u8,
                end_time.slot() as u8,
            ),
        }
    }

    /// Both bytes of [`OnPeriod::pair`] in hexadecimal, each padded on the
    /// right to two digits.
    pub open spec fn encoding(self) -> Seq<u8> {
        hex_byte_right_padded(self.pair().0) + hex_byte_right_padded(self.pair().1)
    }

    fn encode_into(&self, out: &mut Vec<u8>)
        ensures
            final(out)@ == old(out)@ + self.encoding(),
    {
        let (a, b): (u8, u8) = match self {
            OnPeriod::Always => (0xFF, 0x00),
            OnPeriod::Never => (0xFE, 0x00),
            OnPeriod::AllDay => (0xFD, 0x00),
            OnPeriod::Range { start_time, end_time } => (start_time.slot_of(), end_time.slot_of()),
        };
        push_hex_byte_right_padded(out, a);
        push_hex_byte_right_padded(out, b);
        assert(final(out)@ =~= old(out)@ + self.encoding());
    }
}

/// The kind and size of a file in the sign's memory.
#[derive(Clone, Copy, Debug, PartialEq, Eq, Structural)]
pub enum FileType {
    Text { size: u16, on_period: OnPeriod },
    String { size: u16 },
    Dots { x: u8, y: u8, color_status: ColorStatus },
}

/// One file of a memory layout.
#[derive(Clone, Copy, Debug, PartialEq, Eq, Structural)]
pub struct MemoryConfiguration {
    pub label: char,
    pub file_type: FileType,
    pub keyboard_accessible: bool,
}

/// The byte for a file that can (`U`) or cannot (`L`) be changed from the
/// sign's keyboard.
pub open spec fn access_byte(keyboard_accessible: bool) -> u8 {
    if keyboard_accessible {
        0x55
    } else {
        0x4C
    }
}

impl MemoryConfiguration {
    /// A file `label` of type `file_type`.
    pub fn new(label: char, file_type: FileType, keyboard_accessible: bool) -> (r: Self)
        ensures
            r == (MemoryConfiguration { label, file_type, keyboard_accessible }),
    {
        MemoryConfiguration { label, file_type, keyboard_accessible }
    }

    /// Whether the file is a text or string file of size zero, which takes
    /// all remaining memory.
    pub open spec fn takes_rest(self) -> bool {
        match self.file_type {
            FileType::Text { size, .. } => size == 0,
            FileType::String { size } => size == 0,
            FileType::Dots { .. } => false,
        }
    }

    /// The label, the type byte, the access byte, the size field and the
    /// four bytes that depend on the type.
    pub open spec fn encoding(self) -> Seq<u8> {
        seq![
            label_byte(self.label),
            self.file_type.type_byte(),
            access_byte(self.keyboard_accessible),
        ] + self.file_type.size_field() + self.file_type.tail()
    }

    fn encode_into(&self, out: &mut Vec<u8>)
        ensures
            final(out)@ == old(out)@ + self.encoding(),
    {
        let ghost start = out@;
        out.push(self.label as u8);
        out.push(self.file_type.to_type_byte());
        if self.keyboard_accessible {
            out.push(0x55);
        } else {
            out.push(0x4C);
        }
        self.file_type.push_size_field(out);
        self.file_type.push_tail(out);
        assert(out@ =~= start + self.encoding());
    }
}

impl FileType {
    /// `A` for text, `B` for string, `C` for dots.
    pub open spec fn type_byte(self) -> u8 {
        match self {
            FileType::Text { .. } => 0x41,
            FileType::String { .. } => 0x42,
            FileType::Dots { .. } => 0x43,
        }
    }

    /// The size in decimal, zero padded to four digits at least; for dots,
    /// the height and then the width, two digits each at least.
    pub open spec fn size_field(self) -> Seq<u8> {
        match self {
            FileType::Text { size, .. } => decimal_padded(size as nat, 4),
            FileType::String { size } => decimal_padded(size as nat, 4),
            FileType::Dots { x, y, .. } => decimal_padded(y as nat, 2) + decimal_padded(x as nat, 2),
        }
    }

    /// For text, the period in which it is shown; for strings `0000`; for
    /// dots, the colour digit and `000`.
    pub open spec fn tail(self) -> Seq<u8> {
        match self {
            FileType::Text { on_period, .. } => on_period.encoding(),
            FileType::String { .. } => seq![0x30u8, 0x30u8, 0x30u8, 0x30u8],
            FileType::Dots { color_status, .. } => seq![
                color_status.digit(),
                0x30u8,
                0x30u8,
                0x30u8,
            ],
        }
    }

    fn to_type_byte(&self) -> (r: u8)
        ensures
            r == self.type_byte(),
    {
        match self {
            FileType::Text { .. } => 0x41,
            FileType::String { .. } => 0x42,
            FileType::Dots { .. } => 0x43,
        }
    }

    fn push_size_field(&self, out: &mut Vec<u8>)
        ensures
            final(out)@ == old(out)@ + self.size_field(),
    {
        match self {
            FileType::Text { size, .. } => push_decimal_padded(out, *size, 4),
            FileType::String { size } => push_decimal_padded(out, *size, 4),
            FileType::Dots { x, y, .. } => {
                let ghost start = out@;
                push_decimal_padded(out, *y as u16, 2);
                push_decimal_padded(out, *x as u16, 2);
                assert(out@ =~= start + self.size_field());
            },
        }
    }

    fn push_tail(&self, out: &mut Vec<u8>)
        ensures
            final(out)@ == old(out)@ + self.tail(),
    {
        let ghost start = out@;
        match self {
            FileType::Text { on_period, .. } => on_period.encode_into(out),
            FileType::String { .. } => {
                out.push(0x30);
                out.push(0x30);
                out.push(0x30);
                out.push(0x30);
            },
            FileType::Dots { color_status, .. } => {
                match color_status {
                    ColorStatus::Monochrome => out.push(0x31),
                    ColorStatus::Tricolor => out.push(0x32),
                    ColorStatus::Octocolor => out.push(0x38),
                }
                out.push(0x30);
                out.push(0x30);
                out.push(0x30);
            },
        }
        assert(out@ =~= start + self.tail());
    }
}

/// The error of a memory layout in which a file other than the last takes
/// all remaining memory.
#[derive(Clone, Copy, Debug, PartialEq, Eq, Structural)]
pub struct SignOutOfMemory {}

/// Lays out the sign's memory as a list of files.
#[derive(Debug, PartialEq, Eq)]
pub struct ConfigureMemory {
    configurations: Vec<MemoryConfiguration>,
}

impl View for ConfigureMemory {
    type V = Seq<MemoryConfiguration>;

    closed spec fn view(&self) -> Seq<MemoryConfiguration> {
        self.configurations@
    }
}

/// Whether only the last file of `c`, if any, takes all remaining memory.
pub open spec fn is_valid_layout(c: Seq<MemoryConfiguration>) -> bool {
    forall|i: int| 0 <= i < c.len() - 1 ==> !(#[trigger] c[i]).takes_rest()
}

/// The label 0x24, then each file's bytes in order.
pub open spec fn memory_layout_encoding(c: Seq<MemoryConfiguration>) -> Seq<u8>
    decreases c.len(),
{
    if c.len() == 0 {
        seq![0x24u8]
    } else {
        memory_layout_encoding(c.drop_last()) + c.last().encoding()
    }
}

impl ConfigureMemory {
    /// The layout `configurations`; fails where a file other than the last
    /// has size zero.
    pub fn new(configurations: Vec<MemoryConfiguration>) -> (r: Result<Self, SignOutOfMemory>)
        ensures
            r is Ok <==> is_valid_layout(configurations@),
            r is Ok ==> r->Ok_0@ == configurations@,
    {
        let n = configurations.len();
        let mut i: usize = 0;
        while n > 0 && i < n - 1
            invariant
                n == configurations@.len(),
                i <= n,
                forall|k: int| 0 <= k < i ==> !(#[trigger] configurations@[k]).takes_rest(),
            decreases n - i,
        {
            let zero = match configurations[i].file_type {
                FileType::Text { size, .. } => size == 0,
                FileType::String { size } => size == 0,
                FileType::Dots { .. } => false,
            };
            if zero {
                return Err(SignOutOfMemory {});
            }
            i = i + 1;
        }
        Ok(ConfigureMemory { configurations })
    }

    fn encode(&self) -> (r: Vec<u8>)
        ensures
            r@ == memory_layout_encoding(self@),
    {
        let mut res: Vec<u8> = vec![0x24];
        let mut i: usize = 0;
        while i < self.configurations.len()
            invariant
                i <= self@.len(),
                self@ == self.configurations@,
                res@ == memory_layout_encoding(self@.subrange(0, i as int)),
            decreases self@.len() - i,
        {
            self.configurations[i].encode_into(&mut res);
            assert(self@.subrange(0, i + 1).drop_last() =~= self@.subrange(0, i as int));
            i = i + 1;
        }
        assert(self@.subrange(0, i as int) =~= self@);
        res
    }
}

/// Clears the sign's memory and its flash.
#[derive(Clone, Copy, Debug, PartialEq, Eq, Structural)]
pub struct ClearMemoryAndFlash {}

impl Default for ClearMemoryAndFlash {
    fn default() -> (r: Self)
        ensures
            r == (ClearMemoryAndFlash {}),
    {
        Self::new()
    }
}

impl ClearMemoryAndFlash {
    /// A command that clears memory and flash.
    pub fn new() -> (r: Self)
        ensures
            r == (ClearMemoryAndFlash {}),
    {
        ClearMemoryAndFlash {}
    }

    /// The label 0x24 four times, with no data.
    pub open spec fn encoding(self) -> Seq<u8> {
        seq![0x24u8, 0x24u8, 0x24u8, 0x24u8]
    }

    fn encode(&self) -> (r: Vec<u8>)
        ensures
            r@ == self.encoding(),
    {
        vec![0x24, 0x24, 0x24, 0x24]
    }
}

/// Sets the day of the week of the sign's clock.
#[derive(Clone, Copy, Debug, PartialEq, Eq, Structural)]
pub struct SetDayOfWeek {
    pub day: Weekday,
}

impl SetDayOfWeek {
    /// A command that sets the day of the week to `day`.
    pub fn new(day: Weekday) -> (r: Self)
        ensures
            r == (SetDayOfWeek { day }),
    {
        SetDayOfWeek { day }
    }

    /// The label 0x26, then the day's digit.
    pub open spec fn encoding(self) -> Seq<u8> {
        seq![0x26u8, self.day.digit()]
    }

    fn encode(&self) -> (r: Vec<u8>)
        ensures
            r@ == self.encoding(),
    {
        vec![0x26, self.day.to_digit()]
    }
}

/// Chooses between the 24-hour and the 12-hour clock.
#[derive(Clone, Copy, Debug, PartialEq, Eq, Structural)]
pub struct SetTimeFormat {
    pub twenty_four_hour: bool,
}

impl SetTimeFormat {
    /// A command that selects the 24-hour clock (`true`) or the 12-hour one.
    pub fn new(twenty_four_hour: bool) -> (r: Self)
        ensures
            r == (SetTimeFormat { twenty_four_hour }),
    {
        SetTimeFormat { twenty_four_hour }
    }

    /// The label 0x27, then `M` for the 24-hour clock or `S` for the 12-hour one.
    pub open spec fn encoding(self) -> Seq<u8> {
        if self.twenty_four_hour {
            seq![0x27u8, 0x4Du8]
        } else {
            seq![0x27u8, 0x53u8]
        }
    }

    fn encode(&self) -> (r: Vec<u8>)
        ensures
            r@ == self.encoding(),
    {
        if self.twenty_four_hour {
            vec![0x27, 0x4D]
        } else {
            vec![0x27, 0x53]
        }
    }
}


/// Why a programmable tone could not be made.
#[derive(Clone, Copy, Debug, PartialEq, Eq, Structural)]
pub enum ToneError {
    DurationOutOfRange,
    RepeatsOutOfRange,
    FrequencyOutOfRange,
}

/// A tone of a chosen frequency, duration and number of repeats.
#[derive(Clone, Copy, Debug, PartialEq, Eq, Structural)]
pub struct ProgrammmableTone {
    frequency: u8,
    duration: u8,
    repeats: u8,
}

impl ProgrammmableTone {
    #[verifier::type_invariant]
    spec fn in_range(self) -> bool {
        self.frequency <= 0xFE && self.duration <= 0xF && self.repeats <= 0xF
    }

    /// The frequency, at most 0xFE.
    pub closed spec fn frequency_spec(self) -> u8 {
        self.frequency
    }

    /// The duration, at most 0xF.
    pub closed spec fn duration_spec(self) -> u8 {
        self.duration
    }

    /// The number of repeats, at most 0xF.
    pub closed spec fn repeats_spec(self) -> u8 {
        self.repeats
    }

    /// A tone; fails where the frequency is above 0xFE, the duration above
    /// 0xF or the repeats above 0xF, reported in that order.
    pub fn new(frequency: u8, duration: u8, repeats: u8) -> (r: Result<Self, ToneError>)
        ensures
            frequency > 0xFE ==> r == Err::<Self, ToneError>(ToneError::FrequencyOutOfRange),
            frequency <= 0xFE && duration > 0xF ==> r == Err::<Self, ToneError>(
                ToneError::DurationOutOfRange,
            ),
            frequency <= 0xFE && duration <= 0xF && repeats > 0xF ==> r == Err::<Self, ToneError>(
                ToneError::RepeatsOutOfRange,
            ),
            frequency <= 0xFE && duration <= 0xF && repeats <= 0xF ==> r is Ok
                && r->Ok_0.frequency_spec() == frequency && r->Ok_0.duration_spec() == duration
                && r->Ok_0.repeats_spec() == repeats,
    {
        if frequency > 0xFE {
            Err(ToneError::FrequencyOutOfRange)
        } else if duration > 0xF {
            Err(ToneError::DurationOutOfRange)
        } else if repeats > 0xF {
            Err(ToneError::RepeatsOutOfRange)
        } else {
            Ok(ProgrammmableTone { frequency, duration, repeats })
        }
    }

    /// The frequency, at most 0xFE.
    pub fn frequency(&self) -> (r: u8)
        ensures
            r == self.frequency_spec(),
            r <= 0xFE,
    {
        proof {
            use_type_invariant(self);
        }
        self.frequency
    }

    /// The duration, at most 0xF.
    pub fn duration(&self) -> (r: u8)
        ensures
            r == self.duration_spec(),
            r <= 0xF,
    {
        proof {
            use_type_invariant(self);
        }
        self.duration
    }

    /// The number of repeats, at most 0xF.
    pub fn repeats(&self) -> (r: u8)
        ensures
            r == self.repeats_spec(),
            r <= 0xF,
    {
        proof {
            use_type_invariant(self);
        }
        self.repeats
    }

    /// `2`, the frequency in hexadecimal padded on the right to two digits,
    /// then the duration and the repeats as one hexadecimal digit each.
    pub open spec fn encoding(self) -> Seq<u8> {
        seq![0x32u8] + hex_byte_right_padded(self.frequency_spec()) + seq![
            hex_digit(self.duration_spec()),
            hex_digit(self.repeats_spec()),
        ]
    }

    fn encode(&self) -> (r: Vec<u8>)
        ensures
            r@ == self.encoding(),
    {
        let mut res: Vec<u8> = vec![0x32];
        push_hex_byte_right_padded(&mut res, self.frequency());
        res.push(hex_digit_of(self.duration()));
        res.push(hex_digit_of(self.repeats()));
        assert(res@ =~= self.encoding());
        res
    }
}

/// What the speaker is to do.
#[derive(Clone, Copy, Debug, PartialEq, Eq, Structural)]
pub enum ToneType {
    SpeakerOn,
    SpeakerOff,
    Continuous2Seconds,
    ShortBeep2Seconds,
    ProgrammmableTone { programmable_tone: ProgrammmableTone },
    StoreProgrammableSound,
    TriggerProgrammableSound,
}

/// Drives the speaker. The sign does not answer on the serial line while the
/// tone plays, so this must be the last command of its packet.
#[derive(Clone, Copy, Debug, PartialEq, Eq, Structural)]
pub struct GenerateSpeakerTone {
    pub tone_type: ToneType,
}

impl GenerateSpeakerTone {
    /// A command that drives the speaker as `tone_type` says.
    pub fn new(tone_type: ToneType) -> (r: Self)
        ensures
            r == (GenerateSpeakerTone { tone_type }),
    {
        GenerateSpeakerTone { tone_type }
    }

    /// Whether the tone has an encoding here: stored and triggered sounds
    /// have none.
    pub open spec fn is_supported(self) -> bool {
        !(self.tone_type is StoreProgrammableSound) && !(self.tone_type is TriggerProgrammableSound)
    }

    /// The label 0x28, then `A` (speaker on), `B` (off), `0` (two seconds
    /// continuous), `1` (two seconds of short beeps) or a programmable tone.
    pub open spec fn encoding(self) -> Seq<u8> {
        seq![0x28u8] + match self.tone_type {
            ToneType::SpeakerOn => seq![0x41u8],
            ToneType::SpeakerOff => seq![0x42u8],
            ToneType::Continuous2Seconds => seq![0x30u8],
            ToneType::ShortBeep2Seconds => seq![0x31u8],
            ToneType::ProgrammmableTone { programmable_tone } => programmable_tone.encoding(),
            _ => Seq::empty(),
        }
    }

    fn encode(&self) -> (r: Result<Vec<u8>, EncodeError>)
        ensures
            r is Ok <==> self.is_supported(),
            r is Ok ==> r->Ok_0@ == self.encoding(),
            r is Err ==> r->Err_0 == EncodeError::Unsupported,
    {
        let mut res: Vec<u8> = vec![0x28];
        match self.tone_type {
            ToneType::SpeakerOn => res.push(0x41),
            ToneType::SpeakerOff => res.push(0x42),
            ToneType::Continuous2Seconds => res.push(0x30),
            ToneType::ShortBeep2Seconds => res.push(0x31),
            ToneType::ProgrammmableTone { programmable_tone } => {
                let mut tone = programmable_tone.encode();
                res.append(&mut tone);
            },
            ToneType::StoreProgrammableSound => {
                return Err(EncodeError::Unsupported);
            },
            ToneType::TriggerProgrammableSound => {
                return Err(EncodeError::Unsupported);
            },
        }
        assert(res@ =~= self.encoding());
        Ok(res)
    }
}

/// The period in which the text file `label` is shown.
#[derive(Clone, Copy, Debug, PartialEq, Eq, Structural)]
pub struct RunTimeTable {
    label: char,
    on_period: OnPeriod,
}

impl RunTimeTable {
    /// The label of the text file.
    pub closed spec fn label_spec(self) -> char {
        self.label
    }

    /// The period in which the file is shown.
    pub closed spec fn on_period_spec(self) -> OnPeriod {
        self.on_period
    }

    /// The period `on_period` for the text file `label`.
    pub fn new(label: char, on_period: OnPeriod) -> (r: Self)
        ensures
            r.label_spec() == label,
            r.on_period_spec() == on_period,
    {
        RunTimeTable { label, on_period }
    }

    /// The label, then the period.
    pub open spec fn encoding(self) -> Seq<u8> {
        seq![label_byte(self.label_spec())] + self.on_period_spec().encoding()
    }

    fn encode_into(&self, out: &mut Vec<u8>)
        ensures
            final(out)@ == old(out)@ + self.encoding(),
    {
        let ghost start = out@;
        out.push(self.label as u8);
        self.on_period.encode_into(out);
        assert(out@ =~= start + self.encoding());
    }
}

/// Sets the periods in which text files are shown.
#[derive(Debug, PartialEq, Eq)]
pub struct SetRunTimeTable {
    pub run_time_tables: Vec<RunTimeTable>,
}

/// The label 0x29, then each table's bytes in order.
pub open spec fn run_time_tables_encoding(t: Seq<RunTimeTable>) -> Seq<u8>
    decreases t.len(),
{
    if t.len() == 0 {
        seq![0x29u8]
    } else {
        run_time_tables_encoding(t.drop_last()) + t.last().encoding()
    }
}

impl SetRunTimeTable {
    /// A command that sets the tables `run_time_tables`.
    pub fn new(run_time_tables: Vec<RunTimeTable>) -> (r: Self)
        ensures
            r.run_time_tables@ == run_time_tables@,
    {
        SetRunTimeTable { run_time_tables }
    }

    fn encode(&self) -> (r: Vec<u8>)
        ensures
            r@ == run_time_tables_encoding(self.run_time_tables@),
    {
        let mut res: Vec<u8> = vec![0x29];
        let mut i: usize = 0;
        while i < self.run_time_tables.len()
            invariant
                i <= self.run_time_tables@.len(),
                res@ == run_time_tables_encoding(self.run_time_tables@.subrange(0, i as int)),
            decreases self.run_time_tables@.len() - i,
        {
            self.run_time_tables[i].encode_into(&mut res);
            assert(self.run_time_tables@.subrange(0, i + 1).drop_last()
                =~= self.run_time_tables@.subrange(0, i as int));
            i = i + 1;
        }
        assert(self.run_time_tables@.subrange(0, i as int) =~= self.run_time_tables@);
        res
    }
}

/// Restarts the sign without clearing its memory.
#[derive(Clone, Copy, Debug, PartialEq, Eq, Structural)]
pub struct SoftReset {}

impl Default for SoftReset {
    fn default() -> (r: Self)
        ensures
            r == (SoftReset {}),
    {
        Self::new()
    }
}

impl SoftReset {
    /// A command that restarts the sign.
    pub fn new() -> (r: Self)
        ensures
            r == (SoftReset {}),
    {
        SoftReset {}
    }

    /// The label 0x2C, with no data.
    pub open spec fn encoding(self) -> Seq<u8> {
        seq![0x2Cu8]
    }

    fn encode(&self) -> (r: Vec<u8>)
        ensures
            r@ == self.encoding(),
    {
        vec![0x2C]
    }
}

/// The error of a run sequence with more than 128 files.
#[derive(Clone, Copy, Debug, PartialEq, Eq, Structural)]
pub struct TooManyTextFiles {}

/// How a run sequence treats the files' own times.
#[derive(Clone, Copy, Debug, PartialEq, Eq, Structural)]
pub enum RunSequenceType {
    FollowFileTimes,
    IgnoreFileTimes,
    DeleteAtOffTime,
}

/// The most files a run sequence can hold.
pub const MAX_RUN_SEQUENCE_FILES: usize = 128;

/// Sets the order in which text files are shown.
#[derive(Debug, PartialEq, Eq)]
pub struct SetRunSequence {
    pub run_seqeunce_type: RunSequenceType,
    pub keyboard_accessible: bool,
    text_files: Vec<char>,
}

/// The value of a [`SetRunSequence`].
pub struct SetRunSequenceView {
    pub run_seqeunce_type: RunSequenceType,
    pub keyboard_accessible: bool,
    pub text_files: Seq<char>,
}

impl View for SetRunSequence {
    type V = SetRunSequenceView;

    closed spec fn view(&self) -> SetRunSequenceView {
        SetRunSequenceView {
            run_seqeunce_type: self.run_seqeunce_type,
            keyboard_accessible: self.keyboard_accessible,
            text_files: self.text_files@,
        }
    }
}

impl SetRunSequenceView {
    /// The label 0x2E, the access byte, then each file's label.
    pub open spec fn encoding(self) -> Seq<u8> {
        seq![0x2Eu8, access_byte(self.keyboard_accessible)] + Seq::new(
            self.text_files.len(),
            |i: int| label_byte(self.text_files[i]),
        )
    }
}

impl SetRunSequence {
    /// The sequence `text_files`; fails where it holds more than 128 files.
    pub fn new(
        run_seqeunce_type: RunSequenceType,
        keyboard_accessible: bool,
        text_files: Vec<char>,
    ) -> (r: Result<Self, TooManyTextFiles>)
        ensures
            r is Ok <==> text_files@.len() <= MAX_RUN_SEQUENCE_FILES,
            r is Ok ==> r->Ok_0@ == (SetRunSequenceView {
                run_seqeunce_type,
                keyboard_accessible,
                text_files: text_files@,
            }),
    {
        if text_files.len() > MAX_RUN_SEQUENCE_FILES {
            return Err(TooManyTextFiles {});
        }
        Ok(SetRunSequence { run_seqeunce_type, keyboard_accessible, text_files })
    }

    fn encode(&self) -> (r: Vec<u8>)
        ensures
            r@ == self@.encoding(),
    {
        let mut res: Vec<u8> = vec![0x2E];
        if self.keyboard_accessible {
            res.push(0x55);
        } else {
            res.push(0x4C);
        }
        let mut i: usize = 0;
        while i < self.text_files.len()
            invariant
                i <= self@.text_files.len(),
                self@.text_files == self.text_files@,
                res@ == seq![0x2Eu8, access_byte(self.keyboard_accessible)] + Seq::new(
                    i as nat,
                    |k: int| label_byte(self@.text_files[k]),
                ),
            decreases self@.text_files.len() - i,
        {
            res.push(self.text_files[i] as u8);
            i = i + 1;
            assert(res@ =~= seq![0x2Eu8, access_byte(self.keyboard_accessible)] + Seq::new(
                i as nat,
                |k: int| label_byte(self@.text_files[k]),
            ));
        }
        assert(res@ =~= self@.encoding());
        res
    }
}

/// The days on which a text file is shown.
#[derive(Clone, Copy, Debug, PartialEq, Eq, Structural)]
pub enum RunDays {
    Daily,
    WeekDays,
    Weekends,
    Always,
    Never,
    Range { start_day: Weekday, stop_day: Weekday },
}

impl RunDays {
    /// Two bytes: `00` daily, `80` week days, `90` weekends, `A0` always,
    /// `B0` never, or the digits of the first and the last day of a range.
    pub open spec fn encoding(self) -> Seq<u8> {
        match self {
            RunDays::Daily => seq![0x30u8, 0x30u8],
            RunDays::WeekDays => seq![0x38u8, 0x30u8],
            RunDays::Weekends => seq![0x39u8, 0x30u8],
            RunDays::Always => seq![0x41u8, 0x30u8],
            RunDays::Never => seq![0x42u8, 0x30u8],
            RunDays::Range { start_day, stop_day } => seq![start_day.digit(), stop_day.digit()],
        }
    }

    fn encode(&self) -> (r: Vec<u8>)
        ensures
            r@ == self.encoding(),
    {
        match self {
            RunDays::Daily => vec![0x30, 0x30],
            RunDays::WeekDays => vec![0x38, 0x30],
            RunDays::Weekends => vec![0x39, 0x30],
            RunDays::Always => vec![0x41, 0x30],
            RunDays::Never => vec![0x42, 0x30],
            RunDays::Range { start_day, stop_day } => vec![start_day.to_digit(), stop_day.to_digit()],
        }
    }
}

/// Sets the days on which the text file `label` is shown.
#[derive(Clone, Copy, Debug, PartialEq, Eq, Structural)]
pub struct SetRunDayTable {
    pub label: char,
    pub run_days: RunDays,
}

impl SetRunDayTable {
    /// A command that shows the file `label` on the days `run_days`.
    pub fn new(label: char, run_days: RunDays) -> (r: Self)
        ensures
            r == (SetRunDayTable { label, run_days }),
    {
        SetRunDayTable { label, run_days }
    }

    /// The label 0x32, the file's label, then the days.
    pub open spec fn encoding(self) -> Seq<u8> {
        seq![0x32u8, label_byte(self.label)] + self.run_days.encoding()
    }

    fn encode(&self) -> (r: Vec<u8>)
        ensures
            r@ == self.encoding(),
    {
        let mut res: Vec<u8> = vec![0x32, self.label as u8];
        let mut days = self.run_days.encode();
        res.append(&mut days);
        assert(res@ =~= self.encoding());
        res
    }
}

/// Clears the sign's serial error status register.
#[derive(Clone, Copy, Debug, PartialEq, Eq, Structural)]
pub struct ClearSerialErrorStatusRegister {}

impl Default for ClearSerialErrorStatusRegister {
    fn default() -> (r: Self)
        ensures
            r == (ClearSerialErrorStatusRegister {}),
    {
        Self::new()
    }
}

impl ClearSerialErrorStatusRegister {
    /// A command that clears the serial error status register.
    pub fn new() -> (r: Self)
        ensures
            r == (ClearSerialErrorStatusRegister {}),
    {
        ClearSerialErrorStatusRegister {}
    }

    /// The label 0x34, with no data.
    pub open spec fn encoding(self) -> Seq<u8> {
        seq![0x34u8]
    }

    fn encode(&self) -> (r: Vec<u8>)
        ensures
            r@ == self.encoding(),
    {
        vec![0x34]
    }
}


/// A special command.
#[derive(Debug, PartialEq, Eq)]
pub enum WriteSpecial {
    SetTime(SetTime),
    ToggleSpeaker(ToggleSpeaker),
    ConfigureMemory(ConfigureMemory),
    ClearMemoryAndFlash(ClearMemoryAndFlash),
    SetDayOfWeek(SetDayOfWeek),
    SetTimeFormat(SetTimeFormat),
    GenerateSpeakerTone(GenerateSpeakerTone),
    SetRunTimeTable(SetRunTimeTable),
    /// Has no encoding here.
    DisplayAtXYPosition(),
    SoftReset(SoftReset),
    SetRunSequence(SetRunSequence),
    /// Has no encoding here.
    SetDimminRegister(),
    /// Has no encoding here.
    SetDimmingTimes(),
    SetRunDayTable(SetRunDayTable),
    ClearSerialErrorStatusRegister(ClearSerialErrorStatusRegister),
}

/// The value of a [`WriteSpecial`].
pub enum WriteSpecialView {
    SetTime(SetTime),
    ToggleSpeaker(ToggleSpeaker),
    ConfigureMemory(Seq<MemoryConfiguration>),
    ClearMemoryAndFlash(ClearMemoryAndFlash),
    SetDayOfWeek(SetDayOfWeek),
    SetTimeFormat(SetTimeFormat),
    GenerateSpeakerTone(GenerateSpeakerTone),
    SetRunTimeTable(Seq<RunTimeTable>),
    DisplayAtXYPosition,
    SoftReset(SoftReset),
    SetRunSequence(SetRunSequenceView),
    SetDimminRegister,
    SetDimmingTimes,
    SetRunDayTable(SetRunDayTable),
    ClearSerialErrorStatusRegister(ClearSerialErrorStatusRegister),
}

impl View for WriteSpecial {
    type V = WriteSpecialView;

    open spec fn view(&self) -> WriteSpecialView {
        match self {
            WriteSpecial::SetTime(c) => WriteSpecialView::SetTime(*c),
            WriteSpecial::ToggleSpeaker(c) => WriteSpecialView::ToggleSpeaker(*c),
            WriteSpecial::ConfigureMemory(c) => WriteSpecialView::ConfigureMemory(c@),
            WriteSpecial::ClearMemoryAndFlash(c) => WriteSpecialView::ClearMemoryAndFlash(*c),
            WriteSpecial::SetDayOfWeek(c) => WriteSpecialView::SetDayOfWeek(*c),
            WriteSpecial::SetTimeFormat(c) => WriteSpecialView::SetTimeFormat(*c),
            WriteSpecial::GenerateSpeakerTone(c) => WriteSpecialView::GenerateSpeakerTone(*c),
            WriteSpecial::SetRunTimeTable(c) => WriteSpecialView::SetRunTimeTable(c.run_time_tables@),
            WriteSpecial::DisplayAtXYPosition() => WriteSpecialView::DisplayAtXYPosition,
            WriteSpecial::SoftReset(c) => WriteSpecialView::SoftReset(*c),
            WriteSpecial::SetRunSequence(c) => WriteSpecialView::SetRunSequence(c@),
            WriteSpecial::SetDimminRegister() => WriteSpecialView::SetDimminRegister,
            WriteSpecial::SetDimmingTimes() => WriteSpecialView::SetDimmingTimes,
            WriteSpecial::SetRunDayTable(c) => WriteSpecialView::SetRunDayTable(*c),
            WriteSpecial::ClearSerialErrorStatusRegister(c) => WriteSpecialView::ClearSerialErrorStatusRegister(*c),
        }
    }
}

impl WriteSpecialView {
    /// Whether the command has an encoding here.
    pub open spec fn is_supported(self) -> bool {
        match self {
            WriteSpecialView::DisplayAtXYPosition => false,
            WriteSpecialView::SetDimminRegister => false,
            WriteSpecialView::SetDimmingTimes => false,
            WriteSpecialView::GenerateSpeakerTone(c) => c.is_supported(),
            _ => true,
        }
    }

    /// The bytes of the command after the opcode: its label and data.
    pub open spec fn body(self) -> Seq<u8> {
        match self {
            WriteSpecialView::SetTime(c) => c.encoding(),
            WriteSpecialView::ToggleSpeaker(c) => c.encoding(),
            WriteSpecialView::ConfigureMemory(c) => memory_layout_encoding(c),
            WriteSpecialView::ClearMemoryAndFlash(c) => c.encoding(),
            WriteSpecialView::SetDayOfWeek(c) => c.encoding(),
            WriteSpecialView::SetTimeFormat(c) => c.encoding(),
            WriteSpecialView::GenerateSpeakerTone(c) => c.encoding(),
            WriteSpecialView::SetRunTimeTable(c) => run_time_tables_encoding(c),
            WriteSpecialView::SoftReset(c) => c.encoding(),
            WriteSpecialView::SetRunSequence(c) => c.encoding(),
            WriteSpecialView::SetRunDayTable(c) => c.encoding(),
            WriteSpecialView::ClearSerialErrorStatusRegister(c) => c.encoding(),
            _ => Seq::empty(),
        }
    }

    /// The bytes of the command: the opcode, then [`WriteSpecialView::body`].
    pub open spec fn encoding(self) -> Seq<u8> {
        seq![WRITE_SPECIAL] + self.body()
    }

    /// The special command at offset `p` of `s`, and the offset after it and
    /// its optional checksum trailer. Only setting the time and toggling the
    /// speaker are read; any other special command is reported as
    /// unsupported.
    pub open spec fn parse_spec(s: Seq<u8>, p: int) -> Result<(WriteSpecialView, int), ParseError> {
        if 0 <= p && p + 1 < s.len() && s[p] == START_OF_TEXT && s[p + 1] == WRITE_SPECIAL {
            let q = p + 2;
            match SetTime::parse_spec(s, q) {
                Ok((c, e)) => Ok((WriteSpecialView::SetTime(c), trailer_end(s, e))),
                Err(err) => if err.kind == ParseErrorKind::InvalidTime {
                    Err(err)
                } else {
                    match ToggleSpeaker::parse_spec(s, q) {
                        Ok((c, e)) => Ok((WriteSpecialView::ToggleSpeaker(c), trailer_end(s, e))),
                        Err(_) => Err(error_at(q, ParseErrorKind::Unsupported)),
                    }
                },
            }
        } else {
            Err(error_at(p, ParseErrorKind::NoCommand))
        }
    }
}

impl WriteSpecial {
    /// The bytes of the command, without the framing of a packet; fails for
    /// the commands that have no encoding here.
    pub fn encode(&self) -> (r: Result<Vec<u8>, EncodeError>)
        ensures
            r is Ok <==> self@.is_supported(),
            r is Ok ==> r->Ok_0@ == self@.encoding(),
            r is Err ==> r->Err_0 == EncodeError::Unsupported,
    {
        let mut inner = match self {
            WriteSpecial::SetTime(c) => c.encode(),
            WriteSpecial::ToggleSpeaker(c) => c.encode(),
            WriteSpecial::ConfigureMemory(c) => c.encode(),
            WriteSpecial::ClearMemoryAndFlash(c) => c.encode(),
            WriteSpecial::SetDayOfWeek(c) => c.encode(),
            WriteSpecial::SetTimeFormat(c) => c.encode(),
            WriteSpecial::GenerateSpeakerTone(c) => match c.encode() {
                Ok(v) => v,
                Err(e) => {
                    return Err(e);
                },
            },
            WriteSpecial::SetRunTimeTable(c) => c.encode(),
            WriteSpecial::DisplayAtXYPosition() => {
                return Err(EncodeError::Unsupported);
            },
            WriteSpecial::SoftReset(c) => c.encode(),
            WriteSpecial::SetRunSequence(c) => c.encode(),
            WriteSpecial::SetDimminRegister() => {
                return Err(EncodeError::Unsupported);
            },
            WriteSpecial::SetDimmingTimes() => {
                return Err(EncodeError::Unsupported);
            },
            WriteSpecial::SetRunDayTable(c) => c.encode(),
            WriteSpecial::ClearSerialErrorStatusRegister(c) => c.encode(),
        };
        let mut res: Vec<u8> = vec![WRITE_SPECIAL];
        res.append(&mut inner);
        assert(res@ =~= self@.encoding());
        Ok(res)
    }

    /// Exec counterpart of [`WriteSpecialView::parse_spec`].
    pub fn parse_at(s: &[u8], p: usize) -> (r: Result<(WriteSpecial, usize), ParseError>)
        requires
            p <= s@.len(),
        ensures
            parsed_as_view(r, WriteSpecialView::parse_spec(s@, p as int)),
            r is Ok ==> p < r->Ok_0.1 <= s@.len(),
    {
        if !(s.len() > 1 && p < s.len() - 1 && s[p] == START_OF_TEXT && s[p + 1] == WRITE_SPECIAL) {
            return Err(ParseError { position: p, kind: ParseErrorKind::NoCommand });
        }
        let q = p + 2;
        match SetTime::parse_at(s, q) {
            Ok((c, e)) => Ok((WriteSpecial::SetTime(c), skip_trailer(s, e))),
            Err(err) => {
                if err.kind == ParseErrorKind::InvalidTime {
                    Err(err)
                } else {
                    match ToggleSpeaker::parse_at(s, q) {
                        Ok((c, e)) => Ok((WriteSpecial::ToggleSpeaker(c), skip_trailer(s, e))),
                        Err(_) => Err(ParseError { position: q, kind: ParseErrorKind::Unsupported }),
                    }
                }
            },
        }
    }

    /// Parses a special command at the start of `input`, returning the bytes
    /// after it.
    pub fn parse(input: &[u8]) -> (r: Result<(&[u8], WriteSpecial), ParseError>)
        ensures
            parsed_rest_view(input@, r, WriteSpecialView::parse_spec(input@, 0)),
    {
        match Self::parse_at(input, 0) {
            Ok((c, q)) => Ok((slice_subrange(input, q, input.len()), c)),
            Err(e) => Err(e),
        }
    }
}

} // verus!
