//! Commands and packets: the framing of a transmission, its checksums, and
//! the parser that reads a transmission back.

use vstd::prelude::*;
use vstd::slice::slice_subrange;
use crate::digits::{hex_value, hex_value_at, hex_word, is_hex_digit, is_hex_digit_byte, push_hex_word};
use crate::frame::{
    error_at, parsed_as_view, parsed_rest_view, EncodeError, ParseError, ParseErrorKind,
    END_OF_TEXT, END_OF_TRANSMISSION, NULL, SELECTOR_SEPARATOR, START_OF_HEADING, START_OF_TEXT,
};
use crate::selector::SignSelector;
use crate::text::{ReadText, WriteText, WriteTextView};
use crate::write_special::{WriteSpecial, WriteSpecialView};

verus! {

/// A command to be run on the sign.
#[derive(Debug, PartialEq, Eq)]
pub enum Command {
    WriteText(WriteText),
    ReadText(ReadText),
    WriteSpecial(WriteSpecial),
}

/// The value of a [`Command`].
pub enum CommandView {
    WriteText(WriteTextView),
    ReadText(ReadText),
    WriteSpecial(WriteSpecialView),
}

impl View for Command {
    type V = CommandView;

    open spec fn view(&self) -> CommandView {
        match self {
            Command::WriteText(c) => CommandView::WriteText(c@),
            Command::ReadText(c) => CommandView::ReadText(*c),
            Command::WriteSpecial(c) => CommandView::WriteSpecial(c@),
        }
    }
}

impl CommandView {
    /// Whether the command has an encoding here.
    pub open spec fn is_supported(self) -> bool {
        match self {
            CommandView::WriteSpecial(c) => c.is_supported(),
            _ => true,
        }
    }

    /// The bytes of the command, without the framing of a packet.
    pub open spec fn encoding(self) -> Seq<u8> {
        match self {
            CommandView::WriteText(c) => c.encoding(),
            CommandView::ReadText(c) => c.encoding(),
            CommandView::WriteSpecial(c) => c.encoding(),
        }
    }

    /// The command at offset `p` of `s`, and the offset after it: the first
    /// of a write-text, a read-text and a special command that is there.
    pub open spec fn parse_spec(s: Seq<u8>, p: int) -> Result<(CommandView, int), ParseError> {
        match WriteTextView::parse_spec(s, p) {
            Ok((c, e)) => Ok((CommandView::WriteText(c), e)),
            Err(_) => match ReadText::parse_spec(s, p) {
                Ok((c, e)) => Ok((CommandView::ReadText(c), e)),
                Err(_) => match WriteSpecialView::parse_spec(s, p) {
                    Ok((c, e)) => Ok((CommandView::WriteSpecial(c), e)),
                    Err(err) => Err(err),
                },
            },
        }
    }
}

impl Command {
    /// The bytes of the command, without the framing of a packet; fails for
    /// the commands that have no encoding here. A sign needs a whole packet:
    /// see [`Packet::encode`].
    pub fn encode(&self) -> (r: Result<Vec<u8>, EncodeError>)
        ensures
            r is Ok <==> self@.is_supported(),
            r is Ok ==> r->Ok_0@ == self@.encoding(),
            r is Err ==> r->Err_0 == EncodeError::Unsupported,
    {
        match self {
            Command::WriteText(c) => Ok(c.encode()),
            Command::ReadText(c) => Ok(c.encode()),
            Command::WriteSpecial(c) => c.encode(),
        }
    }

    /// Whether the command asks the sign for data, rather than writing to it.
    pub fn is_read(&self) -> (r: bool)
        ensures
            r == (self@ is ReadText),
    {
        match self {
            Command::WriteText(_) => false,
            Command::ReadText(_) => true,
            Command::WriteSpecial(_) => false,
        }
    }

    /// Exec counterpart of [`CommandView::parse_spec`].
    pub fn parse_at(s: &[u8], p: usize) -> (r: Result<(Command, usize), ParseError>)
        requires
            p <= s@.len(),
        ensures
            parsed_as_view(r, CommandView::parse_spec(s@, p as int)),
            r is Ok ==> p < r->Ok_0.1 <= s@.len(),
    {
        if let Ok((c, e)) = WriteText::parse_at(s, p) {
            return Ok((Command::WriteText(c), e));
        }
        if let Ok((c, e)) = ReadText::parse_at(s, p) {
            return Ok((Command::ReadText(c), e));
        }
        match WriteSpecial::parse_at(s, p) {
            Ok((c, e)) => Ok((Command::WriteSpecial(c), e)),
            Err(err) => Err(err),
        }
    }

    /// Parses a command at the start of `input`, returning the bytes after it.
    pub fn parse(input: &[u8]) -> (r: Result<(&[u8], Command), ParseError>)
        ensures
            parsed_rest_view(input@, r, CommandView::parse_spec(input@, 0)),
    {
        match Self::parse_at(input, 0) {
            Ok((c, q)) => Ok((slice_subrange(input, q, input.len()), c)),
            Err(e) => Err(e),
        }
    }
}

/// The sum of the bytes of `s`.
pub open spec fn byte_sum(s: Seq<u8>) -> nat
    decreases s.len(),
{
    if s.len() == 0 {
        0
    } else {
        byte_sum(s.drop_last()) + s.last() as nat
    }
}

/// The checksum of a command section: the sum of its bytes modulo 65536.
pub open spec fn checksum(section: Seq<u8>) -> u16 {
    (byte_sum(section) % 65536) as u16
}

/// The command bytes `body` framed for a packet: start of text, the body, end
/// of text, then the checksum of those bytes as four hexadecimal digits.
#[verifier::opaque]
pub open spec fn framed_section(body: Seq<u8>) -> Seq<u8> {
    let framed = seq![START_OF_TEXT] + body + seq![END_OF_TEXT];
    framed + hex_word(checksum(framed))
}

/// A command framed for a packet.
pub open spec fn command_section(c: CommandView) -> Seq<u8> {
    framed_section(c.encoding())
}

/// The selectors' bytes, separated by commas.
pub open spec fn selectors_encoding(s: Seq<SignSelector>) -> Seq<u8>
    decreases s.len(),
{
    if s.len() == 0 {
        Seq::empty()
    } else if s.len() == 1 {
        s[0].encoding()
    } else {
        selectors_encoding(s.drop_last()) + seq![SELECTOR_SEPARATOR] + s.last().encoding()
    }
}

/// The command sections in order.
pub open spec fn commands_encoding(c: Seq<CommandView>) -> Seq<u8>
    decreases c.len(),
{
    if c.len() == 0 {
        Seq::empty()
    } else {
        commands_encoding(c.drop_last()) + command_section(c.last())
    }
}

/// The five nulls and start of heading that open every packet.
pub open spec fn packet_header() -> Seq<u8> {
    seq![NULL, NULL, NULL, NULL, NULL, START_OF_HEADING]
}

/// A packet: one or more sign selectors and the commands to run on them.
///
/// At most one read command may be used per packet and it must be last. A
/// [`crate::write_special::GenerateSpeakerTone`] must be last too, and the
/// sign does not answer on the serial line while it plays the tone.
#[derive(Debug, PartialEq, Eq)]
pub struct Packet {
    /// The signs the packet is for.
    pub selectors: Vec<SignSelector>,
    /// The commands to run on the signs.
    pub commands: Vec<Command>,
}

/// The value of a [`Packet`].
pub struct PacketView {
    pub selectors: Seq<SignSelector>,
    pub commands: Seq<CommandView>,
}

impl View for Packet {
    type V = PacketView;

    open spec fn view(&self) -> PacketView {
        PacketView {
            selectors: self.selectors@,
            commands: self.commands@.map_values(|c: Command| c@),
        }
    }
}

impl PacketView {
    /// Whether every command has an encoding here.
    pub open spec fn is_supported(self) -> bool {
        forall|i: int| 0 <= i < self.commands.len() ==> (#[trigger] self.commands[i]).is_supported()
    }

    /// The bytes of the packet: the header, the selectors, the command
    /// sections and the end of transmission.
    pub open spec fn encoding(self) -> Seq<u8> {
        packet_header() + selectors_encoding(self.selectors) + commands_encoding(self.commands)
            + seq![END_OF_TRANSMISSION]
    }
}

/// The sum of the bytes of `s` from `from` to `to`, modulo 65536.
fn sum_mod(s: &[u8], from: usize, to: usize) -> (r: u16)
    requires
        from <= to <= s@.len(),
    ensures
        r as nat == byte_sum(s@.subrange(from as int, to as int)) % 65536,
{
    let mut sum: u16 = 0;
    let mut i: usize = from;
    while i < to
        invariant
            from <= i <= to,
            to <= s@.len(),
            sum as nat == byte_sum(s@.subrange(from as int, i as int)) % 65536,
        decreases to - i,
    {
        proof {
            let next = s@.subrange(from as int, i + 1);
            assert(next.drop_last() =~= s@.subrange(from as int, i as int));
            vstd::arithmetic::div_mod::lemma_add_mod_noop(
                byte_sum(s@.subrange(from as int, i as int)) as int,
                s@[i as int] as int,
                65536,
            );
        }
        sum = ((sum as u32 + s[i] as u32) % 65536) as u16;
        i = i + 1;
    }
    sum
}

/// Whether the command section from `p` to `q` of `s` ends with the end of
/// text and four hexadecimal digits whose value is the sum of the bytes
/// before them, modulo 65536.
pub open spec fn checksum_matches(s: Seq<u8>, p: int, q: int) -> bool {
    0 <= p && p + 5 <= q && q <= s.len() && s[q - 5] == END_OF_TEXT && (forall|i: int|
        q - 4 <= i < q ==> is_hex_digit(#[trigger] s[i])) && hex_value(s.subrange(q - 4, q))
        == byte_sum(s.subrange(p, q - 4)) % 65536
}

/// Exec counterpart of [`checksum_matches`].
fn checksum_matches_at(s: &[u8], p: usize, q: usize) -> (r: bool)
    requires
        p <= q <= s@.len(),
    ensures
        r == checksum_matches(s@, p as int, q as int),
{
    if q - p < 5 || s[q - 5] != END_OF_TEXT {
        return false;
    }
    let mut i: usize = q - 4;
    while i < q
        invariant
            q - 4 <= i <= q,
            q <= s@.len(),
            forall|k: int| q - 4 <= k < i ==> is_hex_digit(#[trigger] s@[k]),
        decreases q - i,
    {
        if !is_hex_digit_byte(s[i]) {
            return false;
        }
        i = i + 1;
    }
    let written = hex_value_at(s, q - 4, q);
    let sum = sum_mod(s, p, q - 4);
    written == sum as u32
}

/// Appends a command section of the command bytes `body`, with its checksum.
fn push_section(out: &mut Vec<u8>, body: Vec<u8>)
    ensures
        final(out)@ == old(out)@ + framed_section(body@),
{
    let ghost start = out@;
    let ghost content = body@;
    let mut section: Vec<u8> = vec![START_OF_TEXT];
    let mut body = body;
    section.append(&mut body);
    section.push(END_OF_TEXT);
    let sum = sum_mod(section.as_slice(), 0, section.len());
    assert(section@.subrange(0, section@.len() as int) =~= section@);
    let ghost framed = section@;
    assert(framed =~= seq![START_OF_TEXT] + content + seq![END_OF_TEXT]);
    push_hex_word(&mut section, sum);
    out.append(&mut section);
    reveal(framed_section);
    assert(out@ =~= start + framed_section(content));
}

/// How many nulls open `s` from offset `p` on.
pub open spec fn null_run_len(s: Seq<u8>, p: int) -> nat
    decreases s.len() - p,
{
    if 0 <= p < s.len() && s[p] == NULL {
        1 + null_run_len(s, p + 1)
    } else {
        0
    }
}

/// The offset after a selector that ends at `q`, and its comma if one follows.
pub open spec fn skip_separator(s: Seq<u8>, q: int) -> int {
    if 0 <= q < s.len() && s[q] == SELECTOR_SEPARATOR {
        q + 1
    } else {
        q
    }
}

/// The selectors from offset `p` on, each followed by an optional comma,
/// until one fails to parse; and the offset after them.
pub open spec fn more_selectors(s: Seq<u8>, p: int) -> (Seq<SignSelector>, int)
    decreases s.len() - p,
{
    match SignSelector::parse_spec(s, p) {
        Ok((sel, q)) => if p < q <= s.len() {
            let rest = more_selectors(s, skip_separator(s, q));
            (seq![sel] + rest.0, rest.1)
        } else {
            (Seq::empty(), p)
        },
        Err(_) => (Seq::empty(), p),
    }
}

/// One or more selectors at offset `p`, and the offset after them.
pub open spec fn parse_selectors(s: Seq<u8>, p: int) -> Result<(Seq<SignSelector>, int), ParseError> {
    match SignSelector::parse_spec(s, p) {
        Ok((sel, q)) => {
            let rest = more_selectors(s, skip_separator(s, q));
            Ok((seq![sel] + rest.0, rest.1))
        },
        Err(e) => Err(e),
    }
}

/// The commands from offset `p` on, until none is there; and the offset
/// after them. A command that is there but cannot be read is an error, and
/// so is, where `strict`, one whose checksum does not match.
pub open spec fn parse_commands(s: Seq<u8>, p: int, strict: bool) -> Result<
    (Seq<CommandView>, int),
    ParseError,
>
    decreases s.len() - p,
{
    match CommandView::parse_spec(s, p) {
        Ok((c, q)) => if !(p < q <= s.len()) {
            Ok((Seq::empty(), p))
        } else if strict && !checksum_matches(s, p, q) {
            Err(error_at(p, ParseErrorKind::ChecksumMismatch))
        } else {
            match parse_commands(s, q, strict) {
                Ok((rest, e)) => Ok((seq![c] + rest, e)),
                Err(e) => Err(e),
            }
        },
        Err(e) => if e.kind == ParseErrorKind::NoCommand {
            Ok((Seq::empty(), p))
        } else {
            Err(e)
        },
    }
}

/// The number of leading nulls that a packet's parse takes: all of them, but
/// at most 100.
pub open spec fn leading_nulls(s: Seq<u8>) -> int {
    if null_run_len(s, 0) < 100 {
        null_run_len(s, 0) as int
    } else {
        100
    }
}

/// The packet at the start of `s`, and the offset after its end of
/// transmission: five to a hundred nulls, the start of heading, one or more
/// selectors, zero or more commands and the end of transmission. Where
/// `strict`, every command must carry a checksum that matches it.
pub open spec fn parse_packet(s: Seq<u8>, strict: bool) -> Result<(PacketView, int), ParseError> {
    let n = leading_nulls(s);
    if n < 5 || n >= s.len() || s[n] != START_OF_HEADING {
        Err(error_at(n, ParseErrorKind::StartOfHeading))
    } else {
        match parse_selectors(s, n + 1) {
            Err(e) => Err(e),
            Ok((selectors, q)) => match parse_commands(s, q, strict) {
                Err(e) => Err(e),
                Ok((commands, r)) => if 0 <= r < s.len() && s[r] == END_OF_TRANSMISSION {
                    Ok((PacketView { selectors, commands }, r + 1))
                } else {
                    Err(error_at(r, ParseErrorKind::EndOfTransmission))
                },
            },
        }
    }
}


/// The views of the commands `c`.
pub open spec fn command_views(c: Seq<Command>) -> Seq<CommandView> {
    c.map_values(|x: Command| x@)
}

fn skip_separator_at(s: &[u8], q: usize) -> (r: usize)
    requires
        q <= s@.len(),
    ensures
        r == skip_separator(s@, q as int),
        q <= r <= s@.len(),
{
    if q < s.len() && s[q] == SELECTOR_SEPARATOR {
        q + 1
    } else {
        q
    }
}

impl Packet {
    /// A packet of `selectors` and `commands`.
    pub fn new(selectors: Vec<SignSelector>, commands: Vec<Command>) -> (r: Self)
        ensures
            r.selectors@ == selectors@,
            r@.commands == command_views(commands@),
    {
        Packet { selectors, commands }
    }

    /// The bytes to send to the sign; fails where a command has no encoding
    /// here.
    pub fn encode(&self) -> (r: Result<Vec<u8>, EncodeError>)
        ensures
            r is Ok <==> self@.is_supported(),
            r is Ok ==> r->Ok_0@ == self@.encoding(),
            r is Err ==> r->Err_0 == EncodeError::Unsupported,
    {
        let mut res: Vec<u8> = vec![NULL, NULL, NULL, NULL, NULL, START_OF_HEADING];
        let mut i: usize = 0;
        while i < self.selectors.len()
            invariant
                i <= self.selectors@.len(),
                res@ == packet_header() + selectors_encoding(self.selectors@.subrange(0, i as int)),
            decreases self.selectors@.len() - i,
        {
            if i > 0 {
                res.push(SELECTOR_SEPARATOR);
            }
            self.selectors[i].encode_into(&mut res);
            proof {
                let done = self.selectors@.subrange(0, i + 1);
                assert(done.drop_last() =~= self.selectors@.subrange(0, i as int));
                assert(done.last() == self.selectors@[i as int]);
                if i == 0 {
                    assert(selectors_encoding(done) == done[0].encoding());
                    assert(res@ =~= packet_header() + selectors_encoding(done));
                } else {
                    assert(res@ =~= packet_header() + selectors_encoding(done));
                }
            }
            i = i + 1;
        }
        assert(self.selectors@.subrange(0, i as int) =~= self.selectors@);
        let ghost head = res@;
        let ghost views = self@.commands;
        let mut j: usize = 0;
        while j < self.commands.len()
            invariant
                j <= self.commands@.len(),
                views == self@.commands,
                views.len() == self.commands@.len(),
                head == packet_header() + selectors_encoding(self.selectors@),
                res@ == head + commands_encoding(views.subrange(0, j as int)),
                forall|k: int| 0 <= k < j ==> (#[trigger] views[k]).is_supported(),
            decreases self.commands@.len() - j,
        {
            assert(views[j as int] == self.commands@[j as int]@);
            match self.commands[j].encode() {
                Ok(body) => {
                    push_section(&mut res, body);
                },
                Err(e) => {
                    return Err(e);
                },
            }
            proof {
                let done = views.subrange(0, j + 1);
                assert(done.drop_last() =~= views.subrange(0, j as int));
                assert(res@ =~= head + commands_encoding(done));
            }
            j = j + 1;
        }
        assert(views.subrange(0, j as int) =~= views);
        res.push(END_OF_TRANSMISSION);
        assert(res@ =~= self@.encoding());
        Ok(res)
    }

    fn parse_selectors_at(s: &[u8], start: usize) -> (r: Result<(Vec<SignSelector>, usize), ParseError>)
        requires
            start <= s@.len(),
        ensures
            match parse_selectors(s@, start as int) {
                Ok((v, e)) => r is Ok && r->Ok_0.0@ == v && r->Ok_0.1 as int == e,
                Err(e) => r is Err && r->Err_0 == e,
            },
            r is Ok ==> r->Ok_0.1 <= s@.len(),
    {
        let (first, q) = match SignSelector::parse_at(s, start) {
            Ok(x) => x,
            Err(e) => {
                return Err(e);
            },
        };
        let mut sels: Vec<SignSelector> = vec![first];
        let mut p = skip_separator_at(s, q);
        assert(sels@ =~= seq![first]);
        loop
            invariant
                p <= s@.len(),
                parse_selectors(s@, start as int) == Ok::<(Seq<SignSelector>, int), ParseError>(
                    (sels@ + more_selectors(s@, p as int).0, more_selectors(s@, p as int).1),
                ),
            decreases s@.len() - p,
        {
            match SignSelector::parse_at(s, p) {
                Ok((sel, q)) => {
                    let ghost old_sels = sels@;
                    let ghost rest = more_selectors(s@, skip_separator(s@, q as int));
                    sels.push(sel);
                    p = skip_separator_at(s, q);
                    assert(old_sels + (seq![sel] + rest.0) =~= sels@ + rest.0);
                },
                Err(_) => {
                    assert(sels@ + more_selectors(s@, p as int).0 =~= sels@);
                    return Ok((sels, p));
                },
            }
        }
    }

    fn parse_commands_at(s: &[u8], start: usize, strict: bool) -> (r: Result<
        (Vec<Command>, usize),
        ParseError,
    >)
        requires
            start <= s@.len(),
        ensures
            match parse_commands(s@, start as int, strict) {
                Ok((v, e)) => r is Ok && command_views(r->Ok_0.0@) == v && r->Ok_0.1 as int == e,
                Err(e) => r is Err && r->Err_0 == e,
            },
            r is Ok ==> r->Ok_0.1 <= s@.len(),
    {
        let mut cmds: Vec<Command> = Vec::new();
        let mut p: usize = start;
        assert(command_views(cmds@) =~= Seq::<CommandView>::empty());
        loop
            invariant
                p <= s@.len(),
                parse_commands(s@, start as int, strict) == match parse_commands(
                    s@,
                    p as int,
                    strict,
                ) {
                    Ok((rest, e)) => Ok::<(Seq<CommandView>, int), ParseError>(
                        (command_views(cmds@) + rest, e),
                    ),
                    Err(e) => Err(e),
                },
            decreases s@.len() - p,
        {
            match Command::parse_at(s, p) {
                Ok((c, q)) => {
                    if strict && !checksum_matches_at(s, p, q) {
                        return Err(ParseError { position: p, kind: ParseErrorKind::ChecksumMismatch });
                    }
                    let ghost old_views = command_views(cmds@);
                    let ghost cv = c@;
                    cmds.push(c);
                    assert(command_views(cmds@) =~= old_views.push(cv));
                    proof {
                        match parse_commands(s@, q as int, strict) {
                            Ok((rest, e)) => {
                                assert(old_views + (seq![cv] + rest) =~= command_views(cmds@) + rest);
                            },
                            Err(_) => {},
                        }
                    }
                    p = q;
                },
                Err(e) => {
                    if e.kind == ParseErrorKind::NoCommand {
                        assert(command_views(cmds@) + Seq::<CommandView>::empty() =~= command_views(cmds@));
                        return Ok((cmds, p));
                    } else {
                        return Err(e);
                    }
                },
            }
        }
    }

    /// Parses a packet at the start of `input` (a reply from the sign, say),
    /// returning the bytes after its end of transmission. The checksums of
    /// the commands are skipped, not checked.
    pub fn parse(input: &[u8]) -> (r: Result<(&[u8], Packet), ParseError>)
        ensures
            parsed_rest_view(input@, r, parse_packet(input@, false)),
    {
        Self::parse_checked(input, false)
    }

    /// Like [`Packet::parse`], but every command must carry a checksum, and
    /// it must be the sum of its section.
    pub fn parse_strict(input: &[u8]) -> (r: Result<(&[u8], Packet), ParseError>)
        ensures
            parsed_rest_view(input@, r, parse_packet(input@, true)),
    {
        Self::parse_checked(input, true)
    }

    fn parse_checked(input: &[u8], strict: bool) -> (r: Result<(&[u8], Packet), ParseError>)
        ensures
            parsed_rest_view(input@, r, parse_packet(input@, strict)),
    {
        let s = input;
        let mut n: usize = 0;
        while n < s.len() && n < 100 && s[n] == NULL
            invariant
                n <= s@.len(),
                n <= 100,
                null_run_len(s@, 0) == n + null_run_len(s@, n as int),
            decreases s@.len() - n,
        {
            n = n + 1;
        }
        assert(leading_nulls(s@) == n as int);
        if n < 5 || n >= s.len() || s[n] != START_OF_HEADING {
            return Err(ParseError { position: n, kind: ParseErrorKind::StartOfHeading });
        }
        let (selectors, q) = match Self::parse_selectors_at(s, n + 1) {
            Ok(x) => x,
            Err(e) => {
                return Err(e);
            },
        };
        let (commands, r) = match Self::parse_commands_at(s, q, strict) {
            Ok(x) => x,
            Err(e) => {
                return Err(e);
            },
        };
        if r < s.len() && s[r] == END_OF_TRANSMISSION {
            Ok((slice_subrange(s, r + 1, s.len()), Packet { selectors, commands }))
        } else {
            Err(ParseError { position: r, kind: ParseErrorKind::EndOfTransmission })
        }
    }
}

} // verus!
