//! Properties that relate the encoders and the parser.

use vstd::prelude::*;
use crate::clock::lemma_time_parts;
use crate::digits::{
    hex_byte, hex_run_byte, hex_run_len, hex_value, hex_word, is_hex_digit, lemma_hex_byte_value,
    lemma_hex_word_digits, lemma_hex_word_value, lemma_two_decimal_places,
};
use crate::frame::{
    trailer_end, ParseError, ParseErrorKind, END_OF_TEXT, END_OF_TRANSMISSION, ESCAPE,
    SELECTOR_SEPARATOR, START_OF_HEADING, START_OF_TEXT,
};
use crate::packet::{
    byte_sum, checksum, checksum_matches, command_section, framed_section, commands_encoding, leading_nulls, more_selectors,
    null_run_len, packet_header, parse_commands, parse_packet, parse_selectors, selectors_encoding, skip_separator,
    CommandView, PacketView,
};
use crate::selector::{lemma_sign_type_byte, SignSelector, SignType};
use crate::text::{
    ascii_chars, is_printable, is_printable_text, label_byte, lemma_text_position_byte,
    lemma_transition_mode_code, printable_run_len, TransitionMode, WriteTextView,
    WRITE_TEXT,
};
use crate::write_special::{
    two_digit_value, SetTime, ToggleSpeaker, WriteSpecialView,
};

verus! {

/// A run of exactly `n` hexadecimal digits at `p` has length `n`.
proof fn lemma_hex_run_exact(s: Seq<u8>, p: int, n: nat)
    requires
        0 <= p,
        p + n <= s.len(),
        forall|i: int| p <= i < p + n ==> is_hex_digit(#[trigger] s[i]),
        p + n == s.len() || !is_hex_digit(s[p + n]),
    ensures
        hex_run_len(s, p) == n,
    decreases n,
{
    if n > 0 {
        lemma_hex_run_exact(s, p + 1, (n - 1) as nat);
    }
}

/// A selector's bytes, followed by the end of the input or by a byte that is
/// no hexadecimal digit, parse back to the selector; its address takes
/// exactly two hexadecimal digits, which read back to the address.
pub proof fn lemma_selector_round_trip(sel: SignSelector, rest: Seq<u8>)
    requires
        rest.len() == 0 || !is_hex_digit(rest[0]),
    ensures
        hex_byte(sel.address).len() == 2,
        hex_value(hex_byte(sel.address)) == sel.address,
        SignSelector::parse_spec(sel.encoding() + rest, 0) == Ok::<(SignSelector, int), crate::frame::ParseError>(
            (sel, 3),
        ),
{
    let s = sel.encoding() + rest;
    lemma_hex_byte_value(sel.address);
    lemma_sign_type_byte(sel.sign_type);
    assert(s[0] == sel.sign_type.byte());
    assert(s[1] == hex_byte(sel.address)[0]);
    assert(s[2] == hex_byte(sel.address)[1]);
    if rest.len() > 0 {
        assert(s[3] == rest[0]);
    }
    lemma_hex_run_exact(s, 1, 2);
    assert(s.subrange(1, 3) =~= hex_byte(sel.address));
    assert(hex_run_byte(s, 1) == Some(sel.address));
}


/// A label below 256 is sent as its own code, and reads back as itself.
proof fn lemma_label_byte(c: char)
    requires
        (c as u32) < 256,
    ensures
        (label_byte(c) as char) == c,
        label_byte(c) as u32 == c as u32,
{
}

/// An ASCII character is sent as its own code, and reads back as itself.
proof fn lemma_ascii_char(c: char)
    requires
        (c as u32) < 128,
    ensures
        ((c as u8) as char) == c,
{
}


/// Whether the parser reads the command back as it was: a text command
/// whose label fits a byte and whose message is printable ASCII, a read
/// command whose label fits a byte, setting the time, or toggling the speaker.
pub open spec fn reads_back(c: CommandView) -> bool {
    match c {
        CommandView::WriteText(w) => (w.label as u32) < 256 && is_printable_text(w.message),
        CommandView::ReadText(r) => (r.label as u32) < 256,
        CommandView::WriteSpecial(WriteSpecialView::SetTime(t)) => t.time.hour_spec() < 24
            && t.time.minute_spec() < 60,
        CommandView::WriteSpecial(WriteSpecialView::ToggleSpeaker(_)) => true,
        _ => false,
    }
}

/// A selector at offset `at` of `s`, followed by the end of the input or a
/// byte that is no hexadecimal digit, parses back to itself.
proof fn lemma_selector_at(s: Seq<u8>, at: int, sel: SignSelector)
    requires
        0 <= at,
        at + 3 <= s.len(),
        s.subrange(at, at + 3) == sel.encoding(),
        at + 3 == s.len() || !is_hex_digit(s[at + 3]),
    ensures
        SignSelector::parse_spec(s, at) == Ok::<(SignSelector, int), ParseError>((sel, at + 3)),
{
    lemma_hex_byte_value(sel.address);
    lemma_sign_type_byte(sel.sign_type);
    assert(s[at] == s.subrange(at, at + 3)[0]);
    assert(s[at + 1] == s.subrange(at, at + 3)[1]);
    assert(s[at + 2] == s.subrange(at, at + 3)[2]);
    lemma_hex_run_exact(s, at + 1, 2);
    assert(s.subrange(at + 1, at + 3) =~= hex_byte(sel.address));
}

/// The bytes of two or more selectors are the first one's, a comma, and the
/// others'.
proof fn lemma_selectors_cons(sels: Seq<SignSelector>)
    requires
        sels.len() >= 2,
    ensures
        selectors_encoding(sels) == sels[0].encoding() + seq![SELECTOR_SEPARATOR]
            + selectors_encoding(sels.drop_first()),
    decreases sels.len(),
{
    if sels.len() == 2 {
        assert(sels.drop_last() =~= seq![sels[0]]);
        assert(sels.drop_first() =~= seq![sels[1]]);
        assert(selectors_encoding(sels.drop_last()) == sels[0].encoding());
        assert(selectors_encoding(sels.drop_first()) == sels[1].encoding());
    } else {
        lemma_selectors_cons(sels.drop_last());
        assert(sels.drop_last().drop_first() =~= sels.drop_first().drop_last());
        assert(selectors_encoding(sels) =~= sels[0].encoding() + seq![SELECTOR_SEPARATOR]
            + selectors_encoding(sels.drop_first()));
    }
}

/// Whether `b` ends a run of selectors: it starts no selector, continues no
/// address and is no comma.
pub open spec fn ends_selectors(b: u8) -> bool {
    SignType::from_byte_spec(b) is None && !is_hex_digit(b) && b != SELECTOR_SEPARATOR
}

proof fn lemma_selectors_at(s: Seq<u8>, at: int, sels: Seq<SignSelector>)
    requires
        sels.len() >= 1,
        0 <= at,
        at + selectors_encoding(sels).len() < s.len(),
        s.subrange(at, at + selectors_encoding(sels).len()) == selectors_encoding(sels),
        ends_selectors(s[at + selectors_encoding(sels).len()]),
    ensures
        more_selectors(s, at) == (sels, at + selectors_encoding(sels).len()),
        parse_selectors(s, at) == Ok::<(Seq<SignSelector>, int), ParseError>(
            (sels, at + selectors_encoding(sels).len()),
        ),
    decreases sels.len(),
{
    let l = selectors_encoding(sels).len() as int;
    if sels.len() == 1 {
        assert(selectors_encoding(sels) == sels[0].encoding());
        lemma_selector_at(s, at, sels[0]);
        assert(skip_separator(s, at + 3) == at + 3);
        assert(more_selectors(s, at + 3) == (Seq::<SignSelector>::empty(), at + 3));
        assert(seq![sels[0]] + Seq::<SignSelector>::empty() =~= sels);
    } else {
        lemma_selectors_cons(sels);
        let rest = sels.drop_first();
        let lr = selectors_encoding(rest).len() as int;
        assert(s.subrange(at, at + 3) =~= sels[0].encoding());
        assert(s[at + 3] == s.subrange(at, at + l)[3]);
        lemma_selector_at(s, at, sels[0]);
        assert(skip_separator(s, at + 3) == at + 4);
        let enc = selectors_encoding(sels);
        assert(sels[0].encoding().len() == 3);
        assert(enc.subrange(4, l) =~= selectors_encoding(rest));
        assert(s.subrange(at + 4, at + 4 + lr) =~= s.subrange(at, at + l).subrange(4, l));
        lemma_selectors_at(s, at + 4, rest);
        assert(seq![sels[0]] + rest =~= sels);
    }
}

/// The bytes of one or more commands are the first one's section and the
/// others' sections.
proof fn lemma_commands_cons(cs: Seq<CommandView>)
    requires
        cs.len() >= 1,
    ensures
        commands_encoding(cs) == command_section(cs[0]) + commands_encoding(cs.drop_first()),
    decreases cs.len(),
{
    if cs.len() == 1 {
        assert(cs.drop_last() =~= Seq::<CommandView>::empty());
        assert(cs.drop_first() =~= Seq::<CommandView>::empty());
        assert(commands_encoding(Seq::<CommandView>::empty()) == Seq::<u8>::empty());
        assert(commands_encoding(cs) =~= command_section(cs[0]));
    } else {
        lemma_commands_cons(cs.drop_last());
        assert(cs.drop_last().drop_first() =~= cs.drop_first().drop_last());
        assert(commands_encoding(cs) =~= command_section(cs[0]) + commands_encoding(cs.drop_first()));
    }
}

/// The end of text and four checksum digits, followed by a byte that is no
/// hexadecimal digit, make a whole trailer.
proof fn lemma_trailer_at(s: Seq<u8>, e: int, sum: u16)
    requires
        0 <= e,
        e + 5 < s.len(),
        s.subrange(e, e + 5) == seq![END_OF_TEXT] + hex_word(sum),
        !is_hex_digit(s[e + 5]),
    ensures
        trailer_end(s, e) == e + 5,
{
    lemma_hex_word_digits(sum);
    assert(s[e] == s.subrange(e, e + 5)[0]);
    assert forall|i: int| e + 1 <= i < e + 5 implies is_hex_digit(#[trigger] s[i]) by {
        assert(s[i] == s.subrange(e, e + 5)[i - e]);
        assert(s.subrange(e, e + 5)[i - e] == hex_word(sum)[i - e - 1]);
    }
    lemma_hex_run_exact(s, e + 1, 4);
}

proof fn lemma_printable_run(s: Seq<u8>, q: int, m: nat)
    requires
        0 <= q,
        q + m < s.len(),
        forall|i: int| q <= i < q + m ==> is_printable(#[trigger] s[i]),
        !is_printable(s[q + m]),
    ensures
        printable_run_len(s, q) == m,
    decreases m,
{
    if m > 0 {
        lemma_printable_run(s, q + 1, (m - 1) as nat);
    }
}


proof fn lemma_printable_is_ascii(m: Seq<char>)
    requires
        is_printable_text(m),
    ensures
        vstd::utf8::is_ascii_chars(m),
{
    assert forall|i: int| #![trigger m[i]] 0 <= i < m.len() implies '\0' <= m[i] && m[i] <= '\u{7f}' by {
    }
}

/// Where the bytes of a command section stand when the section is at
/// offset `at` of `s` and a byte that is no hexadecimal digit follows it.
proof fn lemma_section_layout(s: Seq<u8>, at: int, c: CommandView)
    requires
        0 <= at,
        at + command_section(c).len() < s.len(),
        s.subrange(at, at + command_section(c).len()) == command_section(c),
        !is_hex_digit(s[at + command_section(c).len()]),
    ensures
        command_section(c).len() == c.encoding().len() + 6,
        s[at] == START_OF_TEXT,
        forall|i: int| 0 <= i < c.encoding().len() ==> s[at + 1 + i] == #[trigger] c.encoding()[i],
        s[at + 1 + c.encoding().len()] == END_OF_TEXT,
        trailer_end(s, at + 1 + c.encoding().len()) == at + command_section(c).len(),
{
    reveal(framed_section);
    let enc = c.encoding();
    let k = enc.len() as int;
    let framed = seq![START_OF_TEXT] + enc + seq![END_OF_TEXT];
    let sec = command_section(c);
    lemma_hex_word_digits(checksum(framed));
    assert(sec == framed + hex_word(checksum(framed)));
    assert(s[at] == sec[0]);
    assert forall|i: int| 0 <= i < k implies s[at + 1 + i] == #[trigger] enc[i] by {
        assert(s[at + 1 + i] == s.subrange(at, at + sec.len())[1 + i]);
        assert(sec[1 + i] == framed[1 + i]);
    }
    assert(s[at + 1 + k] == s.subrange(at, at + sec.len())[1 + k]);
    let trailer = seq![END_OF_TEXT] + hex_word(checksum(framed));
    assert forall|j: int| 0 <= j < 5 implies #[trigger] s.subrange(at + 1 + k, at + k + 6)[j]
        == trailer[j] by {
        assert(s.subrange(at + 1 + k, at + k + 6)[j] == s.subrange(at, at + sec.len())[1 + k + j]);
    }
    assert(s.subrange(at + 1 + k, at + k + 6) =~= trailer);
    lemma_trailer_at(s, at + 1 + k, checksum(framed));
}

proof fn lemma_write_text_at(s: Seq<u8>, at: int, w: WriteTextView)
    requires
        reads_back(CommandView::WriteText(w)),
        0 <= at,
        at + command_section(CommandView::WriteText(w)).len() < s.len(),
        s.subrange(at, at + command_section(CommandView::WriteText(w)).len()) == command_section(
            CommandView::WriteText(w),
        ),
        !is_hex_digit(s[at + command_section(CommandView::WriteText(w)).len()]),
    ensures
        WriteTextView::parse_spec(s, at) == Ok::<(WriteTextView, int), ParseError>(
            (w, at + command_section(CommandView::WriteText(w)).len()),
        ),
{
    let c = CommandView::WriteText(w);
    lemma_section_layout(s, at, c);
    let enc = c.encoding();
    let k = enc.len() as int;
    let esc = if w.has_escape() {
        seq![ESCAPE, w.position.byte()] + w.mode.code()
    } else {
        Seq::<u8>::empty()
    };
    let body = vstd::utf8::encode_utf8(w.message);
    let m = w.message.len() as int;
    lemma_printable_is_ascii(w.message);
    vstd::utf8::is_ascii_chars_encode_utf8(w.message);
    assert(enc == seq![WRITE_TEXT, label_byte(w.label)] + esc + body);
    assert(enc[0] == WRITE_TEXT);
    assert(s[at + 1] == enc[0]);
    assert(s[at + 2] == enc[1]);
    lemma_label_byte(w.label);
    let q = at + 3 + esc.len();
    assert forall|i: int| 0 <= i < m implies s[q + i] == (w.message[i] as u8) by {
        assert(s[at + 1 + (2 + esc.len() + i)] == enc[2 + esc.len() + i]);
        assert(enc[2 + esc.len() + i] == body[i]);
    }
    if w.has_escape() {
        lemma_transition_mode_code(w.mode);
        lemma_text_position_byte(w.position);
        let code = w.mode.code();
        assert(s[at + 3] == enc[2]);
        assert(s[at + 4] == enc[3]);
        assert(s[at + 5] == enc[4]);
        assert(enc[4] == code[0]);
        if code.len() == 2 {
            assert(s[at + 6] == enc[5]);
            assert(enc[5] == code[1]);
        }
        assert(s.subrange(at + 5, at + 5 + code.len()) =~= code);
        assert(TransitionMode::parse_spec(s, at + 5) == Ok::<(TransitionMode, int), ParseError>(
            (w.mode, at + 5 + code.len()),
        ));
        assert(WriteTextView::escape_spec(s, at + 3) == Some((w.position, w.mode, q)));
    } else {
        if m > 0 {
            assert(s[at + 3] == (w.message[0] as u8));
        } else {
            assert(s[at + 3] == END_OF_TEXT);
        }
        assert(WriteTextView::escape_spec(s, at + 3) is None);
    }
    assert forall|i: int| q <= i < q + m implies is_printable(#[trigger] s[i]) by {
        assert(s[q + (i - q)] == (w.message[i - q] as u8));
    }
    assert(q + m == at + 1 + k);
    lemma_printable_run(s, q, m as nat);
    assert forall|i: int| 0 <= i < m implies #[trigger] ascii_chars(s.subrange(q, q + m))[i]
        == w.message[i] by {
        assert(s.subrange(q, q + m)[i] == s[q + i]);
        lemma_ascii_char(w.message[i]);
    }
    assert(ascii_chars(s.subrange(q, q + m)) =~= w.message);
}

proof fn lemma_command_at(s: Seq<u8>, at: int, c: CommandView)
    requires
        reads_back(c),
        0 <= at,
        at + command_section(c).len() < s.len(),
        s.subrange(at, at + command_section(c).len()) == command_section(c),
        !is_hex_digit(s[at + command_section(c).len()]),
    ensures
        CommandView::parse_spec(s, at) == Ok::<(CommandView, int), ParseError>(
            (c, at + command_section(c).len()),
        ),
{
    lemma_section_layout(s, at, c);
    let enc = c.encoding();
    let k = enc.len() as int;
    match c {
        CommandView::WriteText(w) => {
            lemma_write_text_at(s, at, w);
        },
        CommandView::ReadText(r) => {
            assert(s[at + 1] == enc[0]);
            assert(s[at + 2] == enc[1]);
            lemma_label_byte(r.label);
        },
        CommandView::WriteSpecial(sp) => {
            assert(s[at + 1] == enc[0]);
            assert(s[at + 2] == enc[1]);
            match sp {
                WriteSpecialView::SetTime(t) => {
                    let h = t.time.hour_spec() as nat;
                    let mi = t.time.minute_spec() as nat;
                    lemma_two_decimal_places(h);
                    lemma_two_decimal_places(mi);
                    assert(s[at + 3] == enc[2]);
                    assert(s[at + 4] == enc[3]);
                    assert(s[at + 5] == enc[4]);
                    assert(s[at + 6] == enc[5]);
                    assert(two_digit_value(s[at + 3], s[at + 4]) == h);
                    assert(two_digit_value(s[at + 5], s[at + 6]) == mi);
                    lemma_time_parts(h as u8, mi as u8, t.time);
                    assert(SetTime::parse_spec(s, at + 2) == Ok::<(SetTime, int), ParseError>(
                        (t, at + 7),
                    ));
                },
                WriteSpecialView::ToggleSpeaker(t) => {
                    assert(s[at + 3] == enc[2]);
                    assert(s[at + 4] == enc[3]);
                    assert(ToggleSpeaker::parse_spec(s, at + 2) == Ok::<(ToggleSpeaker, int), ParseError>(
                        (t, at + 5),
                    ));
                },
                _ => {},
            }
        },
    }
}


/// A command section at offset `at` of `s` carries a matching checksum.
proof fn lemma_checksum_at(s: Seq<u8>, at: int, c: CommandView)
    requires
        0 <= at,
        at + command_section(c).len() <= s.len(),
        s.subrange(at, at + command_section(c).len()) == command_section(c),
    ensures
        checksum_matches(s, at, at + command_section(c).len()),
{
    let sec = command_section(c);
    let n = sec.len() as int;
    lemma_section_checksum(c);
    reveal(framed_section);
    let framed = seq![START_OF_TEXT] + c.encoding() + seq![END_OF_TEXT];
    assert(sec == framed + hex_word(checksum(framed)));
    assert(n == framed.len() + 4);
    assert(sec[n - 5] == END_OF_TEXT);
    assert(s[at + n - 5] == s.subrange(at, at + n)[n - 5]);
    assert forall|i: int| at + n - 4 <= i < at + n implies is_hex_digit(#[trigger] s[i]) by {
        assert(s[i] == s.subrange(at, at + n)[i - at]);
        assert(sec[i - at] == sec[n - 4 + (i - at - (n - 4))]);
    }
    assert(s.subrange(at + n - 4, at + n) =~= sec.subrange(n - 4, n));
    assert(s.subrange(at, at + n - 4) =~= sec.subrange(0, n - 4));
}

proof fn lemma_commands_at(s: Seq<u8>, at: int, cs: Seq<CommandView>, strict: bool)
    requires
        forall|i: int| 0 <= i < cs.len() ==> reads_back(#[trigger] cs[i]),
        0 <= at,
        at + commands_encoding(cs).len() < s.len(),
        s.subrange(at, at + commands_encoding(cs).len()) == commands_encoding(cs),
        s[at + commands_encoding(cs).len()] == END_OF_TRANSMISSION,
    ensures
        parse_commands(s, at, strict) == Ok::<(Seq<CommandView>, int), ParseError>(
            (cs, at + commands_encoding(cs).len()),
        ),
    decreases cs.len(),
{
    if cs.len() == 0 {
        assert(commands_encoding(cs) == Seq::<u8>::empty());
        assert(CommandView::parse_spec(s, at) == Err::<(CommandView, int), ParseError>(
            crate::frame::error_at(at, ParseErrorKind::NoCommand),
        ));
        assert(cs =~= Seq::<CommandView>::empty());
    } else {
        lemma_commands_cons(cs);
        let first = command_section(cs[0]);
        let rest = cs.drop_first();
        let l = commands_encoding(cs).len() as int;
        let lf = first.len() as int;
        let lr = commands_encoding(rest).len() as int;
        assert(s.subrange(at, at + lf) =~= first) by {
            assert forall|j: int| 0 <= j < lf implies #[trigger] s.subrange(at, at + lf)[j] == first[j] by {
                assert(s.subrange(at, at + lf)[j] == s.subrange(at, at + l)[j]);
            }
        }
        if rest.len() == 0 {
            assert(commands_encoding(rest) == Seq::<u8>::empty());
            assert(s[at + lf] == END_OF_TRANSMISSION);
        } else {
            lemma_commands_cons(rest);
            reveal(framed_section);
            assert(command_section(rest[0])[0] == START_OF_TEXT);
            assert(s[at + lf] == s.subrange(at, at + l)[lf]);
            assert(s[at + lf] == START_OF_TEXT);
        }
        lemma_command_at(s, at, cs[0]);
        reveal(framed_section);
        assert(lf > 0);
        assert(s.subrange(at + lf, at + lf + lr) =~= commands_encoding(rest)) by {
            assert forall|j: int| 0 <= j < lr implies #[trigger] s.subrange(at + lf, at + lf + lr)[j]
                == commands_encoding(rest)[j] by {
                assert(s.subrange(at + lf, at + lf + lr)[j] == s.subrange(at, at + l)[lf + j]);
            }
        }
        assert forall|i: int| 0 <= i < rest.len() implies reads_back(#[trigger] rest[i]) by {
            assert(rest[i] == cs[i + 1]);
        }
        lemma_checksum_at(s, at, cs[0]);
        lemma_commands_at(s, at + lf, rest, strict);
        assert(seq![cs[0]] + rest =~= cs);
    }
}

/// Parsing the bytes of a packet gives the packet back and consumes every
/// byte, for a packet with at least one selector whose commands are all read
/// back as they are ([`reads_back`]): text commands with labels below 256 and
/// printable messages, read commands, setting the time and toggling the
/// speaker. This holds of the strict parse, which checks the checksums, too.
pub proof fn lemma_packet_round_trip(p: PacketView, strict: bool)
    requires
        p.selectors.len() > 0,
        forall|i: int| 0 <= i < p.commands.len() ==> reads_back(#[trigger] p.commands[i]),
    ensures
        parse_packet(p.encoding(), strict) == Ok::<(PacketView, int), ParseError>(
            (p, p.encoding().len() as int),
        ),
{
    let e = p.encoding();
    let sel = selectors_encoding(p.selectors);
    let cmd = commands_encoding(p.commands);
    let ls = sel.len() as int;
    let lc = cmd.len() as int;
    assert(e == packet_header() + sel + cmd + seq![END_OF_TRANSMISSION]);
    assert(e.len() == 6 + ls + lc + 1);
    assert(e[5] == START_OF_HEADING);
    assert(null_run_len(e, 5) == 0);
    assert(null_run_len(e, 4) == 1);
    assert(null_run_len(e, 3) == 2);
    assert(null_run_len(e, 2) == 3);
    assert(null_run_len(e, 1) == 4);
    assert(null_run_len(e, 0) == 5);
    assert(leading_nulls(e) == 5);
    assert(e.subrange(6, 6 + ls) =~= sel);
    assert(e.subrange(6 + ls, 6 + ls + lc) =~= cmd);
    if p.commands.len() == 0 {
        assert(cmd == Seq::<u8>::empty());
        assert(e[6 + ls] == END_OF_TRANSMISSION);
    } else {
        lemma_commands_cons(p.commands);
        reveal(framed_section);
        assert(e[6 + ls] == cmd[0]);
        assert(e[6 + ls] == START_OF_TEXT);
    }
    assert(ends_selectors(e[6 + ls]));
    lemma_selectors_at(e, 6, p.selectors);
    lemma_commands_at(e, 6 + ls, p.commands, strict);
    assert(e[6 + ls + lc] == END_OF_TRANSMISSION);
}


/// The last four bytes of a command section are hexadecimal digits whose
/// value is the sum of the section's other bytes modulo 65536.
pub proof fn lemma_section_checksum(c: CommandView)
    ensures
        command_section(c).len() >= 4,
        forall|i: int|
            command_section(c).len() - 4 <= i < command_section(c).len() ==> is_hex_digit(
                #[trigger] command_section(c)[i],
            ),
        hex_value(command_section(c).subrange(command_section(c).len() - 4, command_section(c).len() as int))
            == byte_sum(command_section(c).subrange(0, command_section(c).len() - 4)) % 65536,
{
    reveal(framed_section);
    let framed = seq![START_OF_TEXT] + c.encoding() + seq![END_OF_TEXT];
    let sec = command_section(c);
    let n = sec.len() as int;
    lemma_hex_word_digits(checksum(framed));
    lemma_hex_word_value(checksum(framed));
    assert(sec.subrange(n - 4, n) =~= hex_word(checksum(framed)));
    assert(sec.subrange(0, n - 4) =~= framed);
}

/// Encoding depends on the packet's value alone: two packets with the same
/// value give the same bytes, and [`crate::Packet::encode`] gives these bytes
/// on every call.
pub proof fn lemma_encoding_is_deterministic(p: PacketView, q: PacketView)
    requires
        p == q,
    ensures
        p.encoding() == q.encoding(),
        p.is_supported() == q.is_supported(),
{
}

} // verus!
