//! Framing bytes of the protocol and the errors reported by the encoders and
//! parsers.

use vstd::prelude::*;
use crate::digits::{hex_run_len, scan_hex_run};

verus! {

/// Null bytes that open every transmission so the sign can detect the baud rate.
pub const NULL: u8 = 0x00;

/// Start of heading: ends the leading nulls.
pub const START_OF_HEADING: u8 = 0x01;

/// Start of text: opens a command section.
pub const START_OF_TEXT: u8 = 0x02;

/// End of text: closes a command section, before its checksum.
pub const END_OF_TEXT: u8 = 0x03;

/// End of transmission: the last byte of a packet.
pub const END_OF_TRANSMISSION: u8 = 0x04;

/// Escape: introduces the display position and transition of a text.
pub const ESCAPE: u8 = 0x1B;

/// Separates the sign selectors of a packet.
pub const SELECTOR_SEPARATOR: u8 = 0x2C;

/// What went wrong while parsing.
#[derive(Clone, Copy, Debug, PartialEq, Eq, Structural)]
pub enum ParseErrorKind {
    /// The leading nulls or the start-of-heading byte are missing.
    StartOfHeading,
    /// A selector starts with a byte that is no known sign type.
    UnknownSignType,
    /// A selector's address is not a run of hexadecimal digits worth at most 0xFF.
    InvalidAddress,
    /// No command of the expected kind starts here.
    NoCommand,
    /// The byte is no known text position.
    UnknownTextPosition,
    /// The input ends where more bytes were needed.
    UnexpectedEnd,
    /// A time of day with an hour above 23 or a minute above 59.
    InvalidTime,
    /// A special command that this library cannot parse.
    Unsupported,
    /// The end-of-transmission byte is missing.
    EndOfTransmission,
    /// A command's checksum is missing or is not the sum of its section.
    ChecksumMismatch,
}

/// A parse failure and the offset in the input at which it was found.
#[derive(Clone, Copy, Debug, PartialEq, Eq, Structural)]
pub struct ParseError {
    pub position: usize,
    pub kind: ParseErrorKind,
}

/// The error of an encoder asked for a command that has no encoding here.
#[derive(Clone, Copy, Debug, PartialEq, Eq, Structural)]
pub enum EncodeError {
    Unsupported,
}

/// Whether the exec result `r` of a parser that works at an offset is the
/// spec result `expected`.
pub open spec fn parsed_as<T>(
    r: Result<(T, usize), ParseError>,
    expected: Result<(T, int), ParseError>,
) -> bool {
    match expected {
        Ok((v, q)) => r is Ok && r->Ok_0.0 == v && r->Ok_0.1 as int == q,
        Err(e) => r == Err::<(T, usize), ParseError>(e),
    }
}

/// Like [`parsed_as`], for a parsed value that is compared through its view.
pub open spec fn parsed_as_view<T: View>(
    r: Result<(T, usize), ParseError>,
    expected: Result<(T::V, int), ParseError>,
) -> bool {
    match expected {
        Ok((v, q)) => r is Ok && r->Ok_0.0@ == v && r->Ok_0.1 as int == q,
        Err(e) => r is Err && r->Err_0 == e,
    }
}

/// Whether the result `r` of a parser over `input`, which hands back the
/// unconsumed bytes, is the spec result `expected`.
pub open spec fn parsed_rest<T>(
    input: Seq<u8>,
    r: Result<(&[u8], T), ParseError>,
    expected: Result<(T, int), ParseError>,
) -> bool {
    match expected {
        Ok((v, q)) => r is Ok && r->Ok_0.1 == v && r->Ok_0.0@ == input.subrange(q, input.len() as int),
        Err(e) => r is Err && r->Err_0 == e,
    }
}

/// Like [`parsed_rest`], for a parsed value that is compared through its view.
pub open spec fn parsed_rest_view<T: View>(
    input: Seq<u8>,
    r: Result<(&[u8], T), ParseError>,
    expected: Result<(T::V, int), ParseError>,
) -> bool {
    match expected {
        Ok((v, q)) => r is Ok && r->Ok_0.1@ == v && r->Ok_0.0@ == input.subrange(q, input.len() as int),
        Err(e) => r is Err && r->Err_0 == e,
    }
}

/// The error at offset `p`.
pub open spec fn error_at(p: int, kind: ParseErrorKind) -> ParseError {
    ParseError { position: p as usize, kind }
}

/// Where a command's optional trailer ends: the end-of-text byte, if it is at
/// `p`, and the (at most four) hexadecimal checksum digits that follow it. The
/// checksum's value is not compared with the command.
pub open spec fn trailer_end(s: Seq<u8>, p: int) -> int {
    if 0 <= p < s.len() && s[p] == END_OF_TEXT {
        let n = hex_run_len(s, p + 1);
        if n < 4 {
            p + 1 + n
        } else {
            p + 5
        }
    } else {
        p
    }
}

/// Exec counterpart of [`trailer_end`].
pub fn skip_trailer(s: &[u8], p: usize) -> (r: usize)
    requires
        p <= s@.len(),
    ensures
        r == trailer_end(s@, p as int),
        p <= r <= s@.len(),
{
    if p < s.len() && s[p] == END_OF_TEXT {
        let (n, _) = scan_hex_run(s, p + 1);
        if n < 4 {
            p + 1 + n
        } else {
            p + 5
        }
    } else {
        p
    }
}

} // verus!
