//! Sign types and sign selectors: which signs a packet is addressed to.

use vstd::prelude::*;
use crate::digits::{hex_byte, hex_run_byte, hex_run_len, push_hex_byte, scan_hex_run};
use crate::frame::{error_at, parsed_as, parsed_rest, ParseError, ParseErrorKind};
use vstd::slice::slice_subrange;

verus! {

/// The sign address used for broadcasting to all serial addresses.
pub const BROADCAST: u8 = 0x00;

/// A type of sign to operate on. Some types, such as [`SignType::All`], refer
/// to more than one sign model. Each type is sent as one byte; types that
/// select the same signs keep their distinct bytes.
#[derive(Clone, Copy, Debug, PartialEq, Eq, Structural)]
pub enum SignType {
    /// all signs that support visual verififcation. this causes a sign to display the transmission
    /// ok message when a transmission packet is recieved without error. otherwise transmission
    /// error will appear
    SignWithVisualVerification,
    SerialClock,
    /// both the full matrix and character matrix alpha vision signs
    AlphaVision,
    FullMatrixAlphaVision,
    CharacterMatrixAlphaVision,
    LineMatrixAlphaVision,
    ResponsePacket,
    /// any sign that has one line of text
    OneLineSign,
    /// any sign that has two lines of text
    TwoLineSign,
    /// all signs. functionally equivelent to [`SignType::All`] as far as we can tell
    AllSigns,
    Sign430i,
    Sign440i,
    Sign460i,
    AlphaEclipse3600DisplayDriverBoard,
    AlphaEclipse3600TurboAdapterBoard,
    LightSensorProbe,
    Sign790i,
    AlphaEclipse3600Series,
    /// an alphaeclipse 1500 Time and temp sign. note that this sign only supports displaying time
    /// updates and cannot display messages
    AlphaEclipseTimeTemp,
    /// both the alpha premier 4000 and 9000 series
    AlphaPremiere4000And9000Series,
    /// all signs. functionally equivelent to [`SignType::AllSigns`] as far as we can tell
    All,
    Betabrite,
    Sign4120C,
    Sign4160C,
    Sign4200C,
    Sign4240C,
    Sign215R,
    Sign215C,
    Sign4120R,
    Sign4160R,
    Sign4200R,
    Sign4240R,
    /// all 300 series signs (320C and 330C)
    Series300,
    /// all 7000 series signs (7080C, 7120C, 7160C, 7200C)
    Series7000,
    MatrixSolar96x16,
    MatrixSolar128x16,
    MatrixSolar160x16,
    MatrixSolar192x16,
    /// personal priority display
    PPD,
    Director,
    DigitController1005,
    Sign4080C,
    Sign210CAnd220C,
    AlphaEclipse3500,
    /// an alphaeclipse 1500 Time and temp sign. note that this sign only supports displaying time
    /// updates and cannot display messages
    AlphaEclipse1500TimeAndTemp,
    AlphaPremiere9000,
    TemperatureProbe,
    /// all signs that have their memory configured for 26 files ("A" - "Z")
    AllSignsWithMemoryConfiguredFor26Files,
}

impl SignType {
    /// The byte that stands for this sign type on the wire.
    pub open spec fn byte(self) -> u8 {
        match self {
            SignType::SignWithVisualVerification => 0x21,
            SignType::SerialClock => 0x22,
            SignType::AlphaVision => 0x23,
            SignType::FullMatrixAlphaVision => 0x24,
            SignType::CharacterMatrixAlphaVision => 0x25,
            SignType::LineMatrixAlphaVision => 0x26,
            SignType::ResponsePacket => 0x30,
            SignType::OneLineSign => 0x31,
            SignType::TwoLineSign => 0x32,
            SignType::AllSigns => 0x3F,
            SignType::Sign430i => 0x43,
            SignType::Sign440i => 0x44,
            SignType::Sign460i => 0x45,
            SignType::AlphaEclipse3600DisplayDriverBoard => 0x46,
            SignType::AlphaEclipse3600TurboAdapterBoard => 0x47,
            SignType::LightSensorProbe => 0x4C,
            SignType::Sign790i => 0x55,
            SignType::AlphaEclipse3600Series => 0x56,
            SignType::AlphaEclipseTimeTemp => 0x57,
            SignType::AlphaPremiere4000And9000Series => 0x58,
            SignType::All => 0x5A,
            SignType::Betabrite => 0x5E,
            SignType::Sign4120C => 0x61,
            SignType::Sign4160C => 0x62,
            SignType::Sign4200C => 0x63,
            SignType::Sign4240C => 0x64,
            SignType::Sign215R => 0x65,
            SignType::Sign215C => 0x66,
            SignType::Sign4120R => 0x67,
            SignType::Sign4160R => 0x68,
            SignType::Sign4200R => 0x69,
            SignType::Sign4240R => 0x6A,
            SignType::Series300 => 0x6B,
            SignType::Series7000 => 0x6C,
            SignType::MatrixSolar96x16 => 0x6D,
            SignType::MatrixSolar128x16 => 0x6E,
            SignType::MatrixSolar160x16 => 0x6F,
            SignType::MatrixSolar192x16 => 0x70,
            SignType::PPD => 0x71,
            SignType::Director => 0x72,
            SignType::DigitController1005 => 0x73,
            SignType::Sign4080C => 0x74,
            SignType::Sign210CAnd220C => 0x75,
            SignType::AlphaEclipse3500 => 0x76,
            SignType::AlphaEclipse1500TimeAndTemp => 0x77,
            SignType::AlphaPremiere9000 => 0x78,
            SignType::TemperatureProbe => 0x79,
            SignType::AllSignsWithMemoryConfiguredFor26Files => 0x7A,
        }
    }

    /// The sign type that a byte stands for, if any.
    pub open spec fn from_byte_spec(b: u8) -> Option<SignType> {
        match b {
            0x21 => Some(SignType::SignWithVisualVerification),
            0x22 => Some(SignType::SerialClock),
            0x23 => Some(SignType::AlphaVision),
            0x24 => Some(SignType::FullMatrixAlphaVision),
            0x25 => Some(SignType::CharacterMatrixAlphaVision),
            0x26 => Some(SignType::LineMatrixAlphaVision),
            0x30 => Some(SignType::ResponsePacket),
            0x31 => Some(SignType::OneLineSign),
            0x32 => Some(SignType::TwoLineSign),
            0x3F => Some(SignType::AllSigns),
            0x43 => Some(SignType::Sign430i),
            0x44 => Some(SignType::Sign440i),
            0x45 => Some(SignType::Sign460i),
            0x46 => Some(SignType::AlphaEclipse3600DisplayDriverBoard),
            0x47 => Some(SignType::AlphaEclipse3600TurboAdapterBoard),
            0x4C => Some(SignType::LightSensorProbe),
            0x55 => Some(SignType::Sign790i),
            0x56 => Some(SignType::AlphaEclipse3600Series),
            0x57 => Some(SignType::AlphaEclipseTimeTemp),
            0x58 => Some(SignType::AlphaPremiere4000And9000Series),
            0x5A => Some(SignType::All),
            0x5E => Some(SignType::Betabrite),
            0x61 => Some(SignType::Sign4120C),
            0x62 => Some(SignType::Sign4160C),
            0x63 => Some(SignType::Sign4200C),
            0x64 => Some(SignType::Sign4240C),
            0x65 => Some(SignType::Sign215R),
            0x66 => Some(SignType::Sign215C),
            0x67 => Some(SignType::Sign4120R),
            0x68 => Some(SignType::Sign4160R),
            0x69 => Some(SignType::Sign4200R),
            0x6A => Some(SignType::Sign4240R),
            0x6B => Some(SignType::Series300),
            0x6C => Some(SignType::Series7000),
            0x6D => Some(SignType::MatrixSolar96x16),
            0x6E => Some(SignType::MatrixSolar128x16),
            0x6F => Some(SignType::MatrixSolar160x16),
            0x70 => Some(SignType::MatrixSolar192x16),
            0x71 => Some(SignType::PPD),
            0x72 => Some(SignType::Director),
            0x73 => Some(SignType::DigitController1005),
            0x74 => Some(SignType::Sign4080C),
            0x75 => Some(SignType::Sign210CAnd220C),
            0x76 => Some(SignType::AlphaEclipse3500),
            0x77 => Some(SignType::AlphaEclipse1500TimeAndTemp),
            0x78 => Some(SignType::AlphaPremiere9000),
            0x79 => Some(SignType::TemperatureProbe),
            0x7A => Some(SignType::AllSignsWithMemoryConfiguredFor26Files),
            _ => None,
        }
    }

    /// Exec counterpart of [`SignType::byte`].
    pub fn to_byte(self) -> (r: u8)
        ensures
            r == self.byte(),
    {
        match self {
            SignType::SignWithVisualVerification => 0x21,
            SignType::SerialClock => 0x22,
            SignType::AlphaVision => 0x23,
            SignType::FullMatrixAlphaVision => 0x24,
            SignType::CharacterMatrixAlphaVision => 0x25,
            SignType::LineMatrixAlphaVision => 0x26,
            SignType::ResponsePacket => 0x30,
            SignType::OneLineSign => 0x31,
            SignType::TwoLineSign => 0x32,
            SignType::AllSigns => 0x3F,
            SignType::Sign430i => 0x43,
            SignType::Sign440i => 0x44,
            SignType::Sign460i => 0x45,
            SignType::AlphaEclipse3600DisplayDriverBoard => 0x46,
            SignType::AlphaEclipse3600TurboAdapterBoard => 0x47,
            SignType::LightSensorProbe => 0x4C,
            SignType::Sign790i => 0x55,
            SignType::AlphaEclipse3600Series => 0x56,
            SignType::AlphaEclipseTimeTemp => 0x57,
            SignType::AlphaPremiere4000And9000Series => 0x58,
            SignType::All => 0x5A,
            SignType::Betabrite => 0x5E,
            SignType::Sign4120C => 0x61,
            SignType::Sign4160C => 0x62,
            SignType::Sign4200C => 0x63,
            SignType::Sign4240C => 0x64,
            SignType::Sign215R => 0x65,
            SignType::Sign215C => 0x66,
            SignType::Sign4120R => 0x67,
            SignType::Sign4160R => 0x68,
            SignType::Sign4200R => 0x69,
            SignType::Sign4240R => 0x6A,
            SignType::Series300 => 0x6B,
            SignType::Series7000 => 0x6C,
            SignType::MatrixSolar96x16 => 0x6D,
            SignType::MatrixSolar128x16 => 0x6E,
            SignType::MatrixSolar160x16 => 0x6F,
            SignType::MatrixSolar192x16 => 0x70,
            SignType::PPD => 0x71,
            SignType::Director => 0x72,
            SignType::DigitController1005 => 0x73,
            SignType::Sign4080C => 0x74,
            SignType::Sign210CAnd220C => 0x75,
            SignType::AlphaEclipse3500 => 0x76,
            SignType::AlphaEclipse1500TimeAndTemp => 0x77,
            SignType::AlphaPremiere9000 => 0x78,
            SignType::TemperatureProbe => 0x79,
            SignType::AllSignsWithMemoryConfiguredFor26Files => 0x7A,
        }
    }

    /// The sign type that a byte stands for, if any.
    pub fn from_byte(b: u8) -> (r: Option<SignType>)
        ensures
            r == Self::from_byte_spec(b),
    {
        match b {
            0x21 => Some(SignType::SignWithVisualVerification),
            0x22 => Some(SignType::SerialClock),
            0x23 => Some(SignType::AlphaVision),
            0x24 => Some(SignType::FullMatrixAlphaVision),
            0x25 => Some(SignType::CharacterMatrixAlphaVision),
            0x26 => Some(SignType::LineMatrixAlphaVision),
            0x30 => Some(SignType::ResponsePacket),
            0x31 => Some(SignType::OneLineSign),
            0x32 => Some(SignType::TwoLineSign),
            0x3F => Some(SignType::AllSigns),
            0x43 => Some(SignType::Sign430i),
            0x44 => Some(SignType::Sign440i),
            0x45 => Some(SignType::Sign460i),
            0x46 => Some(SignType::AlphaEclipse3600DisplayDriverBoard),
            0x47 => Some(SignType::AlphaEclipse3600TurboAdapterBoard),
            0x4C => Some(SignType::LightSensorProbe),
            0x55 => Some(SignType::Sign790i),
            0x56 => Some(SignType::AlphaEclipse3600Series),
            0x57 => Some(SignType::AlphaEclipseTimeTemp),
            0x58 => Some(SignType::AlphaPremiere4000And9000Series),
            0x5A => Some(SignType::All),
            0x5E => Some(SignType::Betabrite),
            0x61 => Some(SignType::Sign4120C),
            0x62 => Some(SignType::Sign4160C),
            0x63 => Some(SignType::Sign4200C),
            0x64 => Some(SignType::Sign4240C),
            0x65 => Some(SignType::Sign215R),
            0x66 => Some(SignType::Sign215C),
            0x67 => Some(SignType::Sign4120R),
            0x68 => Some(SignType::Sign4160R),
            0x69 => Some(SignType::Sign4200R),
            0x6A => Some(SignType::Sign4240R),
            0x6B => Some(SignType::Series300),
            0x6C => Some(SignType::Series7000),
            0x6D => Some(SignType::MatrixSolar96x16),
            0x6E => Some(SignType::MatrixSolar128x16),
            0x6F => Some(SignType::MatrixSolar160x16),
            0x70 => Some(SignType::MatrixSolar192x16),
            0x71 => Some(SignType::PPD),
            0x72 => Some(SignType::Director),
            0x73 => Some(SignType::DigitController1005),
            0x74 => Some(SignType::Sign4080C),
            0x75 => Some(SignType::Sign210CAnd220C),
            0x76 => Some(SignType::AlphaEclipse3500),
            0x77 => Some(SignType::AlphaEclipse1500TimeAndTemp),
            0x78 => Some(SignType::AlphaPremiere9000),
            0x79 => Some(SignType::TemperatureProbe),
            0x7A => Some(SignType::AllSignsWithMemoryConfiguredFor26Files),
            _ => None,
        }
    }
}

/// A sign selection: a sign type and a serial address. Both have values that
/// select more than one sign.
#[derive(Clone, Copy, Debug, PartialEq, Eq, Structural)]
pub struct SignSelector {
    pub sign_type: SignType,
    pub address: u8,
}

impl Default for SignSelector {
    /// A selector that selects every sign.
    fn default() -> (r: SignSelector)
        ensures
            r == (SignSelector { sign_type: SignType::All, address: BROADCAST }),
    {
        SignSelector { sign_type: SignType::All, address: BROADCAST }
    }
}

impl SignSelector {
    /// The bytes of this selector: the sign type's byte, then the address as
    /// two upper-case hexadecimal digits.
    pub open spec fn encoding(self) -> Seq<u8> {
        seq![self.sign_type.byte()] + hex_byte(self.address)
    }

    /// Creates a selector; see [`SignSelector::default`] for one that selects
    /// every sign.
    pub fn new(sign_type: SignType, address: u8) -> (r: Self)
        ensures
            r == (SignSelector { sign_type, address }),
    {
        SignSelector { sign_type, address }
    }

    /// Appends [`SignSelector::encoding`] to `out`.
    pub fn encode_into(&self, out: &mut Vec<u8>)
        ensures
            final(out)@ == old(out)@ + self.encoding(),
    {
        out.push(self.sign_type.to_byte());
        push_hex_byte(out, self.address);
        assert(final(out)@ =~= old(out)@ + self.encoding());
    }

    /// The selector at offset `p` of `s` and the offset after it: a sign-type
    /// byte, then a run of hexadecimal digits whose value fits a byte.
    pub open spec fn parse_spec(s: Seq<u8>, p: int) -> Result<(SignSelector, int), ParseError> {
        if !(0 <= p < s.len()) {
            Err(error_at(p, ParseErrorKind::UnexpectedEnd))
        } else {
            match SignType::from_byte_spec(s[p]) {
                None => Err(error_at(p, ParseErrorKind::UnknownSignType)),
                Some(sign_type) => match hex_run_byte(s, p + 1) {
                    None => Err(error_at(p + 1, ParseErrorKind::InvalidAddress)),
                    Some(address) => Ok(
                        (SignSelector { sign_type, address }, p + 1 + hex_run_len(s, p + 1)),
                    ),
                },
            }
        }
    }

    /// Exec counterpart of [`SignSelector::parse_spec`].
    pub fn parse_at(s: &[u8], p: usize) -> (r: Result<(SignSelector, usize), ParseError>)
        requires
            p <= s@.len(),
        ensures
            parsed_as(r, Self::parse_spec(s@, p as int)),
            r is Ok ==> p < r->Ok_0.1 <= s@.len(),
    {
        if p >= s.len() {
            return Err(ParseError { position: p, kind: ParseErrorKind::UnexpectedEnd });
        }
        match SignType::from_byte(s[p]) {
            None => Err(ParseError { position: p, kind: ParseErrorKind::UnknownSignType }),
            Some(sign_type) => {
                let (n, address) = scan_hex_run(s, p + 1);
                match address {
                    None => Err(ParseError { position: p + 1, kind: ParseErrorKind::InvalidAddress }),
                    Some(address) => Ok((SignSelector { sign_type, address }, p + 1 + n)),
                }
            },
        }
    }

    /// Parses a selector at the start of `input`, returning the bytes after it.
    pub fn parse(input: &[u8]) -> (r: Result<(&[u8], SignSelector), ParseError>)
        ensures
            parsed_rest(input@, r, Self::parse_spec(input@, 0)),
    {
        match Self::parse_at(input, 0) {
            Ok((sel, q)) => Ok((slice_subrange(input, q, input.len()), sel)),
            Err(e) => Err(e),
        }
    }
}

/// Reading a sign type's byte gives the sign type back.
pub proof fn lemma_sign_type_byte(t: SignType)
    ensures
        SignType::from_byte_spec(t.byte()) == Some(t),
{
}

} // verus!
