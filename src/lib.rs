//! Encoder and parser for the serial protocol spoken by Alpha-American
//! electronic message signs.
//!
//! A [`Packet`] names the signs it is for ([`SignSelector`]) and the
//! [`Command`]s to run on them; [`Packet::encode`] gives the bytes to send over
//! the serial line and [`Packet::parse`] reads a packet back from bytes.

pub mod clock;
pub mod digits;
pub mod frame;
pub mod laws;
pub mod packet;
pub mod selector;
pub mod text;
pub mod write_special;

pub use frame::{EncodeError, ParseError, ParseErrorKind};
pub use packet::{Command, Packet};
pub use selector::{SignSelector, SignType, BROADCAST};
