//! Serial protocol for the DFR0299 MP3 player module.
//!
//! The module is driven over a UART at 9600-8-N-1 with frames of ten bytes:
//!
//! | offset | field      | value                         |
//! |--------|------------|-------------------------------|
//! | 0      | START      | `0x7e`                        |
//! | 1      | VERSION    | `0xff`                        |
//! | 2      | LEN        | `0x06`                        |
//! | 3      | CMD        | the command                   |
//! | 4      | FEEDBACK   | whether an ACK is requested   |
//! | 5      | PARAM_H    | parameter, high byte          |
//! | 6      | PARAM_L    | parameter, low byte           |
//! | 7      | CHECKSUM_H | checksum, high byte           |
//! | 8      | CHECKSUM_L | checksum, low byte            |
//! | 9      | STOP       | `0xef`                        |
//!
//! The checksum is the two's complement of the sum of bytes 1 to 6. Note that
//! the example packets in the datasheet carry incorrect checksums.
//!
//! [`Command`] and [`Control`] turn a message into such a frame; [`Parser`]
//! takes a byte stream apart again, one byte at a time, and hands complete,
//! checksum-valid frames to [`Response::parse`].
use vstd::prelude::*;

pub mod error;
pub mod command;
pub mod control;
pub mod frame;
pub mod parser;
pub mod response;
pub mod round_trip;

pub use command::{Command, EqMode, PlaybackMode, PlaybackSource, RequestAck};
pub use control::Control;
pub use error::Error;
pub use parser::{ParseResult, Parser, ParserState, ParserView};
pub use response::{Disk, ModuleErrorType, Response};

verus! {

/// Result of serialising or parsing
pub type Result<T> = core::result::Result<T, Error>;

/// Packet start byte
pub const START: u8 = 0x7e;

/// Packet end byte
pub const STOP: u8 = 0xef;

/// Packet version field. The device hardcodes it to `0xff`.
pub const VERSION: u8 = 0xff;

} // verus!
