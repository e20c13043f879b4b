//! The messages that the device sends, and how a frame's fields decode to one.
use crate::error::Error;
use crate::frame::{be16, from_be_bytes};
use vstd::prelude::*;
use vstd::std_specs::convert::TryFromSpecImpl;

verus! {

/// Possible messages we may receive from the DFR0299.
#[derive(Copy, Clone, Debug, PartialEq, Eq, Structural)]
pub enum Response {
    /// Response to any command that has the "request ACK" field set.
    /// Not documented in the datasheet, but present in the official
    /// arduino library and observed on a device.
    Ack,
    /// Report that the specified disk is connected and online.
    /// Attempting to play a track before the device sends this message
    /// may or may not be successful.
    DiskOnline(Disk),
    /// Report that playback is complete from the UDisk source
    UDiskFinishPlayback(u16),
    /// Report that playback is complete from the SD card source
    TfFinishPlayback(u16),
    /// Report that playback is complete from the flash chip source
    FlashFinishPlayback(u16),
    /// The device encountered an error
    ModuleError(ModuleErrorType),
    /// Report that the specified disk has been inserted. Note that
    /// attempting to power an SD card off 3.3v will result in repeated
    /// 'inserted' and 'removed' messages and it won't work reliably.
    DiskInserted(Disk),
    /// Report that the specified disk has been removed
    DiskRemoved(Disk),
}

/// Disk types that the device might report the status of. Note that
/// the codes here are slightly different to those of `PlaybackSource`.
#[derive(Copy, Clone, Debug, PartialEq, Eq, Structural)]
#[allow(missing_docs)]
pub enum Disk {
    UDisk,
    Tf,
    Pc,
    Flash,
    UDiskAndFlash,
}

/// Possible error states reported by the device
#[derive(Copy, Clone, Debug, PartialEq, Eq, Structural)]
#[allow(missing_docs)]
pub enum ModuleErrorType {
    Busy,
    IncompleteFrameReceived,
    ChecksumError,
}

impl Disk {
    /// The byte that stands for the disk on the wire.
    pub open spec fn wire_code(self) -> u8 {
        match self {
            Disk::UDisk => 0x01,
            Disk::Tf => 0x02,
            Disk::Pc => 0x03,
            Disk::Flash => 0x04,
            Disk::UDiskAndFlash => 0x05,
        }
    }

    /// The disk that `code` stands for, if it stands for one.
    pub open spec fn of_code(code: u8) -> Result<Disk, Error> {
        if code == 0x01 {
            Ok(Disk::UDisk)
        } else if code == 0x02 {
            Ok(Disk::Tf)
        } else if code == 0x03 {
            Ok(Disk::Pc)
        } else if code == 0x04 {
            Ok(Disk::Flash)
        } else if code == 0x05 {
            Ok(Disk::UDiskAndFlash)
        } else {
            Err(Error::InvalidParameterValue)
        }
    }

    /// The byte that stands for the disk on the wire.
    pub fn code(self) -> (code: u8)
        ensures
            code == self.wire_code(),
    {
        match self {
            Disk::UDisk => 0x01,
            Disk::Tf => 0x02,
            Disk::Pc => 0x03,
            Disk::Flash => 0x04,
            Disk::UDiskAndFlash => 0x05,
        }
    }
}

impl TryFrom<u8> for Disk {
    type Error = Error;

    /// Reads a disk from its wire code; any other byte is an
    /// `Error::InvalidParameterValue`.
    fn try_from(code: u8) -> (disk: Result<Disk, Error>) {
        match code {
            0x01 => Ok(Disk::UDisk),
            0x02 => Ok(Disk::Tf),
            0x03 => Ok(Disk::Pc),
            0x04 => Ok(Disk::Flash),
            0x05 => Ok(Disk::UDiskAndFlash),
            _ => Err(Error::InvalidParameterValue),
        }
    }
}

impl TryFromSpecImpl<u8> for Disk {
    open spec fn obeys_try_from_spec() -> bool {
        true
    }

    open spec fn try_from_spec(code: u8) -> Result<Disk, Error> {
        Disk::of_code(code)
    }
}

impl ModuleErrorType {
    /// The byte that stands for the error on the wire.
    pub open spec fn wire_code(self) -> u8 {
        match self {
            ModuleErrorType::Busy => 0x00,
            ModuleErrorType::IncompleteFrameReceived => 0x01,
            ModuleErrorType::ChecksumError => 0x02,
        }
    }

    /// The error that `code` stands for, if it stands for one.
    pub open spec fn of_code(code: u8) -> Result<ModuleErrorType, Error> {
        if code == 0x00 {
            Ok(ModuleErrorType::Busy)
        } else if code == 0x01 {
            Ok(ModuleErrorType::IncompleteFrameReceived)
        } else if code == 0x02 {
            Ok(ModuleErrorType::ChecksumError)
        } else {
            Err(Error::InvalidParameterValue)
        }
    }

    /// The byte that stands for the error on the wire.
    pub fn code(self) -> (code: u8)
        ensures
            code == self.wire_code(),
    {
        match self {
            ModuleErrorType::Busy => 0x00,
            ModuleErrorType::IncompleteFrameReceived => 0x01,
            ModuleErrorType::ChecksumError => 0x02,
        }
    }
}

impl TryFrom<u8> for ModuleErrorType {
    type Error = Error;

    /// Reads an error state from its wire code; any other byte is an
    /// `Error::InvalidParameterValue`.
    fn try_from(code: u8) -> (kind: Result<ModuleErrorType, Error>) {
        match code {
            0x00 => Ok(ModuleErrorType::Busy),
            0x01 => Ok(ModuleErrorType::IncompleteFrameReceived),
            0x02 => Ok(ModuleErrorType::ChecksumError),
            _ => Err(Error::InvalidParameterValue),
        }
    }
}

impl TryFromSpecImpl<u8> for ModuleErrorType {
    open spec fn obeys_try_from_spec() -> bool {
        true
    }

    open spec fn try_from_spec(code: u8) -> Result<ModuleErrorType, Error> {
        ModuleErrorType::of_code(code)
    }
}

/// A disk report: `make` applied to the disk that `code` stands for, or the
/// error of reading the code.
pub open spec fn disk_report(make: spec_fn(Disk) -> Response, code: u8) -> Result<Response, Error> {
    match Disk::of_code(code) {
        Ok(disk) => Ok(make(disk)),
        Err(e) => Err(e),
    }
}

/// What a frame with command byte `cmd` and parameter bytes `param_h`,
/// `param_l` means.
///
/// | `cmd`  | response              | payload                       |
/// |--------|-----------------------|-------------------------------|
/// | `0x3a` | `DiskInserted`        | the disk coded by `param_l`   |
/// | `0x3b` | `DiskRemoved`         | the disk coded by `param_l`   |
/// | `0x3c` | `UDiskFinishPlayback` | `param_h`, `param_l` as `u16` |
/// | `0x3d` | `TfFinishPlayback`    | `param_h`, `param_l` as `u16` |
/// | `0x3e` | `FlashFinishPlayback` | `param_h`, `param_l` as `u16` |
/// | `0x3f` | `DiskOnline`          | the disk coded by `param_l`   |
/// | `0x40` | `ModuleError`         | the error coded by `param_l`  |
/// | `0x41` | `Ack`                 | none                          |
///
/// Any other command byte is an `Error::InvalidCommand` that carries the
/// byte; a `param_l` that codes no disk or error is an
/// `Error::InvalidParameterValue`.
pub open spec fn decode(cmd: u8, param_h: u8, param_l: u8) -> Result<Response, Error> {
    if cmd == 0x3a {
        disk_report(|d: Disk| Response::DiskInserted(d), param_l)
    } else if cmd == 0x3b {
        disk_report(|d: Disk| Response::DiskRemoved(d), param_l)
    } else if cmd == 0x3c {
        Ok(Response::UDiskFinishPlayback(be16(param_h, param_l)))
    } else if cmd == 0x3d {
        Ok(Response::TfFinishPlayback(be16(param_h, param_l)))
    } else if cmd == 0x3e {
        Ok(Response::FlashFinishPlayback(be16(param_h, param_l)))
    } else if cmd == 0x3f {
        disk_report(|d: Disk| Response::DiskOnline(d), param_l)
    } else if cmd == 0x40 {
        match ModuleErrorType::of_code(param_l) {
            Ok(kind) => Ok(Response::ModuleError(kind)),
            Err(e) => Err(e),
        }
    } else if cmd == 0x41 {
        Ok(Response::Ack)
    } else {
        Err(Error::InvalidCommand(cmd))
    }
}

impl Response {
    /// Parse a command byte and its two parameter bytes into a
    /// `Response`. Response types which don't have parameters ignore
    /// the supplied parameter bytes. If the command byte does not match
    /// any known command then the byte is returned with an
    /// `Error::InvalidCommand`.
    pub fn parse(cmd: u8, param_h: u8, param_l: u8) -> (response: Result<Response, Error>)
        ensures
            response == decode(cmd, param_h, param_l),
    {
        let param = from_be_bytes(param_h, param_l);

        match cmd {
            0x40 => match ModuleErrorType::try_from(param_l) {
                Ok(kind) => Ok(Response::ModuleError(kind)),
                Err(e) => Err(e),
            },
            0x3a => match Disk::try_from(param_l) {
                Ok(disk) => Ok(Response::DiskInserted(disk)),
                Err(e) => Err(e),
            },
            0x3b => match Disk::try_from(param_l) {
                Ok(disk) => Ok(Response::DiskRemoved(disk)),
                Err(e) => Err(e),
            },
            0x3c => Ok(Response::UDiskFinishPlayback(param)),
            0x3d => Ok(Response::TfFinishPlayback(param)),
            0x3e => Ok(Response::FlashFinishPlayback(param)),
            0x3f => match Disk::try_from(param_l) {
                Ok(disk) => Ok(Response::DiskOnline(disk)),
                Err(e) => Err(e),
            },
            0x41 => Ok(Response::Ack),
            cmd => Err(Error::InvalidCommand(cmd)),
        }
    }
}

/// Every disk and every module error is read back from its own wire code,
/// and a byte that is read as one of them is that one's code.
pub proof fn lemma_codes_round_trip(disk: Disk, kind: ModuleErrorType, code: u8)
    ensures
        Disk::of_code(disk.wire_code()) == Ok::<Disk, Error>(disk),
        ModuleErrorType::of_code(kind.wire_code()) == Ok::<ModuleErrorType, Error>(kind),
        Disk::of_code(code) == Ok::<Disk, Error>(disk) ==> disk.wire_code() == code,
        ModuleErrorType::of_code(code) == Ok::<ModuleErrorType, Error>(kind) ==> kind.wire_code()
            == code,
        Disk::of_code(code).is_ok() <==> 0x01 <= code <= 0x05,
        ModuleErrorType::of_code(code).is_ok() <==> code <= 0x02,
{
}

} // verus!
