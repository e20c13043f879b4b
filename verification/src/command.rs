//! The messages that can be sent to the device, and how each is framed.
use crate::error::Error;
use crate::frame::{be16, frame, from_be_bytes, write_frame, FRAME_LEN};
use vstd::prelude::*;

verus! {

/// Available commands supported by the DFR0299
#[derive(Copy, Clone, Debug, PartialEq, Eq, Structural)]
pub enum Command {
    // "Control" messages
    /// Advance to the next track (loops back to the first track if it
    /// is currently playing the last track)
    Next,
    /// Go to the previous track, looping to the final track if it is
    /// currently playing the first track
    Previous,
    /// Play the specified track. According to the datasheet the
    /// parameter for this command should be in the range 0-2999,
    /// however this crate does not restrict the values
    Track(u16),
    /// Increase the volume
    IncreaseVolume,
    /// Decrease the volume
    DecreaseVolume,
    /// Set the volume to the specified level. According to the
    /// datasheet the volume should be in the range 0-30, however this
    /// is not enforced by this crate.
    SetVolume(u16),
    /// Set the internal equaliser to the specified preset
    SetEq(EqMode),
    /// Set the repeat playback mode
    SetPlaybackMode(PlaybackMode),
    /// Set the playback source
    SetPlaybackSource(PlaybackSource),
    /// Enter standby mode. This does not cause the controller to enter
    /// any kind of sleep state, instead it disables the playback
    /// function
    Standby,
    /// Wake from sleep (i.e. enter "normal" mode)
    Wake,
    /// Reset the controller
    Reset,
    /// Playback mode (as opposed to `Pause`)
    Playback,
    /// Pause current track
    Pause,
    /// Play the specified track from the given folder. Note that the
    /// folder name MUST be two ascii digits and the file name MUST be
    /// four ascii digits. For example `SetFolder { folder: 4, file: 123 }`
    /// refers to the file named '0123.mp3' in the folder '04'.
    SetFolder {
        /// Folder name
        folder: u8,
        /// File name
        file: u8,
    },
    /// Set some sort of gain parameter. According to the datasheet,
    /// `gain` should be in the range 0-31, but this is not checked here
    SetVolumeAdjust {
        /// Enable this gain parameter
        enable: bool,
        /// Gain (0-31)
        gain: u8,
    },
    /// `true` to start repeat play, `false` to stop repeat play
    RepeatPlay(bool),
    // "Command" messages
    /// Datasheet just says "STAY"
    Stay1,
    /// Datasheet just says "STAY"
    Stay2,
    /// Datasheet just says "STAY"
    Stay3,
    /// Send initialisation parameters to the device. According to the
    /// datasheet the parameter should be in the range 0x00-0x0f, but
    /// it doesn't say what any of these values actually represent.
    InitialisationParameters(u16),
    /// Datasheet says "returns an error, request retransmission"
    RequestRetransmission,
    /// Datasheet says "reply". This is the command number used by 'ACK'
    /// responses.
    Reply,
    /// Query the current status
    GetStatus,
    /// Query the current volume
    GetVolume,
    /// Query the current EQ preset
    GetEq,
    /// Query the current playback mode
    GetPlaybackMode,
    /// Query the current software version
    GetSoftwareVersion,
    /// Count the number of files on the attached SD card
    GetTfFileCount,
    /// Count the number of files on the attached UDisk
    GetUDiskFileCount,
    /// Count the number of files on the attached flash chip
    GetFlashFileCount,
    /// Datasheet just says "keep on"
    KeepOn,
    /// Query the currently selected track on the SD card source
    GetTfCurrentTrack,
    /// Query the currently selected track on the UDisk source
    GetUDiskCurrentTrack,
    /// Query the currently selected track on the flash chip source
    GetFlashCurrentTrack,
}

/// EQ presets supported by the device
#[derive(Copy, Clone, Debug, PartialEq, Eq, Structural)]
#[allow(missing_docs)]
pub enum EqMode {
    Normal,
    Pop,
    Rock,
    Jazz,
    Classic,
    Base,
}

/// Repeat modes supported by the device
#[derive(Copy, Clone, Debug, PartialEq, Eq, Structural)]
#[allow(missing_docs)]
pub enum PlaybackMode {
    Repeat,
    FolderRepeat,
    SingleRepeat,
    Random,
}

/// Input data sources supported by the device.
#[derive(Copy, Clone, Debug, PartialEq, Eq, Structural)]
#[allow(missing_docs)]
pub enum PlaybackSource {
    UDisk,
    Tf,
    Aux,
    Sleep,
    Flash,
}

/// Whether to request an ACK from the device
#[derive(Copy, Clone, Debug, PartialEq, Eq, Structural)]
#[allow(missing_docs)]
pub enum RequestAck {
    No,
    Yes,
}

impl EqMode {
    /// The number that stands for the preset on the wire.
    pub open spec fn wire_code(self) -> u16 {
        match self {
            EqMode::Normal => 0x00,
            EqMode::Pop => 0x01,
            EqMode::Rock => 0x02,
            EqMode::Jazz => 0x03,
            EqMode::Classic => 0x04,
            EqMode::Base => 0x05,
        }
    }

    /// The number that stands for the preset on the wire.
    pub fn code(self) -> (code: u16)
        ensures
            code == self.wire_code(),
    {
        match self {
            EqMode::Normal => 0x00,
            EqMode::Pop => 0x01,
            EqMode::Rock => 0x02,
            EqMode::Jazz => 0x03,
            EqMode::Classic => 0x04,
            EqMode::Base => 0x05,
        }
    }
}

impl PlaybackMode {
    /// The number that stands for the mode on the wire.
    pub open spec fn wire_code(self) -> u16 {
        match self {
            PlaybackMode::Repeat => 0x00,
            PlaybackMode::FolderRepeat => 0x01,
            PlaybackMode::SingleRepeat => 0x02,
            PlaybackMode::Random => 0x03,
        }
    }

    /// The number that stands for the mode on the wire.
    pub fn code(self) -> (code: u16)
        ensures
            code == self.wire_code(),
    {
        match self {
            PlaybackMode::Repeat => 0x00,
            PlaybackMode::FolderRepeat => 0x01,
            PlaybackMode::SingleRepeat => 0x02,
            PlaybackMode::Random => 0x03,
        }
    }
}

impl PlaybackSource {
    /// The number that stands for the source on the wire.
    pub open spec fn wire_code(self) -> u16 {
        match self {
            PlaybackSource::UDisk => 0x00,
            PlaybackSource::Tf => 0x01,
            PlaybackSource::Aux => 0x02,
            PlaybackSource::Sleep => 0x03,
            PlaybackSource::Flash => 0x04,
        }
    }

    /// The number that stands for the source on the wire.
    pub fn code(self) -> (code: u16)
        ensures
            code == self.wire_code(),
    {
        match self {
            PlaybackSource::UDisk => 0x00,
            PlaybackSource::Tf => 0x01,
            PlaybackSource::Aux => 0x02,
            PlaybackSource::Sleep => 0x03,
            PlaybackSource::Flash => 0x04,
        }
    }
}

impl RequestAck {
    /// The value of the feedback byte.
    pub open spec fn wire_code(self) -> u8 {
        match self {
            RequestAck::No => 0x00,
            RequestAck::Yes => 0x01,
        }
    }

    /// The value of the feedback byte.
    pub fn code(self) -> (code: u8)
        ensures
            code == self.wire_code(),
    {
        match self {
            RequestAck::No => 0x00,
            RequestAck::Yes => 0x01,
        }
    }
}

impl Command {
    /// The command byte of each command. `Reply` and `GetStatus` share
    /// `0x41`.
    pub open spec fn wire_command_byte(self) -> u8 {
        match self {
            Command::Next => 0x01,
            Command::Previous => 0x02,
            Command::Track(_) => 0x03,
            Command::IncreaseVolume => 0x04,
            Command::DecreaseVolume => 0x05,
            Command::SetVolume(_) => 0x06,
            Command::SetEq(_) => 0x07,
            Command::SetPlaybackMode(_) => 0x08,
            Command::SetPlaybackSource(_) => 0x09,
            Command::Standby => 0x0a,
            Command::Wake => 0x0b,
            Command::Reset => 0x0c,
            Command::Playback => 0x0d,
            Command::Pause => 0x0e,
            Command::SetFolder { .. } => 0x0f,
            Command::SetVolumeAdjust { .. } => 0x10,
            Command::RepeatPlay(_) => 0x11,
            Command::Stay1 => 0x3c,
            Command::Stay2 => 0x3d,
            Command::Stay3 => 0x3e,
            Command::InitialisationParameters(_) => 0x3f,
            Command::RequestRetransmission => 0x40,
            Command::Reply => 0x41,
            Command::GetStatus => 0x41,
            Command::GetVolume => 0x43,
            Command::GetEq => 0x44,
            Command::GetPlaybackMode => 0x45,
            Command::GetSoftwareVersion => 0x46,
            Command::GetTfFileCount => 0x47,
            Command::GetUDiskFileCount => 0x48,
            Command::GetFlashFileCount => 0x49,
            Command::KeepOn => 0x4a,
            Command::GetTfCurrentTrack => 0x4b,
            Command::GetUDiskCurrentTrack => 0x4c,
            Command::GetFlashCurrentTrack => 0x4d,
        }
    }

    /// The sixteen-bit parameter of each command: its number, the code of its
    /// mode, its two bytes with the first one high, its flag as 0 or 1, and 0
    /// where it has none.
    pub open spec fn wire_param(self) -> u16 {
        match self {
            Command::Track(t) => t,
            Command::SetVolume(v) => v,
            Command::SetEq(e) => e.wire_code(),
            Command::SetPlaybackMode(m) => m.wire_code(),
            Command::SetPlaybackSource(s) => s.wire_code(),
            Command::SetFolder { folder, file } => be16(folder, file),
            Command::SetVolumeAdjust { enable, gain } => be16(
                if enable {
                    1u8
                } else {
                    0u8
                },
                gain,
            ),
            Command::RepeatPlay(r) => if r {
                1u16
            } else {
                0u16
            },
            Command::InitialisationParameters(p) => p,
            _ => 0,
        }
    }

    /// The ten bytes that carry this command.
    pub open spec fn wire_frame(self, request_ack: RequestAck) -> Seq<u8> {
        frame(self.wire_command_byte(), request_ack.wire_code(), self.wire_param())
    }

    /// Serialise the command into the provided buffer. The buffer size
    /// should be at least 10 bytes, otherwise an `Error::BufferTooShort`
    /// will be returned. On success returns the number of bytes written
    /// (always 10).
    pub fn serialise(&self, buf: &mut [u8]) -> (written: Result<usize, Error>)
        ensures
            old(buf)@.len() < FRAME_LEN ==> written == Err::<usize, Error>(Error::BufferTooShort)
                && final(buf)@ == old(buf)@,
            old(buf)@.len() >= FRAME_LEN ==> written == Ok::<usize, Error>(FRAME_LEN)
                && final(buf)@ == self.wire_frame(RequestAck::No) + old(buf)@.skip(
                FRAME_LEN as int,
            ),
    {
        self.serialise_with_ack(buf, RequestAck::No)
    }

    /// Serialise the command into the provided buffer, optionally
    /// requesting an ACK from the device. The buffer size should be at
    /// least 10 bytes, otherwise an `Error::BufferTooShort` will be
    /// returned. On success returns the number of bytes written (always
    /// 10).
    pub fn serialise_with_ack(&self, buf: &mut [u8], request_ack: RequestAck) -> (written: Result<
        usize,
        Error,
    >)
        ensures
            old(buf)@.len() < FRAME_LEN ==> written == Err::<usize, Error>(Error::BufferTooShort)
                && final(buf)@ == old(buf)@,
            old(buf)@.len() >= FRAME_LEN ==> written == Ok::<usize, Error>(FRAME_LEN)
                && final(buf)@ == self.wire_frame(request_ack) + old(buf)@.skip(FRAME_LEN as int),
    {
        write_frame(buf, self.command_byte(), request_ack.code(), self.param())
    }

    /// Get the u8 value associated with the current Command.
    pub fn command_byte(&self) -> (byte: u8)
        ensures
            byte == self.wire_command_byte(),
    {
        match self {
            // "Control" messages
            Command::Next => 0x01,
            Command::Previous => 0x02,
            Command::Track(_) => 0x03,
            Command::IncreaseVolume => 0x04,
            Command::DecreaseVolume => 0x05,
            Command::SetVolume(_) => 0x06,
            Command::SetEq(_) => 0x07,
            Command::SetPlaybackMode(_) => 0x08,
            Command::SetPlaybackSource(_) => 0x09,
            Command::Standby => 0x0a,
            Command::Wake => 0x0b,
            Command::Reset => 0x0c,
            Command::Playback => 0x0d,
            Command::Pause => 0x0e,
            Command::SetFolder { .. } => 0x0f,
            Command::SetVolumeAdjust { .. } => 0x10,
            Command::RepeatPlay(_) => 0x11,
            // "Command" messages
            Command::Stay1 => 0x3c,
            Command::Stay2 => 0x3d,
            Command::Stay3 => 0x3e,
            Command::InitialisationParameters(_) => 0x3f,
            Command::RequestRetransmission => 0x40,
            Command::Reply => 0x41,
            Command::GetStatus => 0x41,
            Command::GetVolume => 0x43,
            Command::GetEq => 0x44,
            Command::GetPlaybackMode => 0x45,
            Command::GetSoftwareVersion => 0x46,
            Command::GetTfFileCount => 0x47,
            Command::GetUDiskFileCount => 0x48,
            Command::GetFlashFileCount => 0x49,
            Command::KeepOn => 0x4a,
            Command::GetTfCurrentTrack => 0x4b,
            Command::GetUDiskCurrentTrack => 0x4c,
            Command::GetFlashCurrentTrack => 0x4d,
        }
    }

    /// Get the u16 parameter value for the current command. For
    /// commands which require a parameter this will be that value (or
    /// two u8 values concatenated into a u16), otherwise returns 0.
    pub fn param(&self) -> (param: u16)
        ensures
            param == self.wire_param(),
    {
        match self {
            Command::Track(t) => *t,
            Command::SetVolume(v) => *v,
            Command::SetEq(e) => e.code(),
            Command::SetPlaybackMode(m) => m.code(),
            Command::SetPlaybackSource(s) => s.code(),
            Command::SetFolder { folder, file } => from_be_bytes(*folder, *file),
            Command::SetVolumeAdjust { enable, gain } => {
                let flag: u8 = if *enable {
                    1
                } else {
                    0
                };
                from_be_bytes(flag, *gain)
            },
            Command::RepeatPlay(r) => if *r {
                1
            } else {
                0
            },
            Command::InitialisationParameters(p) => *p,
            _ => 0,
        }
    }
}

} // verus!
