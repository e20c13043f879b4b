//! The playback controls on their own: a smaller set of messages, each with
//! its parameter as a plain number.
use crate::command::{EqMode, PlaybackMode, PlaybackSource, RequestAck};
use crate::error::Error;
use crate::frame::{frame, write_frame, FRAME_LEN};
use vstd::prelude::*;

verus! {

/// The playback controls of the DFR0299. Folder, gain and repeat
/// parameters are given as the raw sixteen-bit value that goes on the wire.
#[derive(Copy, Clone, Debug, PartialEq, Eq, Structural)]
#[allow(missing_docs)]
pub enum Control {
    Next,
    Previous,
    Track(u16),
    IncreaseVolume,
    DecreaseVolume,
    SetVolume(u16),
    SetEq(EqMode),
    SetPlaybackMode(PlaybackMode),
    SetPlaybackSource(PlaybackSource),
    Standby,
    Normal,
    Reset,
    Playback,
    Pause,
    SetFolder(u16),
    SetVolumeAdjust(u16),
    RepeatPlay(u16),
}

impl Control {
    /// The command byte of each control: `0x01` to `0x11`, in the order of
    /// the variants.
    pub open spec fn wire_command_byte(self) -> u8 {
        match self {
            Control::Next => 0x01,
            Control::Previous => 0x02,
            Control::Track(_) => 0x03,
            Control::IncreaseVolume => 0x04,
            Control::DecreaseVolume => 0x05,
            Control::SetVolume(_) => 0x06,
            Control::SetEq(_) => 0x07,
            Control::SetPlaybackMode(_) => 0x08,
            Control::SetPlaybackSource(_) => 0x09,
            Control::Standby => 0x0a,
            Control::Normal => 0x0b,
            Control::Reset => 0x0c,
            Control::Playback => 0x0d,
            Control::Pause => 0x0e,
            Control::SetFolder(_) => 0x0f,
            Control::SetVolumeAdjust(_) => 0x10,
            Control::RepeatPlay(_) => 0x11,
        }
    }

    /// The sixteen-bit parameter of each control: its number or the code of
    /// its mode, and 0 where it has none.
    pub open spec fn wire_param(self) -> u16 {
        match self {
            Control::Track(t) => t,
            Control::SetVolume(v) => v,
            Control::SetEq(e) => e.wire_code(),
            Control::SetPlaybackMode(m) => m.wire_code(),
            Control::SetPlaybackSource(s) => s.wire_code(),
            Control::SetFolder(f) => f,
            Control::SetVolumeAdjust(v) => v,
            Control::RepeatPlay(r) => r,
            _ => 0,
        }
    }

    /// The ten bytes that carry this control. No ACK is requested.
    pub open spec fn wire_frame(self) -> Seq<u8> {
        frame(self.wire_command_byte(), RequestAck::No.wire_code(), self.wire_param())
    }

    /// Serialise the control into the provided buffer, without requesting
    /// an ACK. The buffer size should be at least 10 bytes, otherwise an
    /// `Error::BufferTooShort` will be returned. On success returns the
    /// number of bytes written (always 10).
    pub fn serialise(&self, buf: &mut [u8]) -> (written: Result<usize, Error>)
        ensures
            old(buf)@.len() < FRAME_LEN ==> written == Err::<usize, Error>(Error::BufferTooShort)
                && final(buf)@ == old(buf)@,
            old(buf)@.len() >= FRAME_LEN ==> written == Ok::<usize, Error>(FRAME_LEN)
                && final(buf)@ == self.wire_frame() + old(buf)@.skip(FRAME_LEN as int),
    {
        write_frame(buf, self.command_byte(), RequestAck::No.code(), self.param())
    }

    /// Get the u8 value associated with the control.
    pub fn command_byte(&self) -> (byte: u8)
        ensures
            byte == self.wire_command_byte(),
    {
        match self {
            Control::Next => 0x01,
            Control::Previous => 0x02,
            Control::Track(_) => 0x03,
            Control::IncreaseVolume => 0x04,
            Control::DecreaseVolume => 0x05,
            Control::SetVolume(_) => 0x06,
            Control::SetEq(_) => 0x07,
            Control::SetPlaybackMode(_) => 0x08,
            Control::SetPlaybackSource(_) => 0x09,
            Control::Standby => 0x0a,
            Control::Normal => 0x0b,
            Control::Reset => 0x0c,
            Control::Playback => 0x0d,
            Control::Pause => 0x0e,
            Control::SetFolder(_) => 0x0f,
            Control::SetVolumeAdjust(_) => 0x10,
            Control::RepeatPlay(_) => 0x11,
        }
    }

    /// Get the u16 parameter value for the control, or 0 where it has
    /// none.
    pub fn param(&self) -> (param: u16)
        ensures
            param == self.wire_param(),
    {
        match self {
            Control::Track(t) => *t,
            Control::SetVolume(v) => *v,
            Control::SetEq(e) => e.code(),
            Control::SetPlaybackMode(m) => m.code(),
            Control::SetPlaybackSource(s) => s.code(),
            Control::SetFolder(f) => *f,
            Control::SetVolumeAdjust(v) => *v,
            Control::RepeatPlay(r) => *r,
            _ => 0,
        }
    }
}

} // verus!
