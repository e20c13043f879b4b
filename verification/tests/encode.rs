use dfr0299::frame::{compute_checksum, from_be_bytes, to_be_bytes, write_frame, FRAME_LEN, LEN};
use dfr0299::{
    Command, Control, EqMode, Error, PlaybackMode, PlaybackSource, RequestAck, START, STOP,
    VERSION,
};

#[test]
fn control_serialise_command_track() {
    let mut buf = [0; 16];
    let cmd = Command::Track(1);
    let len = cmd.serialise(&mut buf).unwrap();
    assert_eq!(len, 10);
    let expected: &[u8] = &[
        0x7e, // START
        0xff, // VERSION
        0x06, // LEN
        0x03, // command
        0x00, // request ack
        0x00, // param high
        0x01, // param low
        0xfe, // checksum high (datasheet says 0xff but is wrong)
        0xf7, // checksum low (datasheet says 0xe6)
        0xef, // STOP
    ];
    println!("< calculated / expected >");
    assert_eq!(&buf[..len], expected);
}

#[test]
fn control_serialise_command_norflash() {
    let mut buf = [0; 16];
    let cmd = Command::SetPlaybackSource(PlaybackSource::Flash);
    let len = cmd.serialise(&mut buf).unwrap();
    assert_eq!(len, 10);
    let expected: &[u8] = &[
        0x7e, // START
        0xff, // VERSION
        0x06, // LEN
        0x09, // command
        0x00, // request ack
        0x00, // param high
        0x04, // param low
        0xfe, // checksum high (datasheet says 0xff)
        0xee, // checksum low (datasheet says 0xdd)
        0xef, // STOP
    ];
    println!("< calculated / expected >");
    assert_eq!(&buf[..len], expected);
}

#[test]
fn lib_serialise_command_track() {
    let mut buf = [0; 16];
    let cmd = Control::Track(1);
    let len = cmd.serialise(&mut buf).unwrap();
    assert_eq!(len, 10);
    let expected: &[u8] = &[
        0x7e, // START
        0xff, // VERSION
        0x06, // LEN
        0x03, // command
        0x00, // request ack
        0x00, // param high
        0x01, // param low
        0xfe, // checksum high (the datasheet prints 0xff, which is not the checksum)
        0xf7, // checksum low (the datasheet prints 0xe6)
        0xef, // STOP
    ];
    println!("< calculated / expected >");
    assert_eq!(&buf[..len], expected);
}

#[test]
fn lib_serialise_command_norflash() {
    let mut buf = [0; 16];
    let cmd = Control::SetPlaybackSource(PlaybackSource::Flash);
    let len = cmd.serialise(&mut buf).unwrap();
    assert_eq!(len, 10);
    let expected: &[u8] = &[
        0x7e, // START
        0xff, // VERSION
        0x06, // LEN
        0x09, // command
        0x00, // request ack
        0x00, // param high
        0x04, // param low
        0xfe, // checksum high (the datasheet prints 0xff, which is not the checksum)
        0xee, // checksum low (the datasheet prints 0xdd)
        0xef, // STOP
    ];
    println!("< calculated / expected >");
    assert_eq!(&buf[..len], expected);
}

#[test]
fn wire_constants() {
    assert_eq!(START, 0x7e);
    assert_eq!(STOP, 0xef);
    assert_eq!(VERSION, 0xff);
    assert_eq!(LEN, 0x06);
    assert_eq!(FRAME_LEN, 10);
}

#[test]
fn serialise_leaves_the_rest_of_the_buffer() {
    let mut buf = [0xa5u8; 16];
    let len = Command::Reset.serialise(&mut buf).unwrap();
    assert_eq!(len, 10);
    assert_eq!(
        &buf[..10],
        &[0x7e, 0xff, 0x06, 0x0c, 0x00, 0x00, 0x00, 0xfe, 0xef, 0xef]
    );
    assert_eq!(&buf[10..], &[0xa5u8; 6]);
}

#[test]
fn serialise_into_exactly_ten_bytes() {
    let mut buf = [0u8; 10];
    assert_eq!(Command::Next.serialise(&mut buf), Ok(10));
    assert_eq!(buf, [0x7e, 0xff, 0x06, 0x01, 0x00, 0x00, 0x00, 0xfe, 0xfa, 0xef]);
}

#[test]
fn serialise_buffer_too_short() {
    let mut buf = [0x11u8; 5];
    let res = Command::Track(1).serialise(&mut buf);
    assert_eq!(res, Err(Error::BufferTooShort));
    assert_eq!(buf, [0x11u8; 5]);

    let mut nine = [0x22u8; 9];
    let res = Command::Track(1).serialise_with_ack(&mut nine, RequestAck::Yes);
    assert_eq!(res, Err(Error::BufferTooShort));
    assert_eq!(nine, [0x22u8; 9]);

    let mut empty: [u8; 0] = [];
    assert_eq!(Control::Next.serialise(&mut empty), Err(Error::BufferTooShort));
    assert_eq!(write_frame(&mut nine, 1, 0, 0), Err(Error::BufferTooShort));
    assert_eq!(nine, [0x22u8; 9]);
}

#[test]
fn serialise_with_ack_sets_the_feedback_byte() {
    let mut buf = [0u8; 10];
    let len = Command::Track(1)
        .serialise_with_ack(&mut buf, RequestAck::Yes)
        .unwrap();
    assert_eq!(len, 10);
    assert_eq!(buf, [0x7e, 0xff, 0x06, 0x03, 0x01, 0x00, 0x01, 0xfe, 0xf6, 0xef]);

    let mut plain = [0u8; 10];
    Command::Track(1)
        .serialise_with_ack(&mut plain, RequestAck::No)
        .unwrap();
    let mut short = [0u8; 10];
    Command::Track(1).serialise(&mut short).unwrap();
    assert_eq!(plain, short);
}

#[test]
fn serialise_large_parameter() {
    // the payload sums to 0xff + 0x06 + 0x03 + 0xff + 0xff = 0x306
    let mut buf = [0u8; 10];
    Command::Track(0xffff).serialise(&mut buf).unwrap();
    assert_eq!(buf, [0x7e, 0xff, 0x06, 0x03, 0x00, 0xff, 0xff, 0xfc, 0xfa, 0xef]);

    Command::SetVolume(0x1234).serialise(&mut buf).unwrap();
    assert_eq!(buf, [0x7e, 0xff, 0x06, 0x06, 0x00, 0x12, 0x34, 0xfe, 0xaf, 0xef]);
}

#[test]
fn write_frame_takes_any_field_values() {
    let mut buf = [0u8; 12];
    assert_eq!(write_frame(&mut buf, 0xff, 0xff, 0xffff), Ok(10));
    // 6 * 0xff + 0x06 - 0xff = 0x501; -0x501 = 0xfaff
    assert_eq!(
        buf,
        [0x7e, 0xff, 0x06, 0xff, 0xff, 0xff, 0xff, 0xfa, 0xff, 0xef, 0x00, 0x00]
    );
}

#[test]
fn checksum_is_the_negated_sum() {
    assert_eq!(compute_checksum(&[0, 0, 0, 0, 0, 0]), 0);
    assert_eq!(compute_checksum(&[0xff, 0x06, 0x03, 0x00, 0x00, 0x01]), -0x109);
    assert_eq!(compute_checksum(&[0xff; 6]), -1530);
    assert_eq!(compute_checksum(&[0x80, 0, 0, 0, 0, 0]), -128);
    let payloads: [[u8; 6]; 4] = [
        [1, 2, 3, 4, 5, 6],
        [0xff, 0x06, 0x3b, 0x00, 0x00, 0x01],
        [0x7f, 0x80, 0x81, 0xfe, 0x00, 0x10],
        [0xff, 0x06, 0x41, 0x01, 0xab, 0xcd],
    ];
    for p in payloads {
        let sum: i16 = p.iter().map(|b| i16::from(*b)).sum();
        assert_eq!(compute_checksum(&p), -sum);
        assert_eq!(to_be_bytes(compute_checksum(&p)), (-sum).to_be_bytes());
    }
}

#[test]
fn big_endian_bytes() {
    assert_eq!(to_be_bytes(0), [0x00, 0x00]);
    assert_eq!(to_be_bytes(1), [0x00, 0x01]);
    assert_eq!(to_be_bytes(-1), [0xff, 0xff]);
    assert_eq!(to_be_bytes(-0x109), [0xfe, 0xf7]);
    assert_eq!(to_be_bytes(0x1234), [0x12, 0x34]);
    assert_eq!(to_be_bytes(i16::MIN), [0x80, 0x00]);
    assert_eq!(to_be_bytes(i16::MAX), [0x7f, 0xff]);
    assert_eq!(from_be_bytes(0x00, 0x00), 0);
    assert_eq!(from_be_bytes(0x12, 0x34), 0x1234);
    assert_eq!(from_be_bytes(0xff, 0xff), 0xffff);
    assert_eq!(from_be_bytes(0x01, 0x00), 256);
}

#[test]
fn command_bytes() {
    let table: [(Command, u8); 35] = [
        (Command::Next, 0x01),
        (Command::Previous, 0x02),
        (Command::Track(7), 0x03),
        (Command::IncreaseVolume, 0x04),
        (Command::DecreaseVolume, 0x05),
        (Command::SetVolume(7), 0x06),
        (Command::SetEq(EqMode::Rock), 0x07),
        (Command::SetPlaybackMode(PlaybackMode::Random), 0x08),
        (Command::SetPlaybackSource(PlaybackSource::Tf), 0x09),
        (Command::Standby, 0x0a),
        (Command::Wake, 0x0b),
        (Command::Reset, 0x0c),
        (Command::Playback, 0x0d),
        (Command::Pause, 0x0e),
        (Command::SetFolder { folder: 1, file: 2 }, 0x0f),
        (Command::SetVolumeAdjust { enable: true, gain: 3 }, 0x10),
        (Command::RepeatPlay(true), 0x11),
        (Command::Stay1, 0x3c),
        (Command::Stay2, 0x3d),
        (Command::Stay3, 0x3e),
        (Command::InitialisationParameters(7), 0x3f),
        (Command::RequestRetransmission, 0x40),
        (Command::Reply, 0x41),
        (Command::GetStatus, 0x41),
        (Command::GetVolume, 0x43),
        (Command::GetEq, 0x44),
        (Command::GetPlaybackMode, 0x45),
        (Command::GetSoftwareVersion, 0x46),
        (Command::GetTfFileCount, 0x47),
        (Command::GetUDiskFileCount, 0x48),
        (Command::GetFlashFileCount, 0x49),
        (Command::KeepOn, 0x4a),
        (Command::GetTfCurrentTrack, 0x4b),
        (Command::GetUDiskCurrentTrack, 0x4c),
        (Command::GetFlashCurrentTrack, 0x4d),
    ];
    for (cmd, byte) in table {
        assert_eq!(cmd.command_byte(), byte, "{cmd:?}");
    }
}

#[test]
fn command_params() {
    assert_eq!(Command::Track(0x1234).param(), 0x1234);
    assert_eq!(Command::SetVolume(30).param(), 30);
    assert_eq!(Command::SetEq(EqMode::Base).param(), 5);
    assert_eq!(Command::SetPlaybackMode(PlaybackMode::SingleRepeat).param(), 2);
    assert_eq!(Command::SetPlaybackSource(PlaybackSource::Flash).param(), 4);
    assert_eq!(Command::SetFolder { folder: 4, file: 123 }.param(), 0x047b);
    assert_eq!(Command::SetFolder { folder: 0xff, file: 0xff }.param(), 0xffff);
    assert_eq!(Command::SetVolumeAdjust { enable: true, gain: 31 }.param(), 0x011f);
    assert_eq!(Command::SetVolumeAdjust { enable: false, gain: 31 }.param(), 0x001f);
    assert_eq!(Command::RepeatPlay(true).param(), 1);
    assert_eq!(Command::RepeatPlay(false).param(), 0);
    assert_eq!(Command::InitialisationParameters(0x0f).param(), 0x0f);
    assert_eq!(Command::Next.param(), 0);
    assert_eq!(Command::Reset.param(), 0);
    assert_eq!(Command::GetVolume.param(), 0);
    assert_eq!(Command::GetFlashCurrentTrack.param(), 0);
}

#[test]
fn mode_codes() {
    assert_eq!(EqMode::Normal.code(), 0);
    assert_eq!(EqMode::Pop.code(), 1);
    assert_eq!(EqMode::Rock.code(), 2);
    assert_eq!(EqMode::Jazz.code(), 3);
    assert_eq!(EqMode::Classic.code(), 4);
    assert_eq!(EqMode::Base.code(), 5);
    assert_eq!(PlaybackMode::Repeat.code(), 0);
    assert_eq!(PlaybackMode::FolderRepeat.code(), 1);
    assert_eq!(PlaybackMode::SingleRepeat.code(), 2);
    assert_eq!(PlaybackMode::Random.code(), 3);
    assert_eq!(PlaybackSource::UDisk.code(), 0);
    assert_eq!(PlaybackSource::Tf.code(), 1);
    assert_eq!(PlaybackSource::Aux.code(), 2);
    assert_eq!(PlaybackSource::Sleep.code(), 3);
    assert_eq!(PlaybackSource::Flash.code(), 4);
    assert_eq!(RequestAck::No.code(), 0);
    assert_eq!(RequestAck::Yes.code(), 1);
}

#[test]
fn control_bytes_and_params() {
    let table: [(Control, u8, u16); 17] = [
        (Control::Next, 0x01, 0),
        (Control::Previous, 0x02, 0),
        (Control::Track(9), 0x03, 9),
        (Control::IncreaseVolume, 0x04, 0),
        (Control::DecreaseVolume, 0x05, 0),
        (Control::SetVolume(20), 0x06, 20),
        (Control::SetEq(EqMode::Jazz), 0x07, 3),
        (Control::SetPlaybackMode(PlaybackMode::FolderRepeat), 0x08, 1),
        (Control::SetPlaybackSource(PlaybackSource::Sleep), 0x09, 3),
        (Control::Standby, 0x0a, 0),
        (Control::Normal, 0x0b, 0),
        (Control::Reset, 0x0c, 0),
        (Control::Playback, 0x0d, 0),
        (Control::Pause, 0x0e, 0),
        (Control::SetFolder(0x0102), 0x0f, 0x0102),
        (Control::SetVolumeAdjust(0x011f), 0x10, 0x011f),
        (Control::RepeatPlay(1), 0x11, 1),
    ];
    for (control, byte, param) in table {
        assert_eq!(control.command_byte(), byte, "{control:?}");
        assert_eq!(control.param(), param, "{control:?}");
    }
}

#[test]
fn control_and_command_write_the_same_frame() {
    let mut a = [0u8; 10];
    let mut b = [0u8; 10];
    Control::SetVolume(20).serialise(&mut a).unwrap();
    Command::SetVolume(20).serialise(&mut b).unwrap();
    assert_eq!(a, b);
    assert_eq!(a, [0x7e, 0xff, 0x06, 0x06, 0x00, 0x00, 0x14, 0xfe, 0xe1, 0xef]);
}
