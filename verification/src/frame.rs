//! The wire frame shared by both directions: its layout and its checksum.
use crate::error::Error;
use crate::{START, STOP, VERSION};
use vstd::prelude::*;

verus! {

/// Value of the LEN field: the number of bytes from VERSION to PARAM_L.
pub const LEN: u8 = 0x06;

/// Number of bytes in a frame.
pub const FRAME_LEN: usize = 10;

/// The bytes that the checksum covers, in wire order.
pub open spec fn payload(cmd: u8, feedback: u8, param_h: u8, param_l: u8) -> Seq<u8> {
    seq![VERSION, LEN, cmd, feedback, param_h, param_l]
}

/// The checksum of a six-byte payload as a signed number: the negated sum of
/// its bytes. Six bytes sum to 1530 at most, so the value always fits sixteen
/// bits.
pub open spec fn checksum(p: Seq<u8>) -> int
    recommends
        p.len() == 6,
{
    -(p[0] + p[1] + p[2] + p[3] + p[4] + p[5])
}

/// The sixteen-bit two's complement pattern of `v`, as an unsigned number.
pub open spec fn twos_complement(v: int) -> int {
    v % 0x1_0000
}

/// High byte of the sixteen-bit two's complement pattern of `v`.
pub open spec fn high_byte(v: int) -> u8 {
    (twos_complement(v) / 0x100) as u8
}

/// Low byte of the sixteen-bit two's complement pattern of `v`.
pub open spec fn low_byte(v: int) -> u8 {
    (twos_complement(v) % 0x100) as u8
}

/// The sixteen-bit number whose big-endian bytes are `high`, `low`.
pub open spec fn be16(high: u8, low: u8) -> u16 {
    (high * 0x100 + low) as u16
}

/// The complete frame that carries `cmd`, `feedback` and `param`.
pub open spec fn frame(cmd: u8, feedback: u8, param: u16) -> Seq<u8> {
    let param_h = high_byte(param as int);
    let param_l = low_byte(param as int);
    let sum = checksum(payload(cmd, feedback, param_h, param_l));
    seq![
        START,
        VERSION,
        LEN,
        cmd,
        feedback,
        param_h,
        param_l,
        high_byte(sum),
        low_byte(sum),
        STOP,
    ]
}

/// Computes the checksum of a payload with sixteen-bit signed arithmetic.
pub fn compute_checksum(p: &[u8; 6]) -> (sum: i16)
    ensures
        sum == checksum(p@),
{
    let total: i16 = p[0] as i16 + p[1] as i16 + p[2] as i16 + p[3] as i16 + p[4] as i16
        + p[5] as i16;
    -total
}

/// Splits a sixteen-bit signed number into its big-endian bytes.
pub fn to_be_bytes(v: i16) -> (bytes: [u8; 2])
    ensures
        bytes[0] == high_byte(v as int),
        bytes[1] == low_byte(v as int),
{
    let w: u16 = #[verifier::truncate] (v as u16);
    let high: u8 = #[verifier::truncate] ((w >> 8) as u8);
    let low: u8 = #[verifier::truncate] (w as u8);
    proof {
        assert(w as int == (v as int) % 0x1_0000) by (bit_vector)
            requires
                w == v as u16,
        ;
        assert(high as int == (w as int) / 0x100 && low as int == (w as int) % 0x100)
            by (bit_vector)
            requires
                high == (w >> 8) as u8,
                low == w as u8,
        ;
    }
    [high, low]
}

/// Joins two big-endian bytes into a sixteen-bit number.
pub fn from_be_bytes(high: u8, low: u8) -> (v: u16)
    ensures
        v == be16(high, low),
        high_byte(v as int) == high,
        low_byte(v as int) == low,
{
    high as u16 * 0x100 + low as u16
}

/// Writes the frame that carries `cmd`, `feedback` and `param` into the first
/// ten bytes of `buf` and returns the number of bytes written.
///
/// A buffer of fewer than ten bytes is left as it is and reported as
/// [`Error::BufferTooShort`]. Bytes beyond the tenth are never touched.
pub fn write_frame(buf: &mut [u8], cmd: u8, feedback: u8, param: u16) -> (written: Result<
    usize,
    Error,
>)
    ensures
        old(buf)@.len() < FRAME_LEN ==> written == Err::<usize, Error>(Error::BufferTooShort)
            && final(buf)@ == old(buf)@,
        old(buf)@.len() >= FRAME_LEN ==> written == Ok::<usize, Error>(FRAME_LEN)
            && final(buf)@ == frame(cmd, feedback, param) + old(buf)@.skip(FRAME_LEN as int),
{
    if buf.len() < FRAME_LEN {
        return Err(Error::BufferTooShort);
    }
    let param_h: u8 = #[verifier::truncate] ((param >> 8) as u8);
    let param_l: u8 = #[verifier::truncate] (param as u8);
    proof {
        assert(((param >> 8) as u8) as int == (param as int) / 0x100) by (bit_vector);
        assert((param as u8) as int == (param as int) % 0x100) by (bit_vector);
    }
    buf[0] = START;
    buf[1] = VERSION;
    buf[2] = LEN;
    buf[3] = cmd;
    buf[4] = feedback;
    buf[5] = param_h;
    buf[6] = param_l;

    // checksum is twos complement of the sum of the data bytes
    let sum = compute_checksum(&[buf[1], buf[2], buf[3], buf[4], buf[5], buf[6]]);
    let sum_bytes = to_be_bytes(sum);

    buf[7] = sum_bytes[0];
    buf[8] = sum_bytes[1];
    buf[9] = STOP;
    proof {
        assert(buf@ =~= frame(cmd, feedback, param) + old(buf)@.skip(FRAME_LEN as int));
    }
    Ok(FRAME_LEN)
}

/// The checksum of six bytes lies between -1530 and 0, so sixteen-bit
/// signed arithmetic computes it without wrapping, and its two's complement
/// pattern is 65536 less the sum of the bytes (0 where they are all 0).
pub proof fn lemma_checksum_fits(p: Seq<u8>)
    requires
        p.len() == 6,
    ensures
        -1530 <= checksum(p) <= 0,
        i16::MIN <= checksum(p) <= i16::MAX,
        twos_complement(checksum(p)) == if checksum(p) == 0 {
            0
        } else {
            0x1_0000 + checksum(p)
        },
        be16(high_byte(checksum(p)), low_byte(checksum(p))) == twos_complement(checksum(p)),
{
}

/// A frame is ten bytes, with each field where the layout puts it: the
/// constants at both ends, the command and feedback bytes as given, the
/// parameter big-endian in bytes 5 and 6, and in bytes 7 and 8 the big-endian
/// checksum of bytes 1 to 6.
pub proof fn lemma_frame_layout(cmd: u8, feedback: u8, param: u16)
    ensures
        ({
            let f = frame(cmd, feedback, param);
            let sum = checksum(f.subrange(1, 7));
            &&& f.len() == FRAME_LEN
            &&& f[0] == START
            &&& f[1] == VERSION
            &&& f[2] == LEN
            &&& f[3] == cmd
            &&& f[4] == feedback
            &&& be16(f[5], f[6]) == param
            &&& f[7] == high_byte(sum)
            &&& f[8] == low_byte(sum)
            &&& f[9] == STOP
        }),
{
    let f = frame(cmd, feedback, param);
    assert(f.subrange(1, 7) =~= payload(cmd, feedback, f[5], f[6]));
}

} // verus!
