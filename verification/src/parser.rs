//! The byte-at-a-time parser for the frames that the device sends.
use crate::error::Error;
use crate::frame::{checksum, compute_checksum, high_byte, low_byte, payload, to_be_bytes, LEN};
use crate::response::{decode, Response};
use crate::{START, STOP, VERSION};
use vstd::prelude::*;

verus! {

/// Where in a frame the parser stands: each state is named after the field
/// that was read last.
#[derive(Copy, Clone, Debug, PartialEq, Eq, Structural)]
pub enum ParserState {
    /// Between frames, waiting for START
    Idle,
    /// START was read
    Start,
    /// VERSION was read
    Version,
    /// LEN was read
    Len,
    /// The command byte was stored
    Cmd,
    /// The feedback byte was stored
    Feedback,
    /// The high parameter byte was stored
    ParamH,
    /// The low parameter byte was stored
    ParamL,
    /// The high checksum byte was stored
    ChecksumH,
    /// The low checksum byte was stored
    ChecksumL,
}

impl Default for ParserState {
    fn default() -> (state: Self)
        ensures
            state == ParserState::Idle,
    {
        ParserState::Idle
    }
}

/// After processing a byte the parser will return either `Incomplete`
/// to indicate that it requires more data or `Complete` to indicate
/// that a full message has been successfully processed
#[derive(Copy, Clone, Debug, PartialEq, Eq, Structural)]
pub enum ParseResult {
    /// Waiting for more bytes
    Incomplete,
    /// Complete message has been processed
    Complete(Response),
}

/// Parser for the DFR0299 response messages. After initialising, calls
/// to `Parser::process_byte` will advance the internal state machine
/// and return any complete messages.
#[derive(Debug)]
pub struct Parser {
    state: ParserState,
    cmd: u8,
    feedback: u8,
    param_h: u8,
    param_l: u8,
    checksum_h: u8,
    checksum_l: u8,
}

/// Everything a parser remembers between two bytes: its position and the
/// fields of the frame it is reading.
pub struct ParserView {
    /// The position in the frame
    pub state: ParserState,
    /// Command byte
    pub cmd: u8,
    /// Feedback byte
    pub feedback: u8,
    /// Parameter, high byte
    pub param_h: u8,
    /// Parameter, low byte
    pub param_l: u8,
    /// Received checksum, high byte
    pub checksum_h: u8,
    /// Received checksum, low byte
    pub checksum_l: u8,
}

/// The report for a frame whose checksum was right: the decoded response as
/// a complete message, or the error of decoding it.
pub open spec fn complete(decoded: Result<Response, Error>) -> Result<ParseResult, Error> {
    match decoded {
        Ok(response) => Ok(ParseResult::Complete(response)),
        Err(e) => Err(e),
    }
}

impl View for Parser {
    type V = ParserView;

    closed spec fn view(&self) -> ParserView {
        ParserView {
            state: self.state,
            cmd: self.cmd,
            feedback: self.feedback,
            param_h: self.param_h,
            param_l: self.param_l,
            checksum_h: self.checksum_h,
            checksum_l: self.checksum_l,
        }
    }
}

impl ParserView {
    /// A parser that has seen nothing yet.
    pub open spec fn initial() -> ParserView {
        ParserView {
            state: ParserState::Idle,
            cmd: 0,
            feedback: 0,
            param_h: 0,
            param_l: 0,
            checksum_h: 0,
            checksum_l: 0,
        }
    }

    /// The same fields at another position.
    pub open spec fn at(self, state: ParserState) -> ParserView {
        ParserView { state, ..self }
    }

    /// The six bytes that the checksum of the frame being read covers.
    /// VERSION and LEN are the protocol's constants, not what was received.
    pub open spec fn payload(self) -> Seq<u8> {
        payload(self.cmd, self.feedback, self.param_h, self.param_l)
    }

    /// Whether the two checksum bytes received are the big-endian bytes of
    /// the checksum of the fields received.
    pub open spec fn checksum_matches(self) -> bool {
        let sum = checksum(self.payload());
        self.checksum_h == high_byte(sum) && self.checksum_l == low_byte(sum)
    }

    /// What the parser remembers after `byte`.
    ///
    /// START, VERSION and LEN are gates: another byte in their place sends
    /// the parser back to `Idle`. The six bytes after LEN are stored whatever
    /// they are. The byte after them ends the frame, so the parser is `Idle`
    /// again, with the stored fields left as they are.
    pub open spec fn next(self, byte: u8) -> ParserView {
        match self.state {
            ParserState::Idle => self.at(
                if byte == START {
                    ParserState::Start
                } else {
                    ParserState::Idle
                },
            ),
            ParserState::Start => self.at(
                if byte == VERSION {
                    ParserState::Version
                } else {
                    ParserState::Idle
                },
            ),
            ParserState::Version => self.at(
                if byte == LEN {
                    ParserState::Len
                } else {
                    ParserState::Idle
                },
            ),
            ParserState::Len => ParserView { state: ParserState::Cmd, cmd: byte, ..self },
            ParserState::Cmd => ParserView { state: ParserState::Feedback, feedback: byte, ..self },
            ParserState::Feedback => ParserView {
                state: ParserState::ParamH,
                param_h: byte,
                ..self
            },
            ParserState::ParamH => ParserView { state: ParserState::ParamL, param_l: byte, ..self },
            ParserState::ParamL => ParserView {
                state: ParserState::ChecksumH,
                checksum_h: byte,
                ..self
            },
            ParserState::ChecksumH => ParserView {
                state: ParserState::ChecksumL,
                checksum_l: byte,
                ..self
            },
            ParserState::ChecksumL => self.at(ParserState::Idle),
        }
    }

    /// What the parser reports for `byte`.
    ///
    /// Only STOP in the last position reports anything: `BadChecksum` where
    /// the checksum received is not that of the fields received, else what
    /// the fields decode to. Everywhere else, and for another byte in the
    /// place of STOP, the report is `Incomplete`.
    pub open spec fn output(self, byte: u8) -> Result<ParseResult, Error> {
        if self.state == ParserState::ChecksumL && byte == STOP {
            if !self.checksum_matches() {
                Err(Error::BadChecksum)
            } else {
                complete(decode(self.cmd, self.param_h, self.param_l))
            }
        } else {
            Ok(ParseResult::Incomplete)
        }
    }

    /// What the parser remembers after all of `bytes`, fed in order.
    pub open spec fn run(self, bytes: Seq<u8>) -> ParserView
        decreases bytes.len(),
    {
        if bytes.len() == 0 {
            self
        } else {
            self.run(bytes.drop_last()).next(bytes.last())
        }
    }
}

impl Default for Parser {
    fn default() -> (parser: Self)
        ensures
            parser@ == ParserView::initial(),
    {
        Parser {
            state: ParserState::Idle,
            cmd: 0,
            feedback: 0,
            param_h: 0,
            param_l: 0,
            checksum_h: 0,
            checksum_l: 0,
        }
    }
}

impl Parser {
    /// Initialise a new `Parser`
    pub fn new() -> (parser: Self)
        ensures
            parser@ == ParserView::initial(),
    {
        Self::default()
    }

    /// Process a single byte and advance the internal state machine
    /// accordingly. Returns a `ParseResult` indicating the parsing
    /// status, an `Error::BadChecksum` if a complete message has been
    /// received but the checksum is incorrect, or the error of decoding
    /// a complete message with a correct checksum.
    pub fn process_byte(&mut self, byte: u8) -> (result: Result<ParseResult, Error>)
        ensures
            final(self)@ == old(self)@.next(byte),
            result == old(self)@.output(byte),
    {
        self.state = match self.state {
            ParserState::Idle => {
                if byte == START {
                    ParserState::Start
                } else {
                    ParserState::Idle
                }
            },
            ParserState::Start => {
                if byte == VERSION {
                    ParserState::Version
                } else {
                    ParserState::Idle
                }
            },
            ParserState::Version => {
                if byte == LEN {
                    ParserState::Len
                } else {
                    ParserState::Idle
                }
            },
            ParserState::Len => {
                self.cmd = byte;
                ParserState::Cmd
            },
            ParserState::Cmd => {
                self.feedback = byte;
                ParserState::Feedback
            },
            ParserState::Feedback => {
                self.param_h = byte;
                ParserState::ParamH
            },
            ParserState::ParamH => {
                self.param_l = byte;
                ParserState::ParamL
            },
            ParserState::ParamL => {
                self.checksum_h = byte;
                ParserState::ChecksumH
            },
            ParserState::ChecksumH => {
                self.checksum_l = byte;
                ParserState::ChecksumL
            },
            ParserState::ChecksumL => {
                if byte == STOP {
                    self.state = ParserState::Idle;

                    let expected = to_be_bytes(self.calculate_checksum());
                    if expected[0] != self.checksum_h || expected[1] != self.checksum_l {
                        return Err(Error::BadChecksum);
                    }
                    // checksum valid -> parse message

                    return match Response::parse(self.cmd, self.param_h, self.param_l) {
                        Ok(response) => Ok(ParseResult::Complete(response)),
                        Err(e) => Err(e),
                    };
                }
                ParserState::Idle
            },
        };

        Ok(ParseResult::Incomplete)
    }

    /// Where in a frame the parser stands.
    pub fn state(&self) -> (state: ParserState)
        ensures
            state == self@.state,
    {
        self.state
    }

    /// The checksum that the fields read so far call for.
    pub fn calculate_checksum(&self) -> (sum: i16)
        ensures
            sum == checksum(self@.payload()),
    {
        compute_checksum(&[VERSION, LEN, self.cmd, self.feedback, self.param_h, self.param_l])
    }
}

/// Feeding one byte more is one more step: the parser after the first
/// `k + 1` bytes is the parser after the first `k`, stepped by byte `k`.
pub proof fn lemma_run_step(start: ParserView, bytes: Seq<u8>, k: int)
    requires
        0 <= k < bytes.len(),
    ensures
        start.run(bytes.take(k + 1)) == start.run(bytes.take(k)).next(bytes[k]),
{
    assert(bytes.take(k + 1).drop_last() =~= bytes.take(k));
}

/// Line noise is absorbed in silence: only START with VERSION right behind
/// it takes a parser past `Start`.
///
/// A parser that is `Idle` or at `Start` is fed bytes among which VERSION
/// never follows START directly (nor comes first, if the parser is at
/// `Start`). For every one of them it reports `Incomplete`; it keeps its
/// fields; it is `Idle` or at `Start` after each byte, and at `Start` only
/// where that byte was START. If it was `Idle` and START does not occur
/// among the bytes at all, it never leaves `Idle`.
pub proof fn lemma_noise_is_absorbed(start: ParserView, noise: Seq<u8>)
    requires
        start.state == ParserState::Idle || start.state == ParserState::Start,
        start.state == ParserState::Start && noise.len() > 0 ==> noise[0] != VERSION,
        forall|i: int|
            0 <= i < noise.len() - 1 && #[trigger] noise[i] == START ==> noise[i + 1] != VERSION,
    ensures
        forall|k: int|
            0 <= k < noise.len() ==> #[trigger] start.run(noise.take(k)).output(noise[k]) == Ok::<
                ParseResult,
                Error,
            >(ParseResult::Incomplete),
        forall|k: int|
            0 <= k <= noise.len() ==> {
                let after = #[trigger] start.run(noise.take(k));
                &&& after.state == ParserState::Idle || after.state == ParserState::Start
                &&& after.state == ParserState::Start && k > 0 ==> noise[k - 1] == START
                &&& after == start.at(after.state)
            },
        start.state == ParserState::Idle && (forall|i: int|
            0 <= i < noise.len() ==> noise[i] != START) ==> forall|k: int|
            0 <= k <= noise.len() ==> (#[trigger] start.run(noise.take(k))) == start,
    decreases noise.len(),
{
    if noise.len() > 0 {
        let front = noise.drop_last();
        let n = front.len() as int;
        lemma_noise_is_absorbed(start, front);
        assert(noise.take(n) =~= front);
        assert(noise.take(n + 1) =~= noise);
        assert(front.take(n) =~= front);
        assert(start.run(noise) == start.run(front).next(noise[n]));
        assert forall|k: int| 0 <= k <= n implies noise.take(k) == front.take(k) by {
            assert(noise.take(k) =~= front.take(k));
        }
        assert forall|k: int| 0 <= k < noise.len() implies #[trigger] start.run(
            noise.take(k),
        ).output(noise[k]) == Ok::<ParseResult, Error>(ParseResult::Incomplete) by {
            let state = start.run(noise.take(k)).state;
            assert(state == ParserState::Idle || state == ParserState::Start);
        }
    } else {
        assert forall|k: int| 0 <= k <= noise.len() implies noise.take(k).len() == 0 by {}
    }
}

/// What becomes of a frame. A parser that is `Idle` and is fed ten bytes
/// that begin with START, VERSION, LEN reports `Incomplete` for the first
/// nine. For the tenth it reports
/// - `Incomplete`, where that byte is not STOP: the frame is dropped in
///   silence;
/// - `BadChecksum`, where bytes 7 and 8 are not the big-endian checksum of
///   bytes 1 to 6;
/// - else what bytes 3, 5 and 6 decode to, never `BadChecksum`.
///
/// In each case it is `Idle` afterwards and holds the six bytes after LEN
/// as its fields.
pub proof fn lemma_frame_outcome(start: ParserView, bytes: Seq<u8>)
    requires
        start.state == ParserState::Idle,
        bytes.len() == 10,
        bytes[0] == START,
        bytes[1] == VERSION,
        bytes[2] == LEN,
    ensures
        forall|k: int|
            0 <= k < 9 ==> #[trigger] start.run(bytes.take(k)).output(bytes[k]) == Ok::<
                ParseResult,
                Error,
            >(ParseResult::Incomplete),
        start.run(bytes.take(9)).output(bytes[9]) == ({
            let sum = checksum(bytes.subrange(1, 7));
            if bytes[9] != STOP {
                Ok(ParseResult::Incomplete)
            } else if bytes[7] != high_byte(sum) || bytes[8] != low_byte(sum) {
                Err(Error::BadChecksum)
            } else {
                complete(decode(bytes[3], bytes[5], bytes[6]))
            }
        }),
        start.run(bytes) == (ParserView {
            state: ParserState::Idle,
            cmd: bytes[3],
            feedback: bytes[4],
            param_h: bytes[5],
            param_l: bytes[6],
            checksum_h: bytes[7],
            checksum_l: bytes[8],
        }),
{
    assert(bytes.take(0).len() == 0);
    assert(start.run(bytes.take(0)) == start);
    lemma_run_step(start, bytes, 0);
    lemma_run_step(start, bytes, 1);
    lemma_run_step(start, bytes, 2);
    lemma_run_step(start, bytes, 3);
    lemma_run_step(start, bytes, 4);
    lemma_run_step(start, bytes, 5);
    lemma_run_step(start, bytes, 6);
    lemma_run_step(start, bytes, 7);
    lemma_run_step(start, bytes, 8);
    lemma_run_step(start, bytes, 9);
    assert(bytes.take(10) =~= bytes);
    let last = start.run(bytes.take(9));
    assert(last.state == ParserState::ChecksumL);
    assert(last.payload() =~= bytes.subrange(1, 7));
    assert forall|k: int| 0 <= k < 9 implies #[trigger] start.run(bytes.take(k)).output(bytes[k])
        == Ok::<ParseResult, Error>(ParseResult::Incomplete) by {
        assert(start.run(bytes.take(k)).state != ParserState::ChecksumL) by {
            assert(k == 0 || k == 1 || k == 2 || k == 3 || k == 4 || k == 5 || k == 6 || k == 7
                || k == 8);
        }
    }
}

} // verus!
