//! What is written is what is read: the encoder and the parser agree on the
//! frame.
use crate::command::{Command, RequestAck};
use crate::control::Control;
use crate::error::Error;
use crate::frame::{be16, frame, high_byte, lemma_frame_layout, low_byte, payload};
use crate::parser::{complete, lemma_frame_outcome, ParseResult, ParserState, ParserView};
use crate::response::decode;
use vstd::prelude::*;

verus! {

/// Every frame that the encoder can write goes through the parser. An
/// `Idle` parser that is fed the frame of `cmd`, `feedback` and `param`
/// reports `Incomplete` for the first nine bytes and never `BadChecksum` for
/// the tenth: it reports what `cmd` and the two bytes of `param` decode to.
/// Afterwards it is `Idle` and holds `cmd`, `feedback` and `param` as they
/// were given.
pub proof fn lemma_frame_round_trip(start: ParserView, cmd: u8, feedback: u8, param: u16)
    requires
        start.state == ParserState::Idle,
    ensures
        ({
            let f = frame(cmd, feedback, param);
            let after = start.run(f);
            &&& forall|k: int|
                0 <= k < 9 ==> #[trigger] start.run(f.take(k)).output(f[k]) == Ok::<
                    ParseResult,
                    Error,
                >(ParseResult::Incomplete)
            &&& start.run(f.take(9)).output(f[9]) == complete(
                decode(cmd, high_byte(param as int), low_byte(param as int)),
            )
            &&& after.state == ParserState::Idle
            &&& after.cmd == cmd
            &&& after.feedback == feedback
            &&& be16(after.param_h, after.param_l) == param
        }),
{
    let f = frame(cmd, feedback, param);
    lemma_frame_layout(cmd, feedback, param);
    lemma_frame_outcome(start, f);
}

/// The round trip of a command: the parser reads from the frame of
/// `command` the command byte, the feedback byte and the parameter that the
/// command's own tables give, and reports what they decode to.
pub proof fn lemma_command_round_trip(start: ParserView, command: Command, request_ack: RequestAck)
    requires
        start.state == ParserState::Idle,
    ensures
        ({
            let f = command.wire_frame(request_ack);
            let param = command.wire_param();
            let after = start.run(f);
            &&& f[3] == command.wire_command_byte()
            &&& f[4] == request_ack.wire_code()
            &&& be16(f[5], f[6]) == param
            &&& forall|k: int|
                0 <= k < 9 ==> #[trigger] start.run(f.take(k)).output(f[k]) == Ok::<
                    ParseResult,
                    Error,
                >(ParseResult::Incomplete)
            &&& start.run(f.take(9)).output(f[9]) == complete(
                decode(
                    command.wire_command_byte(),
                    high_byte(param as int),
                    low_byte(param as int),
                ),
            )
            &&& after.state == ParserState::Idle
            &&& after.cmd == command.wire_command_byte()
            &&& after.feedback == request_ack.wire_code()
            &&& be16(after.param_h, after.param_l) == param
        }),
{
    lemma_frame_layout(
        command.wire_command_byte(),
        request_ack.wire_code(),
        command.wire_param(),
    );
    lemma_frame_round_trip(
        start,
        command.wire_command_byte(),
        request_ack.wire_code(),
        command.wire_param(),
    );
}

/// The round trip of a control: as for a command, with no ACK requested.
pub proof fn lemma_control_round_trip(start: ParserView, control: Control)
    requires
        start.state == ParserState::Idle,
    ensures
        ({
            let f = control.wire_frame();
            let param = control.wire_param();
            let after = start.run(f);
            &&& f[3] == control.wire_command_byte()
            &&& f[4] == 0
            &&& be16(f[5], f[6]) == param
            &&& forall|k: int|
                0 <= k < 9 ==> #[trigger] start.run(f.take(k)).output(f[k]) == Ok::<
                    ParseResult,
                    Error,
                >(ParseResult::Incomplete)
            &&& start.run(f.take(9)).output(f[9]) == complete(
                decode(
                    control.wire_command_byte(),
                    high_byte(param as int),
                    low_byte(param as int),
                ),
            )
            &&& after.state == ParserState::Idle
            &&& after.cmd == control.wire_command_byte()
            &&& after.feedback == 0
            &&& be16(after.param_h, after.param_l) == param
        }),
{
    lemma_frame_layout(control.wire_command_byte(), 0, control.wire_param());
    lemma_frame_round_trip(start, control.wire_command_byte(), 0, control.wire_param());
}

} // verus!
