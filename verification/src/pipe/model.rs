//! The pipe as a state machine over plain values.
//!
//! [`PipeView`] is what a pipe is to its callers. Each entry point of the pipe
//! has a function here that gives the state after the call from the state
//! before it, from the input, and from what the APDU channel or the bulk-IN
//! endpoint answered.

use vstd::prelude::*;
use crate::constants::{CCID_HEADER_LEN, MAX_MSG_LENGTH, PACKET_SIZE};
use crate::pipe::{Error, State, WriteOutcome};
use crate::types::packet::{
    chain_of, command_kind, data_block_frame, declared_len, parameters_frame, sequence,
    slot_status_error_frame, slot_status_ok_frame, wait_extension_frame, Chain, CommandKind,
    Error as PacketError,
};

verus! {

/// The state of a pipe.
pub struct PipeView {
    /// Sequence number of the last command.
    pub seq: u8,
    /// Where the current transaction stands.
    pub state: State,
    /// How many bytes of the current response have been framed.
    pub sent: nat,
    /// The frame that waits to be written to the bulk-IN endpoint.
    pub outbox: Option<Seq<u8>>,
    /// Whether the frame in the outbox has not been offered to the endpoint yet.
    pub send_due: bool,
    /// The message under reassembly, or the last complete one.
    pub message: Seq<u8>,
    /// The payload length declared by the last message that spanned packets.
    pub packet_len: nat,
    /// Whether further packets of the message are awaited.
    pub receiving_long: bool,
    /// How many bytes of the message are still awaited.
    pub long_packet_missing: nat,
    /// How many packets the message has taken so far.
    pub in_chain: nat,
    /// Set when an APDU is handed to the processor, cleared when read.
    pub started_processing: bool,
    /// The answer to reset.
    pub atr: Seq<u8>,
    /// Sequence number of an abort received on the bulk endpoint.
    pub bulk_abort: Option<u8>,
    /// Sequence number of an abort received on the control pipe.
    pub control_abort: Option<u8>,
    /// What the last step asks to be done to the channel.
    pub channel_due: ChannelDue,
}

/// What a step of the pipe asks its owner to do to the APDU channel.
#[derive(Copy, Clone, Debug, PartialEq, Eq, Structural)]
pub enum ChannelDue {
    /// The channel is left alone.
    Nothing,
    /// A request in flight is to be cancelled.
    Cancel,
    /// The channel is to be brought back to idle.
    Reset,
}

/// What a complete command needs of the APDU channel before it is carried out.
#[derive(Copy, Clone, Debug, PartialEq, Eq, Structural)]
pub enum Ask {
    /// The command does not involve the channel.
    Nothing,
    /// The payload is to be loaded into the request buffer: as a request of
    /// its own if `fresh`, behind what the buffer holds otherwise. If `fire`,
    /// the request is then to be sent.
    Load { fresh: bool, fire: bool },
    /// The response that waits in the channel is to be looked up.
    Response,
}

/// How far the reassembly of a message has come with a packet.
pub enum Progress {
    /// The message is complete.
    Complete,
    /// More packets are awaited.
    Incomplete,
    /// The packet could not be part of a message.
    Rejected,
}

/// What always holds of a pipe between calls.
pub open spec fn wf(v: PipeView) -> bool {
    &&& v.send_due ==> v.outbox is Some
    &&& v.atr.len() + CCID_HEADER_LEN <= PACKET_SIZE
    &&& v.receiving_long <==> v.long_packet_missing > 0
}

/// The XOR of all bytes of a sequence.
pub open spec fn xor_all(bytes: Seq<u8>) -> u8
    decreases bytes.len(),
{
    if bytes.len() == 0 {
        0
    } else {
        xor_all(bytes.drop_last()) ^ bytes.last()
    }
}

/// The answer to reset, without its first byte and its checksum: the format
/// byte with the number of historical bytes, the protocols offered, and the
/// historical bytes that carry the card issuer's data.
pub open spec fn atr_body(card_issuers_data: Option<Seq<u8>>, signal_t_equals_0: bool) -> Seq<u8> {
    let k: u8 = match card_issuers_data {
        Some(data) => (2 + data.len()) as u8,
        None => 0,
    };
    let protocols = if signal_t_equals_0 {
        seq![0x80u8, 0x01u8]
    } else {
        seq![0x01u8]
    };
    let historical = match card_issuers_data {
        Some(data) => seq![0x80u8, 0x50u8 | (data.len() as u8)] + data,
        None => Seq::<u8>::empty(),
    };
    seq![0x80u8 | k] + protocols + historical
}

/// The answer to reset: direct convention, the body, and the XOR of the body as
/// checksum.
pub open spec fn atr_bytes(card_issuers_data: Option<Seq<u8>>, signal_t_equals_0: bool) -> Seq<u8>
    recommends
        card_issuers_data matches Some(data) ==> data.len() <= 13,
{
    let body = atr_body(card_issuers_data, signal_t_equals_0);
    seq![0x3Bu8] + body + seq![xor_all(body)]
}

/// A pipe as it is constructed.
pub open spec fn initial(atr: Seq<u8>) -> PipeView {
    PipeView {
        seq: 0,
        state: State::Idle,
        sent: 0,
        outbox: None,
        send_due: false,
        message: Seq::empty(),
        packet_len: 0,
        receiving_long: false,
        long_packet_missing: 0,
        in_chain: 0,
        started_processing: false,
        atr,
        bulk_abort: None,
        control_abort: None,
        channel_due: ChannelDue::Nothing,
    }
}

/// The pipe at the start of a step: nothing is asked of the channel yet.
pub open spec fn calm(v: PipeView) -> PipeView {
    PipeView { channel_due: ChannelDue::Nothing, ..v }
}

/// The pipe after a reset: as constructed, but for the answer to reset and the
/// contents of the message buffer. The channel is to be brought back to idle.
pub open spec fn reset(v: PipeView) -> PipeView {
    PipeView { message: v.message, channel_due: ChannelDue::Reset, ..initial(v.atr) }
}

/// The pipe after `frame` has been put into the outbox. A frame that still
/// waited there is lost, and with it the transaction that it belonged to.
pub open spec fn queue(v: PipeView, frame: Seq<u8>) -> PipeView {
    PipeView {
        state: if v.outbox is Some {
            State::Idle
        } else {
            v.state
        },
        outbox: Some(frame),
        send_due: true,
        ..v
    }
}

/// The pipe after the endpoint has answered an attempt to write the frame in
/// the outbox.
pub open spec fn written(v: PipeView, outcome: WriteOutcome) -> PipeView {
    match v.outbox {
        None => calm(v),
        Some(frame) => match outcome {
            WriteOutcome::Written(n) => if n == frame.len() {
                PipeView {
                    outbox: if frame.len() == PACKET_SIZE {
                        Some(Seq::empty())
                    } else {
                        None
                    },
                    send_due: false,
                    ..calm(v)
                }
            } else {
                reset(v)
            },
            WriteOutcome::WouldBlock => PipeView { send_due: false, ..calm(v) },
            WriteOutcome::Failed => reset(v),
        },
    }
}

/// The pipe after both halves of an abort have met. A request in flight is to
/// be cancelled.
pub open spec fn aborted(v: PipeView) -> PipeView {
    queue(
        PipeView {
            bulk_abort: None,
            control_abort: None,
            state: State::Idle,
            outbox: None,
            send_due: false,
            started_processing: false,
            receiving_long: false,
            long_packet_missing: 0,
            channel_due: ChannelDue::Cancel,
            ..v
        },
        slot_status_ok_frame(v.seq),
    )
}

/// The pipe after an abort request for `seq` on `slot` has come in over the
/// control pipe.
pub open spec fn abort_expected(v: PipeView, slot: u8, seq: u8) -> PipeView {
    if slot != 0 {
        calm(v)
    } else if v.bulk_abort == Some(seq) {
        aborted(v)
    } else {
        PipeView { control_abort: Some(seq), ..calm(v) }
    }
}

/// The pipe after it has been asked to request more time from the host.
pub open spec fn wait_extended(v: PipeView) -> PipeView {
    if v.state == State::Processing {
        queue(calm(v), wait_extension_frame(v.seq, 1))
    } else {
        calm(v)
    }
}

/// The number of response bytes that the next frame carries.
pub open spec fn chunk_len(sent: nat, total: nat) -> nat
    recommends
        sent <= total,
{
    if total - sent <= PACKET_SIZE - CCID_HEADER_LEN {
        (total - sent) as nat
    } else {
        (PACKET_SIZE - CCID_HEADER_LEN) as nat
    }
}

/// The chain parameter of a response frame: `first` says whether it is the
/// first frame of the response, `more` whether further frames follow.
pub open spec fn chain_for(first: bool, more: bool) -> Chain {
    if first {
        if more {
            Chain::Begins
        } else {
            Chain::BeginsAndEnds
        }
    } else {
        if more {
            Chain::Continues
        } else {
            Chain::Ends
        }
    }
}

/// The pipe after the next frame of `response` has been put into the outbox.
/// `response` is what the channel held, `None` if it held no response.
pub open spec fn primed(v: PipeView, response: Option<Seq<u8>>) -> PipeView {
    if v.state != State::ReadyToSend && v.state != State::Sending {
        calm(v)
    } else if v.outbox is Some {
        reset(v)
    } else {
        match response {
            None => reset(v),
            Some(bytes) => if v.sent > bytes.len() {
                reset(v)
            } else {
                let n = chunk_len(v.sent, bytes.len());
                let more = v.sent + n < bytes.len();
                PipeView {
                    state: if more {
                        State::Sending
                    } else {
                        State::Idle
                    },
                    sent: v.sent + n,
                    outbox: Some(
                        data_block_frame(
                            v.seq,
                            chain_for(v.state == State::ReadyToSend, more),
                            bytes.subrange(v.sent as int, (v.sent + n) as int),
                        ),
                    ),
                    send_due: true,
                    ..calm(v)
                }
            },
        }
    }
}

/// The pipe after a poll of the channel: `responded` says whether the channel
/// reported a response, `response` is what it then held.
pub open spec fn polled(v: PipeView, responded: bool, response: Option<Seq<u8>>) -> PipeView {
    if v.state == State::Processing && responded {
        primed(PipeView { state: State::ReadyToSend, sent: 0, ..v }, response)
    } else {
        calm(v)
    }
}

/// The count of packets after one more, held at the largest count that fits.
pub open spec fn bump(count: nat) -> nat {
    if count < usize::MAX {
        count + 1
    } else {
        count
    }
}

/// The pipe after a USB packet has been taken into the message buffer, and how
/// far the message has come with it.
pub open spec fn received(v: PipeView, packet: Seq<u8>) -> (PipeView, Progress) {
    if !v.receiving_long {
        if packet.len() < CCID_HEADER_LEN {
            (reset(v), Progress::Rejected)
        } else if declared_len(packet) > PACKET_SIZE - CCID_HEADER_LEN {
            (
                PipeView {
                    message: packet,
                    receiving_long: true,
                    in_chain: 1,
                    long_packet_missing: (declared_len(packet) - (PACKET_SIZE
                        - CCID_HEADER_LEN)) as nat,
                    packet_len: declared_len(packet),
                    ..calm(v)
                },
                Progress::Incomplete,
            )
        } else {
            (PipeView { message: packet, ..calm(v) }, Progress::Complete)
        }
    } else if v.message.len() + packet.len() > MAX_MSG_LENGTH {
        (reset(v), Progress::Rejected)
    } else {
        let missing = if packet.len() > v.long_packet_missing {
            0nat
        } else {
            (v.long_packet_missing - packet.len()) as nat
        };
        (
            PipeView {
                message: v.message + packet,
                in_chain: bump(v.in_chain),
                long_packet_missing: missing,
                receiving_long: missing != 0,
                ..calm(v)
            },
            if missing != 0 {
                Progress::Incomplete
            } else {
                Progress::Complete
            },
        )
    }
}

/// Whether a transfer block is to be acted on: the buffer holds a full header
/// of a transfer block, and no abort of the control pipe is pending.
pub open spec fn transfer_open(v: PipeView) -> bool {
    &&& command_kind(v.message) == Ok::<CommandKind, PacketError>(CommandKind::XfrBlock)
    &&& v.control_abort is None
}

/// What the complete command in the message buffer needs of the channel.
///
/// A transfer block that starts an APDU has its payload loaded as a request of
/// its own, one that continues an APDU has it loaded behind what is there; a
/// block that ends an APDU has the request sent. A block that asks for more
/// of a response has the response looked up. Nothing else involves the
/// channel.
pub open spec fn asked(v: PipeView) -> Ask {
    let chain = chain_of(v.message);
    if !transfer_open(v) {
        Ask::Nothing
    } else if v.state == State::Idle && chain == Ok::<Chain, u16>(Chain::BeginsAndEnds) {
        Ask::Load { fresh: true, fire: true }
    } else if v.state == State::Idle && chain == Ok::<Chain, u16>(Chain::Begins) {
        Ask::Load { fresh: true, fire: false }
    } else if v.state == State::Receiving && chain == Ok::<Chain, u16>(Chain::Continues) {
        Ask::Load { fresh: false, fire: false }
    } else if v.state == State::Receiving && chain == Ok::<Chain, u16>(Chain::Ends) {
        Ask::Load { fresh: false, fire: true }
    } else if v.state == State::Sending && chain == Ok::<Chain, u16>(Chain::ExpectingMore) {
        Ask::Response
    } else {
        Ask::Nothing
    }
}

/// The pipe after a transfer block has been acted on. The block is the message
/// in the buffer. `accepted` says whether the channel took what was asked of
/// it; `response` is what the channel held as response.
pub open spec fn transferred(v: PipeView, accepted: bool, response: Option<Seq<u8>>) -> PipeView {
    let expecting_more = data_block_frame(v.seq, Chain::ExpectingMore, Seq::empty());
    match asked(v) {
        Ask::Load { fresh, fire } => if !accepted {
            reset(v)
        } else if fire {
            PipeView { started_processing: true, state: State::Processing, ..calm(v) }
        } else {
            queue(PipeView { state: State::Receiving, ..calm(v) }, expecting_more)
        },
        Ask::Response => primed(v, response),
        Ask::Nothing => reset(v),
    }
}

/// The pipe after the complete message in the buffer has been acted on.
///
/// A message without a full header resets the pipe. Every other message sets
/// the sequence number. While an abort of the control pipe is pending, the
/// abort command with its sequence number completes the abort, and everything
/// else is turned down as aborted. Otherwise an abort of the bulk endpoint
/// that is pending is dropped, and the command is carried out; a message type
/// that is no command is turned down as not supported.
pub open spec fn dispatched(v: PipeView, accepted: bool, response: Option<Seq<u8>>) -> PipeView {
    if v.message.len() < CCID_HEADER_LEN {
        reset(v)
    } else {
        let seq = sequence(v.message);
        let named = PipeView { seq, ..calm(v) };
        let kind = command_kind(v.message);
        if v.control_abort is Some {
            if kind == Ok::<CommandKind, PacketError>(CommandKind::Abort) && v.control_abort
                == Some(seq) {
                aborted(named)
            } else {
                queue(named, slot_status_error_frame(seq, Error::CmdAborted.spec_code()))
            }
        } else {
            let open = PipeView { bulk_abort: None, ..named };
            match kind {
                Err(_) => queue(
                    open,
                    slot_status_error_frame(seq, Error::CommandNotSupported.spec_code()),
                ),
                Ok(CommandKind::PowerOn) => queue(
                    open,
                    data_block_frame(seq, Chain::BeginsAndEnds, v.atr),
                ),
                Ok(CommandKind::PowerOff) => queue(open, slot_status_ok_frame(seq)),
                Ok(CommandKind::GetSlotStatus) => queue(open, slot_status_ok_frame(seq)),
                Ok(CommandKind::GetParameters) => queue(open, parameters_frame(seq)),
                Ok(CommandKind::XfrBlock) => transferred(open, accepted, response),
                Ok(CommandKind::Abort) => PipeView { bulk_abort: Some(seq), ..open },
            }
        }
    }
}

/// The pipe after a USB packet from the bulk-OUT endpoint has been handled.
pub open spec fn handled(
    v: PipeView,
    packet: Seq<u8>,
    accepted: bool,
    response: Option<Seq<u8>>,
) -> PipeView {
    let (taken, progress) = received(v, packet);
    if progress is Complete {
        dispatched(taken, accepted, response)
    } else {
        taken
    }
}

} // verus!
