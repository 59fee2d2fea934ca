//! What holds of the pipe over sequences of calls.
//!
//! The statements are made over the state machine of [`crate::pipe::model`], to
//! which the contracts of the pipe's entry points tie the executable code.

use vstd::prelude::*;
use crate::constants::{CCID_HEADER_LEN, MAX_MSG_LENGTH, PACKET_SIZE};
use crate::pipe::model::{
    abort_expected, aborted, asked, calm, chain_for, chunk_len, dispatched, handled, polled,
    primed, queue, received, reset, wait_extended, wf, written, PipeView,
    Progress,
};
use crate::pipe::{Error, State, WriteOutcome};
use crate::types::packet::{
    command_kind, data_block_frame, declared_len, payload, sequence,
    slot_status_error_frame, slot_status_ok_frame, wait_extension_frame, Chain, CommandKind,
};

verus! {

/// Every step of the pipe keeps it well-formed.
pub proof fn lemma_steps_keep_wf(
    v: PipeView,
    packet: Seq<u8>,
    accepted: bool,
    responded: bool,
    response: Option<Seq<u8>>,
    outcome: WriteOutcome,
    slot: u8,
    seq: u8,
)
    requires
        wf(v),
    ensures
        wf(reset(v)),
        wf(handled(v, packet, accepted, response)),
        wf(polled(v, responded, response)),
        wf(primed(v, response)),
        wf(wait_extended(v)),
        wf(abort_expected(v, slot, seq)),
        wf(written(v, outcome)),
{
}

/// What the channel answers matters only where it is asked. A packet that
/// does not complete a message, and a command that needs nothing of the
/// channel, are handled the same whatever the channel would answer. Where a
/// payload is loaded, the response plays no part; where the response is looked
/// up, whether a payload was accepted plays no part.
pub proof fn lemma_channel_matters_where_asked(
    v: PipeView,
    packet: Seq<u8>,
    accepted: bool,
    response: Option<Seq<u8>>,
)
    ensures
        ({
            let (taken, progress) = received(v, packet);
            let w = handled(v, packet, accepted, response);
            &&& !(progress is Complete) ==> w == taken
            &&& progress is Complete && asked(taken) is Nothing ==> w == handled(
                v,
                packet,
                false,
                None,
            )
            &&& progress is Complete && asked(taken) is Load ==> w == handled(
                v,
                packet,
                accepted,
                None,
            )
            &&& progress is Complete && asked(taken) is Response ==> w == handled(
                v,
                packet,
                false,
                response,
            )
        }),
{
}

/// Sequence echo. Let the frame in the outbox, if any, have been offered to
/// the endpoint. Then a frame that a call puts into the outbox carries the
/// sequence number that the pipe holds after the call. For a packet that
/// completes a command this is the sequence number of that command; every
/// other call leaves the number as the last command set it.
pub proof fn lemma_sequence_echo(
    v: PipeView,
    packet: Seq<u8>,
    accepted: bool,
    responded: bool,
    response: Option<Seq<u8>>,
    slot: u8,
    seq: u8,
)
    requires
        wf(v),
        !v.send_due,
    ensures
        ({
            let w = handled(v, packet, accepted, response);
            w.send_due ==> w.outbox is Some && sequence(w.outbox->0) == w.seq && w.seq
                == sequence(received(v, packet).0.message) && received(v, packet).1 is Complete
        }),
        ({
            let w = polled(v, responded, response);
            w.send_due ==> w.outbox is Some && sequence(w.outbox->0) == w.seq && w.seq == v.seq
        }),
        ({
            let w = primed(v, response);
            w.send_due ==> w.outbox is Some && sequence(w.outbox->0) == w.seq && w.seq == v.seq
        }),
        ({
            let w = wait_extended(v);
            w.send_due ==> w.outbox is Some && sequence(w.outbox->0) == w.seq && w.seq == v.seq
        }),
        ({
            let w = abort_expected(v, slot, seq);
            w.send_due ==> w.outbox is Some && sequence(w.outbox->0) == w.seq && w.seq == v.seq
        }),
{
}

/// After a reset no frame leaves the pipe before the next command: polling,
/// priming, asking for more time and an abort request on the control pipe all
/// leave the outbox empty.
pub proof fn lemma_reset_is_silent(
    v: PipeView,
    responded: bool,
    response: Option<Seq<u8>>,
    slot: u8,
    seq: u8,
)
    ensures
        polled(reset(v), responded, response).outbox is None,
        primed(reset(v), response).outbox is None,
        wait_extended(reset(v)).outbox is None,
        abort_expected(reset(v), slot, seq).outbox is None,
{
}

/// At most one frame is pending. A reply takes the place of a frame that still
/// waits in the outbox: the waiting frame is gone, its transaction is over and
/// the pipe idle, and once the reply has gone out whole nothing but the
/// empty frame after a full packet is left. A response frame is put into an
/// empty outbox only: if a frame waits there when one is to be prepared, the
/// pipe is reset and the outbox emptied.
pub proof fn lemma_single_pending_frame(
    v: PipeView,
    frame: Seq<u8>,
    n: usize,
    response: Option<Seq<u8>>,
)
    ensures
        queue(v, frame).outbox == Some(frame),
        v.outbox is Some ==> queue(v, frame).state == State::Idle,
        v.outbox is None ==> queue(v, frame).state == v.state,
        n == frame.len() && frame.len() != PACKET_SIZE ==> written(
            queue(v, frame),
            WriteOutcome::Written(n),
        ).outbox is None,
        n == frame.len() && frame.len() == PACKET_SIZE ==> written(
            queue(v, frame),
            WriteOutcome::Written(n),
        ).outbox == Some(Seq::<u8>::empty()),
        v.outbox is Some && (v.state == State::ReadyToSend || v.state == State::Sending) ==> primed(
            v,
            response,
        ).outbox is None,
        v.outbox is Some && v.state != State::ReadyToSend && v.state != State::Sending ==> primed(
            v,
            response,
        ) == calm(v),
{
}

/// Zero-length packet rule. When a frame that fills a USB packet has gone out
/// whole, an empty frame takes its place in the outbox. A busy endpoint leaves
/// it there and a write takes it out. No response frame is prepared while it
/// waits: an attempt to do so resets the pipe.
pub proof fn lemma_zero_length_packet_follows(v: PipeView, response: Option<Seq<u8>>)
    requires
        v.outbox matches Some(frame) && frame.len() == PACKET_SIZE,
    ensures
        ({
            let w = written(v, WriteOutcome::Written(PACKET_SIZE));
            &&& w.outbox == Some(Seq::<u8>::empty())
            &&& written(w, WriteOutcome::WouldBlock).outbox == Some(Seq::<u8>::empty())
            &&& written(w, WriteOutcome::Written(0)).outbox is None
            &&& primed(w, response).outbox != w.outbox ==> primed(w, response) == reset(w)
        }),
{
}

/// A frame that does not fill a USB packet is followed by nothing: once it has
/// gone out whole the outbox is empty.
pub proof fn lemma_short_frame_ends_transfer(v: PipeView, n: usize)
    requires
        v.outbox matches Some(frame) && frame.len() != PACKET_SIZE && frame.len() == n,
    ensures
        written(v, WriteOutcome::Written(n)).outbox is None,
{
}

/// Abort rendezvous, control pipe first. The request on the control pipe alone
/// puts nothing into the outbox. The abort command with the same sequence
/// number then completes the abort: the host is told so with a slot status
/// reply, and the pipe is idle with no abort pending. Any other message with a
/// full header, whether it names a command or not, is turned down as aborted,
/// and the request stays.
pub proof fn lemma_abort_control_then_bulk(
    v: PipeView,
    seq: u8,
    accepted: bool,
    response: Option<Seq<u8>>,
)
    requires
        wf(v),
        v.bulk_abort != Some(seq),
        v.message.len() >= CCID_HEADER_LEN,
    ensures
        abort_expected(v, 0, seq).outbox == v.outbox,
        abort_expected(v, 0, seq).control_abort == Some(seq),
        ({
            let w = dispatched(abort_expected(v, 0, seq), accepted, response);
            if command_kind(v.message) == Ok::<CommandKind, crate::types::packet::Error>(
                CommandKind::Abort,
            ) && sequence(v.message) == seq {
                &&& w.outbox == Some(slot_status_ok_frame(seq))
                &&& w.state == State::Idle
                &&& w.bulk_abort is None
                &&& w.control_abort is None
            } else {
                &&& w.outbox == Some(
                    slot_status_error_frame(sequence(v.message), Error::CmdAborted.spec_code()),
                )
                &&& w.control_abort == Some(seq)
            }
        }),
{
}

/// A message with a full header whose type is no command sets the sequence
/// number and is turned down: as aborted while an abort of the control pipe
/// is pending, as not supported otherwise. In the second case it drops an
/// abort of the bulk endpoint that is pending, as every command does.
pub proof fn lemma_unknown_command_is_turned_down(
    v: PipeView,
    accepted: bool,
    response: Option<Seq<u8>>,
)
    requires
        v.message.len() >= CCID_HEADER_LEN,
        command_kind(v.message) is Err,
    ensures
        ({
            let w = dispatched(v, accepted, response);
            let seq = sequence(v.message);
            &&& w.seq == seq
            &&& w.control_abort == v.control_abort
            &&& v.control_abort is Some ==> w.outbox == Some(
                slot_status_error_frame(seq, Error::CmdAborted.spec_code()),
            ) && w.bulk_abort == v.bulk_abort
            &&& v.control_abort is None ==> w.outbox == Some(
                slot_status_error_frame(seq, Error::CommandNotSupported.spec_code()),
            ) && w.bulk_abort is None
        }),
{
}

/// Abort rendezvous, bulk endpoint first. The abort command alone puts nothing
/// into the outbox. The request on the control pipe with the same sequence
/// number then completes the abort; a request with another number, or for
/// another slot, does not.
pub proof fn lemma_abort_bulk_then_control(
    v: PipeView,
    slot: u8,
    seq: u8,
    accepted: bool,
    response: Option<Seq<u8>>,
)
    requires
        wf(v),
        v.control_abort is None,
        command_kind(v.message) == Ok::<CommandKind, crate::types::packet::Error>(
            CommandKind::Abort,
        ),
    ensures
        dispatched(v, accepted, response).outbox == v.outbox,
        dispatched(v, accepted, response).bulk_abort == Some(sequence(v.message)),
        ({
            let w = abort_expected(dispatched(v, accepted, response), slot, seq);
            if slot == 0 && seq == sequence(v.message) {
                &&& w.outbox == Some(slot_status_ok_frame(seq))
                &&& w.state == State::Idle
                &&& w.bulk_abort is None
                &&& w.control_abort is None
            } else {
                w.outbox == v.outbox
            }
        }),
{
}

/// Wait extension. While the pipe is processing and the outbox is empty, a
/// request for more time puts a wait extension frame into the outbox and
/// leaves the pipe processing, also after the frame has gone out: the next
/// request meets the same conditions. Once a poll has seen the response, the
/// pipe is no longer processing.
pub proof fn lemma_wait_extension_while_processing(v: PipeView, response: Option<Seq<u8>>)
    requires
        wf(v),
        v.state == State::Processing,
        v.outbox is None,
    ensures
        wait_extended(v).state == State::Processing,
        wait_extended(v).outbox == Some(wait_extension_frame(v.seq, 1)),
        ({
            let w = written(wait_extended(v), WriteOutcome::Written(CCID_HEADER_LEN));
            w.state == State::Processing && w.outbox is None
        }),
        polled(v, false, response) == calm(v),
        polled(v, true, response).state != State::Processing,
        wait_extended(polled(v, true, response)) == calm(polled(v, true, response)),
{
}

/// The frames that carry a response from byte `sent` on, each as its chain
/// parameter and its payload. `first` says whether the frame at `sent` is the
/// first of the response.
pub open spec fn burst(response: Seq<u8>, sent: nat, first: bool) -> Seq<(Chain, Seq<u8>)>
    decreases response.len() - sent,
{
    if sent > response.len() {
        Seq::empty()
    } else {
        let n = chunk_len(sent, response.len());
        let more = sent + n < response.len();
        let frame = (chain_for(first, more), response.subrange(sent as int, (sent + n) as int));
        if more {
            seq![frame] + burst(response, sent + n, false)
        } else {
            seq![frame]
        }
    }
}

/// The payloads of a sequence of frames, one behind the other.
pub open spec fn payloads(frames: Seq<(Chain, Seq<u8>)>) -> Seq<u8>
    decreases frames.len(),
{
    if frames.len() == 0 {
        Seq::empty()
    } else {
        frames[0].1 + payloads(frames.skip(1))
    }
}

/// Frames that continue a response and end it: all but the last are tagged
/// `Continues`, the last `Ends`.
pub open spec fn ends_chain(frames: Seq<(Chain, Seq<u8>)>) -> bool {
    &&& frames.len() >= 1
    &&& frames.last().0 == Chain::Ends
    &&& forall|i: int| 0 <= i < frames.len() - 1 ==> (#[trigger] frames[i]).0 == Chain::Continues
}

/// Frames that make up one response: either a single frame tagged
/// `BeginsAndEnds`, or a frame tagged `Begins` followed by frames that continue
/// and end the response.
pub open spec fn well_chained(frames: Seq<(Chain, Seq<u8>)>) -> bool {
    ||| frames.len() == 1 && frames[0].0 == Chain::BeginsAndEnds
    ||| frames.len() >= 2 && frames[0].0 == Chain::Begins && ends_chain(frames.skip(1))
}

proof fn lemma_burst_continues(response: Seq<u8>, sent: nat)
    requires
        sent <= response.len(),
    ensures
        ends_chain(burst(response, sent, false)),
        payloads(burst(response, sent, false)) == response.subrange(
            sent as int,
            response.len() as int,
        ),
    decreases response.len() - sent,
{
    let n = chunk_len(sent, response.len());
    let frames = burst(response, sent, false);
    let chunk = response.subrange(sent as int, (sent + n) as int);
    if sent + n < response.len() {
        let tail = burst(response, sent + n, false);
        lemma_burst_continues(response, sent + n);
        assert(frames.skip(1) =~= tail);
        assert(frames.last() == tail.last());
        assert forall|i: int| 0 <= i < frames.len() - 1 implies (#[trigger] frames[i]).0
            == Chain::Continues by {
            if i > 0 {
                assert(frames[i] == tail[i - 1]);
            }
        }
        assert(chunk + response.subrange((sent + n) as int, response.len() as int)
            =~= response.subrange(sent as int, response.len() as int));
    } else {
        assert(frames.skip(1) =~= Seq::<(Chain, Seq<u8>)>::empty());
        assert(payloads(frames.skip(1)) =~= Seq::<u8>::empty());
        assert(payloads(frames) =~= chunk);
    }
}

/// Chain well-formedness. The frames of a response are either one frame
/// tagged `BeginsAndEnds`, or a frame tagged `Begins`, any number tagged
/// `Continues` and one tagged `Ends`; and their payloads, one behind the other,
/// are the response.
pub proof fn lemma_burst_is_well_chained(response: Seq<u8>)
    ensures
        well_chained(burst(response, 0, true)),
        payloads(burst(response, 0, true)) == response,
{
    let n = chunk_len(0, response.len());
    let frames = burst(response, 0, true);
    let chunk = response.subrange(0, n as int);
    if n < response.len() {
        let tail = burst(response, n, false);
        lemma_burst_continues(response, n);
        assert(frames.skip(1) =~= tail);
        assert(chunk + response.subrange(n as int, response.len() as int) =~= response);
    } else {
        assert(frames.skip(1) =~= Seq::<(Chain, Seq<u8>)>::empty());
        assert(payloads(frames.skip(1)) =~= Seq::<u8>::empty());
        assert(payloads(frames) =~= response);
    }
}

/// The pipe sends a response as its burst. While a response is being sent and
/// the outbox is empty, priming puts the first of the frames still to go into
/// the outbox, with the sequence number of the pipe. If more frames follow,
/// the pipe is sending and the frames still to go are the rest; if not, the
/// pipe is idle.
pub proof fn lemma_prime_sends_burst(v: PipeView, response: Seq<u8>)
    requires
        v.state == State::ReadyToSend || v.state == State::Sending,
        v.outbox is None,
        v.sent <= response.len(),
    ensures
        ({
            let frames = burst(response, v.sent, v.state == State::ReadyToSend);
            let w = primed(v, Some(response));
            &&& frames.len() >= 1
            &&& w.outbox == Some(data_block_frame(v.seq, frames[0].0, frames[0].1))
            &&& w.seq == v.seq
            &&& if frames.len() > 1 {
                w.state == State::Sending && w.sent <= response.len() && burst(
                    response,
                    w.sent,
                    false,
                ) == frames.skip(1)
            } else {
                w.state == State::Idle
            }
        }),
{
    let n = chunk_len(v.sent, response.len());
    let frames = burst(response, v.sent, v.state == State::ReadyToSend);
    if v.sent + n < response.len() {
        lemma_burst_continues(response, v.sent + n);
        assert(frames.skip(1) =~= burst(response, v.sent + n, false));
    }
}

/// The bytes of a sequence of packets, one behind the other.
pub open spec fn joined(packets: Seq<Seq<u8>>) -> Seq<u8>
    decreases packets.len(),
{
    if packets.len() == 0 {
        Seq::empty()
    } else {
        packets[0] + joined(packets.skip(1))
    }
}

/// The pipe after the packets of one message have been taken into the message
/// buffer, and how far the message has come. Every packet but the last has to
/// leave the message incomplete.
pub open spec fn fed(v: PipeView, packets: Seq<Seq<u8>>) -> (PipeView, Progress)
    decreases packets.len(),
{
    if packets.len() == 0 {
        (v, Progress::Incomplete)
    } else {
        let (taken, progress) = received(v, packets[0]);
        if packets.len() == 1 {
            (taken, progress)
        } else if progress is Incomplete {
            fed(taken, packets.skip(1))
        } else {
            (taken, Progress::Rejected)
        }
    }
}

proof fn lemma_joined_is_not_empty(packets: Seq<Seq<u8>>)
    requires
        packets.len() >= 1,
        packets.last().len() > 0,
    ensures
        joined(packets).len() > 0,
    decreases packets.len(),
{
    if packets.len() > 1 {
        assert(packets.skip(1).last() == packets.last());
        lemma_joined_is_not_empty(packets.skip(1));
    }
}

proof fn lemma_continuation_completes(v: PipeView, message: Seq<u8>, at: nat, rest: Seq<Seq<u8>>)
    requires
        v.receiving_long,
        at < message.len() <= MAX_MSG_LENGTH,
        v.message == message.take(at as int),
        v.long_packet_missing == message.len() - at,
        rest.len() >= 1,
        rest.last().len() > 0,
        joined(rest) == message.skip(at as int),
    ensures
        fed(v, rest).1 is Complete,
        fed(v, rest).0.message == message,
        !fed(v, rest).0.receiving_long,
    decreases rest.len(),
{
    let packet = rest[0];
    let tail = joined(rest.skip(1));
    let (taken, progress) = received(v, packet);
    assert(joined(rest) == packet + tail);
    assert(packet.len() + tail.len() == message.len() - at);
    assert forall|i: int| 0 <= i < packet.len() implies packet[i] == message[at + i] by {
        assert((packet + tail)[i] == packet[i]);
        assert(message.skip(at as int)[i] == message[at + i]);
    }
    assert forall|i: int| 0 <= i < tail.len() implies tail[i] == message[at + packet.len() + i] by {
        assert((packet + tail)[packet.len() + i] == tail[i]);
        assert(message.skip(at as int)[packet.len() + i] == message[at + packet.len() + i]);
    }
    if rest.len() == 1 {
        assert(joined(rest.skip(1)) =~= Seq::<u8>::empty());
        assert(packet =~= message.skip(at as int));
        assert(taken.message =~= message);
    } else {
        assert(rest.skip(1).last() == rest.last());
        lemma_joined_is_not_empty(rest.skip(1));
        assert(taken.message =~= message.take((at + packet.len()) as int));
        assert(joined(rest.skip(1)) =~= message.skip((at + packet.len()) as int));
        lemma_continuation_completes(taken, message, at + packet.len(), rest.skip(1));
    }
}

/// Reassembly round trip. Let a message consist of a header and as many
/// payload bytes as the header declares, and let it arrive in packets that hold
/// its bytes in order. If the payload fits into one packet behind the header,
/// there is one packet; if not, the first packet is full and the last is not
/// empty. Then the last packet completes the message, no packet before it does,
/// and the message buffer holds the message, whose payload is the bytes behind
/// the header.
pub proof fn lemma_reassembly_round_trip(v: PipeView, message: Seq<u8>, packets: Seq<Seq<u8>>)
    requires
        wf(v),
        !v.receiving_long,
        message.len() == CCID_HEADER_LEN + declared_len(message),
        message.len() <= MAX_MSG_LENGTH,
        packets.len() >= 1,
        joined(packets) == message,
        declared_len(message) <= PACKET_SIZE - CCID_HEADER_LEN ==> packets.len() == 1,
        declared_len(message) > PACKET_SIZE - CCID_HEADER_LEN ==> packets[0].len() == PACKET_SIZE
            && packets.last().len() > 0,
    ensures
        fed(v, packets).1 is Complete,
        fed(v, packets).0.message == message,
        payload(fed(v, packets).0.message) == message.skip(CCID_HEADER_LEN as int),
{
    let first = packets[0];
    let tail = joined(packets.skip(1));
    let (taken, progress) = received(v, first);
    assert(joined(packets) == first + tail);
    assert forall|i: int| 0 <= i < first.len() implies first[i] == message[i] by {
        assert((first + tail)[i] == first[i]);
    }
    assert forall|i: int| 0 <= i < tail.len() implies tail[i] == message[first.len() + i] by {
        assert((first + tail)[first.len() + i] == tail[i]);
    }
    assert(payload(message) =~= message.skip(CCID_HEADER_LEN as int));
    if declared_len(message) <= PACKET_SIZE - CCID_HEADER_LEN {
        assert(joined(packets.skip(1)) =~= Seq::<u8>::empty());
        assert(first =~= message);
    } else {
        assert(first =~= message.take(PACKET_SIZE as int));
        assert(declared_len(first) == declared_len(message));
        assert(packets.len() >= 2) by {
            if packets.len() == 1 {
                assert(joined(packets.skip(1)) =~= Seq::<u8>::empty());
            }
        }
        assert(packets.skip(1).last() == packets.last());
        assert(joined(packets.skip(1)) =~= message.skip(PACKET_SIZE as int));
        lemma_continuation_completes(taken, message, PACKET_SIZE as nat, packets.skip(1));
    }
}

/// A packet that leaves the message incomplete, or that is rejected, is taken
/// into the message buffer and nothing else happens. A packet that completes
/// the message has the command carried out.
pub proof fn lemma_handling_follows_reassembly(
    v: PipeView,
    packet: Seq<u8>,
    accepted: bool,
    response: Option<Seq<u8>>,
)
    ensures
        !(received(v, packet).1 is Complete) ==> handled(v, packet, accepted, response)
            == received(v, packet).0,
        received(v, packet).1 is Complete ==> handled(v, packet, accepted, response)
            == dispatched(received(v, packet).0, accepted, response),
{
}

} // verus!
