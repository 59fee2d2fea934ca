//! The CCID pipe: the transaction state machine between the bulk endpoints and
//! the APDU processor.
//!
//! The pipe takes the packets that arrive on the bulk-OUT endpoint, reassembles
//! CCID messages from them, answers the commands that it can answer itself and
//! passes transfer blocks on to the APDU processor. Replies are put into an
//! outbox that holds one frame. The pipe does not write to the bulk-IN endpoint:
//! its owner offers the frame in the outbox to the endpoint and reports the
//! outcome with [`Pipe::maybe_send_packet`].
//!
//! [`PipeCore`] holds the state of the pipe and every decision. Each of its
//! steps takes what the outside answered as an argument: the write outcome,
//! the state of the channel, whether the channel accepted a request, the
//! response that the channel holds. [`Pipe`] owns the core and the channel: it
//! asks the channel, passes the answers to the core, and does to the channel
//! what the core asks for.
//!
//! What each step does is stated over [`model::PipeView`].

use vstd::prelude::*;
use vstd::slice::slice_subrange;
use crate::buffer::{
    msg_as_slice, msg_bytes, msg_clear, msg_extend_from_slice, msg_new, raw_as_slice, raw_bytes,
    raw_extend_from_slice, raw_new, MessageBuffer, RawPacket,
};
use crate::channel::{
    channel_cancel, channel_request, channel_request_mut, channel_response, channel_send_request,
    channel_state, ApduRequester, ChannelState,
};
use crate::constants::{CCID_HEADER_LEN, MAX_MSG_LENGTH, PACKET_SIZE};
use crate::pipe::model::{
    abort_expected, aborted, asked, atr_body, atr_bytes, chain_for, chunk_len, dispatched,
    handled, initial, polled, primed, queue, received, reset, transferred,
    wait_extended, wf, written, xor_all, Ask, ChannelDue, PipeView, Progress,
};
use crate::types::packet::{
    data_block_frame, parameters_frame, payload, slot_status_error_frame, slot_status_ok_frame,
    wait_extension_frame, Chain, ChainedPacket, CommandKind, DataBlock, ExtPacket, Packet,
    PacketWithData, RawPacketExt,
};

pub mod laws;
pub mod model;

verus! {

/// Where a transaction stands.
#[derive(Copy, Clone, Debug, PartialEq, Eq, Structural)]
pub enum State {
    /// No transaction is under way.
    Idle,
    /// A chained command APDU is being received.
    Receiving,
    /// The APDU processor is working on a command.
    Processing,
    /// A response has arrived and none of it has been framed.
    ReadyToSend,
    /// A chained response is being sent.
    Sending,
}

/// The errors that a slot status reply can report.
#[derive(Copy, Clone, Debug, PartialEq, Eq, Structural)]
pub enum Error {
    CmdAborted,
    IccMute,
    XfrParityError,
    CmdSlotBusy,
    CommandNotSupported,
}

impl Error {
    /// The error byte of the slot status reply.
    pub open spec fn spec_code(self) -> u8 {
        match self {
            Error::CmdAborted => 0xff,
            Error::IccMute => 0xfe,
            Error::XfrParityError => 0xfd,
            Error::CmdSlotBusy => 0xe0,
            Error::CommandNotSupported => 0x00,
        }
    }

    /// The error byte of the slot status reply.
    #[verifier::when_used_as_spec(spec_code)]
    pub fn code(self) -> (code: u8)
        ensures
            code == self.spec_code(),
    {
        match self {
            Error::CmdAborted => 0xff,
            Error::IccMute => 0xfe,
            Error::XfrParityError => 0xfd,
            Error::CmdSlotBusy => 0xe0,
            Error::CommandNotSupported => 0x00,
        }
    }
}

/// What the bulk-IN endpoint answered to the write of a frame.
#[derive(Copy, Clone, Debug, PartialEq, Eq, Structural)]
pub enum WriteOutcome {
    /// The endpoint took this many bytes.
    Written(usize),
    /// The endpoint is busy: the write can be tried again later.
    WouldBlock,
    /// The write failed for good.
    Failed,
}

/// The bytes of an optional byte string.
pub open spec fn opt_bytes(data: Option<&[u8]>) -> Option<Seq<u8>> {
    match data {
        Some(bytes) => Some(bytes@),
        None => None,
    }
}

/// The bytes of an optional frame.
pub open spec fn opt_frame(frame: Option<&RawPacket>) -> Option<Seq<u8>> {
    match frame {
        Some(packet) => Some(raw_bytes(*packet)),
        None => None,
    }
}

/// What a request buffer keeps when a payload is loaded into it: nothing if the
/// payload starts an APDU, what it holds if the payload continues one.
pub open spec fn kept(held: Seq<u8>, fresh: bool) -> Seq<u8> {
    if fresh {
        Seq::empty()
    } else {
        held
    }
}

/// Loads the payload of a transfer block into the request buffer that the
/// channel has handed out: as the whole request if `fresh`, behind what the
/// buffer holds otherwise. Returns whether the payload fitted in; if it did
/// not, it is left out.
pub fn load_request(request: &mut MessageBuffer, payload: &[u8], fresh: bool) -> (loaded: bool)
    ensures
        loaded == (kept(msg_bytes(*old(request)), fresh).len() + payload@.len() <= MAX_MSG_LENGTH),
        loaded ==> msg_bytes(*final(request)) == kept(msg_bytes(*old(request)), fresh) + payload@,
        !loaded ==> msg_bytes(*final(request)) == kept(msg_bytes(*old(request)), fresh),
{
    if fresh {
        msg_clear(request);
    }
    msg_extend_from_slice(request, payload).is_ok()
}

/// Frames the next part of a response: the bytes of `response` from `sent` on,
/// as many as fit into one USB packet behind the header. `first` says whether
/// this is the first frame of the response.
///
/// Returns the frame, the number of response bytes framed so far, and whether
/// more frames have to follow.
pub fn frame_chunk(seq: u8, first: bool, sent: usize, response: &[u8]) -> (framed: (
    RawPacket,
    usize,
    bool,
))
    requires
        sent <= response@.len(),
    ensures
        framed.1 == sent + chunk_len(sent as nat, response@.len()),
        framed.2 == (framed.1 < response@.len()),
        raw_bytes(framed.0) == data_block_frame(
            seq,
            chain_for(first, framed.2),
            response@.subrange(sent as int, framed.1 as int),
        ),
{
    let rest: usize = response.len() - sent;
    let chunk_size: usize = if rest <= PACKET_SIZE - CCID_HEADER_LEN {
        rest
    } else {
        PACKET_SIZE - CCID_HEADER_LEN
    };
    let chunk = slice_subrange(response, sent, sent + chunk_size);
    let reached: usize = sent + chunk_size;
    let more = reached < response.len();
    let chain = if first {
        if more {
            Chain::Begins
        } else {
            Chain::BeginsAndEnds
        }
    } else {
        if more {
            Chain::Continues
        } else {
            Chain::Ends
        }
    };
    let packet = RawPacket::from(DataBlock::new(seq, chain, chunk));
    (packet, reached, more)
}

/// The response that waits in the channel, if one does.
fn held_response<'a>(channel: &'a ApduRequester<'_>) -> (response: Option<&'a [u8]>) {
    match channel_response(channel) {
        Some(buffer) => Some(msg_as_slice(buffer)),
        None => None,
    }
}

/// The state of the pipe, and the steps that it takes.
///
/// The core has no access to the APDU channel or to the endpoint. What they
/// answered comes in as arguments; what is to be done to them is read off the
/// core afterwards: the frame in the outbox, and [`PipeCore::channel_due`].
pub struct PipeCore {
    seq: u8,
    state: State,
    sent: usize,
    outbox: Option<RawPacket>,
    send_due: bool,
    ext_packet: ExtPacket,
    packet_len: usize,
    receiving_long: bool,
    long_packet_missing: usize,
    in_chain: usize,
    started_processing: bool,
    atr: RawPacket,
    bulk_abort: Option<u8>,
    control_abort: Option<u8>,
    channel_due: ChannelDue,
}

impl View for PipeCore {
    type V = PipeView;

    closed spec fn view(&self) -> PipeView {
        PipeView {
            seq: self.seq,
            state: self.state,
            sent: self.sent as nat,
            outbox: match self.outbox {
                Some(packet) => Some(raw_bytes(packet)),
                None => None,
            },
            send_due: self.send_due,
            message: self.ext_packet@,
            packet_len: self.packet_len as nat,
            receiving_long: self.receiving_long,
            long_packet_missing: self.long_packet_missing as nat,
            in_chain: self.in_chain as nat,
            started_processing: self.started_processing,
            atr: raw_bytes(self.atr),
            bulk_abort: self.bulk_abort,
            control_abort: self.control_abort,
            channel_due: self.channel_due,
        }
    }
}

impl PipeCore {
    /// What holds of a core between steps.
    pub open spec fn wf(&self) -> bool {
        wf(self@)
    }

    /// A core in its initial state. `card_issuers_data`, of at most 13 bytes,
    /// goes into the answer to reset.
    pub fn new(card_issuers_data: Option<&[u8]>) -> (machine: Self)
        requires
            card_issuers_data matches Some(data) ==> data@.len() <= 13,
        ensures
            machine.wf(),
            machine@ == initial(atr_bytes(opt_bytes(card_issuers_data), false)),
    {
        PipeCore {
            seq: 0,
            state: State::Idle,
            sent: 0,
            outbox: None,
            send_due: false,
            ext_packet: ExtPacket::new(),
            packet_len: 0,
            receiving_long: false,
            long_packet_missing: 0,
            in_chain: 0,
            started_processing: false,
            // Only T=1 is offered.
            atr: Self::construct_atr(card_issuers_data, false),
            bulk_abort: None,
            control_abort: None,
            channel_due: ChannelDue::Nothing,
        }
    }

    /// Builds the answer to reset.
    pub fn construct_atr(card_issuers_data: Option<&[u8]>, signal_t_equals_0: bool) -> (atr:
        RawPacket)
        requires
            card_issuers_data matches Some(data) ==> data@.len() <= 13,
        ensures
            raw_bytes(atr) == atr_bytes(opt_bytes(card_issuers_data), signal_t_equals_0),
            raw_bytes(atr).len() <= 20,
    {
        let ghost issuer = opt_bytes(card_issuers_data);
        let k: u8 = match card_issuers_data {
            Some(data) => 2 + data.len() as u8,
            None => 0,
        };
        let mut atr = raw_new();
        // TS: direct convention. T0: the number of historical bytes.
        let head: [u8; 2] = [0x3B, 0x80 | k];
        let _ = raw_extend_from_slice(&mut atr, head.as_slice());
        if signal_t_equals_0 {
            // T=0, more to follow
            let t0: [u8; 1] = [0x80];
            let _ = raw_extend_from_slice(&mut atr, t0.as_slice());
        }
        // T=1
        let t1: [u8; 1] = [0x01];
        let _ = raw_extend_from_slice(&mut atr, t1.as_slice());
        if let Some(data) = card_issuers_data {
            // no status indicator, then tag 5: card issuer's data
            let tag: [u8; 2] = [0x80, 0x50 | data.len() as u8];
            let _ = raw_extend_from_slice(&mut atr, tag.as_slice());
            let _ = raw_extend_from_slice(&mut atr, data);
        }
        assert(raw_bytes(atr) =~= seq![0x3Bu8] + atr_body(issuer, signal_t_equals_0));
        // XOR of all bytes except TS
        let mut checksum: u8 = 0;
        let bytes = raw_as_slice(&atr);
        let mut i: usize = 1;
        assert(bytes@.subrange(1, 1) =~= Seq::<u8>::empty());
        while i < bytes.len()
            invariant
                1 <= i <= bytes@.len(),
                checksum == xor_all(bytes@.subrange(1, i as int)),
            decreases bytes@.len() - i,
        {
            assert(bytes@.subrange(1, i + 1).drop_last() =~= bytes@.subrange(1, i as int));
            checksum = checksum ^ bytes[i];
            i += 1;
        }
        assert(bytes@.subrange(1, bytes@.len() as int) =~= atr_body(issuer, signal_t_equals_0));
        let tck: [u8; 1] = [checksum];
        let _ = raw_extend_from_slice(&mut atr, tck.as_slice());
        assert(raw_bytes(atr) =~= atr_bytes(issuer, signal_t_equals_0));
        atr
    }

    /// Where the current transaction stands.
    pub fn state(&self) -> (state: State)
        ensures
            state == self@.state,
    {
        self.state
    }

    /// The sequence number of the last command.
    pub fn seq(&self) -> (seq: u8)
        ensures
            seq == self@.seq,
    {
        self.seq
    }

    /// The frame that waits to be written to the bulk-IN endpoint.
    pub fn outbox(&self) -> (frame: Option<&RawPacket>)
        ensures
            opt_frame(frame) == self@.outbox,
    {
        self.outbox.as_ref()
    }

    /// Whether the frame in the outbox was put there since the endpoint was
    /// last asked to take a frame.
    pub fn send_due(&self) -> (due: bool)
        ensures
            due == self@.send_due,
    {
        self.send_due
    }

    /// What the last step asks to be done to the channel.
    pub fn channel_due(&self) -> (due: ChannelDue)
        ensures
            due == self@.channel_due,
    {
        self.channel_due
    }

    /// The message under reassembly, or the last complete one.
    pub fn message(&self) -> (message: &ExtPacket)
        ensures
            message@ == self@.message,
    {
        &self.ext_packet
    }

    /// Returns the core to its initial state, and asks for the channel to be
    /// brought back to idle. This is the answer to every input that breaks the
    /// protocol.
    pub fn reset_state(&mut self)
        ensures
            final(self)@ == reset(old(self)@),
    {
        self.seq = 0;
        self.state = State::Idle;
        self.sent = 0;
        self.outbox = None;
        self.send_due = false;
        self.packet_len = 0;
        self.receiving_long = false;
        self.long_packet_missing = 0;
        self.in_chain = 0;
        self.started_processing = false;
        self.bulk_abort = None;
        self.control_abort = None;
        self.channel_due = ChannelDue::Reset;
    }

    /// Takes a packet into the message buffer. A first packet must hold a
    /// header; it starts a message that is complete if the declared payload
    /// fits into the packet. Further packets are appended until the declared
    /// length has arrived.
    pub fn receive(&mut self, packet: &RawPacket) -> (progress: Progress)
        requires
            old(self).wf(),
        ensures
            final(self).wf(),
            (final(self)@, progress) == received(old(self)@, raw_bytes(*packet)),
    {
        self.channel_due = ChannelDue::Nothing;
        let bytes = raw_as_slice(packet);
        if !self.receiving_long {
            if bytes.len() < CCID_HEADER_LEN {
                self.reset_state();
                return Progress::Rejected;
            }
            self.ext_packet.clear();
            let _ = self.ext_packet.extend_from_slice(bytes);
            assert(self.ext_packet@ =~= bytes@);
            let pl = packet.data_len();
            if pl > PACKET_SIZE - CCID_HEADER_LEN {
                self.receiving_long = true;
                self.in_chain = 1;
                self.long_packet_missing = pl - (PACKET_SIZE - CCID_HEADER_LEN);
                self.packet_len = pl;
                return Progress::Incomplete;
            }
            Progress::Complete
        } else {
            if self.ext_packet.extend_from_slice(bytes).is_err() {
                self.reset_state();
                return Progress::Rejected;
            }
            if self.in_chain < usize::MAX {
                self.in_chain += 1;
            }
            if bytes.len() > self.long_packet_missing {
                // the host sent more than it had declared
                self.long_packet_missing = 0;
            } else {
                self.long_packet_missing -= bytes.len();
            }
            if self.long_packet_missing != 0 {
                return Progress::Incomplete;
            }
            self.receiving_long = false;
            Progress::Complete
        }
    }

    /// What the complete command in the message buffer needs of the channel
    /// before it is carried out.
    pub fn asked(&self) -> (ask: Ask)
        ensures
            ask == asked(self@),
    {
        match self.ext_packet.command_type() {
            Ok(CommandKind::XfrBlock) => {},
            _ => {
                return Ask::Nothing;
            },
        }
        if self.control_abort.is_some() {
            return Ask::Nothing;
        }
        let chain = self.ext_packet.chain();
        match self.state {
            State::Idle => match chain {
                Ok(Chain::BeginsAndEnds) => Ask::Load { fresh: true, fire: true },
                Ok(Chain::Begins) => Ask::Load { fresh: true, fire: false },
                _ => Ask::Nothing,
            },
            State::Receiving => match chain {
                Ok(Chain::Continues) => Ask::Load { fresh: false, fire: false },
                Ok(Chain::Ends) => Ask::Load { fresh: false, fire: true },
                _ => Ask::Nothing,
            },
            State::Processing => Ask::Nothing,
            State::ReadyToSend => Ask::Nothing,
            State::Sending => match chain {
                Ok(Chain::ExpectingMore) => Ask::Response,
                _ => Ask::Nothing,
            },
        }
    }

    /// The payload of the message in the buffer: what a transfer block hands
    /// to the APDU processor.
    pub fn payload(&self) -> (bytes: &[u8])
        requires
            self@.message.len() >= CCID_HEADER_LEN,
        ensures
            bytes@ == payload(self@.message),
    {
        self.ext_packet.data()
    }

    /// Carries out the complete command in the message buffer. `accepted`
    /// says whether the channel took what [`PipeCore::asked`] named;
    /// `response` is the response that the channel holds.
    pub fn dispatch(&mut self, accepted: bool, response: Option<&[u8]>)
        requires
            old(self).wf(),
        ensures
            final(self).wf(),
            final(self)@ == dispatched(old(self)@, accepted, opt_bytes(response)),
    {
        self.channel_due = ChannelDue::Nothing;
        if self.ext_packet.len() < CCID_HEADER_LEN {
            self.reset_state();
            return ;
        }
        self.seq = self.ext_packet.seq();
        let kind = self.ext_packet.command_type();

        // After an abort on the control pipe, everything is turned down until
        // the matching abort arrives on the bulk endpoint.
        if let Some(control_abort) = self.control_abort {
            let matching = match kind {
                Ok(CommandKind::Abort) => control_abort == self.seq,
                _ => false,
            };
            if matching {
                self.abort();
            } else {
                self.send_slot_status_error(Error::CmdAborted);
            }
            return ;
        }
        self.bulk_abort = None;

        match kind {
            Ok(CommandKind::PowerOn) => self.send_atr(),
            Ok(CommandKind::PowerOff) => self.send_slot_status_ok(),
            Ok(CommandKind::GetSlotStatus) => self.send_slot_status_ok(),
            Ok(CommandKind::XfrBlock) => self.handle_transfer(accepted, response),
            Ok(CommandKind::Abort) => {
                self.bulk_abort = Some(self.seq);
            },
            Ok(CommandKind::GetParameters) => self.send_parameters(),
            Err(_) => self.send_slot_status_error(Error::CommandNotSupported),
        }
    }

    /// Acts on the transfer block in the message buffer, by the state of the
    /// transaction and the chain parameter of the block. `accepted` says
    /// whether the channel took the payload and, where the block ends an APDU,
    /// the request; `response` is the response that the channel holds.
    pub fn handle_transfer(&mut self, accepted: bool, response: Option<&[u8]>)
        requires
            old(self).wf(),
        ensures
            final(self).wf(),
            final(self)@ == transferred(old(self)@, accepted, opt_bytes(response)),
    {
        self.channel_due = ChannelDue::Nothing;
        match self.asked() {
            Ask::Load { fresh: _, fire } => {
                if !accepted {
                    self.reset_state();
                } else if fire {
                    self.started_processing = true;
                    self.state = State::Processing;
                } else {
                    self.state = State::Receiving;
                    self.send_empty_datablock(Chain::ExpectingMore);
                }
            },
            Ask::Response => self.prime(response),
            Ask::Nothing => self.reset_state(),
        }
    }

    /// Asks the host for more time while the APDU processor is at work. Returns
    /// whether it is: the caller then asks again after the waiting time, and
    /// stops asking once the answer is `false`.
    pub fn send_wait_extension(&mut self) -> (processing: bool)
        requires
            old(self).wf(),
        ensures
            final(self).wf(),
            processing == (old(self)@.state == State::Processing),
            final(self)@ == wait_extended(old(self)@),
    {
        self.channel_due = ChannelDue::Nothing;
        if self.state == State::Processing {
            // Time extension is requested, by one block waiting time.
            let frame: [u8; 10] = [0x80, 0, 0, 0, 0, 0, self.seq, 2 << 6, 0x1, 0];
            let mut packet = raw_new();
            let _ = raw_extend_from_slice(&mut packet, frame.as_slice());
            assert(2u8 << 6u8 == 0x80u8) by (bit_vector);
            assert(raw_bytes(packet) =~= wait_extension_frame(self.seq, 1));
            self.send_packet_assuming_possible(packet);
            true
        } else {
            false
        }
    }

    /// Whether an APDU has been handed to the processor since the last call.
    /// The answer is `true` once for each APDU.
    pub fn did_start_processing(&mut self) -> (started: bool)
        ensures
            started == old(self)@.started_processing,
            final(self)@ == (PipeView { started_processing: false, ..old(self)@ }),
    {
        if self.started_processing {
            self.started_processing = false;
            true
        } else {
            false
        }
    }

    /// Takes note of what a poll of the channel found: `channel` is the state
    /// that the channel reported, `response` the response that it holds. If
    /// the core is processing and the channel has responded, the first frame
    /// of the response is put into the outbox.
    pub fn poll(&mut self, channel: ChannelState, response: Option<&[u8]>)
        requires
            old(self).wf(),
        ensures
            final(self).wf(),
            final(self)@ == polled(
                old(self)@,
                channel == ChannelState::Responded,
                opt_bytes(response),
            ),
    {
        self.channel_due = ChannelDue::Nothing;
        if self.state == State::Processing && channel == ChannelState::Responded {
            self.state = State::ReadyToSend;
            self.sent = 0;
            self.prime(response);
        }
    }

    /// Puts the next frame of the response into the outbox, if a response is
    /// being sent. `response` is the response that the channel holds. The
    /// outbox must be empty, the channel must hold a response, and what has
    /// been sent must lie within it: else the core is reset.
    pub fn prime(&mut self, response: Option<&[u8]>)
        requires
            old(self).wf(),
        ensures
            final(self).wf(),
            final(self)@ == primed(old(self)@, opt_bytes(response)),
    {
        self.channel_due = ChannelDue::Nothing;
        if self.state != State::ReadyToSend && self.state != State::Sending {
            return ;
        }
        if self.outbox.is_some() {
            self.reset_state();
            return ;
        }
        match response {
            None => {
                self.reset_state();
            },
            Some(message) => {
                if self.sent > message.len() {
                    self.reset_state();
                } else {
                    let first = self.state == State::ReadyToSend;
                    let (packet, reached, more) = frame_chunk(self.seq, first, self.sent, message);
                    self.sent = reached;
                    self.state = if more {
                        State::Sending
                    } else {
                        State::Idle
                    };
                    self.outbox = Some(packet);
                    self.send_due = true;
                }
            },
        }
    }

    fn send_empty_datablock(&mut self, chain: Chain)
        ensures
            final(self)@ == queue(
                old(self)@,
                data_block_frame(old(self)@.seq, chain, Seq::<u8>::empty()),
            ),
    {
        let empty: [u8; 0] = [];
        let packet = RawPacket::from(DataBlock::new(self.seq, chain, empty.as_slice()));
        assert(empty@ =~= Seq::<u8>::empty());
        self.send_packet_assuming_possible(packet);
    }

    fn send_slot_status_ok(&mut self)
        ensures
            final(self)@ == queue(old(self)@, slot_status_ok_frame(old(self)@.seq)),
    {
        let frame: [u8; 10] = [0x81, 0, 0, 0, 0, 0, self.seq, 0, 0, 0];
        let mut packet = raw_new();
        let _ = raw_extend_from_slice(&mut packet, frame.as_slice());
        assert(raw_bytes(packet) =~= slot_status_ok_frame(self.seq));
        self.send_packet_assuming_possible(packet);
    }

    fn send_slot_status_error(&mut self, error: Error)
        ensures
            final(self)@ == queue(
                old(self)@,
                slot_status_error_frame(old(self)@.seq, error.spec_code()),
            ),
    {
        let frame: [u8; 10] = [0x6c, 0, 0, 0, 0, 0, self.seq, 1 << 6, error.code(), 0];
        let mut packet = raw_new();
        let _ = raw_extend_from_slice(&mut packet, frame.as_slice());
        assert(1u8 << 6u8 == 0x40u8) by (bit_vector);
        assert(raw_bytes(packet) =~= slot_status_error_frame(self.seq, error.spec_code()));
        self.send_packet_assuming_possible(packet);
    }

    fn send_parameters(&mut self)
        ensures
            final(self)@ == queue(old(self)@, parameters_frame(old(self)@.seq)),
    {
        let frame: [u8; 17] = [
            0x82,
            7,
            0,
            0,
            0,
            0,
            self.seq,
            0,
            0,
            // T=1
            1,
            // the fastest values: Fi = 1 MHz, Di = 1
            (0b0001 << 4) | 0b0001,
            // the default values of the standard
            0x10,
            0,
            0x15,
            0,
            // the longest waiting time
            0xfe,
            0,
        ];
        let mut packet = raw_new();
        let _ = raw_extend_from_slice(&mut packet, frame.as_slice());
        assert((0b0001u8 << 4u8) | 0b0001u8 == 0x11u8) by (bit_vector);
        assert(raw_bytes(packet) =~= parameters_frame(self.seq));
        self.send_packet_assuming_possible(packet);
    }

    fn send_atr(&mut self)
        requires
            old(self).wf(),
        ensures
            final(self)@ == queue(
                old(self)@,
                data_block_frame(old(self)@.seq, Chain::BeginsAndEnds, old(self)@.atr),
            ),
    {
        let packet = RawPacket::from(
            DataBlock::new(self.seq, Chain::BeginsAndEnds, raw_as_slice(&self.atr)),
        );
        self.send_packet_assuming_possible(packet);
    }

    /// Puts a frame into the outbox. A frame that still waits there is
    /// replaced: its transaction has failed, and the pipe is ready for the
    /// next one.
    pub fn send_packet_assuming_possible(&mut self, packet: RawPacket)
        ensures
            final(self)@ == queue(old(self)@, raw_bytes(packet)),
    {
        if self.outbox.is_some() {
            self.state = State::Idle;
        }
        self.outbox = Some(packet);
        self.send_due = true;
    }

    /// Takes note of how the write of the frame in the outbox went. With no
    /// frame in the outbox nothing happens.
    ///
    /// A frame that went out whole leaves the outbox; if it filled a USB
    /// packet, an empty frame takes its place, to end the transfer. A busy
    /// endpoint leaves the frame where it is. A partial write or any other
    /// failure resets the core.
    pub fn maybe_send_packet(&mut self, outcome: WriteOutcome)
        requires
            old(self).wf(),
        ensures
            final(self).wf(),
            final(self)@ == written(old(self)@, outcome),
    {
        self.channel_due = ChannelDue::Nothing;
        let len: usize = match &self.outbox {
            Some(packet) => raw_as_slice(packet).len(),
            None => {
                return ;
            },
        };
        let needs_zlp = len == PACKET_SIZE;
        match outcome {
            WriteOutcome::Written(n) => {
                if n == len {
                    if needs_zlp {
                        self.outbox = Some(raw_new());
                    } else {
                        self.outbox = None;
                    }
                    self.send_due = false;
                } else {
                    self.reset_state();
                }
            },
            WriteOutcome::WouldBlock => {
                self.send_due = false;
            },
            WriteOutcome::Failed => {
                self.reset_state();
            },
        }
    }

    /// Takes an abort request of the control pipe for the given slot and
    /// sequence number. A request for another slot than 0 is ignored. If the
    /// bulk endpoint has seen the abort command with this sequence number, the
    /// abort is carried out; otherwise the request is kept until that command
    /// arrives.
    pub fn expect_abort(&mut self, slot: u8, seq: u8)
        requires
            old(self).wf(),
        ensures
            final(self).wf(),
            final(self)@ == abort_expected(old(self)@, slot, seq),
    {
        self.channel_due = ChannelDue::Nothing;
        // There is one slot only.
        if slot != 0 {
            return ;
        }
        if self.bulk_abort == Some(seq) {
            self.abort();
        } else {
            self.control_abort = Some(seq);
        }
    }

    /// Carries out an abort that both the control pipe and the bulk endpoint
    /// have asked for: the transaction is dropped, the request in flight is to
    /// be cancelled, and the host is told so.
    fn abort(&mut self)
        ensures
            final(self)@ == aborted(old(self)@),
    {
        self.bulk_abort = None;
        self.control_abort = None;
        self.state = State::Idle;
        self.outbox = None;
        self.send_due = false;
        self.started_processing = false;
        self.receiving_long = false;
        self.long_packet_missing = 0;
        self.channel_due = ChannelDue::Cancel;

        // the reply for the abort that has succeeded
        self.send_slot_status_ok();
    }
}

/// The device side of the CCID bulk protocol for one slot: the core, and the
/// channel to the APDU processor.
pub struct Pipe<'pipe> {
    machine: PipeCore,
    interchange: ApduRequester<'pipe>,
}

impl<'pipe> View for Pipe<'pipe> {
    type V = PipeView;

    closed spec fn view(&self) -> PipeView {
        self.machine@
    }
}

impl<'pipe> Pipe<'pipe> {
    /// What holds of a pipe between calls.
    pub open spec fn wf(&self) -> bool {
        wf(self@)
    }

    /// A pipe in its initial state on the given channel. `card_issuers_data`,
    /// of at most 13 bytes, goes into the answer to reset.
    pub fn new(request_pipe: ApduRequester<'pipe>, card_issuers_data: Option<&[u8]>) -> (pipe: Self)
        requires
            card_issuers_data matches Some(data) ==> data@.len() <= 13,
        ensures
            pipe.wf(),
            pipe@ == initial(atr_bytes(opt_bytes(card_issuers_data), false)),
    {
        Pipe { machine: PipeCore::new(card_issuers_data), interchange: request_pipe }
    }

    /// Builds the answer to reset.
    pub fn construct_atr(card_issuers_data: Option<&[u8]>, signal_t_equals_0: bool) -> (atr:
        RawPacket)
        requires
            card_issuers_data matches Some(data) ==> data@.len() <= 13,
        ensures
            raw_bytes(atr) == atr_bytes(opt_bytes(card_issuers_data), signal_t_equals_0),
            raw_bytes(atr).len() <= 20,
    {
        PipeCore::construct_atr(card_issuers_data, signal_t_equals_0)
    }

    /// The state of the pipe and its steps.
    pub fn machine(&self) -> (machine: &PipeCore)
        ensures
            machine@ == self@,
    {
        &self.machine
    }

    /// Where the current transaction stands.
    pub fn state(&self) -> (state: State)
        ensures
            state == self@.state,
    {
        self.machine.state()
    }

    /// The sequence number of the last command.
    pub fn seq(&self) -> (seq: u8)
        ensures
            seq == self@.seq,
    {
        self.machine.seq()
    }

    /// The frame that waits to be written to the bulk-IN endpoint.
    pub fn outbox(&self) -> (frame: Option<&RawPacket>)
        ensures
            opt_frame(frame) == self@.outbox,
    {
        self.machine.outbox()
    }

    /// Whether the frame in the outbox was put there since the endpoint was
    /// last asked to take a frame.
    pub fn send_due(&self) -> (due: bool)
        ensures
            due == self@.send_due,
    {
        self.machine.send_due()
    }

    /// The message under reassembly, or the last complete one.
    pub fn message(&self) -> (message: &ExtPacket)
        ensures
            message@ == self@.message,
    {
        self.machine.message()
    }

    /// Returns the pipe to its initial state and clears the channel. This is
    /// the answer to every input that breaks the protocol.
    pub fn reset_state(&mut self)
        ensures
            final(self)@ == reset(old(self)@),
    {
        self.machine.reset_state();
        self.settle();
    }

    /// Brings the channel back to idle, whatever it was doing: a request is
    /// placed and withdrawn, and a response that waits is taken out.
    fn reset_interchange(&mut self)
        ensures
            final(self)@ == old(self)@,
    {
        let message = msg_new();
        let _ = channel_request(&mut self.interchange, message);
        let _ = channel_cancel(&mut self.interchange);
        let _ = self.interchange.take_response();
    }

    /// Does to the channel what the last step of the core asked for.
    fn settle(&mut self)
        ensures
            final(self)@ == old(self)@,
    {
        match self.machine.channel_due() {
            ChannelDue::Reset => self.reset_interchange(),
            ChannelDue::Cancel => {
                let _ = channel_cancel(&mut self.interchange);
            },
            ChannelDue::Nothing => {},
        }
    }

    /// Takes a packet from the bulk-OUT endpoint. Once the packets of a message
    /// are all there, the command is carried out: a reply is put into the
    /// outbox, or the payload goes to the APDU processor, or the next frame of
    /// a response is prepared.
    ///
    /// The pipe asks the channel for what [`PipeCore::asked`] names and hands
    /// the answer to [`PipeCore::dispatch`]. Of the answer the contract says
    /// that some value of it explains the result: whether the channel accepted
    /// the payload, and which response it held.
    pub fn handle_packet(&mut self, packet: RawPacket)
        requires
            old(self).wf(),
        ensures
            final(self).wf(),
            exists|accepted: bool, response: Option<Seq<u8>>|
                final(self)@ == #[trigger] handled(
                    old(self)@,
                    raw_bytes(packet),
                    accepted,
                    response,
                ),
    {
        match self.machine.receive(&packet) {
            Progress::Complete => {
                match self.machine.asked() {
                    Ask::Load { fresh, fire } => {
                        let accepted = self.fill_request(fresh) && (!fire || self.call_app());
                        self.machine.dispatch(accepted, None);
                        assert(self@ == handled(old(self)@, raw_bytes(packet), accepted, None));
                    },
                    Ask::Response => {
                        let response = held_response(&self.interchange);
                        self.machine.dispatch(false, response);
                        assert(self@ == handled(
                            old(self)@,
                            raw_bytes(packet),
                            false,
                            opt_bytes(response),
                        ));
                    },
                    Ask::Nothing => {
                        self.machine.dispatch(false, None);
                        assert(self@ == handled(old(self)@, raw_bytes(packet), false, None));
                    },
                }
            },
            _ => {
                assert(self@ == handled(old(self)@, raw_bytes(packet), false, None));
            },
        }
        self.settle();
    }

    /// Hands the payload that the core names to the channel: into a request
    /// buffer that is emptied first if `fresh`, behind what the buffer holds
    /// otherwise. Returns whether the channel offered its buffer and the
    /// payload fitted in.
    fn fill_request(&mut self, fresh: bool) -> (filled: bool)
        requires
            old(self)@.message.len() >= CCID_HEADER_LEN,
        ensures
            final(self)@ == old(self)@,
    {
        if fresh {
            self.reset_interchange();
        }
        let payload = self.machine.payload();
        match channel_request_mut(&mut self.interchange) {
            None => false,
            Some(message) => load_request(message, payload, fresh),
        }
    }

    /// Hands the request in the channel to the APDU processor. Returns whether
    /// the channel took it.
    fn call_app(&mut self) -> (sent: bool)
        ensures
            final(self)@ == old(self)@,
    {
        channel_send_request(&mut self.interchange)
    }

    /// Asks the host for more time while the APDU processor is at work. Returns
    /// whether it is: the caller then asks again after the waiting time, and
    /// stops asking once the answer is `false`.
    pub fn send_wait_extension(&mut self) -> (processing: bool)
        requires
            old(self).wf(),
        ensures
            final(self).wf(),
            processing == (old(self)@.state == State::Processing),
            final(self)@ == wait_extended(old(self)@),
    {
        self.machine.send_wait_extension()
    }

    /// Whether an APDU has been handed to the processor since the last call.
    /// The answer is `true` once for each APDU.
    pub fn did_start_processing(&mut self) -> (started: bool)
        ensures
            started == old(self)@.started_processing,
            final(self)@ == (PipeView { started_processing: false, ..old(self)@ }),
    {
        self.machine.did_start_processing()
    }

    /// Looks for the response of the APDU processor. If the pipe is processing
    /// and the channel reports a response, the first frame of the response is
    /// put into the outbox.
    ///
    /// The pipe asks the channel for its state and its response and hands both
    /// to [`PipeCore::poll`]. Of them the contract says that some value of each
    /// explains the result.
    pub fn poll_app(&mut self)
        requires
            old(self).wf(),
        ensures
            final(self).wf(),
            exists|responded: bool, response: Option<Seq<u8>>|
                final(self)@ == #[trigger] polled(old(self)@, responded, response),
    {
        let channel = channel_state(&self.interchange);
        let response = held_response(&self.interchange);
        self.machine.poll(channel, response);
        assert(self@ == polled(
            old(self)@,
            channel == ChannelState::Responded,
            opt_bytes(response),
        ));
        self.settle();
    }

    /// Puts the next frame of the response into the outbox, if a response is
    /// being sent. The outbox must be empty and the channel must hold the
    /// response, else the pipe is reset.
    ///
    /// The pipe asks the channel for its response and hands it to
    /// [`PipeCore::prime`]. Of it the contract says that some value explains
    /// the result.
    pub fn prime_outbox(&mut self)
        requires
            old(self).wf(),
        ensures
            final(self).wf(),
            exists|response: Option<Seq<u8>>|
                final(self)@ == #[trigger] primed(old(self)@, response),
    {
        let response = held_response(&self.interchange);
        self.machine.prime(response);
        assert(self@ == primed(old(self)@, opt_bytes(response)));
        self.settle();
    }

    /// Takes note of how the write of the frame in the outbox went. With no
    /// frame in the outbox nothing happens.
    ///
    /// A frame that went out whole leaves the outbox; if it filled a USB
    /// packet, an empty frame takes its place, to end the transfer. A busy
    /// endpoint leaves the frame where it is. A partial write or any other
    /// failure resets the pipe.
    pub fn maybe_send_packet(&mut self, outcome: WriteOutcome)
        requires
            old(self).wf(),
        ensures
            final(self).wf(),
            final(self)@ == written(old(self)@, outcome),
    {
        self.machine.maybe_send_packet(outcome);
        self.settle();
    }

    /// Takes an abort request of the control pipe for the given slot and
    /// sequence number. A request for another slot than 0 is ignored. If the
    /// bulk endpoint has seen the abort command with this sequence number, the
    /// abort is carried out; otherwise the request is kept until that command
    /// arrives.
    pub fn expect_abort(&mut self, slot: u8, seq: u8)
        requires
            old(self).wf(),
        ensures
            final(self).wf(),
            final(self)@ == abort_expected(old(self)@, slot, seq),
    {
        self.machine.expect_abort(slot, seq);
        self.settle();
    }
}

} // verus!
