//! CCID message layout: how commands are read and how replies are framed.
//!
//! Every CCID message starts with a ten-byte header:
//!
//! | offset | field                         |
//! |--------|-------------------------------|
//! | 0      | message type                  |
//! | 1..5   | payload length, little-endian |
//! | 5      | slot                          |
//! | 6      | sequence number               |
//! | 7      | status (replies)              |
//! | 8      | error (replies)               |
//! | 8..10  | chain parameter (commands)    |
//! | 9      | chain parameter (replies)     |
//!
//! The specification functions of this module describe messages as plain byte
//! sequences; the executable functions are proved against them.

use vstd::prelude::*;
use vstd::slice::slice_subrange;
use crate::buffer::{
    msg_as_slice, msg_bytes, msg_clear, msg_extend_from_slice, msg_new, raw_as_slice, raw_bytes,
    raw_extend_from_slice, raw_new, MessageBuffer,
};
pub use crate::buffer::RawPacket;
use crate::constants::{CCID_HEADER_LEN, MAX_MSG_LENGTH, PACKET_SIZE};

verus! {

/// Position of a frame within a chained transfer.
#[derive(Copy, Clone, Debug, PartialEq, Eq, Structural)]
pub enum Chain {
    /// The frame holds a whole APDU.
    BeginsAndEnds,
    /// The frame starts an APDU that continues in later frames.
    Begins,
    /// The frame ends an APDU.
    Ends,
    /// The frame continues an APDU and more follows.
    Continues,
    /// An empty frame that asks the peer for the next part.
    ExpectingMore,
}

impl Chain {
    /// The chain parameter as it appears on the wire.
    pub open spec fn spec_value(self) -> u8 {
        match self {
            Chain::BeginsAndEnds => 0,
            Chain::Begins => 1,
            Chain::Ends => 2,
            Chain::Continues => 3,
            Chain::ExpectingMore => 0x10,
        }
    }

    /// The chain parameter as it appears on the wire.
    #[verifier::when_used_as_spec(spec_value)]
    pub fn value(self) -> (value: u8)
        ensures
            value == self.spec_value(),
    {
        match self {
            Chain::BeginsAndEnds => 0,
            Chain::Begins => 1,
            Chain::Ends => 2,
            Chain::Continues => 3,
            Chain::ExpectingMore => 0x10,
        }
    }

    /// The chain that a wire value stands for, or the value itself if it stands
    /// for none.
    pub open spec fn spec_from_value(value: u16) -> Result<Chain, u16> {
        if value == 0 {
            Ok(Chain::BeginsAndEnds)
        } else if value == 1 {
            Ok(Chain::Begins)
        } else if value == 2 {
            Ok(Chain::Ends)
        } else if value == 3 {
            Ok(Chain::Continues)
        } else if value == 0x10 {
            Ok(Chain::ExpectingMore)
        } else {
            Err(value)
        }
    }

    /// Reads a chain parameter; a value outside the five defined ones is handed
    /// back as the error.
    #[verifier::when_used_as_spec(spec_from_value)]
    pub fn from_value(value: u16) -> (chain: Result<Chain, u16>)
        ensures
            chain == Chain::spec_from_value(value),
    {
        if value == 0 {
            Ok(Chain::BeginsAndEnds)
        } else if value == 1 {
            Ok(Chain::Begins)
        } else if value == 2 {
            Ok(Chain::Ends)
        } else if value == 3 {
            Ok(Chain::Continues)
        } else if value == 0x10 {
            Ok(Chain::ExpectingMore)
        } else {
            Err(value)
        }
    }

    /// Whether a frame with this chain parameter leaves the transfer in the
    /// hands of the peer: it completes an APDU or asks for more.
    pub fn transfer_ongoing(&self) -> (ongoing: bool)
        ensures
            ongoing == (*self == Chain::BeginsAndEnds || *self == Chain::Ends || *self
                == Chain::ExpectingMore),
    {
        match self {
            Chain::BeginsAndEnds => true,
            Chain::Ends => true,
            Chain::ExpectingMore => true,
            Chain::Begins => false,
            Chain::Continues => false,
        }
    }
}

/// The commands that the device understands.
#[derive(Copy, Clone, Debug, PartialEq, Eq, Structural)]
pub enum CommandKind {
    PowerOn,
    PowerOff,
    GetSlotStatus,
    GetParameters,
    XfrBlock,
    Abort,
}

impl CommandKind {
    /// The message type byte of the command.
    pub open spec fn spec_code(self) -> u8 {
        match self {
            CommandKind::PowerOn => 0x62,
            CommandKind::PowerOff => 0x63,
            CommandKind::GetSlotStatus => 0x65,
            CommandKind::GetParameters => 0x6c,
            CommandKind::XfrBlock => 0x6f,
            CommandKind::Abort => 0x72,
        }
    }

    /// The message type byte of the command.
    #[verifier::when_used_as_spec(spec_code)]
    pub fn code(self) -> (code: u8)
        ensures
            code == self.spec_code(),
    {
        match self {
            CommandKind::PowerOn => 0x62,
            CommandKind::PowerOff => 0x63,
            CommandKind::GetSlotStatus => 0x65,
            CommandKind::GetParameters => 0x6c,
            CommandKind::XfrBlock => 0x6f,
            CommandKind::Abort => 0x72,
        }
    }
}

/// Why a message could not be read as a command.
#[derive(Copy, Clone, Debug, PartialEq, Eq, Structural)]
pub enum Error {
    /// The message is shorter than a header.
    ShortPacket,
    /// The message type is none of the supported commands.
    UnknownCommand(u8),
}

/// The unsigned 32-bit number stored little-endian in `bytes[at..at + 4]`.
pub open spec fn le_u32(bytes: Seq<u8>, at: int) -> nat
    recommends
        0 <= at,
        at + 4 <= bytes.len(),
{
    (bytes[at] as nat) + 0x100 * (bytes[at + 1] as nat) + 0x1_0000 * (bytes[at + 2] as nat)
        + 0x100_0000 * (bytes[at + 3] as nat)
}

/// The unsigned 16-bit number stored little-endian in `bytes[at..at + 2]`.
pub open spec fn le_u16(bytes: Seq<u8>, at: int) -> nat
    recommends
        0 <= at,
        at + 2 <= bytes.len(),
{
    (bytes[at] as nat) + 0x100 * (bytes[at + 1] as nat)
}

/// Byte `index` of the little-endian encoding of `value`.
pub open spec fn le_byte(value: nat, index: nat) -> u8 {
    if index == 0 {
        (value % 0x100) as u8
    } else if index == 1 {
        ((value / 0x100) % 0x100) as u8
    } else if index == 2 {
        ((value / 0x1_0000) % 0x100) as u8
    } else {
        ((value / 0x100_0000) % 0x100) as u8
    }
}

/// The payload length that the header of a message declares.
pub open spec fn declared_len(bytes: Seq<u8>) -> nat
    recommends
        bytes.len() >= 5,
{
    le_u32(bytes, 1)
}

/// The sequence number of a message.
pub open spec fn sequence(bytes: Seq<u8>) -> u8
    recommends
        bytes.len() >= CCID_HEADER_LEN,
{
    bytes[6]
}

/// How a message reads as a command.
pub open spec fn command_kind(bytes: Seq<u8>) -> Result<CommandKind, Error> {
    if bytes.len() < CCID_HEADER_LEN {
        Err(Error::ShortPacket)
    } else if bytes[0] == 0x62 {
        Ok(CommandKind::PowerOn)
    } else if bytes[0] == 0x63 {
        Ok(CommandKind::PowerOff)
    } else if bytes[0] == 0x65 {
        Ok(CommandKind::GetSlotStatus)
    } else if bytes[0] == 0x6c {
        Ok(CommandKind::GetParameters)
    } else if bytes[0] == 0x6f {
        Ok(CommandKind::XfrBlock)
    } else if bytes[0] == 0x72 {
        Ok(CommandKind::Abort)
    } else {
        Err(Error::UnknownCommand(bytes[0]))
    }
}

/// The chain parameter of a command, read from bytes 8 and 9.
pub open spec fn chain_of(bytes: Seq<u8>) -> Result<Chain, u16>
    recommends
        bytes.len() >= CCID_HEADER_LEN,
{
    Chain::spec_from_value(le_u16(bytes, 8) as u16)
}

/// The number of payload bytes of a message: what the header declares, but no
/// more than a message can carry and no more than the message holds.
pub open spec fn payload_len(bytes: Seq<u8>) -> nat
    recommends
        bytes.len() >= CCID_HEADER_LEN,
{
    let declared = declared_len(bytes);
    let limit = (MAX_MSG_LENGTH - CCID_HEADER_LEN) as nat;
    let held = (bytes.len() - CCID_HEADER_LEN) as nat;
    let clamped = if declared <= limit {
        declared
    } else {
        limit
    };
    if clamped <= held {
        clamped
    } else {
        held
    }
}

/// The payload of a message: the bytes that follow the header.
pub open spec fn payload(bytes: Seq<u8>) -> Seq<u8>
    recommends
        bytes.len() >= CCID_HEADER_LEN,
{
    bytes.subrange(CCID_HEADER_LEN as int, CCID_HEADER_LEN + payload_len(bytes))
}

/// A data block reply: header with message type `0x80`, the payload length, the
/// sequence number and the chain parameter, followed by the payload.
pub open spec fn data_block_frame(seq: u8, chain: Chain, data: Seq<u8>) -> Seq<u8> {
    seq![
        0x80u8,
        le_byte(data.len(), 0),
        le_byte(data.len(), 1),
        le_byte(data.len(), 2),
        le_byte(data.len(), 3),
        0u8,
        seq,
        0u8,
        0u8,
        chain.spec_value(),
    ] + data
}

/// A slot status reply that reports success.
pub open spec fn slot_status_ok_frame(seq: u8) -> Seq<u8> {
    seq![0x81u8, 0u8, 0u8, 0u8, 0u8, 0u8, seq, 0u8, 0u8, 0u8]
}

/// A slot status reply that reports the failed command with an error code.
pub open spec fn slot_status_error_frame(seq: u8, error: u8) -> Seq<u8> {
    seq![0x6cu8, 0u8, 0u8, 0u8, 0u8, 0u8, seq, 0x40u8, error, 0u8]
}

/// A reply that asks the host for more time, by `multiplier` waiting periods.
pub open spec fn wait_extension_frame(seq: u8, multiplier: u8) -> Seq<u8> {
    seq![0x80u8, 0u8, 0u8, 0u8, 0u8, 0u8, seq, 0x80u8, multiplier, 0u8]
}

/// The parameters reply: protocol T=1 with fixed timing values.
pub open spec fn parameters_frame(seq: u8) -> Seq<u8> {
    seq![
        0x82u8,
        7u8,
        0u8,
        0u8,
        0u8,
        0u8,
        seq,
        0u8,
        0u8,
        1u8,
        0x11u8,
        0x10u8,
        0u8,
        0x15u8,
        0u8,
        0xfeu8,
        0u8,
    ]
}

/// Reads the little-endian 32-bit number at `bytes[at..at + 4]`.
pub fn read_le_u32(bytes: &[u8], at: usize) -> (value: u32)
    requires
        at + 4 <= bytes@.len(),
    ensures
        value == le_u32(bytes@, at as int),
{
    let b0: u32 = bytes[at] as u32;
    let b1: u32 = bytes[at + 1] as u32;
    let b2: u32 = bytes[at + 2] as u32;
    let b3: u32 = bytes[at + 3] as u32;
    b0 + 0x100 * b1 + 0x1_0000 * b2 + 0x100_0000 * b3
}

/// Reads the little-endian 16-bit number at `bytes[at..at + 2]`.
pub fn read_le_u16(bytes: &[u8], at: usize) -> (value: u16)
    requires
        at + 2 <= bytes@.len(),
    ensures
        value == le_u16(bytes@, at as int),
{
    let b0: u16 = bytes[at] as u16;
    let b1: u16 = bytes[at + 1] as u16;
    b0 + 0x100 * b1
}

/// What a raw USB packet says about the message that it starts.
pub trait RawPacketExt {
    /// The bytes of the packet.
    spec fn bytes(&self) -> Seq<u8>;

    /// The payload length declared in bytes 1 to 4 of the packet.
    fn data_len(&self) -> (len: usize)
        requires
            self.bytes().len() >= 5,
        ensures
            len == declared_len(self.bytes()),
    ;
}

impl RawPacketExt for RawPacket {
    open spec fn bytes(&self) -> Seq<u8> {
        raw_bytes(*self)
    }

    fn data_len(&self) -> (len: usize) {
        read_le_u32(raw_as_slice(self), 1) as usize
    }
}

/// A reassembled CCID message of up to `MAX_MSG_LENGTH` bytes.
#[derive(Debug)]
pub struct ExtPacket(MessageBuffer);

impl View for ExtPacket {
    type V = Seq<u8>;

    closed spec fn view(&self) -> Seq<u8> {
        msg_bytes(self.0)
    }
}

impl ExtPacket {
    /// An empty message.
    pub fn new() -> (packet: ExtPacket)
        ensures
            packet@ == Seq::<u8>::empty(),
    {
        ExtPacket(msg_new())
    }

    /// The bytes of the message.
    pub fn as_slice(&self) -> (bytes: &[u8])
        ensures
            bytes@ == self@,
            bytes@.len() <= MAX_MSG_LENGTH,
    {
        msg_as_slice(&self.0)
    }

    /// The number of bytes of the message.
    pub fn len(&self) -> (len: usize)
        ensures
            len == self@.len(),
            len <= MAX_MSG_LENGTH,
    {
        msg_as_slice(&self.0).len()
    }

    /// Empties the message.
    pub fn clear(&mut self)
        ensures
            final(self)@ == Seq::<u8>::empty(),
    {
        msg_clear(&mut self.0);
    }

    /// Appends `other` if the message then still fits into `MAX_MSG_LENGTH`
    /// bytes; otherwise fails and leaves the message as it was.
    pub fn extend_from_slice(&mut self, other: &[u8]) -> (result: Result<(), ()>)
        ensures
            result is Ok <==> old(self)@.len() + other@.len() <= MAX_MSG_LENGTH,
            result is Ok ==> final(self)@ == old(self)@ + other@,
            result is Err ==> final(self)@ == old(self)@,
    {
        msg_extend_from_slice(&mut self.0, other)
    }

    /// Reads the message type: `ShortPacket` if the message has no full header,
    /// the command if byte 0 names one, `UnknownCommand` with that byte otherwise.
    pub fn command_type(&self) -> (kind: Result<CommandKind, Error>)
        ensures
            kind == command_kind(self@),
    {
        let bytes = self.as_slice();
        if bytes.len() < CCID_HEADER_LEN {
            return Err(Error::ShortPacket);
        }
        let command_byte: u8 = bytes[0];
        if command_byte == 0x62 {
            Ok(CommandKind::PowerOn)
        } else if command_byte == 0x63 {
            Ok(CommandKind::PowerOff)
        } else if command_byte == 0x65 {
            Ok(CommandKind::GetSlotStatus)
        } else if command_byte == 0x6c {
            Ok(CommandKind::GetParameters)
        } else if command_byte == 0x6f {
            Ok(CommandKind::XfrBlock)
        } else if command_byte == 0x72 {
            Ok(CommandKind::Abort)
        } else {
            Err(Error::UnknownCommand(command_byte))
        }
    }
}

impl Default for ExtPacket {
    fn default() -> (packet: ExtPacket)
        ensures
            packet@ == Seq::<u8>::empty(),
    {
        ExtPacket::new()
    }
}

/// The header fields that every CCID message carries.
pub trait Packet {
    /// The bytes of the message.
    spec fn bytes(&self) -> Seq<u8>;

    /// The slot that the message addresses. The device has one slot, numbered 0.
    fn slot(&self) -> (slot: u8)
        requires
            self.bytes().len() >= CCID_HEADER_LEN,
            self.bytes()[5] == 0,
        ensures
            slot == 0,
    ;

    /// The sequence number of the message.
    fn seq(&self) -> (seq: u8)
        requires
            self.bytes().len() >= CCID_HEADER_LEN,
        ensures
            seq == sequence(self.bytes()),
    ;
}

/// A message that carries a payload.
pub trait PacketWithData: Packet {
    /// The payload: the bytes after the header, as many as the header declares,
    /// cut off at what a message can carry and at what this message holds.
    fn data(&self) -> (data: &[u8])
        requires
            self.bytes().len() >= CCID_HEADER_LEN,
        ensures
            data@ == payload(self.bytes()),
    ;
}

/// A message that is part of a chained transfer.
pub trait ChainedPacket: Packet {
    /// The chain parameter of the message, or the value found in its place if
    /// it is none of the five defined ones.
    fn chain(&self) -> (chain: Result<Chain, u16>)
        requires
            self.bytes().len() >= CCID_HEADER_LEN,
        ensures
            chain == chain_of(self.bytes()),
    ;
}

impl Packet for ExtPacket {
    open spec fn bytes(&self) -> Seq<u8> {
        self@
    }

    fn slot(&self) -> (slot: u8) {
        self.as_slice()[5]
    }

    fn seq(&self) -> (seq: u8) {
        self.as_slice()[6]
    }
}

impl PacketWithData for ExtPacket {
    fn data(&self) -> (data: &[u8]) {
        let bytes = self.as_slice();
        let declared: usize = read_le_u32(bytes, 1) as usize;
        let limit: usize = MAX_MSG_LENGTH - CCID_HEADER_LEN;
        let held: usize = bytes.len() - CCID_HEADER_LEN;
        let clamped: usize = if declared <= limit {
            declared
        } else {
            limit
        };
        let len: usize = if clamped <= held {
            clamped
        } else {
            held
        };
        slice_subrange(bytes, CCID_HEADER_LEN, CCID_HEADER_LEN + len)
    }
}

impl ChainedPacket for ExtPacket {
    fn chain(&self) -> (chain: Result<Chain, u16>) {
        Chain::from_value(read_le_u16(self.as_slice(), 8))
    }
}

/// A data block reply that has not been framed yet.
#[derive(Debug)]
pub struct DataBlock<'a> {
    seq: u8,
    chain: Chain,
    data: &'a [u8],
}

impl<'a> DataBlock<'a> {
    /// The sequence number that the reply echoes.
    pub closed spec fn seq(&self) -> u8 {
        self.seq
    }

    /// The chain parameter of the reply.
    pub closed spec fn chain(&self) -> Chain {
        self.chain
    }

    /// The payload of the reply.
    pub closed spec fn data(&self) -> Seq<u8> {
        self.data@
    }

    /// A data block fits into one USB packet together with its header.
    #[verifier::type_invariant]
    spec fn fits(&self) -> bool {
        self.data@.len() + CCID_HEADER_LEN <= PACKET_SIZE
    }

    /// A data block with the given sequence number, chain parameter and payload.
    /// The payload must leave room for the header in one USB packet.
    pub fn new(seq: u8, chain: Chain, data: &'a [u8]) -> (block: DataBlock<'a>)
        requires
            data@.len() + CCID_HEADER_LEN <= PACKET_SIZE,
        ensures
            block.seq() == seq,
            block.chain() == chain,
            block.data() == data@,
    {
        DataBlock { seq, chain, data }
    }

    /// The bytes of the framed reply.
    pub open spec fn frame(&self) -> Seq<u8> {
        data_block_frame(self.seq(), self.chain(), self.data())
    }
}

impl<'a> From<DataBlock<'a>> for RawPacket {
    /// Frames the reply: the header, then the payload.
    fn from(block: DataBlock<'a>) -> (packet: RawPacket)
        ensures
            raw_bytes(packet) == block.frame(),
    {
        proof {
            use_type_invariant(&block);
        }
        let len: usize = block.data.len();
        let header: [u8; 10] = [0x80, len as u8, 0, 0, 0, 0, block.seq, 0, 0, block.chain.value()];
        let mut packet = raw_new();
        let _ = raw_extend_from_slice(&mut packet, header.as_slice());
        let _ = raw_extend_from_slice(&mut packet, block.data);
        assert(raw_bytes(packet) =~= block.frame());
        packet
    }
}

impl<'a> vstd::std_specs::convert::FromSpecImpl<DataBlock<'a>> for RawPacket {
    open spec fn obeys_from_spec() -> bool {
        false
    }

    open spec fn from_spec(block: DataBlock<'a>) -> RawPacket {
        choose|packet: RawPacket| raw_bytes(packet) == block.frame()
    }
}

} // verus!
