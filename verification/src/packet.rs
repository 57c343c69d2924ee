//! Dictionary requests and replies, and the two frame shapes that carry them.
//!
//! A dictionary register is addressed by a 16-bit hash and an 8-bit index.
//! The payload of a request is one kind byte, the hash and the index, and for
//! a write the 32-bit value; every number is big-endian. A reply that carries
//! data has the same eight-byte layout.

use vstd::prelude::*;
use vstd::std_specs::convert::FromSpecImpl;
use vstd::std_specs::convert::TryFromSpecImpl;

use crate::error::CResult;
use crate::error::Error;
use crate::error::ErrorView;
use crate::error::result_view;

verus! {

/// Command byte of every dictionary request.
pub const SMDP_OPCODE: u8 = 0x80;

/// Kind byte of a request that reads a register.
pub const READ_KIND: u8 = 0x63;

/// Kind byte of a request that writes a register.
pub const WRITE_KIND: u8 = 0x61;

/// Length of a payload that carries data.
pub const DATA_PAYLOAD_LEN: usize = 8;

/// What a request asks of a register.
#[derive(Debug, Clone, Copy, PartialEq, Eq)]
pub enum RequestType {
    /// Read the register.
    Read,
    /// Write this value to the register.
    Write(u32),
}

/// The two bytes of `x`, most significant first.
pub open spec fn be_bytes_u16(x: u16) -> Seq<u8> {
    seq![(x / 0x100) as u8, (x % 0x100) as u8]
}

/// The four bytes of `x`, most significant first.
pub open spec fn be_bytes_u32(x: u32) -> Seq<u8> {
    seq![
        (x / 0x100_0000) as u8,
        (x / 0x1_0000 % 0x100) as u8,
        (x / 0x100 % 0x100) as u8,
        (x % 0x100) as u8,
    ]
}

/// The number whose four bytes, most significant first, are `bytes`.
pub open spec fn be_value_u32(bytes: Seq<u8>) -> int
    recommends
        bytes.len() == 4,
{
    bytes[0] * 0x100_0000 + bytes[1] * 0x1_0000 + bytes[2] * 0x100 + bytes[3]
}

/// The kind byte of a request.
pub open spec fn kind_byte(req_type: RequestType) -> u8 {
    match req_type {
        RequestType::Read => READ_KIND,
        RequestType::Write(_) => WRITE_KIND,
    }
}

/// The payload of a request: kind, hash, index, and the value of a write.
pub open spec fn request_payload(req_type: RequestType, hashval: u16, array_idx: u8) -> Seq<u8> {
    let head = seq![kind_byte(req_type)] + be_bytes_u16(hashval) + seq![array_idx];
    match req_type {
        RequestType::Read => head,
        RequestType::Write(value) => head + be_bytes_u32(value),
    }
}

/// What a payload yields when data is expected of it: the number in its last
/// four bytes if it is eight bytes long, and a format error otherwise.
pub open spec fn payload_data(data: Seq<u8>) -> Result<u32, ErrorView> {
    if data.len() == DATA_PAYLOAD_LEN {
        Ok(be_value_u32(data.subrange(4, 8)) as u32)
    } else {
        Err(ErrorView::InvalidFormat(MALFORMED_RESPONSE@))
    }
}

/// Message of the error for a payload of the wrong length.
pub const MALFORMED_RESPONSE: &'static str = "Response is malformed or is not a response packet.";

/// Message of the error for a keyed frame asked of a packet without serial
/// number.
pub const NO_SERIAL_NUMBER: &'static str = "Packet has no serial number.";

/// A dictionary request or reply, free of any frame shape: the address of the
/// device, the payload, and the serial number where the protocol version has
/// one.
#[derive(Debug, Clone, PartialEq)]
pub struct CPacketSmdp {
    pub addr: u8,
    pub data: Vec<u8>,
    pub srlno: Option<u8>,
}

/// Mathematical value of a [`CPacketSmdp`].
pub struct CPacketSmdpView {
    pub addr: u8,
    pub data: Seq<u8>,
    pub srlno: Option<u8>,
}

impl View for CPacketSmdp {
    type V = CPacketSmdpView;

    open spec fn view(&self) -> CPacketSmdpView {
        CPacketSmdpView { addr: self.addr, data: self.data@, srlno: self.srlno }
    }
}

impl CPacketSmdp {
    /// Builds the request for one register of the device at `addr`.
    pub fn new(addr: u8, srlno: Option<u8>, req_type: RequestType, hashval: u16, array_idx: u8) -> (pkt: Self)
        ensures
            pkt@ == (CPacketSmdpView {
                addr,
                data: request_payload(req_type, hashval, array_idx),
                srlno,
            }),
    {
        let (req_type_val, dict_write_data) = match req_type {
            RequestType::Read => (READ_KIND, None),
            RequestType::Write(d) => (WRITE_KIND, Some(d)),
        };
        let mut data: Vec<u8> = Vec::new();
        data.push(req_type_val);
        data.push((hashval / 0x100) as u8);
        data.push((hashval % 0x100) as u8);
        data.push(array_idx);
        if let Some(dict_data) = dict_write_data {
            data.push((dict_data / 0x100_0000) as u8);
            data.push((dict_data / 0x1_0000 % 0x100) as u8);
            data.push((dict_data / 0x100 % 0x100) as u8);
            data.push((dict_data % 0x100) as u8);
        }
        assert(data@ =~= request_payload(req_type, hashval, array_idx));
        Self { addr, data, srlno }
    }

    /// Extracts the value that a reply carries: the last four bytes of an
    /// eight-byte payload, most significant first. A payload of any other
    /// length is a format error.
    pub fn extract_data(&self) -> (res: CResult<u32>)
        ensures
            result_view(res) == payload_data(self.data@),
            res is Ok <==> self.data@.len() == 8,
    {
        if self.data.len() == DATA_PAYLOAD_LEN {
            let value: u32 = (self.data[4] as u32) * 0x100_0000 + (self.data[5] as u32) * 0x1_0000
                + (self.data[6] as u32) * 0x100 + (self.data[7] as u32);
            Ok(value)
        } else {
            Err(Error::InvalidFormat(MALFORMED_RESPONSE.to_owned()))
        }
    }

    /// Sets the serial number of the packet. Address and payload stay.
    pub fn set_srlno(&mut self, srlno: u8)
        ensures
            final(self)@ == (CPacketSmdpView { srlno: Some(srlno), ..old(self)@ }),
    {
        self.srlno = Some(srlno)
    }
}

/// A frame of the protocol versions that have no serial number: address,
/// command byte and payload.
#[derive(Debug, Clone, PartialEq)]
pub struct UnkeyedFrame {
    pub addr: u8,
    pub cmd_rsp: u8,
    pub data: Vec<u8>,
}

/// A frame of the protocol versions that tag each exchange with a serial
/// number: address, command byte, serial number and payload.
#[derive(Debug, Clone, PartialEq)]
pub struct KeyedFrame {
    pub addr: u8,
    pub cmd_rsp: u8,
    pub srlno: u8,
    pub data: Vec<u8>,
}

/// A frame of either shape.
#[derive(Debug, Clone, PartialEq)]
pub enum WireFrame {
    Unkeyed(UnkeyedFrame),
    Keyed(KeyedFrame),
}

/// Mathematical value of a frame of either shape. An unkeyed frame is one
/// without serial number.
pub struct FrameView {
    pub addr: u8,
    pub cmd_rsp: u8,
    pub srlno: Option<u8>,
    pub data: Seq<u8>,
}

impl View for UnkeyedFrame {
    type V = FrameView;

    open spec fn view(&self) -> FrameView {
        FrameView { addr: self.addr, cmd_rsp: self.cmd_rsp, srlno: None, data: self.data@ }
    }
}

impl View for KeyedFrame {
    type V = FrameView;

    open spec fn view(&self) -> FrameView {
        FrameView { addr: self.addr, cmd_rsp: self.cmd_rsp, srlno: Some(self.srlno), data: self.data@ }
    }
}

impl View for WireFrame {
    type V = FrameView;

    open spec fn view(&self) -> FrameView {
        match self {
            WireFrame::Unkeyed(frame) => frame@,
            WireFrame::Keyed(frame) => frame@,
        }
    }
}

/// The unkeyed request frame of a packet: its address and payload under the
/// request command byte. The serial number plays no part.
pub open spec fn unkeyed_frame_of(cpkt: CPacketSmdp) -> UnkeyedFrame {
    UnkeyedFrame { addr: cpkt.addr, cmd_rsp: SMDP_OPCODE, data: cpkt.data }
}

/// The packet that an unkeyed frame carries. It has no serial number.
pub open spec fn packet_of_unkeyed(pkt: UnkeyedFrame) -> CPacketSmdp {
    CPacketSmdp { addr: pkt.addr, data: pkt.data, srlno: None }
}

/// The packet that a keyed frame carries, with the frame's serial number.
pub open spec fn packet_of_keyed(pkt: KeyedFrame) -> CPacketSmdp {
    CPacketSmdp { addr: pkt.addr, data: pkt.data, srlno: Some(pkt.srlno) }
}

/// The keyed request frame of a packet, or the format error of a packet
/// without serial number.
pub open spec fn keyed_frame_of(cpkt: CPacketSmdp) -> Result<KeyedFrame, ErrorView> {
    match cpkt.srlno {
        Some(srlno) => Ok(
            KeyedFrame { addr: cpkt.addr, cmd_rsp: SMDP_OPCODE, srlno, data: cpkt.data },
        ),
        None => Err(ErrorView::InvalidFormat(NO_SERIAL_NUMBER@)),
    }
}

impl From<CPacketSmdp> for UnkeyedFrame {
    /// The unkeyed request frame of a packet. A serial number, if the packet
    /// has one, is dropped.
    fn from(cpkt: CPacketSmdp) -> (frame: Self)
        ensures
            frame == unkeyed_frame_of(cpkt),
    {
        UnkeyedFrame { addr: cpkt.addr, cmd_rsp: SMDP_OPCODE, data: cpkt.data }
    }
}

impl FromSpecImpl<CPacketSmdp> for UnkeyedFrame {
    open spec fn obeys_from_spec() -> bool {
        true
    }

    open spec fn from_spec(cpkt: CPacketSmdp) -> Self {
        unkeyed_frame_of(cpkt)
    }
}

impl TryFrom<CPacketSmdp> for KeyedFrame {
    type Error = Error;

    /// The keyed request frame of a packet. A packet without serial number
    /// has none: that is a format error.
    fn try_from(cpkt: CPacketSmdp) -> (res: Result<Self, Error>)
        ensures
            result_view(res) == keyed_frame_of(cpkt),
    {
        if let Some(srlno) = cpkt.srlno {
            Ok(KeyedFrame { addr: cpkt.addr, cmd_rsp: SMDP_OPCODE, srlno, data: cpkt.data })
        } else {
            Err(Error::InvalidFormat(NO_SERIAL_NUMBER.to_owned()))
        }
    }
}

impl TryFromSpecImpl<CPacketSmdp> for KeyedFrame {
    open spec fn obeys_try_from_spec() -> bool {
        false
    }

    open spec fn try_from_spec(cpkt: CPacketSmdp) -> Result<Self, Error> {
        arbitrary()
    }
}

impl From<UnkeyedFrame> for CPacketSmdp {
    /// The packet that an unkeyed frame carries. It has no serial number.
    fn from(pkt: UnkeyedFrame) -> (cpkt: Self)
        ensures
            cpkt == packet_of_unkeyed(pkt),
    {
        CPacketSmdp { addr: pkt.addr, data: pkt.data, srlno: None }
    }
}

impl FromSpecImpl<UnkeyedFrame> for CPacketSmdp {
    open spec fn obeys_from_spec() -> bool {
        true
    }

    open spec fn from_spec(pkt: UnkeyedFrame) -> Self {
        packet_of_unkeyed(pkt)
    }
}

impl From<KeyedFrame> for CPacketSmdp {
    /// The packet that a keyed frame carries, with the frame's serial number.
    fn from(pkt: KeyedFrame) -> (cpkt: Self)
        ensures
            cpkt == packet_of_keyed(pkt),
    {
        CPacketSmdp { addr: pkt.addr, data: pkt.data, srlno: Some(pkt.srlno) }
    }
}

impl FromSpecImpl<KeyedFrame> for CPacketSmdp {
    open spec fn obeys_from_spec() -> bool {
        true
    }

    open spec fn from_spec(pkt: KeyedFrame) -> Self {
        packet_of_keyed(pkt)
    }
}

/// An unkeyed frame carries address and payload of a packet and nothing of
/// its serial number: the packet read back from the frame has the address
/// and payload of the one that went in, and no serial number, whether or not
/// that one had any.
pub proof fn lemma_unkeyed_round_trip(cpkt: CPacketSmdp)
    ensures
        packet_of_unkeyed(unkeyed_frame_of(cpkt)) == (CPacketSmdp {
            addr: cpkt.addr,
            data: cpkt.data,
            srlno: None,
        }),
{
}

/// A packet without serial number has no keyed frame: asking for one is a
/// format error.
pub proof fn lemma_keyed_needs_serial_number(cpkt: CPacketSmdp)
    requires
        cpkt.srlno is None,
    ensures
        keyed_frame_of(cpkt) == Err::<KeyedFrame, ErrorView>(
            ErrorView::InvalidFormat(NO_SERIAL_NUMBER@),
        ),
{
}

/// A keyed frame carries a packet whole: a packet with a serial number has a
/// keyed frame, and the packet read back from it is the one that went in,
/// address, payload and serial number.
pub proof fn lemma_keyed_round_trip(cpkt: CPacketSmdp)
    requires
        cpkt.srlno is Some,
    ensures
        keyed_frame_of(cpkt) is Ok,
        packet_of_keyed(keyed_frame_of(cpkt)->Ok_0) == cpkt,
{
}

/// The four big-endian bytes of a number give the number back.
pub proof fn lemma_be_bytes_round_trip(x: u32)
    ensures
        be_bytes_u32(x).len() == 4,
        be_value_u32(be_bytes_u32(x)) == x,
{
}

/// The payload of a write has the layout of a reply that carries data: the
/// value read out of it is the value that was written.
pub proof fn lemma_write_payload_carries_value(value: u32, hashval: u16, array_idx: u8)
    ensures
        request_payload(RequestType::Write(value), hashval, array_idx).len() == 8,
        payload_data(request_payload(RequestType::Write(value), hashval, array_idx)) == Ok::<
            u32,
            ErrorView,
        >(value),
{
    let payload = request_payload(RequestType::Write(value), hashval, array_idx);
    assert(payload.subrange(4, 8) =~= be_bytes_u32(value));
    lemma_be_bytes_round_trip(value);
}

/// The payload of a read is four bytes long, so no data can be read out of
/// it.
pub proof fn lemma_read_payload_has_no_value(hashval: u16, array_idx: u8)
    ensures
        request_payload(RequestType::Read, hashval, array_idx).len() == 4,
        payload_data(request_payload(RequestType::Read, hashval, array_idx)) is Err,
{
}

} // verus!
