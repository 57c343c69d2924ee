//! The session with one device: its settings, its serial-number counter, and
//! the judgement of each exchange.

use vstd::pervasive::unreached;
use vstd::prelude::*;
use vstd::string::*;

use crate::error::CResult;
use crate::error::Error;
use crate::error::ErrorView;
use crate::error::result_view;
use crate::packet::CPacketSmdp;
use crate::packet::FrameView;
use crate::packet::KeyedFrame;
use crate::packet::RequestType;
use crate::packet::UnkeyedFrame;
use crate::packet::WireFrame;
use crate::packet::SMDP_OPCODE;
use crate::packet::payload_data;
use crate::packet::request_payload;

verus! {

/// Flags the SMDP frame format to be used.
#[derive(Debug, Clone, Copy, PartialEq, Eq)]
pub enum SmdpVersion {
    /// Version 2 has no serial number field.
    V2,
    /// Versions 3 and above have a serial number field.
    V3Plus,
}

/// Read timeout of a new builder, in milliseconds.
pub const DEFAULT_READ_TIMEOUT_MS: usize = 80;

/// Baud rate of a new builder.
pub const DEFAULT_BAUD: u32 = 115200;

/// Device address of a new builder.
pub const DEFAULT_DEVICE_ADDR: u8 = 0x10;

/// Largest frame of a new builder, in bytes.
pub const DEFAULT_MAX_FRAMESIZE: usize = 64;

/// Serial number that a new session hands out first.
pub const FIRST_SRLNO: u8 = 0x17;

/// Serial number that follows 0xFF.
pub const WRAPPED_SRLNO: u8 = 0x11;

/// Smallest serial number that the protocol allows.
pub const MIN_SRLNO: u8 = 0x10;

/// The settings of a session, as mathematical values.
pub struct SessionConfig {
    pub read_timeout: usize,
    pub baud: u32,
    pub com_port: Seq<char>,
    pub dev_addr: u8,
    pub max_framesize: usize,
    pub version: SmdpVersion,
}

/// Mathematical value of a session: its settings and the serial number that
/// it hands out next.
pub struct SessionView {
    pub config: SessionConfig,
    pub srlno: u8,
}

/// The serial number that follows `srlno`: one more, and after 0xFF the
/// number 0x11.
pub open spec fn next_srlno(srlno: u8) -> u8 {
    if srlno == u8::MAX {
        WRAPPED_SRLNO
    } else {
        (srlno + 1) as u8
    }
}

/// The serial number that a new session hands out at its `n`-th call,
/// counted from zero.
pub open spec fn srlno_at(n: nat) -> u8
    decreases n,
{
    if n == 0 {
        FIRST_SRLNO
    } else {
        next_srlno(srlno_at((n - 1) as nat))
    }
}

/// The serial numbers of a session: the first is 0x17, none is below 0x10,
/// and the one after 0xFF is 0x11.
pub proof fn lemma_srlno_sequence(n: nat)
    ensures
        srlno_at(0) == 0x17,
        srlno_at(n) >= MIN_SRLNO,
        n > 0 ==> srlno_at(n) >= WRAPPED_SRLNO,
        srlno_at(n) == 0xFF ==> srlno_at(n + 1) == 0x11,
    decreases n,
{
    if n > 0 {
        lemma_srlno_sequence((n - 1) as nat);
    }
    assert(srlno_at(n + 1) == next_srlno(srlno_at(n)));
}

/// Status of a received frame, as the frame parser of the transport reports
/// it.
#[derive(Debug, Clone, Copy, PartialEq, Eq)]
pub enum ResponseCode {
    /// The device carried the request out: the status that the protocol
    /// calls OK.
    Success,
    /// The device refused the request; the number is the code it gave.
    Other(u8),
}

/// What the transport brings back from one exchange.
#[derive(Debug)]
pub enum Reply {
    /// The request could not be written, or no frame could be read in time
    /// or made out; the text is the transport's account of it.
    Failed(String),
    /// One frame was read, with this status.
    Received(ResponseCode, WireFrame),
}

/// Mathematical value of a [`Reply`].
pub enum ReplyView {
    Failed(Seq<char>),
    Received(ResponseCode, FrameView),
}

impl View for Reply {
    type V = ReplyView;

    open spec fn view(&self) -> ReplyView {
        match self {
            Reply::Failed(reason) => ReplyView::Failed(reason@),
            Reply::Received(status, frame) => ReplyView::Received(*status, frame@),
        }
    }
}

/// What an exchange remembers of its request until the reply is in: whether
/// it was a read, and the serial number it went out with, if any.
#[derive(Debug, Clone, Copy, PartialEq, Eq)]
pub struct Pending {
    pub is_read: bool,
    pub srlno: Option<u8>,
}

/// Start of the message of the error for a status that is not OK; the
/// status code follows in decimal.
pub const RSP_NOT_OK: &'static str = "RSP not OK: ";

/// Message of the error for a reply whose serial number is not the
/// request's.
pub const SRLNO_MISMATCH: &'static str = "SRLNO mismatch";

/// The character of one decimal digit.
pub open spec fn digit_char(digit: u8) -> char {
    if digit == 0 {
        '0'
    } else if digit == 1 {
        '1'
    } else if digit == 2 {
        '2'
    } else if digit == 3 {
        '3'
    } else if digit == 4 {
        '4'
    } else if digit == 5 {
        '5'
    } else if digit == 6 {
        '6'
    } else if digit == 7 {
        '7'
    } else if digit == 8 {
        '8'
    } else {
        '9'
    }
}

/// A status code in decimal, without leading zeros.
pub open spec fn decimal_text(code: u8) -> Seq<char> {
    if code >= 100 {
        seq![digit_char(code / 100), digit_char(code / 10 % 10), digit_char(code % 10)]
    } else if code >= 10 {
        seq![digit_char(code / 10), digit_char(code % 10)]
    } else {
        seq![digit_char(code)]
    }
}

/// The message of the error for a status that is not OK: it names the code.
pub open spec fn status_message(code: u8) -> Seq<char> {
    RSP_NOT_OK@ + decimal_text(code)
}

/// The serial number that a request of this session goes out with: the
/// session's next one where the version has serial numbers, none where it
/// has not.
pub open spec fn request_srlno(session: SessionView) -> Option<u8> {
    match session.config.version {
        SmdpVersion::V2 => None,
        SmdpVersion::V3Plus => Some(session.srlno),
    }
}

/// The frame of a request of this session: the device's address, the request
/// command byte, the payload of the request, and the serial number that the
/// version asks for.
pub open spec fn request_frame(
    session: SessionView,
    req_type: RequestType,
    hashval: u16,
    array_idx: u8,
) -> FrameView {
    FrameView {
        addr: session.config.dev_addr,
        cmd_rsp: SMDP_OPCODE,
        srlno: request_srlno(session),
        data: request_payload(req_type, hashval, array_idx),
    }
}

/// What the exchange of a request of this session remembers.
pub open spec fn request_pending(session: SessionView, req_type: RequestType) -> Pending {
    Pending { is_read: req_type is Read, srlno: request_srlno(session) }
}

/// The session after one request: where the version has serial numbers the
/// counter has moved on, and nothing else has changed.
pub open spec fn session_after_request(session: SessionView) -> SessionView {
    match session.config.version {
        SmdpVersion::V2 => session,
        SmdpVersion::V3Plus => SessionView { srlno: next_srlno(session.srlno), ..session },
    }
}

/// How an exchange ends, given what the transport brought back.
///
/// A failure of the transport is an I/O error. A status that is not OK is a
/// protocol error that names the status. Where the request had a serial
/// number, a reply with another one, or with none, is a protocol error.
/// Past these tests a read yields the data of the payload, or the format
/// error of a payload that has none, and a write yields no value.
pub open spec fn exchange_outcome(pending: Pending, reply: ReplyView) -> Result<
    Option<u32>,
    ErrorView,
> {
    match reply {
        ReplyView::Failed(reason) => Err(ErrorView::Io(reason)),
        ReplyView::Received(ResponseCode::Other(code), _) => Err(
            ErrorView::Smdp(status_message(code)),
        ),
        ReplyView::Received(ResponseCode::Success, frame) => {
            if pending.srlno is Some && frame.srlno != pending.srlno {
                Err(ErrorView::Smdp(SRLNO_MISMATCH@))
            } else if pending.is_read {
                match payload_data(frame.data) {
                    Ok(value) => Ok(Some(value)),
                    Err(e) => Err(e),
                }
            } else {
                Ok(None)
            }
        },
    }
}

/// A reply whose status is not OK never yields data: the exchange ends in a
/// protocol error that names the status, whatever the frame holds.
pub proof fn lemma_bad_status_is_protocol_error(pending: Pending, code: u8, frame: FrameView)
    ensures
        exchange_outcome(pending, ReplyView::Received(ResponseCode::Other(code), frame)) == Err::<
            Option<u32>,
            ErrorView,
        >(ErrorView::Smdp(status_message(code))),
{
}

/// A reply to a request with serial number that comes back with another
/// serial number, or with none, yields no data: the exchange ends in a
/// protocol error, however well-formed the payload is.
pub proof fn lemma_srlno_mismatch_is_protocol_error(pending: Pending, frame: FrameView)
    requires
        pending.srlno is Some,
        frame.srlno != pending.srlno,
    ensures
        exchange_outcome(pending, ReplyView::Received(ResponseCode::Success, frame)) == Err::<
            Option<u32>,
            ErrorView,
        >(ErrorView::Smdp(SRLNO_MISMATCH@)),
{
}

/// An exchange yields a value only for a read, and only out of a payload of
/// eight bytes that came with status OK.
pub proof fn lemma_value_only_from_data_reply(pending: Pending, reply: ReplyView)
    requires
        exchange_outcome(pending, reply) matches Ok(Some(_)),
    ensures
        pending.is_read,
        reply matches ReplyView::Received(ResponseCode::Success, frame) && frame.data.len() == 8,
{
}

/// One decimal digit as text.
fn digit_str(digit: u8) -> (text: &'static str)
    requires
        digit < 10,
    ensures
        text@ == seq![digit_char(digit)],
{
    proof {
        reveal_strlit("0");
        reveal_strlit("1");
        reveal_strlit("2");
        reveal_strlit("3");
        reveal_strlit("4");
        reveal_strlit("5");
        reveal_strlit("6");
        reveal_strlit("7");
        reveal_strlit("8");
        reveal_strlit("9");
    }
    let text = if digit == 0 {
        "0"
    } else if digit == 1 {
        "1"
    } else if digit == 2 {
        "2"
    } else if digit == 3 {
        "3"
    } else if digit == 4 {
        "4"
    } else if digit == 5 {
        "5"
    } else if digit == 6 {
        "6"
    } else if digit == 7 {
        "7"
    } else if digit == 8 {
        "8"
    } else {
        "9"
    };
    assert(text@ =~= seq![digit_char(digit)]);
    text
}

/// The message of the error for a status that is not OK.
pub fn rsp_not_ok_message(code: u8) -> (text: String)
    ensures
        text@ == status_message(code),
{
    let mut text = RSP_NOT_OK.to_owned();
    if code >= 100 {
        text.append(digit_str(code / 100));
    }
    if code >= 10 {
        text.append(digit_str(code / 10 % 10));
    }
    text.append(digit_str(code % 10));
    assert(text@ =~= status_message(code));
    text
}

impl Pending {
    /// Judges what the transport brought back for this exchange, and decodes
    /// it: the value of a read, nothing for a write, or the error.
    pub fn finish(self, reply: Reply) -> (res: CResult<Option<u32>>)
        ensures
            result_view(res) == exchange_outcome(self, reply@),
    {
        match reply {
            Reply::Failed(reason) => Err(Error::propagate_smdp_io(reason)),
            Reply::Received(ResponseCode::Other(code), _) => Err(
                Error::Smdp(rsp_not_ok_message(code)),
            ),
            Reply::Received(ResponseCode::Success, frame) => {
                let resp_cpkt: CPacketSmdp = match frame {
                    WireFrame::Unkeyed(resp_smdp) => CPacketSmdp::from(resp_smdp),
                    WireFrame::Keyed(resp_smdp) => CPacketSmdp::from(resp_smdp),
                };
                if let Some(sent) = self.srlno {
                    let same = match resp_cpkt.srlno {
                        Some(got) => got == sent,
                        None => false,
                    };
                    if !same {
                        return Err(Error::Smdp(SRLNO_MISMATCH.to_owned()));
                    }
                }
                if self.is_read {
                    match resp_cpkt.extract_data() {
                        Ok(value) => Ok(Some(value)),
                        Err(e) => Err(e),
                    }
                } else {
                    Ok(None)
                }
            },
        }
    }
}

/// SMDP session with one Cryomech device. Assumes point-to-point
/// communication, not multi-drop.
///
/// The session holds the settings that the link was opened with and the
/// counter of serial numbers. It owns no port: the driver that does hands
/// the session what it read.
#[derive(Debug)]
pub struct CryomechApiSmdp {
    read_timeout: usize,
    baud: u32,
    com_port: String,
    dev_addr: u8,
    max_framesize: usize,
    version: SmdpVersion,
    srlno: u8,
}

impl View for CryomechApiSmdp {
    type V = SessionView;

    closed spec fn view(&self) -> SessionView {
        SessionView {
            config: SessionConfig {
                read_timeout: self.read_timeout,
                baud: self.baud,
                com_port: self.com_port@,
                dev_addr: self.dev_addr,
                max_framesize: self.max_framesize,
                version: self.version,
            },
            srlno: self.srlno,
        }
    }
}

impl CryomechApiSmdp {
    /// A session never holds a serial number below 0x10.
    #[verifier::type_invariant]
    spec fn srlno_in_range(self) -> bool {
        self.srlno >= MIN_SRLNO
    }

    /// A session with the given settings. Its first serial number is 0x17.
    pub fn new(
        com_port: &str,
        baud: u32,
        read_timeout_ms: usize,
        dev_addr: u8,
        max_framesize: usize,
        version: SmdpVersion,
    ) -> (api: Self)
        ensures
            api@ == (SessionView {
                config: SessionConfig {
                    read_timeout: read_timeout_ms,
                    baud,
                    com_port: com_port@,
                    dev_addr,
                    max_framesize,
                    version,
                },
                srlno: FIRST_SRLNO,
            }),
    {
        Self {
            read_timeout: read_timeout_ms,
            baud,
            com_port: com_port.to_owned(),
            dev_addr,
            max_framesize,
            version,
            srlno: FIRST_SRLNO,
        }
    }

    /// In ms
    pub fn read_timeout(&self) -> (ms: usize)
        ensures
            ms == self@.config.read_timeout,
    {
        self.read_timeout
    }

    /// Name of the serial port.
    pub fn com_port(&self) -> (port: &str)
        ensures
            port@ == self@.config.com_port,
    {
        self.com_port.as_str()
    }

    /// Baud rate of the link.
    pub fn baud(&self) -> (baud: u32)
        ensures
            baud == self@.config.baud,
    {
        self.baud
    }

    /// Address of the device.
    pub fn device_addr(&self) -> (addr: u8)
        ensures
            addr == self@.config.dev_addr,
    {
        self.dev_addr
    }

    /// Largest frame that the link accepts, in bytes.
    pub fn max_framesize(&self) -> (size: usize)
        ensures
            size == self@.config.max_framesize,
    {
        self.max_framesize
    }

    /// Frame format of the link.
    pub fn version(&self) -> (version: SmdpVersion)
        ensures
            version == self@.config.version,
    {
        self.version
    }

    /// Increments SRLNO using appropriate logic (valid SRLNO: [16 - 255]).
    /// Returns the current value of the srlno for use.
    pub fn increment_srlno(&mut self) -> (ret: u8)
        ensures
            ret == old(self)@.srlno,
            ret >= MIN_SRLNO,
            final(self)@ == (SessionView { srlno: next_srlno(ret), ..old(self)@ }),
    {
        proof {
            use_type_invariant(&*self);
        }
        let ret = self.srlno;
        if self.srlno == u8::MAX {
            self.srlno = WRAPPED_SRLNO
        } else {
            self.srlno += 1;
        }
        ret
    }

    /// Opens one exchange: builds the request for a register, gives it the
    /// session's next serial number where the version has serial numbers,
    /// and fits it to the frame of the version. The driver writes the frame,
    /// reads one frame back, and hands what it got to [`Pending::finish`].
    pub fn comm_handler(&mut self, req_type: RequestType, hashval: u16, array_idx: u8) -> (out: (
        WireFrame,
        Pending,
    ))
        ensures
            out.0@ == request_frame(old(self)@, req_type, hashval, array_idx),
            out.1 == request_pending(old(self)@, req_type),
            final(self)@ == session_after_request(old(self)@),
    {
        let is_read = matches!(req_type, RequestType::Read);
        let mut cpkt = CPacketSmdp::new(self.dev_addr, None, req_type, hashval, array_idx);
        match self.version {
            SmdpVersion::V2 => {
                let req_smdp = UnkeyedFrame::from(cpkt);
                (WireFrame::Unkeyed(req_smdp), Pending { is_read, srlno: None })
            },
            SmdpVersion::V3Plus => {
                let srlno = self.increment_srlno();
                cpkt.set_srlno(srlno);
                let req_smdp = match KeyedFrame::try_from(cpkt) {
                    Ok(frame) => frame,
                    Err(_) => unreached(),
                };
                (WireFrame::Keyed(req_smdp), Pending { is_read, srlno: Some(srlno) })
            },
        }
    }
}

/// Builder for the SMDP session.
#[derive(Debug)]
pub struct CryomechApiSmdpBuilder {
    read_timeout: usize,
    baud: u32,
    com_port: String,
    dev_addr: u8,
    max_framesize: usize,
    version: SmdpVersion,
}

impl View for CryomechApiSmdpBuilder {
    type V = SessionConfig;

    closed spec fn view(&self) -> SessionConfig {
        SessionConfig {
            read_timeout: self.read_timeout,
            baud: self.baud,
            com_port: self.com_port@,
            dev_addr: self.dev_addr,
            max_framesize: self.max_framesize,
            version: self.version,
        }
    }
}

impl CryomechApiSmdpBuilder {
    /// A builder for a session on the given port, with every other setting
    /// at its default: 115200 baud, 80 ms read timeout, device address 0x10,
    /// frames of at most 64 bytes, and the frame format without serial
    /// number.
    pub fn new(com_port: &str) -> (builder: Self)
        ensures
            builder@ == (SessionConfig {
                read_timeout: DEFAULT_READ_TIMEOUT_MS,
                baud: DEFAULT_BAUD,
                com_port: com_port@,
                dev_addr: DEFAULT_DEVICE_ADDR,
                max_framesize: DEFAULT_MAX_FRAMESIZE,
                version: SmdpVersion::V2,
            }),
    {
        Self {
            read_timeout: DEFAULT_READ_TIMEOUT_MS,
            baud: DEFAULT_BAUD,
            com_port: com_port.to_owned(),
            dev_addr: DEFAULT_DEVICE_ADDR,
            max_framesize: DEFAULT_MAX_FRAMESIZE,
            version: SmdpVersion::V2,
        }
    }

    /// Sets the read timeout, in milliseconds.
    pub fn read_timeout_ms(self, timeout: usize) -> (builder: Self)
        ensures
            builder@ == (SessionConfig { read_timeout: timeout, ..self@ }),
    {
        let mut builder = self;
        builder.read_timeout = timeout;
        builder
    }

    /// Sets the address of the device.
    pub fn device_addr(self, addr: u8) -> (builder: Self)
        ensures
            builder@ == (SessionConfig { dev_addr: addr, ..self@ }),
    {
        let mut builder = self;
        builder.dev_addr = addr;
        builder
    }

    /// Sets the frame format.
    pub fn version(self, version: SmdpVersion) -> (builder: Self)
        ensures
            builder@ == (SessionConfig { version, ..self@ }),
    {
        let mut builder = self;
        builder.version = version;
        builder
    }

    /// Sets the baud rate.
    pub fn baud(self, baud: u32) -> (builder: Self)
        ensures
            builder@ == (SessionConfig { baud, ..self@ }),
    {
        let mut builder = self;
        builder.baud = baud;
        builder
    }

    /// Sets the largest frame, in bytes.
    pub fn max_framesize(self, size: usize) -> (builder: Self)
        ensures
            builder@ == (SessionConfig { max_framesize: size, ..self@ }),
    {
        let mut builder = self;
        builder.max_framesize = size;
        builder
    }

    /// The session with the settings of the builder. Its first serial number
    /// is 0x17.
    pub fn build(self) -> (api: CryomechApiSmdp)
        ensures
            api@ == (SessionView { config: self@, srlno: FIRST_SRLNO }),
    {
        CryomechApiSmdp::new(
            self.com_port.as_str(),
            self.baud,
            self.read_timeout,
            self.dev_addr,
            self.max_framesize,
            self.version,
        )
    }
}

} // verus!
