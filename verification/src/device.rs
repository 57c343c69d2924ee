//! The operations of the device, step by step.
//!
//! An operation on a register is one exchange, or, for a write that the
//! device acknowledges before it has acted on it, an exchange, a settle
//! delay and a confirming read. The session decides each step; the driver
//! carries it out and reports back.

use vstd::prelude::*;

use crate::api::exchange_outcome;
use crate::api::request_frame;
use crate::api::request_pending;
use crate::api::session_after_request;
use crate::api::CryomechApiSmdp;
use crate::api::Pending;
use crate::api::Reply;
use crate::api::ReplyView;
use crate::api::ResponseCode;
use crate::api::SessionView;
use crate::error::CResult;
use crate::error::Error;
use crate::error::ErrorView;
use crate::error::result_view;
use crate::packet::FrameView;
use crate::packet::RequestType;
use crate::packet::WireFrame;
use crate::packet::payload_data;
use crate::packet::request_payload;
use crate::packet::SMDP_OPCODE;
use crate::registers::decoded;
use crate::registers::descriptor_of;
use crate::registers::request_of;
use crate::registers::Decode;
use crate::registers::Mode;
use crate::registers::Reading;
use crate::registers::Register;
use crate::registers::NO_DATA;

verus! {

/// Settle delay between a write that changes the state of the compressor and
/// the read that confirms it, in milliseconds.
pub const SETTLE_MS: u64 = 1000;

/// What is to be done with the reply that an exchange waits for.
#[derive(Debug, Clone, Copy, PartialEq, Eq)]
pub enum Stage {
    /// The reply to a read: its data is decoded by this rule.
    Decoding(Decode),
    /// The reply to a write that needs no confirmation.
    Writing,
    /// The reply to a write after which the compressor is to be in the given
    /// state: once acknowledged, the state is confirmed after a delay.
    Commanding(bool),
    /// The reply to the read that confirms the given state of the
    /// compressor.
    Confirming(bool),
}

/// An exchange that waits for its reply.
#[derive(Debug, Clone, Copy, PartialEq, Eq)]
pub struct Awaiting {
    pub stage: Stage,
    pub pending: Pending,
}

/// A write that waits out its settle delay; `expect_on` is the state of the
/// compressor that the confirming read looks for.
#[derive(Debug, Clone, Copy, PartialEq, Eq)]
pub struct Settling {
    pub expect_on: bool,
}

/// The next thing for the driver to do.
#[derive(Debug)]
pub enum Step {
    /// Write this frame, read one frame back, and report the reply.
    Exchange(WireFrame, Awaiting),
    /// Wait this many milliseconds, then report that the delay is over.
    Settle(u64, Settling),
    /// The operation is over, with this result.
    Done(CResult<Reading>),
}

/// Mathematical value of a [`Step`].
pub enum StepView {
    Exchange(FrameView, Awaiting),
    Settle(u64, Settling),
    Done(Result<Reading, ErrorView>),
}

impl View for Step {
    type V = StepView;

    open spec fn view(&self) -> StepView {
        match self {
            Step::Exchange(frame, awaiting) => StepView::Exchange(frame@, *awaiting),
            Step::Settle(millis, settling) => StepView::Settle(*millis, *settling),
            Step::Done(result) => StepView::Done(result_view(*result)),
        }
    }
}

/// What is to be done with the reply to the first request of a register.
pub open spec fn first_stage(mode: Mode) -> Stage {
    match mode {
        Mode::Read(decode) => Stage::Decoding(decode),
        Mode::Write { confirm: None, .. } => Stage::Writing,
        Mode::Write { confirm: Some(expect_on), .. } => Stage::Commanding(expect_on),
    }
}

/// The exchange that a session opens for a request at a stage.
pub open spec fn exchange_step(
    session: SessionView,
    stage: Stage,
    req_type: RequestType,
    hashval: u16,
    array_idx: u8,
) -> StepView {
    StepView::Exchange(
        request_frame(session, req_type, hashval, array_idx),
        Awaiting { stage, pending: request_pending(session, req_type) },
    )
}

/// The first step of an operation on a register: the exchange of the request
/// that the register map gives for it.
pub open spec fn begin_step(session: SessionView, register: Register) -> StepView {
    let d = descriptor_of(register);
    exchange_step(session, first_stage(d.mode), request_of(d.mode), d.hashval, d.array_idx)
}

/// The step after a settle delay: the read of the compressor's running flag.
pub open spec fn confirm_step(session: SessionView, settling: Settling) -> StepView {
    let d = descriptor_of(Register::CompOn);
    exchange_step(
        session,
        Stage::Confirming(settling.expect_on),
        RequestType::Read,
        d.hashval,
        d.array_idx,
    )
}

/// Whether the running flag that a confirming read brought back shows the
/// state that was asked for. A reply without data is a format error.
pub open spec fn confirmed(expect_on: bool, data: Option<u32>) -> Result<Reading, ErrorView> {
    match data {
        None => Err(ErrorView::InvalidFormat(NO_DATA@)),
        Some(raw) => Ok(Reading::Confirmed((raw == 1) == expect_on)),
    }
}

/// The step after a reply. An exchange that failed ends the operation with
/// its error. Otherwise a read ends with its decoded data, a plain write
/// ends as written, a write that needs confirmation goes on to the settle
/// delay, and a confirming read ends with whether the state was seen.
pub open spec fn reply_step(awaiting: Awaiting, reply: ReplyView) -> StepView {
    match exchange_outcome(awaiting.pending, reply) {
        Err(e) => StepView::Done(Err(e)),
        Ok(data) => match awaiting.stage {
            Stage::Decoding(decode) => StepView::Done(decoded(decode, data)),
            Stage::Writing => StepView::Done(Ok(Reading::Written)),
            Stage::Commanding(expect_on) => StepView::Settle(SETTLE_MS, Settling { expect_on }),
            Stage::Confirming(expect_on) => StepView::Done(confirmed(expect_on, data)),
        },
    }
}

impl Mode {
    /// What is to be done with the reply to the first request of a register
    /// of this mode.
    pub fn first_stage(self) -> (stage: Stage)
        ensures
            stage == first_stage(self),
    {
        match self {
            Mode::Read(decode) => Stage::Decoding(decode),
            Mode::Write { value: _, confirm: None } => Stage::Writing,
            Mode::Write { value: _, confirm: Some(expect_on) } => Stage::Commanding(expect_on),
        }
    }
}

impl CryomechApiSmdp {
    /// Begins an operation on a register: a read of a quantity, or one of
    /// the commands. The step is the exchange of the first request.
    pub fn begin(&mut self, register: Register) -> (step: Step)
        ensures
            step@ == begin_step(old(self)@, register),
            final(self)@ == session_after_request(old(self)@),
    {
        let d = register.descriptor();
        let (frame, pending) = self.comm_handler(d.mode.request(), d.hashval, d.array_idx);
        Step::Exchange(frame, Awaiting { stage: d.mode.first_stage(), pending })
    }

    /// Goes on after the settle delay: the step is the exchange that reads
    /// the compressor's running flag.
    pub fn settled(&mut self, settling: Settling) -> (step: Step)
        ensures
            step@ == confirm_step(old(self)@, settling),
            final(self)@ == session_after_request(old(self)@),
    {
        let d = Register::CompOn.descriptor();
        let (frame, pending) = self.comm_handler(RequestType::Read, d.hashval, d.array_idx);
        Step::Exchange(frame, Awaiting { stage: Stage::Confirming(settling.expect_on), pending })
    }
}

impl Awaiting {
    /// Goes on after the reply to an exchange. No reply opens another
    /// exchange at once, so the session is not touched.
    pub fn reply(self, reply: Reply) -> (step: Step)
        ensures
            step@ == reply_step(self, reply@),
    {
        match self.pending.finish(reply) {
            Err(e) => Step::Done(Err(e)),
            Ok(data) => match self.stage {
                Stage::Decoding(decode) => Step::Done(decode.decode(data)),
                Stage::Writing => Step::Done(Ok(Reading::Written)),
                Stage::Commanding(expect_on) => Step::Settle(SETTLE_MS, Settling { expect_on }),
                Stage::Confirming(expect_on) => match data {
                    Some(raw) => Step::Done(Ok(Reading::Confirmed((raw == 1) == expect_on))),
                    None => Step::Done(Err(Error::InvalidFormat(NO_DATA.to_owned()))),
                },
            },
        }
    }
}

/// Starting the compressor, step by step. The first request writes 0x0001
/// to register 0xD501, index 0x00. Once the device acknowledges it, the
/// operation waits one second. It then reads register 0x5F95, index 0x00,
/// and reports success exactly when the value read is 1. Stopping writes
/// 0x0000 to register 0xC598 and reports success exactly when the value
/// read is not 1.
pub proof fn lemma_command_procedure(
    session: SessionView,
    later: SessionView,
    start: bool,
    ack: FrameView,
    flag: FrameView,
)
    requires
        ack.srlno == request_frame(session, RequestType::Read, 0, 0).srlno,
        flag.srlno == request_frame(later, RequestType::Read, 0, 0).srlno,
        flag.data.len() == 8,
    ensures
        ({
            let register = if start {
                Register::StartCompressor
            } else {
                Register::StopCompressor
            };
            let hashval: u16 = if start {
                0xD501
            } else {
                0xC598
            };
            let value: u32 = if start {
                1
            } else {
                0
            };
            &&& begin_step(session, register) matches StepView::Exchange(frame, awaiting)
            &&& frame.addr == session.config.dev_addr
            &&& frame.cmd_rsp == SMDP_OPCODE
            &&& frame.data == request_payload(RequestType::Write(value), hashval, 0x00)
            &&& reply_step(awaiting, ReplyView::Received(ResponseCode::Success, ack))
                == StepView::Settle(1000, Settling { expect_on: start })
            &&& confirm_step(later, Settling { expect_on: start }) matches StepView::Exchange(
                query,
                confirming,
            )
            &&& query.data == request_payload(RequestType::Read, 0x5F95, 0x00)
            &&& reply_step(confirming, ReplyView::Received(ResponseCode::Success, flag))
                == StepView::Done(
                Ok(Reading::Confirmed((payload_data(flag.data)->Ok_0 == 1) == start)),
            )
        }),
{
}

/// An operation that reads a register ends with a reading of the kind that
/// the register map gives for it, or with an error; it never waits for a
/// settle delay.
pub proof fn lemma_read_ends_with_its_kind(
    session: SessionView,
    register: Register,
    reply: ReplyView,
)
    requires
        descriptor_of(register).mode is Read,
    ensures
        begin_step(session, register) matches StepView::Exchange(_, awaiting) && (reply_step(
            awaiting,
            reply,
        ) matches StepView::Done(result) && (result matches Ok(reading) ==> match descriptor_of(
            register,
        ).mode->Read_0 {
            Decode::Raw => reading is Raw,
            Decode::Flag => reading is Flag,
            Decode::Tenths => reading is Tenths,
        })),
{
}

} // verus!
