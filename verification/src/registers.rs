//! The register map of the compressor: where each quantity lives in the
//! device's dictionary, and how its raw value is read.

use vstd::prelude::*;

use crate::error::CResult;
use crate::error::Error;
use crate::error::ErrorView;
use crate::error::result_view;
use crate::packet::RequestType;

verus! {

/// The quantities and commands of the compressor, by name.
#[derive(Debug, Clone, Copy, PartialEq, Eq)]
pub enum Register {
    /// Firmware checksum.
    FwChecksum,
    /// True if nonvolatile memory was lost.
    MemLoss,
    /// CPU temperature (°C).
    CpuTemp,
    /// True if clock battery OK.
    ClockBattOk,
    /// True if clock battery low.
    ClockBattLow,
    /// Elapsed compressor minutes.
    CompMinutes,
    /// Compressor motor current draw, in Amps.
    MotorCurrentAmps,
    /// In °C.
    InputWaterTemp,
    /// In °C.
    OutputWaterTemp,
    /// In °C.
    HeliumTemp,
    /// In °C.
    OilTemp,
    /// In °C.
    MinInputWaterTemp,
    /// In °C.
    MinOutputWaterTemp,
    /// In °C.
    MinHeliumTemp,
    /// In °C.
    MinOilTemp,
    /// In °C.
    MaxInputWaterTemp,
    /// In °C.
    MaxOutputWaterTemp,
    /// In °C.
    MaxHeliumTemp,
    /// In °C.
    MaxOilTemp,
    /// True if a temperature sensor has failed.
    TempSensorFail,
    /// True if a pressure sensor has failed.
    PressureSensorFail,
    /// In PSI Absolute.
    HighSidePressure,
    /// In PSI Absolute.
    LowSidePressure,
    /// In PSI Absolute.
    MaxHighSidePressure,
    /// In PSI Absolute.
    MaxLowSidePressure,
    /// In PSI Absolute.
    MinHighSidePressure,
    /// In PSI Absolute.
    MinLowSidePressure,
    /// In PSI Absolute.
    AvgHighSidePressure,
    /// In PSI Absolute.
    AvgLowSidePressure,
    /// Also known as "bounce". In PSI Absolute.
    HighSidePressureDeriv,
    /// Average difference in High/Low side pressures in PSI Absolute.
    AvgDeltaPressure,
    /// True if the compressor is actively running.
    CompOn,
    /// True indicates one or more active errors or warnings.
    ErrCodeStatus,
    /// Clears the min/max values for both pressure and temp.
    ClearPressTempMinMax,
    /// Activates the compressor.
    StartCompressor,
    /// Deactivates the compressor.
    StopCompressor,
}

/// How the raw 32-bit value of a register is read.
#[derive(Debug, Clone, Copy, PartialEq, Eq)]
pub enum Decode {
    /// The value as it is: a counter or a checksum.
    Raw,
    /// A flag: true where the value is 1.
    Flag,
    /// A quantity with one decimal place: the value counts tenths.
    Tenths,
}

/// What can be done with a register.
#[derive(Debug, Clone, Copy, PartialEq, Eq)]
pub enum Mode {
    /// The register is read, and its value decoded by this rule.
    Read(Decode),
    /// The register is written with `value`. Where `confirm` holds a state,
    /// the device acknowledges the write before it has acted on it: after a
    /// settle delay the compressor's running flag is read and held against
    /// that state.
    Write { value: u32, confirm: Option<bool> },
}

/// Where a register lives and what can be done with it.
#[derive(Debug, Clone, Copy, PartialEq, Eq)]
pub struct RegisterDescriptor {
    pub hashval: u16,
    pub array_idx: u8,
    pub mode: Mode,
}

/// The descriptor of a register that is read.
pub open spec fn read_only(hashval: u16, array_idx: u8, decode: Decode) -> RegisterDescriptor {
    RegisterDescriptor { hashval, array_idx, mode: Mode::Read(decode) }
}

/// The descriptor of a register that is written.
pub open spec fn write_only(hashval: u16, value: u32, confirm: Option<bool>) -> RegisterDescriptor {
    RegisterDescriptor { hashval, array_idx: 0x00, mode: Mode::Write { value, confirm } }
}

/// The register map.
pub open spec fn descriptor_of(register: Register) -> RegisterDescriptor {
    match register {
        Register::FwChecksum => read_only(0x2B0D, 0x00, Decode::Raw),
        Register::MemLoss => read_only(0x801A, 0x00, Decode::Flag),
        Register::CpuTemp => read_only(0x3574, 0x00, Decode::Tenths),
        Register::ClockBattOk => read_only(0xA37A, 0x00, Decode::Flag),
        Register::ClockBattLow => read_only(0x0B8B, 0x00, Decode::Flag),
        Register::CompMinutes => read_only(0x454C, 0x00, Decode::Raw),
        Register::MotorCurrentAmps => read_only(0x638B, 0x00, Decode::Raw),
        Register::InputWaterTemp => read_only(0x0D8F, 0x00, Decode::Tenths),
        Register::OutputWaterTemp => read_only(0x0D8F, 0x01, Decode::Tenths),
        Register::HeliumTemp => read_only(0x0D8F, 0x02, Decode::Tenths),
        Register::OilTemp => read_only(0x0D8F, 0x03, Decode::Tenths),
        Register::MinInputWaterTemp => read_only(0x6E58, 0x00, Decode::Tenths),
        Register::MinOutputWaterTemp => read_only(0x6E58, 0x01, Decode::Tenths),
        Register::MinHeliumTemp => read_only(0x6E58, 0x02, Decode::Tenths),
        Register::MinOilTemp => read_only(0x6E58, 0x03, Decode::Tenths),
        Register::MaxInputWaterTemp => read_only(0x8A1C, 0x00, Decode::Tenths),
        Register::MaxOutputWaterTemp => read_only(0x8A1C, 0x01, Decode::Tenths),
        Register::MaxHeliumTemp => read_only(0x8A1C, 0x02, Decode::Tenths),
        Register::MaxOilTemp => read_only(0x8A1C, 0x03, Decode::Tenths),
        Register::TempSensorFail => read_only(0x6E2D, 0x00, Decode::Flag),
        Register::PressureSensorFail => read_only(0xF82B, 0x00, Decode::Flag),
        Register::HighSidePressure => read_only(0xAA50, 0x00, Decode::Tenths),
        Register::LowSidePressure => read_only(0xAA50, 0x01, Decode::Tenths),
        Register::MaxHighSidePressure => read_only(0x7A62, 0x00, Decode::Tenths),
        Register::MaxLowSidePressure => read_only(0x7A62, 0x01, Decode::Tenths),
        Register::MinHighSidePressure => read_only(0x5E0B, 0x00, Decode::Tenths),
        Register::MinLowSidePressure => read_only(0x5E0B, 0x01, Decode::Tenths),
        Register::AvgHighSidePressure => read_only(0x7E90, 0x00, Decode::Tenths),
        Register::AvgLowSidePressure => read_only(0xBB94, 0x00, Decode::Tenths),
        Register::HighSidePressureDeriv => read_only(0x66FA, 0x00, Decode::Tenths),
        Register::AvgDeltaPressure => read_only(0x319C, 0x00, Decode::Tenths),
        Register::CompOn => read_only(0x5F95, 0x00, Decode::Flag),
        Register::ErrCodeStatus => read_only(0x65A4, 0x00, Decode::Flag),
        Register::ClearPressTempMinMax => write_only(0xD3DB, 0x0001, None),
        Register::StartCompressor => write_only(0xD501, 0x0001, Some(true)),
        Register::StopCompressor => write_only(0xC598, 0x0000, Some(false)),
    }
}

/// The request that a register's mode asks for: a read, or a write of the
/// mode's value.
pub open spec fn request_of(mode: Mode) -> RequestType {
    match mode {
        Mode::Read(_) => RequestType::Read,
        Mode::Write { value, .. } => RequestType::Write(value),
    }
}

/// What an operation on a register yields.
#[derive(Debug, Clone, Copy, PartialEq, Eq)]
pub enum Reading {
    /// A raw value.
    Raw(u32),
    /// A flag.
    Flag(bool),
    /// A quantity in tenths of its unit: 250 stands for 25.0.
    Tenths(u32),
    /// The device acknowledged a write.
    Written,
    /// The device acknowledged a write, and after the settle delay the
    /// compressor was, or was not, in the state that was asked for.
    Confirmed(bool),
}

/// Message of the error for a read that came back without data.
pub const NO_DATA: &'static str = "Expected data in response, got none.";

/// The reading that a decode rule makes of the data of a reply. A reply
/// without data is a format error.
pub open spec fn decoded(decode: Decode, data: Option<u32>) -> Result<Reading, ErrorView> {
    match data {
        None => Err(ErrorView::InvalidFormat(NO_DATA@)),
        Some(raw) => Ok(
            match decode {
                Decode::Raw => Reading::Raw(raw),
                Decode::Flag => Reading::Flag(raw == 1),
                Decode::Tenths => Reading::Tenths(raw),
            },
        ),
    }
}

impl Decode {
    /// Applies the rule to the data of a reply.
    pub fn decode(self, data: Option<u32>) -> (res: CResult<Reading>)
        ensures
            result_view(res) == decoded(self, data),
    {
        match data {
            None => Err(Error::InvalidFormat(NO_DATA.to_owned())),
            Some(raw) => Ok(
                match self {
                    Decode::Raw => Reading::Raw(raw),
                    Decode::Flag => Reading::Flag(raw == 1),
                    Decode::Tenths => Reading::Tenths(raw),
                },
            ),
        }
    }
}

/// Splits a quantity counted in tenths at the decimal point: the whole units
/// and the one digit after the point. 250 tenths are 25 units and 0 tenths.
pub fn split_tenths(tenths: u32) -> (parts: (u32, u8))
    ensures
        parts.0 == tenths / 10,
        parts.1 == tenths % 10,
        parts.0 * 10 + parts.1 == tenths,
{
    (tenths / 10, (tenths % 10) as u8)
}

impl Mode {
    /// The request that the mode asks for.
    pub fn request(self) -> (req_type: RequestType)
        ensures
            req_type == request_of(self),
    {
        match self {
            Mode::Read(_) => RequestType::Read,
            Mode::Write { value, .. } => RequestType::Write(value),
        }
    }
}

impl RegisterDescriptor {
    fn read_only(hashval: u16, array_idx: u8, decode: Decode) -> (d: Self)
        ensures
            d == read_only(hashval, array_idx, decode),
    {
        RegisterDescriptor { hashval, array_idx, mode: Mode::Read(decode) }
    }

    fn write_only(hashval: u16, value: u32, confirm: Option<bool>) -> (d: Self)
        ensures
            d == write_only(hashval, value, confirm),
    {
        RegisterDescriptor { hashval, array_idx: 0x00, mode: Mode::Write { value, confirm } }
    }
}

impl Register {
    /// Looks the register up in the register map.
    pub fn descriptor(self) -> (d: RegisterDescriptor)
        ensures
            d == descriptor_of(self),
    {
        match self {
            Register::FwChecksum => RegisterDescriptor::read_only(0x2B0D, 0x00, Decode::Raw),
            Register::MemLoss => RegisterDescriptor::read_only(0x801A, 0x00, Decode::Flag),
            Register::CpuTemp => RegisterDescriptor::read_only(0x3574, 0x00, Decode::Tenths),
            Register::ClockBattOk => RegisterDescriptor::read_only(0xA37A, 0x00, Decode::Flag),
            Register::ClockBattLow => RegisterDescriptor::read_only(0x0B8B, 0x00, Decode::Flag),
            Register::CompMinutes => RegisterDescriptor::read_only(0x454C, 0x00, Decode::Raw),
            Register::MotorCurrentAmps => RegisterDescriptor::read_only(0x638B, 0x00, Decode::Raw),
            Register::InputWaterTemp => RegisterDescriptor::read_only(0x0D8F, 0x00, Decode::Tenths),
            Register::OutputWaterTemp => RegisterDescriptor::read_only(0x0D8F, 0x01, Decode::Tenths),
            Register::HeliumTemp => RegisterDescriptor::read_only(0x0D8F, 0x02, Decode::Tenths),
            Register::OilTemp => RegisterDescriptor::read_only(0x0D8F, 0x03, Decode::Tenths),
            Register::MinInputWaterTemp => RegisterDescriptor::read_only(0x6E58, 0x00, Decode::Tenths),
            Register::MinOutputWaterTemp => RegisterDescriptor::read_only(0x6E58, 0x01, Decode::Tenths),
            Register::MinHeliumTemp => RegisterDescriptor::read_only(0x6E58, 0x02, Decode::Tenths),
            Register::MinOilTemp => RegisterDescriptor::read_only(0x6E58, 0x03, Decode::Tenths),
            Register::MaxInputWaterTemp => RegisterDescriptor::read_only(0x8A1C, 0x00, Decode::Tenths),
            Register::MaxOutputWaterTemp => RegisterDescriptor::read_only(0x8A1C, 0x01, Decode::Tenths),
            Register::MaxHeliumTemp => RegisterDescriptor::read_only(0x8A1C, 0x02, Decode::Tenths),
            Register::MaxOilTemp => RegisterDescriptor::read_only(0x8A1C, 0x03, Decode::Tenths),
            Register::TempSensorFail => RegisterDescriptor::read_only(0x6E2D, 0x00, Decode::Flag),
            Register::PressureSensorFail => RegisterDescriptor::read_only(0xF82B, 0x00, Decode::Flag),
            Register::HighSidePressure => RegisterDescriptor::read_only(0xAA50, 0x00, Decode::Tenths),
            Register::LowSidePressure => RegisterDescriptor::read_only(0xAA50, 0x01, Decode::Tenths),
            Register::MaxHighSidePressure => RegisterDescriptor::read_only(0x7A62, 0x00, Decode::Tenths),
            Register::MaxLowSidePressure => RegisterDescriptor::read_only(0x7A62, 0x01, Decode::Tenths),
            Register::MinHighSidePressure => RegisterDescriptor::read_only(0x5E0B, 0x00, Decode::Tenths),
            Register::MinLowSidePressure => RegisterDescriptor::read_only(0x5E0B, 0x01, Decode::Tenths),
            Register::AvgHighSidePressure => RegisterDescriptor::read_only(0x7E90, 0x00, Decode::Tenths),
            Register::AvgLowSidePressure => RegisterDescriptor::read_only(0xBB94, 0x00, Decode::Tenths),
            Register::HighSidePressureDeriv => RegisterDescriptor::read_only(0x66FA, 0x00, Decode::Tenths),
            Register::AvgDeltaPressure => RegisterDescriptor::read_only(0x319C, 0x00, Decode::Tenths),
            Register::CompOn => RegisterDescriptor::read_only(0x5F95, 0x00, Decode::Flag),
            Register::ErrCodeStatus => RegisterDescriptor::read_only(0x65A4, 0x00, Decode::Flag),
            Register::ClearPressTempMinMax => RegisterDescriptor::write_only(0xD3DB, 0x0001, None),
            Register::StartCompressor => RegisterDescriptor::write_only(0xD501, 0x0001, Some(true)),
            Register::StopCompressor => RegisterDescriptor::write_only(0xC598, 0x0000, Some(false)),
        }
    }
}

} // verus!
