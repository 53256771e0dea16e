use vstd::prelude::*;

use crate::config::SensorConfig;
use crate::helper::{text_is, AppError};

verus! {

/// Register that receives the controller's stop pattern.
pub const STOP_REGISTER: u16 = 0;

/// Stop pattern: bit 3 of the control register.
pub const STOP_VALUE: u16 = 0b00001000;

/// Payload of a write command on the wire.
#[derive(Debug)]
pub struct WriteData {
    pub register: u16,
    pub value: u16,
}

/// One reading of one sensor, as published upstream.
#[derive(Debug)]
pub struct ModbusData {
    pub sensor_id: String,
    pub register: String,
    pub time: String,
    pub value: u16,
    pub key: String,
    pub s_type: String,
    pub r_type: String,
}

/// How the device link interprets an address span.
#[derive(Clone, Copy, Debug, PartialEq, Eq, Structural)]
pub enum AddressingKind {
    /// Holding registers, one 16-bit word each.
    Register,
    /// Single-bit coils.
    Coil,
}

/// One request on the device link.
#[derive(Clone, Copy, Debug, PartialEq, Eq, Structural)]
pub enum DeviceRequest {
    ReadHoldingRegisters { start: u16, count: u16 },
    ReadCoils { start: u16, count: u16 },
    WriteSingleRegister { address: u16, value: u16 },
    WriteSingleCoil { address: u16, on: bool },
}

/// `"REG"` selects holding registers; any other text selects coils.
pub open spec fn kind_of(r_type: Seq<char>) -> AddressingKind {
    if r_type == "REG"@ {
        AddressingKind::Register
    } else {
        AddressingKind::Coil
    }
}

/// The coil state that a written value stands for: `0` is off, anything else on.
pub open spec fn coil_of(value: u16) -> bool {
    value != 0
}

/// The reading that a coil state stands for.
pub open spec fn value_of_coil(on: bool) -> u16 {
    if on {
        1
    } else {
        0
    }
}

/// The request that writes `value` to `register` in the given addressing.
pub open spec fn write_of(register: u16, value: u16, r_type: Seq<char>) -> DeviceRequest {
    match kind_of(r_type) {
        AddressingKind::Register => DeviceRequest::WriteSingleRegister { address: register, value },
        AddressingKind::Coil => DeviceRequest::WriteSingleCoil { address: register, on: coil_of(value) },
    }
}

/// The request that reads the span `start`, `end` in the given addressing.
pub open spec fn read_of(start: u16, end: u16, r_type: Seq<char>) -> DeviceRequest {
    match kind_of(r_type) {
        AddressingKind::Register => DeviceRequest::ReadHoldingRegisters { start, count: end },
        AddressingKind::Coil => DeviceRequest::ReadCoils { start, count: end },
    }
}

/// The value of a register read: its first word, if any.
pub open spec fn register_reading(words: Seq<u16>) -> Option<u16> {
    if words.len() > 0 {
        Some(words[0])
    } else {
        None
    }
}

/// The value of a coil read: its first bit as `0` or `1`, if any.
pub open spec fn coil_reading(bits: Seq<bool>) -> Option<u16> {
    if bits.len() > 0 {
        Some(value_of_coil(bits[0]))
    } else {
        None
    }
}

/// Which addressing `r_type` selects.
pub fn addressing_kind(r_type: &String) -> (k: AddressingKind)
    ensures
        k == kind_of(r_type@),
{
    if text_is(r_type, "REG") {
        AddressingKind::Register
    } else {
        AddressingKind::Coil
    }
}

/// The reading for a coil state: `1` for on, `0` for off.
pub fn coil_value(on: bool) -> (r: u16)
    ensures
        r == value_of_coil(on),
{
    if on {
        1
    } else {
        0
    }
}

/// The request that stops the controller.
pub fn stop_request() -> (r: DeviceRequest)
    ensures
        r == (DeviceRequest::WriteSingleRegister { address: STOP_REGISTER, value: STOP_VALUE }),
{
    DeviceRequest::WriteSingleRegister { address: STOP_REGISTER, value: STOP_VALUE }
}

/// The request that writes `value` to `register`; on a coil, `0` writes off
/// and any other value on.
pub fn write_request(register: u16, value: u16, r_type: &String) -> (r: DeviceRequest)
    ensures
        r == write_of(register, value, r_type@),
{
    match addressing_kind(r_type) {
        AddressingKind::Register => DeviceRequest::WriteSingleRegister { address: register, value },
        AddressingKind::Coil => DeviceRequest::WriteSingleCoil { address: register, on: value != 0 },
    }
}

/// The request that reads the span `start_register`, `end_register` in the
/// addressing that `r_type` selects.
pub fn read_request(start_register: u16, end_register: u16, r_type: &String) -> (r: DeviceRequest)
    ensures
        r == read_of(start_register, end_register, r_type@),
{
    match addressing_kind(r_type) {
        AddressingKind::Register => DeviceRequest::ReadHoldingRegisters { start: start_register, count: end_register },
        AddressingKind::Coil => DeviceRequest::ReadCoils { start: start_register, count: end_register },
    }
}

/// The value of a holding-register read: its first word. An empty reply is
/// a device error.
pub fn decode_registers(words: &Vec<u16>) -> (r: Result<u16, AppError>)
    ensures
        r is Ok <==> register_reading(words@) is Some,
        r matches Ok(v) ==> register_reading(words@) == Some(v),
        r matches Err(e) ==> e is PlcError,
{
    if words.len() > 0 {
        Ok(words[0])
    } else {
        Err(AppError::PlcError("empty register reply".to_owned()))
    }
}

/// The value of a coil read: `1` if its first bit is on, else `0`. An empty
/// reply is a device error.
pub fn decode_coils(bits: &Vec<bool>) -> (r: Result<u16, AppError>)
    ensures
        r is Ok <==> coil_reading(bits@) is Some,
        r matches Ok(v) ==> coil_reading(bits@) == Some(v),
        r matches Err(e) ==> e is PlcError,
{
    if bits.len() > 0 {
        Ok(coil_value(bits[0]))
    } else {
        Err(AppError::PlcError("empty coil reply".to_owned()))
    }
}

/// A model of the controller's memory, for stating what reads and writes do.
pub struct DeviceImage {
    pub registers: spec_fn(u16) -> u16,
    pub coils: spec_fn(u16) -> bool,
}

/// The memory after a request; reads change nothing.
pub open spec fn apply_request(d: DeviceImage, req: DeviceRequest) -> DeviceImage {
    match req {
        DeviceRequest::WriteSingleRegister { address, value } => DeviceImage {
            registers: |a: u16|
                if a == address {
                    value
                } else {
                    (d.registers)(a)
                },
            coils: d.coils,
        },
        DeviceRequest::WriteSingleCoil { address, on } => DeviceImage {
            registers: d.registers,
            coils: |a: u16|
                if a == address {
                    on
                } else {
                    (d.coils)(a)
                },
        },
        _ => d,
    }
}

/// The words a holding-register read of `count` from `start` returns.
pub open spec fn register_reply(d: DeviceImage, start: u16, count: u16) -> Seq<u16> {
    Seq::new(count as nat, |i: int| (d.registers)(((start as int + i) % 0x10000) as u16))
}

/// The bits a coil read of `count` from `start` returns.
pub open spec fn coil_reply(d: DeviceImage, start: u16, count: u16) -> Seq<bool> {
    Seq::new(count as nat, |i: int| (d.coils)(((start as int + i) % 0x10000) as u16))
}

/// The value that reading `sensor` on memory `d` yields, if the reply holds any.
pub open spec fn point_reading(d: DeviceImage, sensor: SensorConfig) -> Option<u16> {
    match kind_of(sensor.r_type@) {
        AddressingKind::Register => register_reading(
            register_reply(d, sensor.start_register, sensor.end_register),
        ),
        AddressingKind::Coil => coil_reading(coil_reply(d, sensor.start_register, sensor.end_register)),
    }
}

/// On a coil-addressed point, writing `0` and reading back yields `0`, and
/// writing any other value and reading back yields `1`.
pub proof fn lemma_coil_round_trip(d: DeviceImage, sensor: SensorConfig, value: u16)
    requires
        kind_of(sensor.r_type@) == AddressingKind::Coil,
        sensor.end_register >= 1,
    ensures
        point_reading(
            apply_request(d, write_of(sensor.start_register, value, sensor.r_type@)),
            sensor,
        ) == Some(if value == 0 { 0u16 } else { 1u16 }),
{
    let d2 = apply_request(d, write_of(sensor.start_register, value, sensor.r_type@));
    let bits = coil_reply(d2, sensor.start_register, sensor.end_register);
    assert(((sensor.start_register as int + 0) % 0x10000) as u16 == sensor.start_register);
    assert(bits[0] == coil_of(value));
}

} // verus!
