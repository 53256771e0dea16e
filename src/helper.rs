use vstd::prelude::*;

use crate::config::ChEvent;

verus! {

/// Errors of the agent core.
#[derive(Debug)]
pub enum AppError {
    /// A well-formed message whose content breaks a rule.
    ValidationError(String),
    /// A message that could not be decoded.
    DeserializationError(String),
    /// A read or write on the device link failed.
    PlcError(String),
    /// A publish or receive on the control channel failed.
    SocketIoError(String),
    /// The control channel's transport was lost; the registry is cleared on it.
    Disconnected,
    /// Anything else.
    InternalError(String),
}

impl AppError {
    /// The human-readable text of the error.
    pub fn message(&self) -> (r: String)
        ensures
            r@ == match self {
                AppError::ValidationError(m) => "Validation failed: "@ + m@,
                AppError::DeserializationError(m) => "Deserialization failed: "@ + m@,
                AppError::PlcError(m) => "PLC communication error: "@ + m@,
                AppError::SocketIoError(m) => "Socket.IO error: "@ + m@,
                AppError::Disconnected => "Socket.IO error: EngineIO Error"@,
                AppError::InternalError(m) => "Internal error: "@ + m@,
            },
    {
        match self {
            AppError::ValidationError(m) => String::from_str("Validation failed: ").concat(m.as_str()),
            AppError::DeserializationError(m) => String::from_str("Deserialization failed: ").concat(
                m.as_str(),
            ),
            AppError::PlcError(m) => String::from_str("PLC communication error: ").concat(m.as_str()),
            AppError::SocketIoError(m) => String::from_str("Socket.IO error: ").concat(m.as_str()),
            AppError::Disconnected => String::from_str("Socket.IO error: EngineIO Error"),
            AppError::InternalError(m) => String::from_str("Internal error: ").concat(m.as_str()),
        }
    }
}

/// An inbound message: a `type_of_event` tag and the fields of its `data`
/// object that were present.
#[derive(Debug)]
pub struct InboundMessage {
    pub type_of_event: String,
    pub data: InboundData,
}

/// The fields an inbound `data` object may carry. The wire's `register` is a
/// number in control messages and a label in registry messages; it lands in
/// `register` or `register_label` accordingly.
#[derive(Debug)]
pub struct InboundData {
    pub register: Option<u16>,
    pub value: Option<u16>,
    pub id: Option<String>,
    pub label: Option<String>,
    pub start_register: Option<u16>,
    pub end_register: Option<u16>,
    pub register_label: Option<String>,
    pub s_type: Option<String>,
    pub r_type: Option<String>,
}

/// The text of `o`, or `default` when it is absent.
pub open spec fn text_or(o: Option<String>, default: Seq<char>) -> Seq<char> {
    match o {
        Some(s) => s@,
        None => default,
    }
}

/// Whether `d` has what a write command needs.
pub open spec fn complete_write(d: InboundData) -> bool {
    d.register is Some && d.value is Some
}

/// Whether `d` has what an add or edit command needs.
pub open spec fn complete_sensor(d: InboundData) -> bool {
    d.id is Some && d.label is Some && d.start_register is Some && d.end_register is Some
}

/// The tags that are understood.
pub open spec fn known_tag(t: Seq<char>) -> bool {
    ||| t == "stop"@
    ||| t == "write"@
    ||| t == "health_check"@
    ||| t == "clean_up"@
    ||| t == "pause_agent"@
    ||| t == "add_sensor"@
    ||| t == "edit_sensor"@
    ||| t == "remove_sensor"@
}

/// Whether the fields of an add or edit command are those of `d`, with a
/// category of `"sensor"`, register addressing and an empty register label
/// where `d` gives none.
pub open spec fn sensor_fields_from(
    d: InboundData,
    id: String,
    label: String,
    start_register: u16,
    register: String,
    end_register: u16,
    s_type: String,
    r_type: String,
) -> bool {
    &&& d.id == Some(id)
    &&& d.label == Some(label)
    &&& d.start_register == Some(start_register)
    &&& d.end_register == Some(end_register)
    &&& register@ == text_or(d.register_label, ""@)
    &&& s_type@ == text_or(d.s_type, "sensor"@)
    &&& r_type@ == text_or(d.r_type, "REG"@)
}

/// Whether `ev` is the command that a message with tag `t` and data `d`
/// stands for, given that `t` is known and `d` complete for it.
pub open spec fn decodes_to(t: Seq<char>, d: InboundData, ev: ChEvent) -> bool {
    if t == "stop"@ {
        ev is Stop
    } else if t == "health_check"@ {
        ev is HealthCheck
    } else if t == "clean_up"@ {
        ev is CleanUp
    } else if t == "pause_agent"@ {
        ev is PauseAgent
    } else if t == "write"@ {
        ev matches ChEvent::Write { reg, val, r_type } && d.register == Some(reg) && d.value == Some(val)
            && r_type@ == text_or(d.r_type, "REG"@)
    } else if t == "remove_sensor"@ {
        ev matches ChEvent::RemoveSensor { id } && d.id == Some(id)
    } else if t == "add_sensor"@ {
        ev matches ChEvent::AddSensor { id, label, start_register, register, end_register, s_type, r_type }
            && sensor_fields_from(d, id, label, start_register, register, end_register, s_type, r_type)
    } else {
        ev matches ChEvent::EditSensor { id, label, start_register, register, end_register, s_type, r_type }
            && sensor_fields_from(d, id, label, start_register, register, end_register, s_type, r_type)
    }
}

/// Whether the message with tag `t` and data `d` lacks a field its command needs.
pub open spec fn incomplete(t: Seq<char>, d: InboundData) -> bool {
    ||| t == "write"@ && !complete_write(d)
    ||| t == "remove_sensor"@ && d.id is None
    ||| (t == "add_sensor"@ || t == "edit_sensor"@) && !complete_sensor(d)
}

/// The text of `o`, or `default` when it is absent.
fn take_text_or(o: Option<String>, default: &str) -> (r: String)
    ensures
        r@ == text_or(o, default@),
{
    match o {
        Some(s) => s,
        None => default.to_owned(),
    }
}

/// Turns an inbound message into a command. An unknown tag gives `Ok(None)`:
/// such messages are ignored. A known tag whose command lacks a field gives
/// a validation error.
pub fn decode_event(msg: InboundMessage) -> (r: Result<Option<ChEvent>, AppError>)
    ensures
        !known_tag(msg.type_of_event@) ==> r matches Ok(None),
        known_tag(msg.type_of_event@) && incomplete(msg.type_of_event@, msg.data) ==> (r matches Err(
            e,
        ) && e is ValidationError),
        known_tag(msg.type_of_event@) && !incomplete(msg.type_of_event@, msg.data) ==> (r matches Ok(
            Some(ev),
        ) && decodes_to(msg.type_of_event@, msg.data, ev)),
{
    proof {
        reveal_strlit("stop");
        reveal_strlit("write");
        reveal_strlit("health_check");
        reveal_strlit("clean_up");
        reveal_strlit("pause_agent");
        reveal_strlit("add_sensor");
        reveal_strlit("edit_sensor");
        reveal_strlit("remove_sensor");
        assert("edit_sensor"@[0] != "pause_agent"@[0]);
        assert("stop"@.len() == 4);
        assert("write"@.len() == 5);
        assert("health_check"@.len() == 12);
        assert("clean_up"@.len() == 8);
        assert("pause_agent"@.len() == 11);
        assert("add_sensor"@.len() == 10);
        assert("edit_sensor"@.len() == 11);
        assert("remove_sensor"@.len() == 13);
    }
    let t = msg.type_of_event;
    let d = msg.data;
    if text_is(&t, "stop") {
        Ok(Some(ChEvent::Stop))
    } else if text_is(&t, "health_check") {
        Ok(Some(ChEvent::HealthCheck))
    } else if text_is(&t, "clean_up") {
        Ok(Some(ChEvent::CleanUp))
    } else if text_is(&t, "pause_agent") {
        Ok(Some(ChEvent::PauseAgent))
    } else if text_is(&t, "write") {
        match (d.register, d.value) {
            (Some(reg), Some(val)) => Ok(
                Some(ChEvent::Write { reg, val, r_type: take_text_or(d.r_type, "REG") }),
            ),
            _ => Err(AppError::ValidationError("write needs register and value".to_owned())),
        }
    } else if text_is(&t, "remove_sensor") {
        match d.id {
            Some(id) => Ok(Some(ChEvent::RemoveSensor { id })),
            None => Err(AppError::ValidationError("remove_sensor needs id".to_owned())),
        }
    } else if text_is(&t, "add_sensor") || text_is(&t, "edit_sensor") {
        let add = text_is(&t, "add_sensor");
        match (d.id, d.label, d.start_register, d.end_register) {
            (Some(id), Some(label), Some(start_register), Some(end_register)) => {
                let register = take_text_or(d.register_label, "");
                let s_type = take_text_or(d.s_type, "sensor");
                let r_type = take_text_or(d.r_type, "REG");
                if add {
                    Ok(
                        Some(
                            ChEvent::AddSensor {
                                id,
                                label,
                                start_register,
                                register,
                                end_register,
                                s_type,
                                r_type,
                            },
                        ),
                    )
                } else {
                    Ok(
                        Some(
                            ChEvent::EditSensor {
                                id,
                                label,
                                start_register,
                                register,
                                end_register,
                                s_type,
                                r_type,
                            },
                        ),
                    )
                }
            },
            _ => Err(
                AppError::ValidationError("sensor commands need id, label and register span".to_owned()),
            ),
        }
    } else {
        Ok(None)
    }
}

/// Whether `s` reads exactly `text`.
pub fn text_is(s: &String, text: &str) -> (r: bool)
    ensures
        r == (s@ == text@),
{
    let t = text.to_owned();
    *s == t
}

} // verus!
