use vstd::prelude::*;

verus! {

/// Cadence of the polling scheduler, in milliseconds.
pub const MONITOR_INTERVAL_MS: u64 = 1000;

/// Delay before a failed connection is tried again, in milliseconds.
pub const CONNECTION_RETRY_MS: u64 = 2000;

/// Capacity of the queue between the message pump and the dispatcher.
pub const MESSAGE_CHANNEL_SIZE: usize = 32;

/// One monitored point of the controller.
#[derive(Debug)]
pub struct SensorConfig {
    pub id: String,
    pub label: String,
    /// Payload category: `"sensor"` or `"general"`.
    pub s_type: String,
    /// Addressing kind: `"REG"` for holding registers, anything else for coils.
    pub r_type: String,
    pub start_register: u16,
    /// Display-only register label carried through to published readings.
    pub register: String,
    pub end_register: u16,
}

impl Clone for SensorConfig {
    fn clone(&self) -> (r: Self)
        ensures
            r == *self,
    {
        SensorConfig {
            id: self.id.clone(),
            label: self.label.clone(),
            s_type: self.s_type.clone(),
            r_type: self.r_type.clone(),
            start_register: self.start_register,
            register: self.register.clone(),
            end_register: self.end_register,
        }
    }
}

/// A command from the control plane, consumed by one dispatch call.
#[derive(Debug)]
pub enum ChEvent {
    Wait,
    Stop,
    Write { reg: u16, val: u16, r_type: String },
    AddSensor {
        id: String,
        label: String,
        start_register: u16,
        register: String,
        end_register: u16,
        s_type: String,
        r_type: String,
    },
    RemoveSensor { id: String },
    EditSensor {
        id: String,
        label: String,
        start_register: u16,
        register: String,
        end_register: u16,
        s_type: String,
        r_type: String,
    },
    PauseAgent,
    HealthCheck,
    CleanUp,
}

} // verus!
