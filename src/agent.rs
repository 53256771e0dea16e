use vstd::prelude::*;

use crate::config::{ChEvent, SensorConfig};
use crate::plc_io::{stop_request, write_of, write_request, DeviceRequest, STOP_REGISTER, STOP_VALUE};
use crate::state::{
    keyed, lemma_keyed_upsert, lemma_keyed_without, lemma_without_absent_id, lemma_without_id_shape,
    has_id, upsert, without_id, RegistryView, SharedState,
};

verus! {

/// A status message for the control plane.
#[derive(Clone, Copy, Debug, PartialEq, Eq, Structural)]
pub enum Notice {
    /// A command was rejected because the agent is paused.
    Locked,
    /// The agent has just been paused.
    Paused,
    /// The agent has just been resumed.
    Resumed,
}

impl Notice {
    /// The topic the notice is published on.
    pub fn topic(&self) -> (r: &'static str)
        ensures
            r@ == match *self {
                Notice::Locked => "agent_locked"@,
                _ => "agent_status"@,
            },
    {
        match self {
            Notice::Locked => "agent_locked",
            _ => "agent_status",
        }
    }

    /// The text of the notice.
    pub fn message(&self) -> (r: &'static str)
        ensures
            r@ == match *self {
                Notice::Locked => "Agent is locked"@,
                Notice::Paused => "Agent paused"@,
                Notice::Resumed => "Agent resumed"@,
            },
    {
        match self {
            Notice::Locked => "Agent is locked",
            Notice::Paused => "Agent paused",
            Notice::Resumed => "Agent resumed",
        }
    }
}

/// What the caller must do after a command was dispatched.
#[derive(Debug)]
pub enum Action {
    /// Nothing.
    Nothing,
    /// Publish a status notice.
    Notify(Notice),
    /// Perform one request on the device link.
    Device(DeviceRequest),
    /// Publish the sensor snapshot on the `health_check` topic.
    ReportHealth(Vec<SensorConfig>),
}

/// Mathematical value of an [`Action`].
pub enum Effect {
    Nothing,
    Notify(Notice),
    Device(DeviceRequest),
    ReportHealth(Seq<SensorConfig>),
}

impl View for Action {
    type V = Effect;

    open spec fn view(&self) -> Effect {
        match self {
            Action::Nothing => Effect::Nothing,
            Action::Notify(n) => Effect::Notify(*n),
            Action::Device(r) => Effect::Device(*r),
            Action::ReportHealth(v) => Effect::ReportHealth(v@),
        }
    }
}

/// The sensor that an add or edit command describes.
pub open spec fn described(
    id: String,
    label: String,
    start_register: u16,
    register: String,
    end_register: u16,
    s_type: String,
    r_type: String,
) -> SensorConfig {
    SensorConfig { id, label, s_type, r_type, start_register, register, end_register }
}

/// Whether the pause gate applies to `ev`: all commands but `Wait`,
/// `HealthCheck` and `PauseAgent`.
pub open spec fn gated(ev: ChEvent) -> bool {
    match ev {
        ChEvent::Wait | ChEvent::HealthCheck | ChEvent::PauseAgent => false,
        _ => true,
    }
}

/// The registry after dispatching `ev`. Adding and editing both replace any
/// entry of the same id by the described sensor, which then stands last.
pub open spec fn registry_after(reg: RegistryView, ev: ChEvent) -> RegistryView {
    if reg.paused && gated(ev) {
        reg
    } else {
        match ev {
            ChEvent::CleanUp => RegistryView { sensors: Seq::empty(), paused: reg.paused },
            ChEvent::AddSensor { id, label, start_register, register, end_register, s_type, r_type }
            | ChEvent::EditSensor {
                id,
                label,
                start_register,
                register,
                end_register,
                s_type,
                r_type,
            } => RegistryView {
                sensors: upsert(
                    reg.sensors,
                    described(id, label, start_register, register, end_register, s_type, r_type),
                ),
                paused: reg.paused,
            },
            ChEvent::RemoveSensor { id } => RegistryView {
                sensors: without_id(reg.sensors, id@),
                paused: reg.paused,
            },
            ChEvent::PauseAgent => RegistryView { sensors: reg.sensors, paused: !reg.paused },
            _ => reg,
        }
    }
}

/// What must be done after dispatching `ev` on `reg`.
pub open spec fn effect_of(reg: RegistryView, ev: ChEvent) -> Effect {
    if reg.paused && gated(ev) {
        Effect::Notify(Notice::Locked)
    } else {
        match ev {
            ChEvent::HealthCheck => Effect::ReportHealth(reg.sensors),
            ChEvent::Stop => Effect::Device(
                DeviceRequest::WriteSingleRegister { address: STOP_REGISTER, value: STOP_VALUE },
            ),
            ChEvent::Write { reg: register, val, r_type } => Effect::Device(
                write_of(register, val, r_type@),
            ),
            ChEvent::PauseAgent => Effect::Notify(
                if reg.paused {
                    Notice::Resumed
                } else {
                    Notice::Paused
                },
            ),
            _ => Effect::Nothing,
        }
    }
}

/// The registry after dispatching `evs` in order.
pub open spec fn replay(reg: RegistryView, evs: Seq<ChEvent>) -> RegistryView
    decreases evs.len(),
{
    if evs.len() == 0 {
        reg
    } else {
        registry_after(replay(reg, evs.drop_last()), evs.last())
    }
}

/// Whether `ev` adds, edits or removes a sensor.
pub open spec fn edits_registry(ev: ChEvent) -> bool {
    ev is AddSensor || ev is EditSensor || ev is RemoveSensor
}

/// Reference model of one registry command on a map keyed by id.
pub open spec fn model_step(m: Map<Seq<char>, SensorConfig>, ev: ChEvent) -> Map<Seq<char>, SensorConfig> {
    match ev {
        ChEvent::AddSensor { id, label, start_register, register, end_register, s_type, r_type }
        | ChEvent::EditSensor {
            id,
            label,
            start_register,
            register,
            end_register,
            s_type,
            r_type,
        } => m.insert(id@, described(id, label, start_register, register, end_register, s_type, r_type)),
        ChEvent::RemoveSensor { id } => m.remove(id@),
        _ => m,
    }
}

/// The reference model after `evs` in order.
pub open spec fn model_replay(m: Map<Seq<char>, SensorConfig>, evs: Seq<ChEvent>) -> Map<
    Seq<char>,
    SensorConfig,
>
    decreases evs.len(),
{
    if evs.len() == 0 {
        m
    } else {
        model_step(model_replay(m, evs.drop_last()), evs.last())
    }
}

/// For every sequence of add, edit and remove commands on a running agent,
/// the registry afterwards holds exactly what a map keyed by id holds after
/// the same operations: one entry per id, equal to the map's value.
pub proof fn lemma_registry_matches_model(reg: RegistryView, evs: Seq<ChEvent>)
    requires
        !reg.paused,
        reg.wf(),
        forall|i: int| 0 <= i < evs.len() ==> edits_registry(#[trigger] evs[i]),
    ensures
        keyed(replay(reg, evs).sensors) == model_replay(keyed(reg.sensors), evs),
        replay(reg, evs).wf(),
        !replay(reg, evs).paused,
    decreases evs.len(),
{
    if evs.len() > 0 {
        let p = evs.drop_last();
        assert forall|i: int| 0 <= i < p.len() implies edits_registry(#[trigger] p[i]) by {
            assert(p[i] == evs[i]);
        }
        lemma_registry_matches_model(reg, p);
        let r = replay(reg, p);
        let ev = evs.last();
        assert(edits_registry(evs[evs.len() - 1]));
        match ev {
            ChEvent::AddSensor { id, label, start_register, register, end_register, s_type, r_type }
            | ChEvent::EditSensor {
                id,
                label,
                start_register,
                register,
                end_register,
                s_type,
                r_type,
            } => {
                lemma_keyed_upsert(
                    r.sensors,
                    described(id, label, start_register, register, end_register, s_type, r_type),
                );
            },
            ChEvent::RemoveSensor { id } => {
                lemma_keyed_without(r.sensors, id@);
                lemma_without_id_shape(r.sensors, id@);
            },
            _ => {},
        }
    }
}

/// Removing an id that no sensor has leaves the registry unchanged, and on
/// a running agent asks for nothing further.
pub proof fn lemma_remove_absent_is_noop(reg: RegistryView, id: String)
    requires
        !has_id(reg.sensors, id@),
    ensures
        registry_after(reg, ChEvent::RemoveSensor { id }) == reg,
        !reg.paused ==> effect_of(reg, ChEvent::RemoveSensor { id }) == Effect::Nothing,
{
    lemma_without_absent_id(reg.sensors, id@);
}

/// While paused, a command other than `PauseAgent` leaves the registry as
/// it is and asks for no device request.
pub proof fn lemma_paused_step(reg: RegistryView, ev: ChEvent)
    requires
        reg.paused,
        !(ev is PauseAgent),
    ensures
        registry_after(reg, ev) == reg,
        !(effect_of(reg, ev) is Device),
{
}

/// While paused, commands other than `PauseAgent` leave the registry as it is.
proof fn lemma_paused_replay(reg: RegistryView, evs: Seq<ChEvent>)
    requires
        reg.paused,
        forall|i: int| 0 <= i < evs.len() ==> !(#[trigger] evs[i] is PauseAgent),
    ensures
        replay(reg, evs) == reg,
    decreases evs.len(),
{
    if evs.len() > 0 {
        let p = evs.drop_last();
        assert forall|i: int| 0 <= i < p.len() implies !(#[trigger] p[i] is PauseAgent) by {
            assert(p[i] == evs[i]);
        }
        lemma_paused_replay(reg, p);
        assert(!(evs[evs.len() - 1] is PauseAgent));
        lemma_paused_step(reg, evs.last());
    }
}

/// Once paused, no command short of `PauseAgent` changes the registry or
/// reaches the device, and a health check still reports the sensors.
pub proof fn lemma_pause_holds(reg: RegistryView, evs: Seq<ChEvent>)
    requires
        reg.paused,
        forall|i: int| 0 <= i < evs.len() ==> !(#[trigger] evs[i] is PauseAgent),
    ensures
        replay(reg, evs) == reg,
        forall|i: int|
            0 <= i < evs.len() ==> #[trigger] replay(reg, evs.take(i)) == reg && !(effect_of(
                reg,
                evs[i],
            ) is Device),
        effect_of(reg, ChEvent::HealthCheck) == Effect::ReportHealth(reg.sensors),
{
    lemma_paused_replay(reg, evs);
    assert forall|i: int| 0 <= i < evs.len() implies #[trigger] replay(reg, evs.take(i)) == reg
        && !(effect_of(reg, evs[i]) is Device) by {
        let t = evs.take(i);
        assert forall|k: int| 0 <= k < t.len() implies !(#[trigger] t[k] is PauseAgent) by {
            assert(t[k] == evs[k]);
        }
        lemma_paused_replay(reg, t);
        lemma_paused_step(reg, evs[i]);
    }
}

/// Applies one command to the registry in a single critical section and
/// says what device request or publication must follow. While paused every
/// gated command is rejected with the `Locked` notice and changes nothing.
pub fn dispatch(state: &mut SharedState, event: ChEvent) -> (a: Action)
    ensures
        final(state)@ == registry_after(old(state)@, event),
        a@ == effect_of(old(state)@, event),
        old(state)@.wf() ==> final(state)@.wf(),
{
    if state.paused_agent {
        match &event {
            ChEvent::Wait | ChEvent::HealthCheck | ChEvent::PauseAgent => {},
            _ => {
                return Action::Notify(Notice::Locked);
            },
        }
    }
    match event {
        ChEvent::Wait => Action::Nothing,
        ChEvent::HealthCheck => Action::ReportHealth(state.snapshot()),
        ChEvent::CleanUp => {
            state.cleanup_sensors();
            Action::Nothing
        },
        ChEvent::Stop => Action::Device(stop_request()),
        ChEvent::Write { reg, val, r_type } => Action::Device(write_request(reg, val, &r_type)),
        ChEvent::AddSensor { id, label, start_register, register, end_register, s_type, r_type }
        | ChEvent::EditSensor { id, label, start_register, register, end_register, s_type, r_type } => {
            state.add_sensor(
                SensorConfig { id, label, s_type, r_type, start_register, register, end_register },
            );
            Action::Nothing
        },
        ChEvent::RemoveSensor { id } => {
            state.remove_sensor(id.as_str());
            Action::Nothing
        },
        ChEvent::PauseAgent => {
            if state.toggle_pause() {
                Action::Notify(Notice::Paused)
            } else {
                Action::Notify(Notice::Resumed)
            }
        },
    }
}

} // verus!
