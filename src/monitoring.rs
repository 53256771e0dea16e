use vstd::prelude::*;

use crate::config::SensorConfig;
use crate::helper::{text_is, AppError};
use crate::plc_io::ModbusData;
use crate::state::SharedState;

verus! {

/// The topic on which readings are published.
pub fn reading_topic() -> (r: &'static str)
    ensures
        r@ == "monitoring_streamline"@,
{
    "monitoring_streamline"
}

/// Whether readings of a sensor of category `s_type` are published.
pub open spec fn publishable(s_type: Seq<char>) -> bool {
    s_type == "sensor"@ || s_type == "general"@
}

/// The reading of `sensor` with value `value`, stamped `time`.
pub open spec fn reading_of(sensor: SensorConfig, value: u16, time: String) -> ModbusData {
    ModbusData {
        sensor_id: sensor.id,
        register: sensor.register,
        time,
        value,
        key: sensor.label,
        s_type: sensor.s_type,
        r_type: sensor.r_type,
    }
}

/// The readings one tick publishes: one per sensor, in order, for each
/// sensor whose read succeeded and whose category is published.
pub open spec fn readings_of(sensors: Seq<SensorConfig>, values: Seq<Result<u16, AppError>>, time: String) -> Seq<
    ModbusData,
>
    decreases sensors.len(),
{
    if sensors.len() == 0 || values.len() == 0 {
        Seq::empty()
    } else {
        let rest = readings_of(sensors.drop_last(), values.drop_last(), time);
        match values.last() {
            Ok(v) => if publishable(sensors.last().s_type@) {
                rest.push(reading_of(sensors.last(), v, time))
            } else {
                rest
            },
            Err(_) => rest,
        }
    }
}

/// The sensors one tick reads: none while paused, else all, in order.
pub fn plan_tick(state: &SharedState) -> (r: Vec<SensorConfig>)
    ensures
        state@.paused ==> r@ == Seq::<SensorConfig>::empty(),
        !state@.paused ==> r@ == state@.sensors,
{
    if state.paused_agent {
        Vec::new()
    } else {
        state.snapshot()
    }
}

/// The reading to publish for `sensor` after its read gave `value`; none
/// for a category that is not published.
pub fn build_reading(sensor: &SensorConfig, value: u16, time: String) -> (r: Option<ModbusData>)
    ensures
        publishable(sensor.s_type@) ==> r == Some(reading_of(*sensor, value, time)),
        !publishable(sensor.s_type@) ==> r is None,
{
    if text_is(&sensor.s_type, "sensor") || text_is(&sensor.s_type, "general") {
        Some(
            ModbusData {
                sensor_id: sensor.id.clone(),
                register: sensor.register.clone(),
                time,
                value,
                key: sensor.label.clone(),
                s_type: sensor.s_type.clone(),
                r_type: sensor.r_type.clone(),
            },
        )
    } else {
        None
    }
}

/// Relies on `chrono::Local::now` and its `format`: the local time now as
/// `yy/mm/dd HH:MM:SS`. Nothing is promised of the text, which depends on
/// the clock.
#[verifier::external_body]
fn local_timestamp() -> (r: String) {
    chrono::Local::now().format("%y/%m/%d %H:%M:%S").to_string()
}

/// The reading to publish for `sensor` after its read gave `value`, stamped
/// with the local time now.
pub fn reading_now(sensor: &SensorConfig, value: u16) -> (r: Option<ModbusData>)
    ensures
        publishable(sensor.s_type@) ==> (r matches Some(d) && d == reading_of(*sensor, value, d.time)),
        !publishable(sensor.s_type@) ==> r is None,
{
    let time = local_timestamp();
    build_reading(sensor, value, time)
}

/// The readings of one tick, from the sensors read and the result of each
/// read, all stamped `time`. A failed read drops that sensor's reading only.
pub fn collect_readings(sensors: &Vec<SensorConfig>, values: &Vec<Result<u16, AppError>>, time: &String) -> (r: Vec<
    ModbusData,
>)
    requires
        sensors.len() == values.len(),
    ensures
        r@ == readings_of(sensors@, values@, *time),
{
    let n = sensors.len();
    let mut out: Vec<ModbusData> = Vec::new();
    let mut i: usize = 0;
    while i < n
        invariant
            n == sensors.len(),
            n == values.len(),
            i <= n,
            out@ == readings_of(sensors@.subrange(0, i as int), values@.subrange(0, i as int), *time),
        decreases n - i,
    {
        let ghost s0 = sensors@.subrange(0, i as int);
        let ghost v0 = values@.subrange(0, i as int);
        let ghost s1 = sensors@.subrange(0, i + 1);
        let ghost v1 = values@.subrange(0, i + 1);
        assert(s1.drop_last() =~= s0);
        assert(v1.drop_last() =~= v0);
        match &values[i] {
            Ok(v) => {
                match build_reading(&sensors[i], *v, time.clone()) {
                    Some(d) => out.push(d),
                    None => {},
                }
            },
            Err(_) => {},
        }
        i = i + 1;
    }
    assert(sensors@.subrange(0, n as int) =~= sensors@);
    assert(values@.subrange(0, n as int) =~= values@);
    out
}

/// Reacts to a failed publish: a lost control channel clears the registry,
/// so that no stale configuration is served through it; any other failure
/// changes nothing. Returns whether the registry was cleared.
pub fn on_publish_failure(state: &mut SharedState, err: &AppError) -> (cleared: bool)
    ensures
        cleared == (*err is Disconnected),
        cleared ==> final(state)@.sensors == Seq::<SensorConfig>::empty(),
        !cleared ==> final(state)@.sensors == old(state)@.sensors,
        final(state)@.paused == old(state)@.paused,
{
    match err {
        AppError::Disconnected => {
            state.cleanup_sensors();
            true
        },
        _ => false,
    }
}

/// In one tick, a sensor whose read succeeded has its reading published
/// whatever became of the reads of the other sensors.
pub proof fn lemma_tick_independence(
    sensors: Seq<SensorConfig>,
    values: Seq<Result<u16, AppError>>,
    time: String,
    b: int,
)
    requires
        sensors.len() == values.len(),
        0 <= b < sensors.len(),
        values[b] is Ok,
        publishable(sensors[b].s_type@),
    ensures
        readings_of(sensors, values, time).contains(reading_of(sensors[b], values[b]->Ok_0, time)),
    decreases sensors.len(),
{
    let rest = readings_of(sensors.drop_last(), values.drop_last(), time);
    if b == sensors.len() - 1 {
        let r = readings_of(sensors, values, time);
        assert(r == rest.push(reading_of(sensors[b], values[b]->Ok_0, time)));
        assert(r[r.len() - 1] == reading_of(sensors[b], values[b]->Ok_0, time));
    } else {
        lemma_tick_independence(sensors.drop_last(), values.drop_last(), time, b);
        let x = reading_of(sensors[b], values[b]->Ok_0, time);
        let k = choose|k: int| 0 <= k < rest.len() && rest[k] == x;
        match values.last() {
            Ok(v) => if publishable(sensors.last().s_type@) {
                assert(rest.push(reading_of(sensors.last(), v, time))[k] == x);
            },
            Err(_) => {},
        }
    }
}

} // verus!
