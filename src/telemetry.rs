//! The process variables exchanged with the telemetry server, their typed
//! decoding from wire values, and the batch of actuator values written back.
//!
//! A wire value here is already an integer in the raw unit of the variable's
//! quantity (see `ProcessVariable::raw_per_unit`); the protocol layer turns
//! the server's numbers into these and back.
use vstd::prelude::*;
use crate::units::{Power, Temperature};

verus! {

/// Namespace index of the process variables on the server.
pub const NAMESPACE_INDEX: u16 = 2;

/// The named variables that the bridge reads and writes.
#[derive(Clone, Copy, Debug, PartialEq, Eq, Structural)]
pub enum ProcessVariable {
    CtahBranchMassFlowrate,
    CtahPumpPressure,
    CalculationTime,
    HeaterBranchFlowrate,
    HeaterInletTemperature,
    HeaterPower,
    HeaterOutletTemperature,
}

pub open spec fn node_name_of(v: ProcessVariable) -> Seq<char> {
    match v {
        ProcessVariable::CtahBranchMassFlowrate => "ctah_branch_mass_flowrate"@,
        ProcessVariable::CtahPumpPressure => "ctah_pump_pressure"@,
        ProcessVariable::CalculationTime => "calculation_time"@,
        ProcessVariable::HeaterBranchFlowrate => "heater_branch_flowrate"@,
        ProcessVariable::HeaterInletTemperature => "bt11_temperature_degC"@,
        ProcessVariable::HeaterPower => "heater_power_kilowatts"@,
        ProcessVariable::HeaterOutletTemperature => "bt12_temperature_degC"@,
    }
}

/// Raw units in one engineering unit of the variable: mass flow rates are
/// held in milligrams per second, pressure in millipascal, calculation time
/// (served in milliseconds) in microseconds, temperatures in millidegrees
/// Celsius, and heater power (served in kilowatts) in microwatts.
pub open spec fn raw_per_unit_of(v: ProcessVariable) -> int {
    match v {
        ProcessVariable::CtahBranchMassFlowrate => 1_000_000,
        ProcessVariable::CtahPumpPressure => 1000,
        ProcessVariable::CalculationTime => 1000,
        ProcessVariable::HeaterBranchFlowrate => 1_000_000,
        ProcessVariable::HeaterInletTemperature => 1000,
        ProcessVariable::HeaterPower => 1_000_000_000,
        ProcessVariable::HeaterOutletTemperature => 1000,
    }
}

impl ProcessVariable {
    /// The variable's node name within `NAMESPACE_INDEX`.
    pub fn node_name(&self) -> (r: &'static str)
        ensures
            r@ == node_name_of(*self),
    {
        match self {
            ProcessVariable::CtahBranchMassFlowrate => "ctah_branch_mass_flowrate",
            ProcessVariable::CtahPumpPressure => "ctah_pump_pressure",
            ProcessVariable::CalculationTime => "calculation_time",
            ProcessVariable::HeaterBranchFlowrate => "heater_branch_flowrate",
            ProcessVariable::HeaterInletTemperature => "bt11_temperature_degC",
            ProcessVariable::HeaterPower => "heater_power_kilowatts",
            ProcessVariable::HeaterOutletTemperature => "bt12_temperature_degC",
        }
    }

    /// Raw units of the variable's wire value in one engineering unit.
    pub fn raw_per_unit(&self) -> (r: u64)
        ensures
            r == raw_per_unit_of(*self),
    {
        match self {
            ProcessVariable::CtahBranchMassFlowrate => 1_000_000,
            ProcessVariable::CtahPumpPressure => 1000,
            ProcessVariable::CalculationTime => 1000,
            ProcessVariable::HeaterBranchFlowrate => 1_000_000,
            ProcessVariable::HeaterInletTemperature => 1000,
            ProcessVariable::HeaterPower => 1_000_000_000,
            ProcessVariable::HeaterOutletTemperature => 1000,
        }
    }
}

/// The variables read each tick, in the order of the values returned.
pub open spec fn read_order() -> Seq<ProcessVariable> {
    seq![
        ProcessVariable::CtahBranchMassFlowrate,
        ProcessVariable::CtahPumpPressure,
        ProcessVariable::CalculationTime,
        ProcessVariable::HeaterBranchFlowrate,
        ProcessVariable::HeaterInletTemperature,
        ProcessVariable::HeaterPower,
        ProcessVariable::HeaterOutletTemperature,
    ]
}

/// The variables read each tick, in the order of the values returned.
pub fn read_list() -> (r: Vec<ProcessVariable>)
    ensures
        r@ == read_order(),
{
    let r = vec![
        ProcessVariable::CtahBranchMassFlowrate,
        ProcessVariable::CtahPumpPressure,
        ProcessVariable::CalculationTime,
        ProcessVariable::HeaterBranchFlowrate,
        ProcessVariable::HeaterInletTemperature,
        ProcessVariable::HeaterPower,
        ProcessVariable::HeaterOutletTemperature,
    ];
    assert(r@ =~= read_order());
    r
}

/// A value as it comes from or goes to the server.
#[derive(Clone, Copy, Debug, PartialEq, Eq, Structural)]
pub enum WireValue {
    /// A number, in the raw unit of its variable.
    Number(i64),
    Boolean(bool),
    /// The server returned no value.
    Empty,
    /// A value of another type.
    Other,
}

/// Why a batch of read values could not be decoded.
#[derive(Clone, Copy, Debug, PartialEq, Eq, Structural)]
pub enum DecodeError {
    /// The server returned another number of values than were asked for.
    WrongCount { expected: usize, found: usize },
    /// The value at `index` is missing.
    Missing { index: usize },
    /// The value at `index` is not a number.
    NotANumber { index: usize },
}

/// The process variables of one read, in the library's units.
#[derive(Clone, Copy, Debug, PartialEq, Eq, Structural)]
pub struct TelemetrySnapshot {
    pub ctah_branch_flowrate_mg_per_s: i64,
    pub ctah_pump_pressure_millipascal: i64,
    pub calculation_time_us: i64,
    pub heater_branch_flowrate_mg_per_s: i64,
    pub heater_inlet_temperature: Temperature,
    pub heater_power: Power,
    pub heater_outlet_temperature: Temperature,
}

pub open spec fn number_of(v: WireValue) -> int {
    match v {
        WireValue::Number(n) => n as int,
        _ => 0,
    }
}

/// The first position below `len` whose value is not a number.
pub open spec fn first_non_number(values: Seq<WireValue>, len: int) -> Option<int>
    decreases len,
{
    if len <= 0 {
        None
    } else {
        match first_non_number(values, len - 1) {
            Some(i) => Some(i),
            None => if values[len - 1] is Number {
                None
            } else {
                Some(len - 1)
            },
        }
    }
}

/// What decoding `values` gives.
pub open spec fn decode_spec(values: Seq<WireValue>) -> Result<TelemetrySnapshot, DecodeError> {
    if values.len() != read_order().len() {
        Err(DecodeError::WrongCount { expected: 7, found: values.len() as usize })
    } else {
        match first_non_number(values, 7) {
            Some(i) => if values[i] is Empty {
                Err(DecodeError::Missing { index: i as usize })
            } else {
                Err(DecodeError::NotANumber { index: i as usize })
            },
            None => Ok(
                TelemetrySnapshot {
                    ctah_branch_flowrate_mg_per_s: number_of(values[0]) as i64,
                    ctah_pump_pressure_millipascal: number_of(values[1]) as i64,
                    calculation_time_us: number_of(values[2]) as i64,
                    heater_branch_flowrate_mg_per_s: number_of(values[3]) as i64,
                    heater_inlet_temperature: Temperature { millidegrees_c: number_of(values[4]) as i64 },
                    heater_power: Power { microwatts: number_of(values[5]) as i64 },
                    heater_outlet_temperature: Temperature { millidegrees_c: number_of(values[6]) as i64 },
                },
            ),
        }
    }
}

/// Decodes the values of one read, given in the order of `read_list`. Each
/// of them must be a number; the first that is not is reported.
pub fn decode_readings(values: &Vec<WireValue>) -> (r: Result<TelemetrySnapshot, DecodeError>)
    ensures
        r == decode_spec(values@),
{
    if values.len() != 7 {
        return Err(DecodeError::WrongCount { expected: 7, found: values.len() });
    }
    let mut nums: Vec<i64> = Vec::new();
    let mut i: usize = 0;
    while i < 7
        invariant
            values@.len() == 7,
            i <= 7,
            nums@.len() == i,
            first_non_number(values@, i as int) is None,
            forall|j: int| 0 <= j < i ==> nums@[j] == number_of(#[trigger] values@[j]),
        decreases 7 - i,
    {
        match values[i] {
            WireValue::Number(n) => {
                nums.push(n);
            },
            WireValue::Empty => {
                assert(first_non_number(values@, i + 1) == Some(i as int));
                assert(first_non_number(values@, 7) == Some(i as int)) by {
                    lemma_first_non_number_stays(values@, i as int + 1, 7);
                }
                return Err(DecodeError::Missing { index: i });
            },
            _ => {
                assert(first_non_number(values@, i + 1) == Some(i as int));
                assert(first_non_number(values@, 7) == Some(i as int)) by {
                    lemma_first_non_number_stays(values@, i as int + 1, 7);
                }
                return Err(DecodeError::NotANumber { index: i });
            },
        }
        i = i + 1;
    }
    Ok(TelemetrySnapshot {
        ctah_branch_flowrate_mg_per_s: nums[0],
        ctah_pump_pressure_millipascal: nums[1],
        calculation_time_us: nums[2],
        heater_branch_flowrate_mg_per_s: nums[3],
        heater_inlet_temperature: Temperature { millidegrees_c: nums[4] },
        heater_power: Power { microwatts: nums[5] },
        heater_outlet_temperature: Temperature { millidegrees_c: nums[6] },
    })
}

proof fn lemma_first_non_number_stays(values: Seq<WireValue>, a: int, b: int)
    requires
        0 <= a <= b,
        first_non_number(values, a) is Some,
    ensures
        first_non_number(values, b) == first_non_number(values, a),
    decreases b - a,
{
    if a < b {
        lemma_first_non_number_stays(values, a, b - 1);
    }
}

/// The actuator values written back each tick.
#[derive(Clone, Copy, Debug, PartialEq, Eq, Structural)]
pub struct ActuatorCommands {
    pub ctah_pump_pressure_millipascal: i64,
    pub heater_inlet_temperature: Temperature,
    pub heater_power: Power,
}

/// The writes of one tick, in order.
pub open spec fn write_batch_spec(c: ActuatorCommands) -> Seq<(ProcessVariable, WireValue)> {
    seq![
        (ProcessVariable::CtahPumpPressure, WireValue::Number(c.ctah_pump_pressure_millipascal)),
        (ProcessVariable::HeaterInletTemperature, WireValue::Number(c.heater_inlet_temperature.millidegrees_c)),
        (ProcessVariable::HeaterPower, WireValue::Number(c.heater_power.microwatts)),
    ]
}

/// The writes of one tick: pump pressure, heater inlet temperature and
/// heater power, each as a number in its variable's raw unit.
pub fn write_batch(c: &ActuatorCommands) -> (r: Vec<(ProcessVariable, WireValue)>)
    ensures
        r@ == write_batch_spec(*c),
{
    let r = vec![
        (ProcessVariable::CtahPumpPressure, WireValue::Number(c.ctah_pump_pressure_millipascal)),
        (ProcessVariable::HeaterInletTemperature, WireValue::Number(c.heater_inlet_temperature.millidegrees_c)),
        (ProcessVariable::HeaterPower, WireValue::Number(c.heater_power.microwatts)),
    ];
    assert(r@ =~= write_batch_spec(*c));
    r
}

/// The value that the last write of `v` in `writes` set, if any.
pub open spec fn last_written(writes: Seq<(ProcessVariable, WireValue)>, v: ProcessVariable) -> Option<WireValue>
    decreases writes.len(),
{
    if writes.len() == 0 {
        None
    } else if writes.last().0 == v {
        Some(writes.last().1)
    } else {
        last_written(writes.drop_last(), v)
    }
}

/// What a server that keeps the last value written to each variable returns
/// to the next read, where `before` holds what it returned to the previous one.
pub open spec fn echo_read(writes: Seq<(ProcessVariable, WireValue)>, before: Seq<WireValue>) -> Seq<WireValue> {
    Seq::new(
        read_order().len(),
        |i: int|
            match last_written(writes, read_order()[i]) {
                Some(w) => w,
                None => before[i],
            },
    )
}

/// Round trip: the commands written in one tick come back unchanged from the
/// next read of a server that echoes what was written, whenever the
/// variables that were not written still read as numbers.
pub proof fn lemma_write_read_round_trip(c: ActuatorCommands, before: Seq<WireValue>)
    requires
        before.len() == 7,
        forall|i: int| 0 <= i < 7 ==> #[trigger] before[i] is Number,
    ensures
        decode_spec(echo_read(write_batch_spec(c), before)) is Ok,
        decode_spec(echo_read(write_batch_spec(c), before))->Ok_0.ctah_pump_pressure_millipascal
            == c.ctah_pump_pressure_millipascal,
        decode_spec(echo_read(write_batch_spec(c), before))->Ok_0.heater_inlet_temperature
            == c.heater_inlet_temperature,
        decode_spec(echo_read(write_batch_spec(c), before))->Ok_0.heater_power == c.heater_power,
{
    let w = write_batch_spec(c);
    let e = echo_read(w, before);
    reveal_with_fuel(last_written, 4);
    reveal_with_fuel(first_non_number, 8);
    assert(w.drop_last() =~= seq![w[0], w[1]]);
    assert(w.drop_last().drop_last() =~= seq![w[0]]);
    assert(w.drop_last().drop_last().drop_last() =~= Seq::<(ProcessVariable, WireValue)>::empty());
    assert(e[0] == before[0]);
    assert(e[1] == WireValue::Number(c.ctah_pump_pressure_millipascal));
    assert(e[2] == before[2]);
    assert(e[3] == before[3]);
    assert(e[4] == WireValue::Number(c.heater_inlet_temperature.millidegrees_c));
    assert(e[5] == WireValue::Number(c.heater_power.microwatts));
    assert(e[6] == before[6]);
    assert(before[0] is Number && before[2] is Number && before[3] is Number && before[6] is Number);
}

/// The server's endpoint address for `host`.
pub open spec fn endpoint_url_of(host: Seq<char>) -> Seq<char> {
    "opc.tcp://"@ + host + ":4840/rust_ciet_opcua_server"@
}

/// Builds the endpoint address from the host name or address that the user
/// entered.
pub fn endpoint_url(host: &str) -> (r: String)
    ensures
        r@ == endpoint_url_of(host@),
{
    let mut url = String::from_str("opc.tcp://");
    url.append(host);
    url.append(":4840/rust_ciet_opcua_server");
    url
}

} // verus!
