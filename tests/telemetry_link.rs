use ciet_opcua_client::telemetry::{
    decode_readings, endpoint_url, read_list, write_batch, ActuatorCommands, DecodeError,
    ProcessVariable, WireValue, NAMESPACE_INDEX,
};
use ciet_opcua_client::units::{Power, Temperature};

fn numbers(v: [i64; 7]) -> Vec<WireValue> {
    v.iter().map(|n| WireValue::Number(*n)).collect()
}

#[test]
fn read_list_order_and_names() {
    let names: Vec<&str> = read_list().iter().map(|v| v.node_name()).collect();
    assert_eq!(
        names,
        vec![
            "ctah_branch_mass_flowrate",
            "ctah_pump_pressure",
            "calculation_time",
            "heater_branch_flowrate",
            "bt11_temperature_degC",
            "heater_power_kilowatts",
            "bt12_temperature_degC",
        ]
    );
    assert_eq!(NAMESPACE_INDEX, 2);
}

#[test]
fn raw_units_per_engineering_unit() {
    assert_eq!(ProcessVariable::HeaterPower.raw_per_unit(), 1_000_000_000);
    assert_eq!(ProcessVariable::HeaterOutletTemperature.raw_per_unit(), 1000);
    assert_eq!(ProcessVariable::HeaterBranchFlowrate.raw_per_unit(), 1_000_000);
    assert_eq!(ProcessVariable::CtahPumpPressure.raw_per_unit(), 1000);
}

#[test]
fn decode_all_numbers() {
    let s = decode_readings(&numbers([1, 2, 3, 4, 79_120, 8_000_000_000, 102_410])).unwrap();
    assert_eq!(s.ctah_branch_flowrate_mg_per_s, 1);
    assert_eq!(s.ctah_pump_pressure_millipascal, 2);
    assert_eq!(s.calculation_time_us, 3);
    assert_eq!(s.heater_branch_flowrate_mg_per_s, 4);
    assert_eq!(s.heater_inlet_temperature, Temperature { millidegrees_c: 79_120 });
    assert_eq!(s.heater_power, Power { microwatts: 8_000_000_000 });
    assert_eq!(s.heater_outlet_temperature, Temperature { millidegrees_c: 102_410 });
}

#[test]
fn decode_wrong_count() {
    let r = decode_readings(&numbers([0; 7])[..4].to_vec());
    assert_eq!(r, Err(DecodeError::WrongCount { expected: 7, found: 4 }));
    assert_eq!(
        decode_readings(&Vec::new()),
        Err(DecodeError::WrongCount { expected: 7, found: 0 })
    );
}

#[test]
fn decode_reports_first_bad_value() {
    let mut v = numbers([0; 7]);
    v[6] = WireValue::Boolean(true);
    v[3] = WireValue::Empty;
    assert_eq!(decode_readings(&v), Err(DecodeError::Missing { index: 3 }));
    v[2] = WireValue::Other;
    assert_eq!(decode_readings(&v), Err(DecodeError::NotANumber { index: 2 }));
    v[1] = WireValue::Boolean(false);
    assert_eq!(decode_readings(&v), Err(DecodeError::NotANumber { index: 1 }));
}

#[test]
fn write_batch_order() {
    let c = ActuatorCommands {
        ctah_pump_pressure_millipascal: -1_500_000,
        heater_inlet_temperature: Temperature { millidegrees_c: 80_000 },
        heater_power: Power { microwatts: 7_250_000_000 },
    };
    assert_eq!(
        write_batch(&c),
        vec![
            (ProcessVariable::CtahPumpPressure, WireValue::Number(-1_500_000)),
            (ProcessVariable::HeaterInletTemperature, WireValue::Number(80_000)),
            (ProcessVariable::HeaterPower, WireValue::Number(7_250_000_000)),
        ]
    );
}

#[test]
fn command_round_trip_through_echoing_server() {
    let c = ActuatorCommands {
        ctah_pump_pressure_millipascal: 12_345_678,
        heater_inlet_temperature: Temperature { millidegrees_c: 81_234 },
        heater_power: Power { microwatts: 9_876_543_210 },
    };
    // an ideal server keeps the last value written to each node
    let mut server = numbers([11, 22, 33, 44, 55, 66, 77]);
    let order = read_list();
    for (var, value) in write_batch(&c) {
        let i = order.iter().position(|v| *v == var).unwrap();
        server[i] = value;
    }
    let s = decode_readings(&server).unwrap();
    assert_eq!(s.ctah_pump_pressure_millipascal, c.ctah_pump_pressure_millipascal);
    assert_eq!(s.heater_inlet_temperature, c.heater_inlet_temperature);
    assert_eq!(s.heater_power, c.heater_power);
    assert_eq!(s.heater_outlet_temperature, Temperature { millidegrees_c: 77 });
}

#[test]
fn endpoint_from_host() {
    assert_eq!(endpoint_url("192.168.1.20"), "opc.tcp://192.168.1.20:4840/rust_ciet_opcua_server");
    assert_eq!(endpoint_url(""), "opc.tcp://:4840/rust_ciet_opcua_server");
}
