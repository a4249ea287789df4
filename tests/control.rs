use ciet_opcua_client::composer::{ComposeError, ParallelSum, SeriesChain};
use ciet_opcua_client::driver::{ControlTick, TickRequest, TickStage};
use ciet_opcua_client::feedback::{expected_outlet_temperature, inlet_deviation, FeedbackCascade};
use ciet_opcua_client::units::{
    Power, Ratio, Temperature, TemperatureInterval, ThermalConductance,
};

fn kw(k: i64) -> Power {
    Power { microwatts: k * 1_000_000_000 }
}

#[test]
fn unit_conversions() {
    let d = Temperature { millidegrees_c: 80_500 }
        .deviation_from(Temperature { millidegrees_c: 79_120 })
        .unwrap();
    assert_eq!(d, TemperatureInterval { millikelvin: 1380 });
    assert_eq!(d.per_kelvin(), Ratio { thousandths: 1380 });
    assert_eq!(Ratio { thousandths: -250 }.times_kelvin(), TemperatureInterval { millikelvin: -250 });
    assert_eq!(Ratio { thousandths: 1500 }.times_watt(), Some(Power { microwatts: 1_500_000 }));
    assert_eq!(Ratio { thousandths: i64::MAX }.times_watt(), None);
    let g = ThermalConductance { milliwatts_per_kelvin: 3_401_360 };
    assert_eq!(
        g.times_interval(TemperatureInterval { millikelvin: 2000 }),
        Some(Power { microwatts: 6_802_720_000 })
    );
    assert_eq!(Power::from_kilowatts(8), Power { microwatts: 8_000_000_000 });
    assert_eq!(Temperature { millidegrees_c: i64::MIN }.deviation_from(Temperature { millidegrees_c: 1 }), None);
}

#[test]
fn parallel_sum_clips_to_floor() {
    let c = ParallelSum {
        gains: vec![
            ThermalConductance { milliwatts_per_kelvin: 1_000_000 },
            ThermalConductance { milliwatts_per_kelvin: 1_000_000 },
        ],
        bias: kw(8),
        floor: kw(0),
    };
    // branch powers of -6 kW and -4 kW sum to -10 kW
    let out = c.compose(&vec![Ratio { thousandths: -6000 }, Ratio { thousandths: -4000 }]);
    assert_eq!(out, Ok(Power { microwatts: 0 }));
}

#[test]
fn parallel_sum_above_floor() {
    let c = ParallelSum {
        gains: vec![
            ThermalConductance { milliwatts_per_kelvin: 3_401_360 },
            ThermalConductance { milliwatts_per_kelvin: -340_136 },
        ],
        bias: kw(8),
        floor: kw(0),
    };
    let out = c.compose(&vec![Ratio { thousandths: 1000 }, Ratio { thousandths: 2000 }]);
    // 3401.36 W - 680.272 W + 8000 W
    assert_eq!(out, Ok(Power { microwatts: 10_721_088_000 }));
}

#[test]
fn parallel_sum_with_no_branches_is_the_bias() {
    let c = ParallelSum { gains: vec![], bias: kw(8), floor: kw(0) };
    assert_eq!(c.compose(&vec![]), Ok(kw(8)));
    let c = ParallelSum { gains: vec![], bias: kw(-1), floor: kw(0) };
    assert_eq!(c.compose(&vec![]), Ok(kw(0)));
}

#[test]
fn parallel_sum_errors() {
    let c = ParallelSum {
        gains: vec![ThermalConductance { milliwatts_per_kelvin: i64::MAX }],
        bias: kw(0),
        floor: kw(0),
    };
    assert_eq!(
        c.compose(&vec![]),
        Err(ComposeError::BranchCountMismatch { expected: 1, found: 0 })
    );
    assert_eq!(c.compose(&vec![Ratio { thousandths: 2 }]), Err(ComposeError::Overflow));
    let c = ParallelSum {
        gains: vec![ThermalConductance { milliwatts_per_kelvin: 1 }],
        bias: Power { microwatts: i64::MAX },
        floor: kw(0),
    };
    assert_eq!(c.compose(&vec![Ratio { thousandths: 1 }]), Err(ComposeError::Overflow));
}

#[test]
fn reference_response_and_deviation() {
    assert_eq!(inlet_deviation(Temperature { millidegrees_c: 79_120 }), Some(Ratio { thousandths: 0 }));
    assert_eq!(inlet_deviation(Temperature { millidegrees_c: 81_120 }), Some(Ratio { thousandths: 2000 }));
    assert_eq!(
        expected_outlet_temperature(Ratio { thousandths: -410 }),
        Some(Temperature { millidegrees_c: 102_000 })
    );
}

#[test]
fn cascade_at_rest_gives_nominal_bias() {
    let c = FeedbackCascade::heater_outlet();
    assert_eq!(c.steady_state, Temperature { millidegrees_c: 102_410 });
    assert_eq!(c.derivative_input(c.steady_state), Some(Ratio { thousandths: 0 }));
    assert_eq!(c.integral_input(c.steady_state, Ratio { thousandths: 0 }), Some(Ratio { thousandths: 0 }));
    assert_eq!(c.command(Ratio { thousandths: 0 }), Some(Power { microwatts: 8_000_000_000 }));
}

#[test]
fn cascade_arithmetic() {
    let c = FeedbackCascade::heater_outlet();
    assert_eq!(c.derivative_input(Temperature { millidegrees_c: 103_000 }), Some(Ratio { thousandths: 590 }));
    // setpoint 103 C, filtered output 102.41 + 0.2 = 102.61 C: error 0.39 K
    assert_eq!(
        c.integral_input(Temperature { millidegrees_c: 103_000 }, Ratio { thousandths: 200 }),
        Some(Ratio { thousandths: 390 })
    );
    // -9000 W from the integral block: the command goes negative, unclipped
    assert_eq!(c.command(Ratio { thousandths: -9_000_000 }), Some(Power { microwatts: -1_000_000_000 }));
}

#[test]
fn control_tick_sequence() {
    let c = FeedbackCascade::heater_outlet();
    let (mut tick, first) = ControlTick::begin(
        c,
        Temperature { millidegrees_c: 80_120 },
        Temperature { millidegrees_c: 102_910 },
    );
    assert_eq!(first, TickRequest::EvaluateReference(Ratio { thousandths: 1000 }));
    assert_eq!(tick.setpoint(), None);
    assert_eq!(tick.supply(Ratio { thousandths: 300 }), TickRequest::EvaluateDerivative(Ratio { thousandths: 500 }));
    assert_eq!(tick.setpoint(), Some(Temperature { millidegrees_c: 102_710 }));
    assert_eq!(tick.supply(Ratio { thousandths: 100 }), TickRequest::EvaluateIntegral(Ratio { thousandths: 200 }));
    assert_eq!(tick.supply(Ratio { thousandths: 635_000 }), TickRequest::WriteCommand(Power { microwatts: 8_635_000_000 }));
    assert_eq!(tick.stage(), TickStage::Complete);
}

#[test]
fn control_tick_at_rest() {
    let c = FeedbackCascade::heater_outlet();
    let (mut tick, first) = ControlTick::begin(c, Temperature { millidegrees_c: 79_120 }, c.steady_state);
    assert_eq!(first, TickRequest::EvaluateReference(Ratio { thousandths: 0 }));
    let zero = Ratio { thousandths: 0 };
    assert_eq!(tick.supply(zero), TickRequest::EvaluateDerivative(zero));
    assert_eq!(tick.supply(zero), TickRequest::EvaluateIntegral(zero));
    assert_eq!(tick.supply(zero), TickRequest::WriteCommand(kw(8)));
}

#[test]
fn control_tick_abandoned_on_overflow() {
    let c = FeedbackCascade::heater_outlet();
    let (tick, first) = ControlTick::begin(c, Temperature { millidegrees_c: i64::MIN }, c.steady_state);
    assert_eq!(first, TickRequest::Abandon);
    assert_eq!(tick.stage(), TickStage::Abandoned);
    let (mut tick, _) = ControlTick::begin(c, c.steady_state, c.steady_state);
    assert_eq!(tick.supply(Ratio { thousandths: i64::MAX }), TickRequest::Abandon);
    assert_eq!(tick.stage(), TickStage::Abandoned);
    assert_eq!(tick.setpoint(), None);
}

#[test]
fn series_chain_feeds_each_stage_from_the_last() {
    let mut chain = SeriesChain::start(2, Ratio { thousandths: 1000 });
    assert_eq!(chain.output(), None);
    assert_eq!(chain.next_input(), Some((0, Ratio { thousandths: 1000 })));
    chain.supply(Ratio { thousandths: 4500 });
    assert_eq!(chain.next_input(), Some((1, Ratio { thousandths: 4500 })));
    assert_eq!(chain.output(), None);
    chain.supply(Ratio { thousandths: -7 });
    assert_eq!(chain.next_input(), None);
    assert_eq!(chain.output(), Some(Ratio { thousandths: -7 }));
}

#[test]
fn series_chain_without_stages_passes_input_through() {
    let chain = SeriesChain::start(0, Ratio { thousandths: 12 });
    assert_eq!(chain.next_input(), None);
    assert_eq!(chain.output(), Some(Ratio { thousandths: 12 }));
}
