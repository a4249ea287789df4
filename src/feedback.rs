//! The arithmetic of the two-stage feedback controller and of the reference
//! response, around the controller blocks and transfer functions that the
//! caller evaluates.
//!
//! One control tick goes:
//! 1. the heater inlet deviation, as a ratio, drives the reference transfer
//!    function, whose output gives the expected (setpoint) outlet temperature;
//! 2. the measured outlet deviation from the steady state, as a ratio, drives
//!    the inner derivative-leading block;
//! 3. that block's output, as a temperature, is taken from the setpoint: the
//!    error, as a ratio, drives the outer integral-leading block;
//! 4. that block's output in watts plus the nominal bias is the heater power
//!    command. No floor is applied here, unlike the parallel sum.
//!
//! Temperatures become ratios only as intervals from a fixed reference point,
//! divided by one kelvin, and ratios become temperatures again by the reverse.
use vstd::prelude::*;
use crate::units::{fits_i64, Power, Ratio, Temperature, MICROWATT_PER_WATT, RATIO_PER_UNIT};

verus! {

/// Steady-state heater outlet temperature, in millidegrees Celsius.
pub const OUTLET_STEADY_STATE_MILLIDEGREES_C: i64 = 102_410;

/// Steady-state heater inlet temperature, in millidegrees Celsius.
pub const INLET_STEADY_STATE_MILLIDEGREES_C: i64 = 79_120;

/// Nominal heater power, in kilowatts.
pub const NOMINAL_HEATER_POWER_KILOWATTS: i32 = 8;

/// `t - reference` divided by one kelvin; `None` when it does not fit.
pub open spec fn deviation_ratio(t: int, reference: int) -> Option<Ratio> {
    if fits_i64(t - reference) {
        Some(Ratio { thousandths: (t - reference) as i64 })
    } else {
        None
    }
}

/// `reference` offset by `r` times one kelvin; `None` when it does not fit.
pub open spec fn offset_temperature(reference: int, r: Ratio) -> Option<Temperature> {
    if fits_i64(reference + r.thousandths) {
        Some(Temperature { millidegrees_c: (reference + r.thousandths) as i64 })
    } else {
        None
    }
}

/// The error fed to the integral block: the setpoint less the derivative
/// block's output taken as a temperature, divided by one kelvin.
pub open spec fn error_ratio(reference: int, setpoint: int, derivative_output: Ratio) -> Option<Ratio> {
    if fits_i64(reference + derivative_output.thousandths)
        && fits_i64(setpoint - (reference + derivative_output.thousandths)) {
        Some(Ratio { thousandths: (setpoint - (reference + derivative_output.thousandths)) as i64 })
    } else {
        None
    }
}

/// The integral block's output times one watt, plus `bias`.
pub open spec fn command_power(integral_output: Ratio, bias: int) -> Option<Power> {
    let watts = integral_output.thousandths * (MICROWATT_PER_WATT / RATIO_PER_UNIT);
    if fits_i64(watts) && fits_i64(watts + bias) {
        Some(Power { microwatts: (watts + bias) as i64 })
    } else {
        None
    }
}

/// The heater inlet deviation from its steady state, divided by one kelvin:
/// the input of the reference transfer function.
pub fn inlet_deviation(inlet: Temperature) -> (r: Option<Ratio>)
    ensures
        r == deviation_ratio(inlet.millidegrees_c as int, INLET_STEADY_STATE_MILLIDEGREES_C as int),
{
    match inlet.deviation_from(Temperature::from_millidegrees_c(INLET_STEADY_STATE_MILLIDEGREES_C)) {
        Some(d) => Some(d.per_kelvin()),
        None => None,
    }
}

/// The expected heater outlet temperature: the steady state offset by the
/// reference transfer function's output times one kelvin.
pub fn expected_outlet_temperature(reference_output: Ratio) -> (r: Option<Temperature>)
    ensures
        r == offset_temperature(OUTLET_STEADY_STATE_MILLIDEGREES_C as int, reference_output),
{
    Temperature::from_millidegrees_c(OUTLET_STEADY_STATE_MILLIDEGREES_C).offset_by(reference_output.times_kelvin())
}

/// The configuration of the two-stage controller.
#[derive(Clone, Copy, Debug, PartialEq, Eq, Structural)]
pub struct FeedbackCascade {
    /// The fixed steady-state reference of the measured output.
    pub steady_state: Temperature,
    /// The command when the integral block's output is zero.
    pub nominal_bias: Power,
}

impl FeedbackCascade {
    /// The heater outlet controller: steady state 102.41 degrees Celsius,
    /// nominal power 8 kW.
    pub fn heater_outlet() -> (r: FeedbackCascade)
        ensures
            r.steady_state.millidegrees_c == OUTLET_STEADY_STATE_MILLIDEGREES_C,
            r.nominal_bias.microwatts == 8_000_000_000,
    {
        FeedbackCascade {
            steady_state: Temperature::from_millidegrees_c(OUTLET_STEADY_STATE_MILLIDEGREES_C),
            nominal_bias: Power::from_kilowatts(NOMINAL_HEATER_POWER_KILOWATTS),
        }
    }

    /// The input of the derivative block: the measured output's deviation
    /// from the steady state, divided by one kelvin.
    pub fn derivative_input(&self, measured: Temperature) -> (r: Option<Ratio>)
        ensures
            r == deviation_ratio(measured.millidegrees_c as int, self.steady_state.millidegrees_c as int),
    {
        match measured.deviation_from(self.steady_state) {
            Some(d) => Some(d.per_kelvin()),
            None => None,
        }
    }

    /// The input of the integral block: the setpoint less the derivative
    /// block's output taken back to a temperature, divided by one kelvin.
    pub fn integral_input(&self, setpoint: Temperature, derivative_output: Ratio) -> (r: Option<Ratio>)
        ensures
            r == error_ratio(self.steady_state.millidegrees_c as int, setpoint.millidegrees_c as int, derivative_output),
    {
        let filtered = match self.steady_state.offset_by(derivative_output.times_kelvin()) {
            Some(t) => t,
            None => {
                return None;
            },
        };
        match setpoint.deviation_from(filtered) {
            Some(e) => Some(e.per_kelvin()),
            None => None,
        }
    }

    /// The actuator command: the integral block's output times one watt,
    /// plus the nominal bias. It is not clipped.
    pub fn command(&self, integral_output: Ratio) -> (r: Option<Power>)
        ensures
            r == command_power(integral_output, self.nominal_bias.microwatts as int),
    {
        match integral_output.times_watt() {
            Some(p) => p.checked_add(self.nominal_bias),
            None => None,
        }
    }
}

/// At rest: when the measured output equals the steady state, the derivative
/// block's input is zero; when that block then outputs zero and the setpoint
/// is the steady state, the error is zero; and when the integral block outputs
/// zero, the command is exactly the nominal bias.
pub proof fn lemma_cascade_at_rest(c: FeedbackCascade)
    ensures
        deviation_ratio(c.steady_state.millidegrees_c as int, c.steady_state.millidegrees_c as int)
            == Some(Ratio { thousandths: 0 }),
        error_ratio(
            c.steady_state.millidegrees_c as int,
            c.steady_state.millidegrees_c as int,
            Ratio { thousandths: 0 },
        ) == Some(Ratio { thousandths: 0 }),
        command_power(Ratio { thousandths: 0 }, c.nominal_bias.microwatts as int) == Some(c.nominal_bias),
{
}

} // verus!
