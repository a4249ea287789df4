//! One tick of the heater feedback control loop, as a sequence of requests.
//!
//! The transfer function and the controller blocks are evaluated by the
//! caller. A tick begins from the readings of the heater inlet and outlet
//! temperatures and asks, in order, for the reference transfer function, the
//! derivative block and the integral block to be evaluated on a given input;
//! each output is handed back with `supply`. The tick ends with the command
//! to write, or is abandoned when a value does not fit, in which case nothing
//! is to be written for this tick.
use vstd::prelude::*;
use crate::feedback::{
    command_power, deviation_ratio, error_ratio, expected_outlet_temperature, inlet_deviation,
    offset_temperature, FeedbackCascade, INLET_STEADY_STATE_MILLIDEGREES_C,
    OUTLET_STEADY_STATE_MILLIDEGREES_C,
};
use crate::units::{Power, Ratio, Temperature};

verus! {

/// Where a tick stands.
#[derive(Clone, Copy, Debug, PartialEq, Eq, Structural)]
pub enum TickStage {
    AwaitReference,
    AwaitDerivative,
    AwaitIntegral,
    Complete,
    Abandoned,
}

/// What the tick asks of the caller.
#[derive(Clone, Copy, Debug, PartialEq, Eq, Structural)]
pub enum TickRequest {
    /// Evaluate the reference transfer function on this input.
    EvaluateReference(Ratio),
    /// Evaluate the derivative block on this input.
    EvaluateDerivative(Ratio),
    /// Evaluate the integral block on this input.
    EvaluateIntegral(Ratio),
    /// Write this heater power command.
    WriteCommand(Power),
    /// Write nothing this tick.
    Abandon,
}

/// A tick as a mathematical value.
#[derive(Clone, Copy, Debug, PartialEq, Eq, Structural)]
pub struct TickModel {
    pub cascade: FeedbackCascade,
    pub measured_outlet: Temperature,
    pub stage: TickStage,
    /// The expected outlet temperature, once the reference output is known.
    pub setpoint: Temperature,
}

/// The tick that begins from these readings, and its first request.
pub open spec fn begin_spec(cascade: FeedbackCascade, inlet: Temperature, measured_outlet: Temperature) -> (TickModel, TickRequest) {
    let m = TickModel { cascade, measured_outlet, stage: TickStage::AwaitReference, setpoint: measured_outlet };
    match deviation_ratio(inlet.millidegrees_c as int, INLET_STEADY_STATE_MILLIDEGREES_C as int) {
        Some(r) => (m, TickRequest::EvaluateReference(r)),
        None => (TickModel { stage: TickStage::Abandoned, ..m }, TickRequest::Abandon),
    }
}

/// The tick after `output` is handed back, and its next request.
pub open spec fn supply_spec(m: TickModel, output: Ratio) -> (TickModel, TickRequest) {
    let abandoned = (TickModel { stage: TickStage::Abandoned, ..m }, TickRequest::Abandon);
    match m.stage {
        TickStage::AwaitReference => match offset_temperature(OUTLET_STEADY_STATE_MILLIDEGREES_C as int, output) {
            Some(sp) => match deviation_ratio(
                m.measured_outlet.millidegrees_c as int,
                m.cascade.steady_state.millidegrees_c as int,
            ) {
                Some(d) => (
                    TickModel { stage: TickStage::AwaitDerivative, setpoint: sp, ..m },
                    TickRequest::EvaluateDerivative(d),
                ),
                None => abandoned,
            },
            None => abandoned,
        },
        TickStage::AwaitDerivative => match error_ratio(
            m.cascade.steady_state.millidegrees_c as int,
            m.setpoint.millidegrees_c as int,
            output,
        ) {
            Some(e) => (TickModel { stage: TickStage::AwaitIntegral, ..m }, TickRequest::EvaluateIntegral(e)),
            None => abandoned,
        },
        TickStage::AwaitIntegral => match command_power(output, m.cascade.nominal_bias.microwatts as int) {
            Some(p) => (TickModel { stage: TickStage::Complete, ..m }, TickRequest::WriteCommand(p)),
            None => abandoned,
        },
        _ => (m, TickRequest::Abandon),
    }
}

/// A tick waits for an output.
pub open spec fn awaits_output(stage: TickStage) -> bool {
    stage == TickStage::AwaitReference || stage == TickStage::AwaitDerivative || stage == TickStage::AwaitIntegral
}

/// One tick of the control loop.
pub struct ControlTick {
    cascade: FeedbackCascade,
    measured_outlet: Temperature,
    stage: TickStage,
    setpoint: Temperature,
}

impl View for ControlTick {
    type V = TickModel;

    closed spec fn view(&self) -> TickModel {
        TickModel {
            cascade: self.cascade,
            measured_outlet: self.measured_outlet,
            stage: self.stage,
            setpoint: self.setpoint,
        }
    }
}

impl ControlTick {
    /// Begins a tick from the heater inlet reading and the measured outlet
    /// temperature; the first request asks for the reference transfer
    /// function on the inlet deviation.
    pub fn begin(cascade: FeedbackCascade, inlet: Temperature, measured_outlet: Temperature) -> (r: (ControlTick, TickRequest))
        ensures
            (r.0@, r.1) == begin_spec(cascade, inlet, measured_outlet),
    {
        let tick = ControlTick { cascade, measured_outlet, stage: TickStage::AwaitReference, setpoint: measured_outlet };
        match inlet_deviation(inlet) {
            Some(r) => (tick, TickRequest::EvaluateReference(r)),
            None => (ControlTick { stage: TickStage::Abandoned, ..tick }, TickRequest::Abandon),
        }
    }

    pub fn stage(&self) -> (r: TickStage)
        ensures
            r == self@.stage,
    {
        self.stage
    }

    /// The expected outlet temperature, once the reference output is known.
    pub fn setpoint(&self) -> (r: Option<Temperature>)
        ensures
            r == (if self@.stage == TickStage::AwaitReference || self@.stage == TickStage::Abandoned {
                None::<Temperature>
            } else {
                Some(self@.setpoint)
            }),
    {
        if self.stage == TickStage::AwaitReference || self.stage == TickStage::Abandoned {
            None
        } else {
            Some(self.setpoint)
        }
    }

    /// Hands back the output of the block last requested, and returns the
    /// next request.
    pub fn supply(&mut self, output: Ratio) -> (r: TickRequest)
        requires
            awaits_output(old(self)@.stage),
        ensures
            (final(self)@, r) == supply_spec(old(self)@, output),
    {
        match self.stage {
            TickStage::AwaitReference => {
                let sp = match expected_outlet_temperature(output) {
                    Some(t) => t,
                    None => {
                        self.stage = TickStage::Abandoned;
                        return TickRequest::Abandon;
                    },
                };
                match self.cascade.derivative_input(self.measured_outlet) {
                    Some(d) => {
                        self.setpoint = sp;
                        self.stage = TickStage::AwaitDerivative;
                        TickRequest::EvaluateDerivative(d)
                    },
                    None => {
                        self.stage = TickStage::Abandoned;
                        TickRequest::Abandon
                    },
                }
            },
            TickStage::AwaitDerivative => {
                match self.cascade.integral_input(self.setpoint, output) {
                    Some(e) => {
                        self.stage = TickStage::AwaitIntegral;
                        TickRequest::EvaluateIntegral(e)
                    },
                    None => {
                        self.stage = TickStage::Abandoned;
                        TickRequest::Abandon
                    },
                }
            },
            _ => {
                match self.cascade.command(output) {
                    Some(p) => {
                        self.stage = TickStage::Complete;
                        TickRequest::WriteCommand(p)
                    },
                    None => {
                        self.stage = TickStage::Abandoned;
                        TickRequest::Abandon
                    },
                }
            },
        }
    }
}

/// At rest: with the measured outlet at the steady state, and each block
/// handing back zero (a block at rest driven by zero), a whole tick asks for
/// the derivative and integral blocks on zero and writes exactly the nominal
/// bias.
pub proof fn lemma_tick_at_rest(cascade: FeedbackCascade, inlet: Temperature)
    requires
        cascade.steady_state.millidegrees_c == OUTLET_STEADY_STATE_MILLIDEGREES_C,
        begin_spec(cascade, inlet, cascade.steady_state).1 is EvaluateReference,
    ensures
        ({
            let zero = Ratio { thousandths: 0 };
            let t0 = begin_spec(cascade, inlet, cascade.steady_state).0;
            let (t1, q1) = supply_spec(t0, zero);
            let (t2, q2) = supply_spec(t1, zero);
            let (t3, q3) = supply_spec(t2, zero);
            &&& q1 == TickRequest::EvaluateDerivative(zero)
            &&& q2 == TickRequest::EvaluateIntegral(zero)
            &&& q3 == TickRequest::WriteCommand(cascade.nominal_bias)
            &&& t3.stage == TickStage::Complete
        }),
{
}

} // verus!
