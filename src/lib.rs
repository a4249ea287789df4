//! Real-time feedback control and telemetry pipeline for a simulated
//! heater/reactor loop: physical units in fixed point, series buffers with a
//! sliding time window, the telemetry link supervisor, the wire encoding of
//! process variables, and the controller arithmetic that turns transfer
//! function outputs into an actuator command.
pub mod composer;
pub mod driver;
pub mod feedback;
pub mod link;
pub mod series;
pub mod telemetry;
pub mod units;
