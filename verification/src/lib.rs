//! Decision core of a telemetry agent for a microcontroller: it brings up a
//! wireless link, starts a battery-backed clock, and then publishes one
//! timestamped temperature and humidity reading per tick to a message broker.
//!
//! The crate performs no input or output. Each component is a function from
//! plain values to plain values, or a state machine that is handed the outcome
//! of the last action and answers with the next one; a driver around the crate
//! talks to the radio, the sensor, the clock and the broker.
//!
//! - [`agent`]: the startup sequence, its failure policy, the configuration.
//! - [`wifi`]: the link bring-up, from the scan to the reachability probe.
//! - [`clock`]: the time source and its run control.
//! - [`telemetry`]: the main loop, one tick after another.
//! - [`wire`]: the two payload encodings and the outbound messages.
//! - [`router`]: what becomes of inbound broker messages.
//!
//! Temperature and humidity are single-precision numbers. The crate carries
//! them as bit patterns and never computes with them.

pub mod agent;
pub mod clock;
pub mod router;
pub mod telemetry;
pub mod wifi;
pub mod wire;

pub use crate::wire::Msg;
