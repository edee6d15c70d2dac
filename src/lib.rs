//! Telemetry fan-out and plan-versus-actual reconciliation for a fleet of
//! power plants.
//!
//! Quantities are fixed-point integers: power in kilowatts, energy in
//! kilowatt-hours (thousandths of a megawatt-hour), instants in seconds since
//! the Unix epoch and calendar days as day numbers counted from the common era.

pub mod calendar;
pub mod hub;
pub mod identity;
pub mod plan;
pub mod portfolio;
pub mod producer;
pub mod reconcile;
pub mod session;
pub mod text;
