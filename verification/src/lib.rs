//! Verified decision logic of an electrical leakage monitor for three
//! household branch circuits: leakage classification, indicator lamps,
//! per-branch event counters, the reading window used for smoothing,
//! the deterministic simulation schedule, the operator menu and the
//! dashboard's display choices.
pub mod status;
pub mod actuator;
pub mod history;
pub mod controller;
pub mod simulation;
pub mod menu;
pub mod input;
pub mod dashboard;


