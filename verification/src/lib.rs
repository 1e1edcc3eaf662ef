//! Verified register-level logic for a heater control board: the DACx578
//! digital-to-analog converters, the INA233 power monitors, and the decisions
//! of the firmware tasks that drive them.

pub mod bits;
pub mod dac;
pub mod registers;
pub mod ina233;
pub mod console;
pub mod commands;
pub mod addresses;
pub mod dac_task;
pub mod dac_runs;
pub mod report_task;
pub mod telemetry;
