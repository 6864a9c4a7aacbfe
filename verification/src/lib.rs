//! Verified core of a closed-loop fan-speed controller.
//!
//! Temperatures are fixed-point integers in milli-degrees Celsius; duty
//! cycles and smoothing factors are fixed-point fractions in parts per
//! million.  The control logic (thermal filter, duty-cycle mapper, fan
//! state machine, software PWM timing, and statistics aggregation) is
//! verified here; sensor, GPIO, signal, and file I/O live outside.

pub mod config;
pub mod cycle;
pub mod duty;
pub mod fan;
pub mod filter;
pub mod pwm;
pub mod sensor;
pub mod stats;
pub mod units;
