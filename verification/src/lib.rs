//! Verified core of a DC motor speed-control firmware.
//!
//! - `keypad`: four-key debouncing and press/release events.
//! - `sh1106`: the I2C transfers that drive an SH1106 OLED.
//! - `menu`: the firmware's menu state machine and its partial redraw.
//! - `bench_menu`: the menu bench with its simulated motor.
//! - `drive`: H-bridge PWM compare values and encoder differences.
//! - `ramp`: the trapezoidal duty pattern of the H-bridge check.
//! - `sweep`: the duty sweep that finds the motor's dead zone.
//! - `experiment`: the schedule of the closed-loop experiments.
//! - `pid`: the controller's derivative mode.

pub mod keypad;
pub mod sh1106;
pub mod drive;
pub mod menu;
pub mod bench_menu;
pub mod ramp;
pub mod sweep;
pub mod experiment;
pub mod pid;
