//! Closed-loop temperature-driven fan-speed control.
//!
//! Each temperature sensor feeds an independent PID controller; each fan maps
//! the worst-case (highest) controller output among its assigned sensors to a
//! PWM duty cycle.  All control arithmetic is exact fixed-point: values on the
//! unit actuation interval are held in micro-units (`SCALE` = one), sensor
//! readings and setpoints in millidegrees, so every step of the loop has a
//! precise mathematical statement.  Device I/O (reading sensor files, writing
//! duty values, sleeping between ticks) is left to the caller.

pub mod config;
pub mod control;
pub mod fan;
pub mod heat;
pub mod pid;
pub mod sensor;
