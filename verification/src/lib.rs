//! Core of a sensored three-phase brushless motor controller.
//!
//! The crate holds the decisions of the controller and none of its input or
//! output: every function takes the words that came back from the hardware
//! and returns the actions that the hardware is to carry out. Angles and
//! power levels are fixed-point integers (see [`math`]), and nothing is
//! allocated.
//!
//! Whoever owns the hardware runs one step of [`bldc::Bldc`] in four moves:
//!
//! 1. `read_warnings` says which frames to put on the driver's bus; the
//!    reply to the last of them is the snapshot of the warnings.
//! 2. `reads_encoder` says whether the step takes a sample; if so,
//!    `read_angle` says which frames to put on the sensor's bus.
//! 3. `step` takes the two replies and returns the actions of the step.
//! 4. The actions are carried out in order. If one of them fails, or a bus
//!    does, `safemode` returns the actions that brake the motor.
//!
//! [`runner`] decides when the loop around these steps asks, steps, brakes
//! and stops.

pub mod action;
pub mod bldc;
pub mod drv_8305;
pub mod error;
pub mod magnet_controller;
pub mod math;
pub mod modes;
pub mod position_sensor;
pub mod runner;
pub mod spi;
