//! The modes that the controller runs through.

pub mod calibration;
pub mod demo;
pub mod recovery;
