//! Sans-I/O core of an inertial-measurement pipeline for a register-addressed
//! motion sensor.
//!
//! The crate holds the decisions of the pipeline and none of its effects:
//! which bytes go over the bus and what the answer means, in which order a
//! device is brought up, how raw counts are turned into the consumer's axis
//! convention, when a sampling cycle may proceed and with which time step.
//! Moving bytes, sleeping, locking and floating-point scaling belong to the
//! caller.

pub mod clock;
pub mod imu;
pub mod output;
pub mod scheduler;
pub mod spi_core;
pub mod trigger;
