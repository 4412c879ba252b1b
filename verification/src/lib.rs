//! Motion sequencing and command translation for a two-axis robotic head.
//!
//! The library is the decision core of a service that drives a head built
//! from two addressable smart servos: a base yaw rotation and a neck pitch.
//! It turns decoded activation/pose commands into exact sequences of
//! servo-link operations, drives the settle-detection protocol one
//! observation at a time, and pins every sequence down with a contract.
//! The serial link itself, the pub/sub channel and the display switch are
//! external collaborators: a thin runtime performs the issued operations
//! and feeds status observations back into the library's state machines.

use vstd::prelude::*;

pub mod controller;
pub mod dispatch;
pub mod error;
pub mod link;
pub mod settle;

pub use controller::HeadController;
pub use controller::MotorsConfig;

verus! {

/// Default physical id of the base (yaw) motor.
pub const DEFAULT_BASE_MOTOR_ID: u8 = 1;

/// Default physical id of the neck (pitch) motor.
pub const DEFAULT_NECK_MOTOR_A_ID: u8 = 2;

/// Neck pitch held while the head is active, in tenths of a degree.
pub const NECK_MOTOR_A_NORMAL_POSITION: i32 = -100;

} // verus!
