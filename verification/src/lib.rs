//! Bus-independent driver logic for the ICM-20948 inertial measurement unit.
//!
//! The driver never touches the bus itself. Each operation returns an
//! [`Action`]: either a frame to clock out over SPI (framed by chip select
//! as the frame says), after which the bytes that came back are handed to
//! [`IcmImu::resume`], or the end of the operation with its reply.
use vstd::prelude::*;

pub mod registers;
pub mod sample;
pub mod program;
pub mod imu;
pub mod ops;
pub mod api;
pub mod shapes;
pub mod laws;
pub mod sessions;
pub mod fields;

pub use crate::imu::{IcmImu, Action, Frame};
pub use crate::program::Reply;
pub use crate::registers::{
    AccLPF, AccSensitivity, AccStates, GyroLPF, GyroSensitivity, GyroStates, IcmError, MagStates,
};

verus! {
} // verus!
