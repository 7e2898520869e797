//! Memory-mapped access to the GPIO registers of the ODROID-C2 (revision 2).
//!
//! The register window of the SoC is held by `Memory`, together with a
//! registry of pin leases that keeps any pin from being used as an input and an
//! output at the same time. `Device` hands out typed `InputPin` and
//! `OutputPin` handles whose operations are read-modify-write sequences on
//! 32-bit register words.
use vstd::prelude::*;

pub mod device;
mod pin_map;

pub use device::error::{DeviceError, PinError};
pub use device::memory::{Memory, BLOCK_SIZE, WINDOW_WORDS};
pub use device::pin::{
    classify,
    Direction,
    InputPin,
    OutputPin,
    RegistersOffsets,
    RegistersRangeType,
    UnsafePointerPin,
    Value,
};
pub use device::{device_path, Device, GPIO_BASE_ADDR};
pub use pin_map::{raw_id, PinId};

verus! {

/// Main error type of this crate: either a pin error or a device error.
#[derive(Debug)]
pub enum OdroidC2Error {
    PinError(PinError),
    DeviceError(DeviceError),
}

pub type OdroidResult<T> = Result<T, OdroidC2Error>;

} // verus!
