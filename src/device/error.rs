use vstd::prelude::*;

verus! {

/// The error that nix reports when a system call fails. Values of it are only
/// carried through this library, never inspected.
#[verifier::external_type_specification]
#[verifier::external_body]
pub struct ExErrno(nix::errno::Errno);

/// The error std reports when an I/O operation fails. Values of it are only
/// carried through this library, never inspected.
#[verifier::external_type_specification]
#[verifier::external_body]
pub struct ExIoError(std::io::Error);

/// Failures when initializing the device.
///
/// - `DeviceAccessFailed`: the device file could not be opened, either because
///   of insufficient permissions or because the operating system does not
///   provide it.
/// - `MemoryMapFailed`: the device file could not be mapped into memory.
#[derive(Debug)]
pub enum DeviceError {
    DeviceAccessFailed(nix::errno::Errno),
    MemoryMapFailed(std::io::Error),
}

/// Failures when working with GPIO pins.
///
/// - `WrongLease`: the pin is leased in the other direction, or a release was
///   asked for a lease that is not held.
/// - `WrongPinId`: the internal identifier lies outside every register range
///   known to this crate.
/// - `LeaseMapPoisoned`: the lock that guards the lease registry of a shared
///   device was poisoned by a thread that panicked while holding it.
#[derive(Debug, Clone, Copy, PartialEq, Eq, Structural)]
pub enum PinError {
    WrongLease,
    WrongPinId(u8),
    LeaseMapPoisoned,
}

} // verus!
