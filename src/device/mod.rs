use vstd::prelude::*;

pub mod error;
pub mod memory;
pub mod pin;

use crate::pin_map::{raw_id, PinId};
use crate::{OdroidC2Error, OdroidResult};
use error::PinError;
use memory::{after_lease_input, after_lease_output, can_lease_input, can_lease_output, Memory};
use pin::{directed, Direction, InputPin, OutputPin, UnsafePointerPin};

verus! {

/// Physical address of the GPIO register block; the window is mapped from
/// this offset of the memory device.
pub const GPIO_BASE_ADDR: u64 = 0xC8834000;

/// The device file to map: the full physical-memory device when running with
/// elevated privilege, the GPIO-only one otherwise.
pub fn device_path(is_root: bool) -> (r: &'static str)
    ensures
        is_root ==> r@ == "/dev/mem"@,
        !is_root ==> r@ == "/dev/gpiomem"@,
{
    if is_root {
        "/dev/mem"
    } else {
        "/dev/gpiomem"
    }
}

/// The ODROID-C2 GPIO interface: it owns the mapped register window and the
/// lease registry, and hands out input and output pins.
///
/// Only revision 2 of the ODROID-C2 is supported.
#[derive(Debug)]
pub struct Device {
    memory: Memory,
}

impl Device {
    pub closed spec fn mem(self) -> Memory {
        self.memory
    }

    pub open spec fn wf(self) -> bool {
        self.mem().wf()
    }

    /// The register window, as 32-bit words.
    pub open spec fn words(self) -> Seq<u32> {
        self.mem().words()
    }

    /// The lease registry.
    pub open spec fn leases(self) -> Map<u8, (usize, usize)> {
        self.mem().leases()
    }

    /// A device over a mapped register window.
    pub fn new(memory: Memory) -> (r: Self)
        ensures
            r.mem() == memory,
    {
        Self { memory }
    }

    /// The register window and lease registry, for inspection.
    pub fn memory(&self) -> (r: &Memory)
        ensures
            *r == self.mem(),
    {
        &self.memory
    }

    pub(crate) fn memory_mut(&mut self) -> (r: &mut Memory)
        ensures
            *r == old(self).mem(),
            final(self).mem() == *final(r),
    {
        &mut self.memory
    }

    /// Leases `pin_id` for writing and programs it as an output.
    ///
    /// Fails with `WrongLease`, changing nothing, while the pin is leased as an
    /// input.
    pub fn output_pin(&mut self, pin_id: PinId) -> (r: OdroidResult<OutputPin>)
        requires
            old(self).wf(),
        ensures
            final(self).wf(),
            r is Ok <==> can_lease_output(old(self).leases(), raw_id(pin_id)),
            match r {
                Ok(p) => {
                    &&& p.pin() == pin_id
                    &&& final(self).leases() == after_lease_output(old(self).leases(), raw_id(pin_id))
                    &&& final(self).words() == directed(old(self).words(), pin_id, Direction::Output)
                },
                Err(e) => {
                    &&& e == OdroidC2Error::PinError(PinError::WrongLease)
                    &&& final(self).leases() == old(self).leases()
                    &&& final(self).words() == old(self).words()
                },
            },
    {
        let accessor = match UnsafePointerPin::new(pin_id) {
            Ok(a) => a,
            Err(e) => return Err(e),
        };
        match self.memory.lease_output(pin_id) {
            Ok(()) => {},
            Err(e) => return Err(e),
        }
        accessor.direction(&mut self.memory, Direction::Output);
        Ok(OutputPin::from_accessor(accessor))
    }

    /// Leases `pin_id` for reading and programs it as an input, which also
    /// disables its pull resistor.
    ///
    /// Fails with `WrongLease`, changing nothing, while the pin is leased as an
    /// output.
    pub fn input_pin(&mut self, pin_id: PinId) -> (r: OdroidResult<InputPin>)
        requires
            old(self).wf(),
        ensures
            final(self).wf(),
            r is Ok <==> can_lease_input(old(self).leases(), raw_id(pin_id)),
            match r {
                Ok(p) => {
                    &&& p.pin() == pin_id
                    &&& final(self).leases() == after_lease_input(old(self).leases(), raw_id(pin_id))
                    &&& final(self).words() == directed(old(self).words(), pin_id, Direction::Input)
                },
                Err(e) => {
                    &&& e == OdroidC2Error::PinError(PinError::WrongLease)
                    &&& final(self).leases() == old(self).leases()
                    &&& final(self).words() == old(self).words()
                },
            },
    {
        let accessor = match UnsafePointerPin::new(pin_id) {
            Ok(a) => a,
            Err(e) => return Err(e),
        };
        match self.memory.lease_input(pin_id) {
            Ok(()) => {},
            Err(e) => return Err(e),
        }
        accessor.direction(&mut self.memory, Direction::Input);
        Ok(InputPin::from_accessor(accessor))
    }
}

} // verus!
