use c2_mmap_gpio::{
    Device, Direction, Memory, OdroidC2Error, PinError, PinId, UnsafePointerPin, Value,
    BLOCK_SIZE,
};
use memmap::MmapMut;

// Phy7 is internal id 249: X range, bit 21.
const PHY7_BIT: u32 = 1 << 21;
const X_FSEL: usize = 0x118 * 4;
const X_PUEN: usize = 0x14C * 4;
const X_SET: usize = 0x119 * 4;
const X_LEV: usize = 0x11A * 4;

fn window() -> Memory {
    Memory::new(MmapMut::map_anon(BLOCK_SIZE).unwrap()).unwrap()
}

fn device() -> Device {
    Device::new(window())
}

fn is_wrong_lease<T>(r: &Result<T, OdroidC2Error>) -> bool {
    matches!(r, Err(OdroidC2Error::PinError(PinError::WrongLease)))
}

#[test]
fn memory_needs_a_full_window() {
    assert!(Memory::new(MmapMut::map_anon(BLOCK_SIZE).unwrap()).is_some());
    assert!(Memory::new(MmapMut::map_anon(64).unwrap()).is_none());
}

#[test]
fn memory_words_read_back() {
    let mut m = window();
    assert_eq!(m.read_u32(X_SET), 0);
    m.write_u32(X_SET, 0xDEAD_BEEF);
    assert_eq!(m.read_u32(X_SET), 0xDEAD_BEEF);
    assert_eq!(m.read_u32(X_LEV), 0);
    m.write_u32(BLOCK_SIZE - 4, 7);
    assert_eq!(m.read_u32(BLOCK_SIZE - 4), 7);
}

#[test]
fn output_lease_blocks_input_until_released() {
    let mut m = window();
    assert!(m.lease_output(PinId::Phy7).is_ok());
    assert!(is_wrong_lease(&m.lease_input(PinId::Phy7)));
    assert_eq!(m.input_leases(PinId::Phy7), 0);
    assert_eq!(m.output_leases(PinId::Phy7), 1);
    assert!(m.release_output(PinId::Phy7).is_ok());
    assert!(m.lease_input(PinId::Phy7).is_ok());
    assert_eq!(m.input_leases(PinId::Phy7), 1);
    assert_eq!(m.output_leases(PinId::Phy7), 0);
}

#[test]
fn leases_of_one_direction_accumulate() {
    let mut m = window();
    assert!(m.lease_input(PinId::Phy8).is_ok());
    assert!(m.lease_input(PinId::Phy8).is_ok());
    assert_eq!(m.input_leases(PinId::Phy8), 2);
    assert!(is_wrong_lease(&m.lease_output(PinId::Phy8)));
    assert!(m.lease_output(PinId::Phy7).is_ok());
    assert_eq!(m.output_leases(PinId::Phy7), 1);
}

#[test]
fn releasing_a_lease_that_is_not_held_is_reported() {
    let mut m = window();
    assert!(is_wrong_lease(&m.release_input(PinId::Phy7)));
    assert!(is_wrong_lease(&m.release_output(PinId::Phy7)));
    assert_eq!(m.input_leases(PinId::Phy7), 0);
    assert_eq!(m.output_leases(PinId::Phy7), 0);
    assert!(m.lease_input(PinId::Phy7).is_ok());
    assert!(is_wrong_lease(&m.release_output(PinId::Phy7)));
    assert_eq!(m.input_leases(PinId::Phy7), 1);
}

#[test]
fn accessor_direction_protocols() {
    let mut m = window();
    m.write_u32(X_FSEL, 0);
    m.write_u32(X_PUEN, 0xFFFF_FFFF);
    let a = UnsafePointerPin::new(PinId::Phy7).unwrap();
    assert_eq!(a.pin_id(), PinId::Phy7);
    a.direction(&mut m, Direction::Input);
    assert_eq!(m.read_u32(X_FSEL), PHY7_BIT);
    assert_eq!(m.read_u32(X_PUEN), !PHY7_BIT);
    m.write_u32(X_FSEL, 0xFFFF_FFFF);
    a.direction(&mut m, Direction::Output);
    assert_eq!(m.read_u32(X_FSEL), !PHY7_BIT);
    assert_eq!(m.read_u32(X_PUEN), !PHY7_BIT);
}

#[test]
fn accessor_write_and_read() {
    let mut m = window();
    let a = UnsafePointerPin::new(PinId::Phy7).unwrap();
    m.write_u32(X_SET, 0x0000_0001);
    a.write(&mut m, Value::High);
    assert_eq!(m.read_u32(X_SET), 0x0000_0001 | PHY7_BIT);
    a.write(&mut m, Value::Low);
    assert_eq!(m.read_u32(X_SET), 0x0000_0001);
    assert_eq!(a.read(&m), Value::Low);
    m.write_u32(X_LEV, PHY7_BIT);
    assert_eq!(a.read(&m), Value::High);
    m.write_u32(X_LEV, !PHY7_BIT);
    assert_eq!(a.read(&m), Value::Low);
}

#[test]
fn output_pin_programs_direction_and_leases() {
    let mut m = window();
    m.write_u32(X_FSEL, 0xFFFF_FFFF);
    m.write_u32(X_PUEN, 0xFFFF_FFFF);
    let mut d = Device::new(m);
    let p = d.output_pin(PinId::Phy7).unwrap();
    assert_eq!(p.pin_id(), PinId::Phy7);
    assert_eq!(d.memory().read_u32(X_FSEL), !PHY7_BIT);
    assert_eq!(d.memory().read_u32(X_PUEN), 0xFFFF_FFFF);
    assert_eq!(d.memory().output_leases(PinId::Phy7), 1);
    assert_eq!(d.memory().input_leases(PinId::Phy7), 0);
}

#[test]
fn input_pin_programs_direction_and_disables_pull() {
    let mut m = window();
    m.write_u32(X_PUEN, 0xFFFF_FFFF);
    let mut d = Device::new(m);
    let p = d.input_pin(PinId::Phy7).unwrap();
    assert_eq!(p.pin_id(), PinId::Phy7);
    assert_eq!(d.memory().read_u32(X_FSEL), PHY7_BIT);
    assert_eq!(d.memory().read_u32(X_PUEN), !PHY7_BIT);
    assert_eq!(d.memory().input_leases(PinId::Phy7), 1);
}

#[test]
fn output_write_sets_and_clears_the_output_bit() {
    let mut m = window();
    m.write_u32(X_SET, 0x8000_0000);
    let mut d = Device::new(m);
    let p = d.output_pin(PinId::Phy7).unwrap();
    p.set_value(&mut d, Value::High);
    assert_eq!(d.memory().read_u32(X_SET), 0x8000_0000 | PHY7_BIT);
    p.set_value(&mut d, Value::Low);
    assert_eq!(d.memory().read_u32(X_SET), 0x8000_0000);
    p.set_high(&mut d);
    assert_eq!(d.memory().read_u32(X_SET), 0x8000_0000 | PHY7_BIT);
    p.set_low(&mut d);
    assert_eq!(d.memory().read_u32(X_SET), 0x8000_0000);
}

#[test]
fn write_then_read_through_a_mirrored_level_register() {
    // On the board the input-level word follows the driven line; here the
    // test copies the output-set word over to stand in for that.
    let mut d = device();
    let out = d.output_pin(PinId::Phy7).unwrap();
    out.set_value(&mut d, Value::High);
    let driven = d.memory().read_u32(X_SET);
    assert_eq!(driven & PHY7_BIT, PHY7_BIT);
    assert!(out.release(&mut d).is_ok());
    let mut m = window();
    m.write_u32(X_LEV, driven);
    let mut d = Device::new(m);
    let inp = d.input_pin(PinId::Phy7).unwrap();
    assert_eq!(inp.get_value(&d), Value::High);
    assert!(inp.is_high(&d));
    assert!(!inp.is_low(&d));
}

#[test]
fn input_pin_reads_the_level_bit() {
    let mut m = window();
    m.write_u32(X_LEV, !PHY7_BIT);
    let mut d = Device::new(m);
    let p = d.input_pin(PinId::Phy7).unwrap();
    assert_eq!(p.get_value(&d), Value::Low);
    assert!(p.is_low(&d));
    assert!(!p.is_high(&d));
}

#[test]
fn into_output_then_write() {
    let mut d = device();
    let inp = d.input_pin(PinId::Phy7).unwrap();
    let out = inp.into_output(&mut d).unwrap();
    assert_eq!(out.pin_id(), PinId::Phy7);
    assert_eq!(d.memory().read_u32(X_FSEL), 0);
    let before = d.memory().read_u32(X_SET);
    out.set_value(&mut d, Value::High);
    assert_ne!(d.memory().read_u32(X_SET), before);
    assert_eq!(d.memory().read_u32(X_SET), PHY7_BIT);
    assert_eq!(d.memory().output_leases(PinId::Phy7), 1);
    assert_eq!(d.memory().input_leases(PinId::Phy7), 0);
}

#[test]
fn into_output_refused_while_another_input_is_held() {
    let mut d = device();
    let first = d.input_pin(PinId::Phy7).unwrap();
    let _second = d.input_pin(PinId::Phy7).unwrap();
    assert!(is_wrong_lease(&first.into_output(&mut d)));
    assert_eq!(d.memory().input_leases(PinId::Phy7), 1);
    assert_eq!(d.memory().output_leases(PinId::Phy7), 0);
    assert_eq!(d.memory().read_u32(X_FSEL), PHY7_BIT);
}

#[test]
fn into_input_then_read() {
    let mut m = window();
    m.write_u32(X_PUEN, 0xFFFF_FFFF);
    m.write_u32(X_LEV, PHY7_BIT);
    let mut d = Device::new(m);
    let out = d.output_pin(PinId::Phy7).unwrap();
    let inp = out.into_input(&mut d).unwrap();
    assert_eq!(inp.pin_id(), PinId::Phy7);
    assert_eq!(d.memory().read_u32(X_FSEL), PHY7_BIT);
    assert_eq!(d.memory().read_u32(X_PUEN), !PHY7_BIT);
    assert_eq!(inp.get_value(&d), Value::High);
    assert_eq!(d.memory().output_leases(PinId::Phy7), 0);
    assert_eq!(d.memory().input_leases(PinId::Phy7), 1);
}

#[test]
fn releasing_an_output_pin_restores_the_registry() {
    let mut d = device();
    let other = d.output_pin(PinId::Phy7).unwrap();
    let p = d.output_pin(PinId::Phy7).unwrap();
    assert_eq!(d.memory().output_leases(PinId::Phy7), 2);
    assert!(p.release(&mut d).is_ok());
    assert_eq!(d.memory().output_leases(PinId::Phy7), 1);
    assert!(other.release(&mut d).is_ok());
    assert_eq!(d.memory().output_leases(PinId::Phy7), 0);
    assert_eq!(d.memory().input_leases(PinId::Phy7), 0);
}

#[test]
fn releasing_an_input_pin_restores_the_registry() {
    let mut d = device();
    let p = d.input_pin(PinId::Phy12).unwrap();
    assert_eq!(d.memory().input_leases(PinId::Phy12), 1);
    assert!(p.release(&mut d).is_ok());
    assert_eq!(d.memory().input_leases(PinId::Phy12), 0);
}

#[test]
fn scenario_output_high_release_then_input() {
    let mut d = device();
    let out = d.output_pin(PinId::Phy7).unwrap();
    out.set_value(&mut d, Value::High);
    assert!(out.release(&mut d).is_ok());
    assert!(d.input_pin(PinId::Phy7).is_ok());
}

#[test]
fn scenario_input_refused_while_output_held() {
    let mut d = device();
    let _out = d.output_pin(PinId::Phy7).unwrap();
    let r = d.input_pin(PinId::Phy7);
    assert!(is_wrong_lease(&r));
    assert_eq!(d.memory().output_leases(PinId::Phy7), 1);
    assert_eq!(d.memory().input_leases(PinId::Phy7), 0);
    assert_eq!(d.memory().read_u32(X_FSEL), 0);
}

#[test]
fn pins_of_different_ids_do_not_conflict() {
    let mut d = device();
    let _out = d.output_pin(PinId::Phy7).unwrap();
    assert!(d.input_pin(PinId::Phy8).is_ok());
}
