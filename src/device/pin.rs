use vstd::prelude::*;

use super::error::PinError;
use super::memory::{
    after_lease_input,
    after_lease_output,
    after_release_input,
    after_release_output,
    can_lease_input,
    can_lease_output,
    inputs_of,
    leases_exclusive,
    outputs_of,
    Memory,
    WINDOW_WORDS,
};
use super::Device;
use crate::pin_map::{raw_id, PinId};
use crate::{OdroidC2Error, OdroidResult};

verus! {

// The GPIO registers of the ODROID-C2 sit in three separate parts of the
// mapped window (the DV, Y and X ranges). Internal pin identifiers map onto
// these parts directly: each range covers a contiguous run of identifiers and
// has its own copy of the four registers a pin needs.

/// Offset of the internal identifiers of the header pins.
pub const PIN_BASE: u8 = 136;

/// First and last internal identifier of each register range.
pub const DV_FIRST: u8 = PIN_BASE + 45;
pub const DV_LAST: u8 = PIN_BASE + 74;
pub const Y_FIRST: u8 = PIN_BASE + 75;
pub const Y_LAST: u8 = PIN_BASE + 91;
pub const X_FIRST: u8 = PIN_BASE + 92;
pub const X_LAST: u8 = PIN_BASE + 114;

/// Size in bytes of one register word.
pub const WORD_BYTES: usize = 4;

/// One of the three register ranges.
#[derive(Copy, Clone, Debug, PartialEq, Eq, Structural)]
pub enum RegistersRangeType {
    DV,
    Y,
    X,
}

/// First internal identifier covered by a range.
pub open spec fn range_start(r: RegistersRangeType) -> int {
    match r {
        RegistersRangeType::DV => DV_FIRST as int,
        RegistersRangeType::Y => Y_FIRST as int,
        RegistersRangeType::X => X_FIRST as int,
    }
}

/// Number of internal identifiers covered by a range.
pub open spec fn range_len(r: RegistersRangeType) -> int {
    match r {
        RegistersRangeType::DV => DV_LAST - DV_FIRST + 1,
        RegistersRangeType::Y => Y_LAST - Y_FIRST + 1,
        RegistersRangeType::X => X_LAST - X_FIRST + 1,
    }
}

pub open spec fn in_range(id: u8, r: RegistersRangeType) -> bool {
    range_start(r) <= id < range_start(r) + range_len(r)
}

/// The range an internal identifier belongs to, if any.
pub open spec fn range_of(id: u8) -> Option<RegistersRangeType> {
    if in_range(id, RegistersRangeType::DV) {
        Some(RegistersRangeType::DV)
    } else if in_range(id, RegistersRangeType::Y) {
        Some(RegistersRangeType::Y)
    } else if in_range(id, RegistersRangeType::X) {
        Some(RegistersRangeType::X)
    } else {
        None
    }
}

/// Word index of the function-select register of a range.
pub open spec fn gpfsel_word(r: RegistersRangeType) -> int {
    match r {
        RegistersRangeType::DV => 0x10C,
        RegistersRangeType::Y => 0x10F,
        RegistersRangeType::X => 0x118,
    }
}

/// Word index of the pull-enable register of a range.
pub open spec fn puen_word(r: RegistersRangeType) -> int {
    match r {
        RegistersRangeType::DV => 0x13A,
        RegistersRangeType::Y => 0x149,
        RegistersRangeType::X => 0x14C,
    }
}

/// Word index of the output-set register of a range.
pub open spec fn gpset_word(r: RegistersRangeType) -> int {
    match r {
        RegistersRangeType::DV => 0x10D,
        RegistersRangeType::Y => 0x110,
        RegistersRangeType::X => 0x119,
    }
}

/// Word index of the input-level register of a range.
pub open spec fn gplev_word(r: RegistersRangeType) -> int {
    match r {
        RegistersRangeType::DV => 0x10E,
        RegistersRangeType::Y => 0x111,
        RegistersRangeType::X => 0x11A,
    }
}

/// A usable identifier belongs to exactly one range, and its bit position
/// inside that range's registers lies in `0 .. range_len`.
pub proof fn lemma_single_range(id: u8)
    requires
        range_of(id) is Some,
    ensures
        forall|r: RegistersRangeType| #[trigger] in_range(id, r) <==> range_of(id) == Some(r),
        0 <= id - range_start(range_of(id).unwrap()) < range_len(range_of(id).unwrap()),
{
}

/// Every identifier of the pin catalogue lies in one of the register ranges.
pub proof fn lemma_catalogue_in_range(pin: PinId)
    ensures
        range_of(raw_id(pin)) is Some,
{
}

/// Looks up the register range of an internal identifier; an identifier
/// outside all three ranges is refused with `WrongPinId`.
pub fn classify(id: u8) -> (r: Result<RegistersRangeType, PinError>)
    ensures
        match r {
            Ok(range) => range_of(id) == Some(range),
            Err(e) => range_of(id) is None && e == PinError::WrongPinId(id),
        },
        r is Err <==> (!in_range(id, RegistersRangeType::DV) && !in_range(id, RegistersRangeType::Y)
            && !in_range(id, RegistersRangeType::X)),
{
    if DV_FIRST <= id && id <= DV_LAST {
        Ok(RegistersRangeType::DV)
    } else if Y_FIRST <= id && id <= Y_LAST {
        Ok(RegistersRangeType::Y)
    } else if X_FIRST <= id && id <= X_LAST {
        Ok(RegistersRangeType::X)
    } else {
        Err(PinError::WrongPinId(id))
    }
}

impl RegistersRangeType {
    /// First internal identifier covered by this range.
    pub fn start(self) -> (r: u8)
        ensures
            r == range_start(self),
    {
        match self {
            RegistersRangeType::DV => DV_FIRST,
            RegistersRangeType::Y => Y_FIRST,
            RegistersRangeType::X => X_FIRST,
        }
    }
}

/// The register byte offsets of one pin, computed once from its identifier.
#[derive(Copy, Clone, Debug)]
pub struct RegistersOffsets {
    pin_id: PinId,
    range_type: RegistersRangeType,
}

impl RegistersOffsets {
    #[verifier::type_invariant]
    spec fn inv(self) -> bool {
        range_of(raw_id(self.pin_id)) == Some(self.range_type)
    }

    /// The pin these offsets belong to.
    pub closed spec fn pin(self) -> PinId {
        self.pin_id
    }

    /// The register range of the pin.
    pub closed spec fn range(self) -> RegistersRangeType {
        self.range_type
    }

    /// Bit position of the pin inside each register word of its range.
    pub open spec fn bit(self) -> u32 {
        (raw_id(self.pin()) - range_start(self.range())) as u32
    }

    pub fn id(&self) -> (r: PinId)
        ensures
            r == self.pin(),
    {
        self.pin_id
    }

    /// The offsets of `pin_id`, or `None` if its identifier lies outside every
    /// register range.
    pub fn new(pin_id: PinId) -> (r: Option<Self>)
        ensures
            match r {
                Some(o) => o.pin() == pin_id && range_of(raw_id(pin_id)) == Some(o.range()),
                None => range_of(raw_id(pin_id)) is None,
            },
    {
        match classify(pin_id.raw()) {
            Ok(range_type) => Some(Self { pin_id, range_type }),
            Err(_) => None,
        }
    }

    /// Byte offset of the input-level register.
    pub fn gplev(&self) -> (r: usize)
        ensures
            r == gplev_word(self.range()) * WORD_BYTES,
    {
        (match self.range_type {
            RegistersRangeType::DV => 0x10E,
            RegistersRangeType::Y => 0x111,
            RegistersRangeType::X => 0x11A,
        }) * WORD_BYTES
    }

    /// Byte offset of the output-set register.
    pub fn gpset(&self) -> (r: usize)
        ensures
            r == gpset_word(self.range()) * WORD_BYTES,
    {
        (match self.range_type {
            RegistersRangeType::DV => 0x10D,
            RegistersRangeType::Y => 0x110,
            RegistersRangeType::X => 0x119,
        }) * WORD_BYTES
    }

    /// Byte offset of the function-select register.
    pub fn gpfsel(&self) -> (r: usize)
        ensures
            r == gpfsel_word(self.range()) * WORD_BYTES,
    {
        (match self.range_type {
            RegistersRangeType::DV => 0x10C,
            RegistersRangeType::Y => 0x10F,
            RegistersRangeType::X => 0x118,
        }) * WORD_BYTES
    }

    /// Byte offset of the pull-enable register.
    pub fn puen(&self) -> (r: usize)
        ensures
            r == puen_word(self.range()) * WORD_BYTES,
    {
        (match self.range_type {
            RegistersRangeType::DV => 0x13A,
            RegistersRangeType::Y => 0x149,
            RegistersRangeType::X => 0x14C,
        }) * WORD_BYTES
    }

    /// Bit position of the pin inside its range's register words:
    /// `pin_id - range_start`.
    pub fn pin_bitmap_offset(&self) -> (r: u8)
        ensures
            r == self.bit(),
            r == raw_id(self.pin()) - range_start(self.range()),
            r < range_len(self.range()),
            range_of(raw_id(self.pin())) == Some(self.range()),
    {
        proof {
            use_type_invariant(self);
        }
        self.pin_id.raw() - self.range_type.start()
    }
}

/// Logic level of a pin.
///
/// This usually follows the low/high voltage of the GPIO line, but keep in
/// mind that pull-up/pull-down resistors can change it.
#[derive(Debug, Clone, Copy, PartialEq, Eq, Structural)]
pub enum Value {
    High,
    Low,
}

/// Electrical direction of a pin.
#[derive(Copy, Clone, Debug, PartialEq, Eq, Structural)]
pub enum Direction {
    Input,
    Output,
}

/// The register range of a catalogue pin.
pub open spec fn pin_range(pin: PinId) -> RegistersRangeType {
    range_of(raw_id(pin)).unwrap()
}

/// The bit position of a catalogue pin inside its range's register words.
pub open spec fn pin_bit(pin: PinId) -> u32 {
    (raw_id(pin) - range_start(pin_range(pin))) as u32
}

/// `w` with bit `b` set.
pub open spec fn with_bit(w: u32, b: u32) -> u32 {
    w | (1u32 << b)
}

/// `w` with bit `b` cleared.
pub open spec fn without_bit(w: u32, b: u32) -> u32 {
    w & !(1u32 << b)
}

/// Whether bit `b` of `w` is set.
pub open spec fn has_bit(w: u32, b: u32) -> bool {
    w & (1u32 << b) != 0
}

/// Setting or clearing bit `b` decides that bit and keeps every other bit.
pub proof fn lemma_bit_update(w: u32, b: u32)
    requires
        b < 32,
    ensures
        has_bit(with_bit(w, b), b),
        !has_bit(without_bit(w, b), b),
        forall|c: u32|
            c < 32 && c != b ==> (has_bit(#[trigger] with_bit(w, b), c) == has_bit(w, c)
                && has_bit(without_bit(w, b), c) == has_bit(w, c)),
{
    assert(has_bit(with_bit(w, b), b)) by (bit_vector)
        requires
            b < 32,
    ;
    assert(!has_bit(without_bit(w, b), b)) by (bit_vector)
        requires
            b < 32,
    ;
    assert forall|c: u32| c < 32 && c != b implies (has_bit(#[trigger] with_bit(w, b), c)
        == has_bit(w, c) && has_bit(without_bit(w, b), c) == has_bit(w, c)) by {
        assert(c < 32 && c != b ==> (has_bit(with_bit(w, b), c) == has_bit(w, c) && has_bit(
            without_bit(w, b),
            c,
        ) == has_bit(w, c))) by (bit_vector);
    }
}

/// The register window after a pin's direction is programmed.
///
/// Input sets the pin's bit of the function-select word, then clears it in
/// the pull-enable word (disabling the pull resistor). Output clears the bit
/// of the function-select word and leaves the pull-enable word alone.
pub open spec fn directed(words: Seq<u32>, pin: PinId, direction: Direction) -> Seq<u32> {
    let fsel = gpfsel_word(pin_range(pin));
    let puen = puen_word(pin_range(pin));
    let b = pin_bit(pin);
    match direction {
        Direction::Input => {
            let selected = words.update(fsel, with_bit(words[fsel], b));
            selected.update(puen, without_bit(selected[puen], b))
        },
        Direction::Output => words.update(fsel, without_bit(words[fsel], b)),
    }
}

/// The register window after a value is written to a pin: its bit of the
/// output-set word is set for `High` and cleared for `Low`.
pub open spec fn written(words: Seq<u32>, pin: PinId, value: Value) -> Seq<u32> {
    let set = gpset_word(pin_range(pin));
    let b = pin_bit(pin);
    words.update(
        set,
        match value {
            Value::High => with_bit(words[set], b),
            Value::Low => without_bit(words[set], b),
        },
    )
}

/// The value read from a pin: `High` when its bit of the input-level word is
/// set.
pub open spec fn level(words: Seq<u32>, pin: PinId) -> Value {
    if has_bit(words[gplev_word(pin_range(pin))], pin_bit(pin)) {
        Value::High
    } else {
        Value::Low
    }
}

/// Every catalogue pin has a bit position below 32, the width of a register
/// word.
pub proof fn lemma_pin_bit_in_word(pin: PinId)
    ensures
        range_of(raw_id(pin)) == Some(pin_range(pin)),
        pin_bit(pin) < range_len(pin_range(pin)),
        pin_bit(pin) < 32,
{
}

/// Programming a pin as an output and then writing `value` leaves the pin's
/// bit of the output-set word equal to `value` (set for `High`, clear for
/// `Low`); no other bit of that word and no other word of the window changes
/// through the write, and programming the direction does not touch the
/// output-set word.
pub proof fn lemma_write_round_trip(words: Seq<u32>, pin: PinId, value: Value)
    requires
        words.len() == WINDOW_WORDS,
    ensures
        ({
            let set = gpset_word(pin_range(pin));
            let out = directed(words, pin, Direction::Output);
            let after = written(out, pin, value);
            &&& out[set] == words[set]
            &&& has_bit(after[set], pin_bit(pin)) <==> value == Value::High
            &&& forall|c: u32|
                c < 32 && c != pin_bit(pin) ==> has_bit(#[trigger] after[set], c) == has_bit(
                    words[set],
                    c,
                )
            &&& forall|i: int| 0 <= i < words.len() && i != set ==> after[i] == out[i]
        }),
{
    lemma_pin_bit_in_word(pin);
    let set = gpset_word(pin_range(pin));
    let out = directed(words, pin, Direction::Output);
    lemma_bit_update(out[set], pin_bit(pin));
}

/// Turning the only input lease of a pin into an output lease and then
/// writing leaves the registry with exactly one output lease and no input
/// lease on the pin, and the written value in the pin's bit of the
/// output-set word.
pub proof fn lemma_into_output_then_write(
    m: Map<u8, (usize, usize)>,
    words: Seq<u32>,
    pin: PinId,
    value: Value,
)
    requires
        leases_exclusive(m),
        inputs_of(m, raw_id(pin)) == 1,
        words.len() == WINDOW_WORDS,
    ensures
        ({
            let switched = after_lease_output(after_release_input(m, raw_id(pin)), raw_id(pin));
            &&& can_lease_output(after_release_input(m, raw_id(pin)), raw_id(pin))
            &&& inputs_of(switched, raw_id(pin)) == 0
            &&& outputs_of(switched, raw_id(pin)) == 1
        }),
        has_bit(
            written(directed(words, pin, Direction::Output), pin, value)[gpset_word(pin_range(pin))],
            pin_bit(pin),
        ) <==> value == Value::High,
{
    assert(inputs_of(m, raw_id(pin)) == 0 || outputs_of(m, raw_id(pin)) == 0);
    lemma_write_round_trip(words, pin, value);
}

/// Register-level access to one pin: the protocols for programming its
/// direction, writing and reading it, each a read-modify-write sequence on
/// 32-bit words of the mapped window.
///
/// It holds the pin's offsets only; the window is handed to each operation,
/// so no two accessors can change it at once. It holds no lease.
#[derive(Copy, Clone, Debug)]
pub struct UnsafePointerPin {
    registers: RegistersOffsets,
}

impl UnsafePointerPin {
    /// The pin this accessor drives.
    pub closed spec fn pin(self) -> PinId {
        self.registers.pin()
    }

    /// The pin this accessor drives.
    pub fn pin_id(&self) -> (r: PinId)
        ensures
            r == self.pin(),
    {
        self.registers.id()
    }

    /// The accessor for `pin_id`. Every catalogue pin lies in a register
    /// range, so this never fails with `WrongPinId`.
    pub fn new(pin_id: PinId) -> (r: OdroidResult<Self>)
        ensures
            match r {
                Ok(p) => p.pin() == pin_id,
                Err(e) => e == OdroidC2Error::PinError(PinError::WrongPinId(raw_id(pin_id))),
            },
            r is Ok <==> range_of(raw_id(pin_id)) is Some,
            r is Ok,
    {
        proof {
            lemma_catalogue_in_range(pin_id);
        }
        match RegistersOffsets::new(pin_id) {
            Some(registers) => Ok(Self { registers }),
            None => Err(OdroidC2Error::PinError(PinError::WrongPinId(pin_id.raw()))),
        }
    }

    /// The pin's offsets and bit position, with the facts that tie them to the
    /// pin.
    fn layout(&self) -> (r: (usize, usize, usize, usize, u32))
        ensures
            r.0 == gpfsel_word(pin_range(self.pin())) * WORD_BYTES,
            r.1 == puen_word(pin_range(self.pin())) * WORD_BYTES,
            r.2 == gpset_word(pin_range(self.pin())) * WORD_BYTES,
            r.3 == gplev_word(pin_range(self.pin())) * WORD_BYTES,
            r.4 == pin_bit(self.pin()),
            r.4 < 32,
    {
        let bit = self.registers.pin_bitmap_offset();
        (
            self.registers.gpfsel(),
            self.registers.puen(),
            self.registers.gpset(),
            self.registers.gplev(),
            bit as u32,
        )
    }

    /// Programs the pin's direction (see `directed`).
    pub fn direction(&self, memory: &mut Memory, direction: Direction)
        requires
            old(memory).wf(),
        ensures
            final(memory).wf(),
            final(memory).leases() == old(memory).leases(),
            final(memory).words() == directed(old(memory).words(), self.pin(), direction),
    {
        let (fsel, puen, _, _, bit) = self.layout();
        let mask: u32 = 1u32 << bit;
        let fsel_value = memory.read_u32(fsel);
        match direction {
            Direction::Input => {
                memory.write_u32(fsel, fsel_value | mask);
                let puen_value = memory.read_u32(puen);
                memory.write_u32(puen, puen_value & !mask);
            },
            Direction::Output => {
                memory.write_u32(fsel, fsel_value & !mask);
            },
        }
    }

    /// Drives the pin to `value` through its output-set word (see `written`).
    pub fn write(&self, memory: &mut Memory, value: Value)
        requires
            old(memory).wf(),
        ensures
            final(memory).wf(),
            final(memory).leases() == old(memory).leases(),
            final(memory).words() == written(old(memory).words(), self.pin(), value),
    {
        let (_, _, set, _, bit) = self.layout();
        let mask: u32 = 1u32 << bit;
        let set_value = memory.read_u32(set);
        match value {
            Value::High => memory.write_u32(set, set_value | mask),
            Value::Low => memory.write_u32(set, set_value & !mask),
        }
    }

    /// Reads the pin's bit of its input-level word (see `level`).
    pub fn read(&self, memory: &Memory) -> (r: Value)
        requires
            memory.wf(),
        ensures
            r == level(memory.words(), self.pin()),
    {
        let (_, _, _, lev, bit) = self.layout();
        let mask: u32 = 1u32 << bit;
        let lev_value = memory.read_u32(lev);
        if lev_value & mask == 0 {
            Value::Low
        } else {
            Value::High
        }
    }
}

/// A pin leased for reading and programmed as an input.
///
/// Obtained from `Device::input_pin`. Several input pins may exist for one
/// pin id as long as no output pin for it does. The handle owns one input
/// lease, which `release` gives back.
#[derive(Debug)]
pub struct InputPin(UnsafePointerPin);

/// A pin leased for writing and programmed as an output.
///
/// Obtained from `Device::output_pin`. Several output pins may exist for one
/// pin id as long as no input pin for it does. The handle owns one output
/// lease, which `release` gives back.
#[derive(Debug)]
pub struct OutputPin(UnsafePointerPin);

impl InputPin {
    /// The pin this handle reads.
    pub closed spec fn pin(self) -> PinId {
        self.0.pin()
    }

    pub(crate) fn from_accessor(accessor: UnsafePointerPin) -> (r: Self)
        ensures
            r.pin() == accessor.pin(),
    {
        InputPin(accessor)
    }

    /// The pin this handle reads.
    pub fn pin_id(&self) -> (r: PinId)
        ensures
            r == self.pin(),
    {
        self.0.pin_id()
    }

    /// Reads the pin's level.
    pub fn get_value(&self, device: &Device) -> (r: Value)
        requires
            device.wf(),
        ensures
            r == level(device.words(), self.pin()),
    {
        self.0.read(device.memory())
    }

    /// Whether the pin reads `High`.
    pub fn is_high(&self, device: &Device) -> (r: bool)
        requires
            device.wf(),
        ensures
            r == (level(device.words(), self.pin()) == Value::High),
    {
        match self.get_value(device) {
            Value::High => true,
            Value::Low => false,
        }
    }

    /// Whether the pin reads `Low`.
    pub fn is_low(&self, device: &Device) -> (r: bool)
        requires
            device.wf(),
        ensures
            r == (level(device.words(), self.pin()) == Value::Low),
    {
        !self.is_high(device)
    }

    /// Turns this input pin into an output pin: gives back the input lease,
    /// takes an output lease and programs the pin as an output, in one step
    /// on the device.
    ///
    /// This succeeds exactly when this handle held the pin's only input
    /// lease. When other input leases remain, the output lease is refused
    /// with `WrongLease` and this handle's input lease is gone with it. A
    /// handle whose lease the device does not hold is refused with
    /// `WrongLease` and nothing changes.
    pub fn into_output(self, device: &mut Device) -> (r: OdroidResult<OutputPin>)
        requires
            old(device).wf(),
        ensures
            final(device).wf(),
            r is Ok <==> inputs_of(old(device).leases(), raw_id(self.pin())) == 1,
            r is Ok <==> (inputs_of(old(device).leases(), raw_id(self.pin())) > 0
                && can_lease_output(
                after_release_input(old(device).leases(), raw_id(self.pin())),
                raw_id(self.pin()),
            )),
            inputs_of(old(device).leases(), raw_id(self.pin())) == 0 ==> final(device).leases()
                == old(device).leases(),
            inputs_of(old(device).leases(), raw_id(self.pin())) > 0 ==> final(device).leases()
                == after_lease_output(
                after_release_input(old(device).leases(), raw_id(self.pin())),
                raw_id(self.pin()),
            ),
            match r {
                Ok(p) => {
                    &&& p.pin() == self.pin()
                    &&& final(device).words() == directed(
                        old(device).words(),
                        self.pin(),
                        Direction::Output,
                    )
                },
                Err(e) => {
                    &&& e == OdroidC2Error::PinError(PinError::WrongLease)
                    &&& final(device).words() == old(device).words()
                },
            },
    {
        let pin_id = self.0.pin_id();
        let memory = device.memory_mut();
        proof {
            memory.lemma_wf();
        }
        match memory.release_input(pin_id) {
            Ok(()) => {},
            Err(e) => return Err(e),
        }
        match memory.lease_output(pin_id) {
            Ok(()) => {},
            Err(e) => return Err(e),
        }
        self.0.direction(memory, Direction::Output);
        Ok(OutputPin(self.0))
    }

    /// Gives back this handle's input lease.
    ///
    /// A handle whose lease the device does not hold is refused with
    /// `WrongLease` and nothing changes.
    pub fn release(self, device: &mut Device) -> (r: OdroidResult<()>)
        requires
            old(device).wf(),
        ensures
            final(device).wf(),
            final(device).words() == old(device).words(),
            final(device).leases() == after_release_input(old(device).leases(), raw_id(self.pin())),
            r is Ok <==> inputs_of(old(device).leases(), raw_id(self.pin())) > 0,
            r is Err ==> r == OdroidResult::<()>::Err(OdroidC2Error::PinError(PinError::WrongLease)),
    {
        let pin_id = self.0.pin_id();
        device.memory_mut().release_input(pin_id)
    }
}

impl OutputPin {
    /// The pin this handle drives.
    pub closed spec fn pin(self) -> PinId {
        self.0.pin()
    }

    pub(crate) fn from_accessor(accessor: UnsafePointerPin) -> (r: Self)
        ensures
            r.pin() == accessor.pin(),
    {
        OutputPin(accessor)
    }

    /// The pin this handle drives.
    pub fn pin_id(&self) -> (r: PinId)
        ensures
            r == self.pin(),
    {
        self.0.pin_id()
    }

    /// Drives the pin to `value`.
    pub fn set_value(&self, device: &mut Device, value: Value)
        requires
            old(device).wf(),
        ensures
            final(device).wf(),
            final(device).leases() == old(device).leases(),
            final(device).words() == written(old(device).words(), self.pin(), value),
    {
        self.0.write(device.memory_mut(), value)
    }

    /// Drives the pin `High`.
    pub fn set_high(&self, device: &mut Device)
        requires
            old(device).wf(),
        ensures
            final(device).wf(),
            final(device).leases() == old(device).leases(),
            final(device).words() == written(old(device).words(), self.pin(), Value::High),
    {
        self.set_value(device, Value::High)
    }

    /// Drives the pin `Low`.
    pub fn set_low(&self, device: &mut Device)
        requires
            old(device).wf(),
        ensures
            final(device).wf(),
            final(device).leases() == old(device).leases(),
            final(device).words() == written(old(device).words(), self.pin(), Value::Low),
    {
        self.set_value(device, Value::Low)
    }

    /// Turns this output pin into an input pin: gives back the output lease,
    /// takes an input lease and programs the pin as an input, in one step on
    /// the device.
    ///
    /// This succeeds exactly when this handle held the pin's only output
    /// lease. When other output leases remain, the input lease is refused
    /// with `WrongLease` and this handle's output lease is gone with it. A
    /// handle whose lease the device does not hold is refused with
    /// `WrongLease` and nothing changes.
    pub fn into_input(self, device: &mut Device) -> (r: OdroidResult<InputPin>)
        requires
            old(device).wf(),
        ensures
            final(device).wf(),
            r is Ok <==> outputs_of(old(device).leases(), raw_id(self.pin())) == 1,
            r is Ok <==> (outputs_of(old(device).leases(), raw_id(self.pin())) > 0
                && can_lease_input(
                after_release_output(old(device).leases(), raw_id(self.pin())),
                raw_id(self.pin()),
            )),
            outputs_of(old(device).leases(), raw_id(self.pin())) == 0 ==> final(device).leases()
                == old(device).leases(),
            outputs_of(old(device).leases(), raw_id(self.pin())) > 0 ==> final(device).leases()
                == after_lease_input(
                after_release_output(old(device).leases(), raw_id(self.pin())),
                raw_id(self.pin()),
            ),
            match r {
                Ok(p) => {
                    &&& p.pin() == self.pin()
                    &&& final(device).words() == directed(
                        old(device).words(),
                        self.pin(),
                        Direction::Input,
                    )
                },
                Err(e) => {
                    &&& e == OdroidC2Error::PinError(PinError::WrongLease)
                    &&& final(device).words() == old(device).words()
                },
            },
    {
        let pin_id = self.0.pin_id();
        let memory = device.memory_mut();
        proof {
            memory.lemma_wf();
        }
        match memory.release_output(pin_id) {
            Ok(()) => {},
            Err(e) => return Err(e),
        }
        match memory.lease_input(pin_id) {
            Ok(()) => {},
            Err(e) => return Err(e),
        }
        self.0.direction(memory, Direction::Input);
        Ok(InputPin(self.0))
    }

    /// Gives back this handle's output lease.
    ///
    /// A handle whose lease the device does not hold is refused with
    /// `WrongLease` and nothing changes.
    pub fn release(self, device: &mut Device) -> (r: OdroidResult<()>)
        requires
            old(device).wf(),
        ensures
            final(device).wf(),
            final(device).words() == old(device).words(),
            final(device).leases() == after_release_output(old(device).leases(), raw_id(self.pin())),
            r is Ok <==> outputs_of(old(device).leases(), raw_id(self.pin())) > 0,
            r is Err ==> r == OdroidResult::<()>::Err(OdroidC2Error::PinError(PinError::WrongLease)),
    {
        let pin_id = self.0.pin_id();
        device.memory_mut().release_output(pin_id)
    }
}

} // verus!
