use vstd::prelude::*;

use byteorder::{ByteOrder, NativeEndian};
use memmap::MmapMut;
use std::collections::HashMap;

use super::error::PinError;
use super::pin::WORD_BYTES;
use crate::pin_map::{raw_id, PinId};
use crate::{OdroidC2Error, OdroidResult};

verus! {

broadcast use vstd::std_specs::hash::group_hash_axioms;

/// Length in bytes of the mapped register window.
pub const BLOCK_SIZE: usize = 4096;

/// Number of 32-bit register words in the mapped window.
pub const WINDOW_WORDS: usize = 1024;

/// A writable memory map of memmap. Its contents are seen through
/// `mapped_words`.
#[verifier::external_type_specification]
#[verifier::external_body]
pub struct ExMmapMut(MmapMut);

/// The bytes of a writable memory map, read as consecutive 32-bit words in
/// the machine's native byte order.
pub uninterp spec fn mapped_words(map: MmapMut) -> Seq<u32>;

/// Relies on memmap's `Deref` of `MmapMut` to the mapped bytes: its length is
/// the length of the mapping, four bytes to a word.
#[verifier::external_body]
fn mapped_len(map: &MmapMut) -> (r: usize)
    ensures
        mapped_words(*map).len() == (r / WORD_BYTES) as nat,
{
    map.len()
}

/// Relies on byteorder's `NativeEndian::read_u32`, applied to the four mapped
/// bytes at `offset`: it reads back the word stored there.
#[verifier::external_body]
fn load_word(map: &MmapMut, offset: usize) -> (r: u32)
    requires
        offset % WORD_BYTES == 0,
        offset / WORD_BYTES < mapped_words(*map).len(),
    ensures
        r == mapped_words(*map)[(offset / WORD_BYTES) as int],
{
    NativeEndian::read_u32(&map[offset..offset + WORD_BYTES])
}

/// Relies on byteorder's `NativeEndian::write_u32`, applied to the four
/// mapped bytes at `offset`: it stores that one word and no other byte.
#[verifier::external_body]
fn store_word(map: &mut MmapMut, offset: usize, value: u32)
    requires
        offset % WORD_BYTES == 0,
        offset / WORD_BYTES < mapped_words(*old(map)).len(),
    ensures
        mapped_words(*final(map)) == mapped_words(*old(map)).update(
            (offset / WORD_BYTES) as int,
            value,
        ),
{
    NativeEndian::write_u32(&mut map[offset..offset + WORD_BYTES], value)
}

/// Number of input leases that a registry records for an identifier.
pub open spec fn inputs_of(m: Map<u8, (usize, usize)>, pin: u8) -> nat {
    if m.contains_key(pin) {
        m[pin].0 as nat
    } else {
        0
    }
}

/// Number of output leases that a registry records for an identifier.
pub open spec fn outputs_of(m: Map<u8, (usize, usize)>, pin: u8) -> nat {
    if m.contains_key(pin) {
        m[pin].1 as nat
    } else {
        0
    }
}

/// No pin is leased as an input and as an output at once.
pub open spec fn leases_exclusive(m: Map<u8, (usize, usize)>) -> bool {
    forall|p: u8| #[trigger] inputs_of(m, p) == 0 || outputs_of(m, p) == 0
}

/// Two registries record the same counts for every identifier.
pub open spec fn same_counts(a: Map<u8, (usize, usize)>, b: Map<u8, (usize, usize)>) -> bool {
    forall|p: u8| #[trigger]
        inputs_of(a, p) == inputs_of(b, p) && outputs_of(a, p) == outputs_of(b, p)
}

pub open spec fn set_counts(m: Map<u8, (usize, usize)>, pin: u8, inputs: nat, outputs: nat) -> Map<
    u8,
    (usize, usize),
> {
    m.insert(pin, (inputs as usize, outputs as usize))
}

/// Setting the counts of one identifier leaves the others alone, and keeps
/// the registry exclusive when one of the new counts is zero.
pub proof fn lemma_set_counts(m: Map<u8, (usize, usize)>, pin: u8, inputs: nat, outputs: nat)
    requires
        leases_exclusive(m),
        inputs == 0 || outputs == 0,
        inputs <= usize::MAX,
        outputs <= usize::MAX,
    ensures
        leases_exclusive(set_counts(m, pin, inputs, outputs)),
        inputs_of(set_counts(m, pin, inputs, outputs), pin) == inputs,
        outputs_of(set_counts(m, pin, inputs, outputs), pin) == outputs,
        forall|q: u8|
            q != pin ==> inputs_of(#[trigger] set_counts(m, pin, inputs, outputs), q) == inputs_of(
                m,
                q,
            ) && outputs_of(set_counts(m, pin, inputs, outputs), q) == outputs_of(m, q),
{
    let n = set_counts(m, pin, inputs, outputs);
    assert forall|p: u8| #[trigger] inputs_of(n, p) == 0 || outputs_of(n, p) == 0 by {
        if p != pin {
            assert(inputs_of(m, p) == 0 || outputs_of(m, p) == 0);
        }
    }
}

/// An input lease is granted when the pin has no output lease (and the count
/// has room to grow).
pub open spec fn can_lease_input(m: Map<u8, (usize, usize)>, pin: u8) -> bool {
    outputs_of(m, pin) == 0 && inputs_of(m, pin) < usize::MAX
}

/// An output lease is granted when the pin has no input lease (and the count
/// has room to grow).
pub open spec fn can_lease_output(m: Map<u8, (usize, usize)>, pin: u8) -> bool {
    inputs_of(m, pin) == 0 && outputs_of(m, pin) < usize::MAX
}

/// The registry after a request for an input lease.
pub open spec fn after_lease_input(m: Map<u8, (usize, usize)>, pin: u8) -> Map<u8, (usize, usize)> {
    if can_lease_input(m, pin) {
        set_counts(m, pin, inputs_of(m, pin) + 1, outputs_of(m, pin))
    } else {
        m
    }
}

/// The registry after a request for an output lease.
pub open spec fn after_lease_output(m: Map<u8, (usize, usize)>, pin: u8) -> Map<u8, (usize, usize)> {
    if can_lease_output(m, pin) {
        set_counts(m, pin, inputs_of(m, pin), outputs_of(m, pin) + 1)
    } else {
        m
    }
}

/// The registry after an input lease is given back; nothing changes when none
/// is held.
pub open spec fn after_release_input(m: Map<u8, (usize, usize)>, pin: u8) -> Map<u8, (usize, usize)> {
    if inputs_of(m, pin) > 0 {
        set_counts(m, pin, (inputs_of(m, pin) - 1) as nat, outputs_of(m, pin))
    } else {
        m
    }
}

/// The registry after an output lease is given back; nothing changes when
/// none is held.
pub open spec fn after_release_output(m: Map<u8, (usize, usize)>, pin: u8) -> Map<u8, (usize, usize)> {
    if outputs_of(m, pin) > 0 {
        set_counts(m, pin, inputs_of(m, pin), (outputs_of(m, pin) - 1) as nat)
    } else {
        m
    }
}

/// While a pin holds an output lease, a request for an input lease on it is
/// refused and leaves the registry as it was; once that output lease is given
/// back, the input lease is granted. (A second output lease held from before
/// would still refuse it, hence `outputs_of(m, pin) == 0`.)
pub proof fn lemma_output_lease_excludes_input(m: Map<u8, (usize, usize)>, pin: u8)
    requires
        can_lease_output(m, pin),
        outputs_of(m, pin) == 0,
    ensures
        !can_lease_input(after_lease_output(m, pin), pin),
        after_lease_input(after_lease_output(m, pin), pin) == after_lease_output(m, pin),
        can_lease_input(after_release_output(after_lease_output(m, pin), pin), pin),
{
}

/// Giving back an output lease right after it was granted restores the
/// count of every pin: the pin's output count rose by exactly one and falls
/// by exactly one.
pub proof fn lemma_output_release_restores(m: Map<u8, (usize, usize)>, pin: u8)
    requires
        can_lease_output(m, pin),
    ensures
        outputs_of(after_lease_output(m, pin), pin) == outputs_of(m, pin) + 1,
        same_counts(after_release_output(after_lease_output(m, pin), pin), m),
{
    let n = after_release_output(after_lease_output(m, pin), pin);
    assert forall|p: u8| #[trigger]
        inputs_of(n, p) == inputs_of(m, p) && outputs_of(n, p) == outputs_of(m, p) by {
        if p != pin {
        }
    }
}

/// The mapped register window together with the registry of pin leases.
///
/// The registry maps an internal pin identifier to its count of input leases
/// and its count of output leases; the two are never both positive.
#[derive(Debug)]
pub struct Memory {
    map: MmapMut,
    pin_leases: HashMap<u8, (usize, usize)>,
}

impl Memory {
    /// The window holds `WINDOW_WORDS` words and no pin is leased in both
    /// directions.
    pub closed spec fn wf(self) -> bool {
        &&& mapped_words(self.map).len() == WINDOW_WORDS
        &&& leases_exclusive(self.pin_leases@)
    }

    pub proof fn lemma_wf(self)
        requires
            self.wf(),
        ensures
            self.words().len() == WINDOW_WORDS,
            leases_exclusive(self.leases()),
    {
    }

    /// The register window, as 32-bit words.
    pub closed spec fn words(self) -> Seq<u32> {
        mapped_words(self.map)
    }

    /// The lease registry: identifier to (input leases, output leases).
    pub closed spec fn leases(self) -> Map<u8, (usize, usize)> {
        self.pin_leases@
    }

    /// Takes ownership of a mapped register window, with an empty lease
    /// registry. The window must hold exactly `WINDOW_WORDS` words.
    pub fn new(map: MmapMut) -> (r: Option<Self>)
        ensures
            match r {
                Some(m) => {
                    &&& m.wf()
                    &&& m.words() == mapped_words(map)
                    &&& m.words().len() == WINDOW_WORDS
                    &&& m.leases() == Map::<u8, (usize, usize)>::empty()
                },
                None => mapped_words(map).len() != WINDOW_WORDS,
            },
    {
        if mapped_len(&map) / WORD_BYTES == WINDOW_WORDS {
            Some(Self { map, pin_leases: HashMap::with_capacity(40) })
        } else {
            None
        }
    }

    fn counts(&self, raw: u8) -> (r: (usize, usize))
        ensures
            r.0 == inputs_of(self.leases(), raw),
            r.1 == outputs_of(self.leases(), raw),
    {
        match self.pin_leases.get(&raw) {
            Some(c) => *c,
            None => (0, 0),
        }
    }

    /// Number of input leases held on `pin_id`.
    pub fn input_leases(&self, pin_id: PinId) -> (r: usize)
        ensures
            r == inputs_of(self.leases(), raw_id(pin_id)),
    {
        self.counts(pin_id.raw()).0
    }

    /// Number of output leases held on `pin_id`.
    pub fn output_leases(&self, pin_id: PinId) -> (r: usize)
        ensures
            r == outputs_of(self.leases(), raw_id(pin_id)),
    {
        self.counts(pin_id.raw()).1
    }

    /// Records one more input lease on `pin_id`, unless it holds an output
    /// lease, in which case `WrongLease` is returned and nothing changes.
    pub fn lease_input(&mut self, pin_id: PinId) -> (r: OdroidResult<()>)
        requires
            old(self).wf(),
        ensures
            final(self).wf(),
            final(self).words() == old(self).words(),
            final(self).leases() == after_lease_input(old(self).leases(), raw_id(pin_id)),
            leases_exclusive(final(self).leases()),
            r is Ok <==> can_lease_input(old(self).leases(), raw_id(pin_id)),
            r is Err ==> r == OdroidResult::<()>::Err(OdroidC2Error::PinError(PinError::WrongLease)),
    {
        let raw = pin_id.raw();
        let (inputs, outputs) = self.counts(raw);
        if outputs == 0 && inputs < usize::MAX {
            proof {
                lemma_set_counts(self.leases(), raw, (inputs + 1) as nat, outputs as nat);
            }
            self.pin_leases.insert(raw, (inputs + 1, outputs));
            Ok(())
        } else {
            Err(OdroidC2Error::PinError(PinError::WrongLease))
        }
    }

    /// Records one more output lease on `pin_id`, unless it holds an input
    /// lease, in which case `WrongLease` is returned and nothing changes.
    pub fn lease_output(&mut self, pin_id: PinId) -> (r: OdroidResult<()>)
        requires
            old(self).wf(),
        ensures
            final(self).wf(),
            final(self).words() == old(self).words(),
            final(self).leases() == after_lease_output(old(self).leases(), raw_id(pin_id)),
            leases_exclusive(final(self).leases()),
            r is Ok <==> can_lease_output(old(self).leases(), raw_id(pin_id)),
            r is Err ==> r == OdroidResult::<()>::Err(OdroidC2Error::PinError(PinError::WrongLease)),
    {
        let raw = pin_id.raw();
        let (inputs, outputs) = self.counts(raw);
        if inputs == 0 && outputs < usize::MAX {
            proof {
                lemma_set_counts(self.leases(), raw, inputs as nat, (outputs + 1) as nat);
            }
            self.pin_leases.insert(raw, (inputs, outputs + 1));
            Ok(())
        } else {
            Err(OdroidC2Error::PinError(PinError::WrongLease))
        }
    }

    /// Gives back one input lease on `pin_id`. Giving back a lease that is not
    /// held is reported with `WrongLease` and changes nothing.
    pub fn release_input(&mut self, pin_id: PinId) -> (r: OdroidResult<()>)
        requires
            old(self).wf(),
        ensures
            final(self).wf(),
            final(self).words() == old(self).words(),
            final(self).leases() == after_release_input(old(self).leases(), raw_id(pin_id)),
            leases_exclusive(final(self).leases()),
            r is Ok <==> inputs_of(old(self).leases(), raw_id(pin_id)) > 0,
            r is Err ==> r == OdroidResult::<()>::Err(OdroidC2Error::PinError(PinError::WrongLease)),
    {
        let raw = pin_id.raw();
        let (inputs, outputs) = self.counts(raw);
        if inputs > 0 {
            proof {
                assert(inputs_of(self.leases(), raw) == 0 || outputs_of(self.leases(), raw) == 0);
                lemma_set_counts(self.leases(), raw, (inputs - 1) as nat, outputs as nat);
            }
            self.pin_leases.insert(raw, (inputs - 1, outputs));
            Ok(())
        } else {
            Err(OdroidC2Error::PinError(PinError::WrongLease))
        }
    }

    /// Gives back one output lease on `pin_id`. Giving back a lease that is
    /// not held is reported with `WrongLease` and changes nothing.
    pub fn release_output(&mut self, pin_id: PinId) -> (r: OdroidResult<()>)
        requires
            old(self).wf(),
        ensures
            final(self).wf(),
            final(self).words() == old(self).words(),
            final(self).leases() == after_release_output(old(self).leases(), raw_id(pin_id)),
            leases_exclusive(final(self).leases()),
            r is Ok <==> outputs_of(old(self).leases(), raw_id(pin_id)) > 0,
            r is Err ==> r == OdroidResult::<()>::Err(OdroidC2Error::PinError(PinError::WrongLease)),
    {
        let raw = pin_id.raw();
        let (inputs, outputs) = self.counts(raw);
        if outputs > 0 {
            proof {
                assert(inputs_of(self.leases(), raw) == 0 || outputs_of(self.leases(), raw) == 0);
                lemma_set_counts(self.leases(), raw, inputs as nat, (outputs - 1) as nat);
            }
            self.pin_leases.insert(raw, (inputs, outputs - 1));
            Ok(())
        } else {
            Err(OdroidC2Error::PinError(PinError::WrongLease))
        }
    }

    /// Reads the register word at byte `offset` of the window.
    pub fn read_u32(&self, offset: usize) -> (r: u32)
        requires
            self.wf(),
            offset % WORD_BYTES == 0,
            offset + WORD_BYTES <= BLOCK_SIZE,
        ensures
            r == self.words()[(offset / WORD_BYTES) as int],
    {
        load_word(&self.map, offset)
    }

    /// Writes the register word at byte `offset` of the window; every other
    /// word and the lease registry stay as they were.
    pub fn write_u32(&mut self, offset: usize, value: u32)
        requires
            old(self).wf(),
            offset % WORD_BYTES == 0,
            offset + WORD_BYTES <= BLOCK_SIZE,
        ensures
            final(self).wf(),
            final(self).words() == old(self).words().update((offset / WORD_BYTES) as int, value),
            final(self).leases() == old(self).leases(),
    {
        store_word(&mut self.map, offset, value);
    }
}

} // verus!
