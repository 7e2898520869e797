use vstd::prelude::*;

verus! {

/// Physical connector positions of the ODROID-C2 GPIO header, each standing for
/// the internal identifier the SoC uses for that GPIO line.
///
/// The most important use of this enum is to pass identifiers to `Device`'s
/// `input_pin` and `output_pin` methods.
#[derive(Copy, Clone, Debug, PartialEq, Eq, Structural, Hash)]
pub enum PinId {
    Phy7,
    Phy8,
    Phy10,
    Phy11,
    Phy12,
    Phy13,
    Phy15,
    Phy16,
    Phy18,
    Phy19,
    Phy21,
    Phy22,
    Phy23,
    Phy24,
    Phy26,
    Phy27,
    Phy28,
    Phy29,
    Phy31,
    Phy32,
    Phy33,
    Phy35,
    Phy36,
}

/// The internal GPIO identifier behind each connector position.
pub open spec fn raw_id(pin: PinId) -> u8 {
    match pin {
        PinId::Phy7 => 249,
        PinId::Phy8 => 240,
        PinId::Phy10 => 241,
        PinId::Phy11 => 247,
        PinId::Phy12 => 238,
        PinId::Phy13 => 239,
        PinId::Phy15 => 237,
        PinId::Phy16 => 236,
        PinId::Phy18 => 233,
        PinId::Phy19 => 235,
        PinId::Phy21 => 232,
        PinId::Phy22 => 231,
        PinId::Phy23 => 230,
        PinId::Phy24 => 229,
        PinId::Phy26 => 225,
        PinId::Phy27 => 207,
        PinId::Phy28 => 208,
        PinId::Phy29 => 228,
        PinId::Phy31 => 219,
        PinId::Phy32 => 224,
        PinId::Phy33 => 234,
        PinId::Phy35 => 214,
        PinId::Phy36 => 218,
    }
}

impl PinId {
    /// The internal GPIO identifier of this connector position.
    pub fn raw(self) -> (r: u8)
        ensures
            r == raw_id(self),
    {
        match self {
            PinId::Phy7 => 249,
            PinId::Phy8 => 240,
            PinId::Phy10 => 241,
            PinId::Phy11 => 247,
            PinId::Phy12 => 238,
            PinId::Phy13 => 239,
            PinId::Phy15 => 237,
            PinId::Phy16 => 236,
            PinId::Phy18 => 233,
            PinId::Phy19 => 235,
            PinId::Phy21 => 232,
            PinId::Phy22 => 231,
            PinId::Phy23 => 230,
            PinId::Phy24 => 229,
            PinId::Phy26 => 225,
            PinId::Phy27 => 207,
            PinId::Phy28 => 208,
            PinId::Phy29 => 228,
            PinId::Phy31 => 219,
            PinId::Phy32 => 224,
            PinId::Phy33 => 234,
            PinId::Phy35 => 214,
            PinId::Phy36 => 218,
        }
    }

    /// The connector position whose internal identifier is `raw`, if the
    /// catalogue holds one.
    pub fn from_raw(raw: u8) -> (r: Option<PinId>)
        ensures
            match r {
                Some(p) => raw_id(p) == raw,
                None => forall|p: PinId| raw_id(p) != raw,
            },
    {
        match raw {
            249 => Some(PinId::Phy7),
            240 => Some(PinId::Phy8),
            241 => Some(PinId::Phy10),
            247 => Some(PinId::Phy11),
            238 => Some(PinId::Phy12),
            239 => Some(PinId::Phy13),
            237 => Some(PinId::Phy15),
            236 => Some(PinId::Phy16),
            233 => Some(PinId::Phy18),
            235 => Some(PinId::Phy19),
            232 => Some(PinId::Phy21),
            231 => Some(PinId::Phy22),
            230 => Some(PinId::Phy23),
            229 => Some(PinId::Phy24),
            225 => Some(PinId::Phy26),
            207 => Some(PinId::Phy27),
            208 => Some(PinId::Phy28),
            228 => Some(PinId::Phy29),
            219 => Some(PinId::Phy31),
            224 => Some(PinId::Phy32),
            234 => Some(PinId::Phy33),
            214 => Some(PinId::Phy35),
            218 => Some(PinId::Phy36),
            _ => None,
        }
    }
}

} // verus!
