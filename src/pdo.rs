//! Power data objects: the 32-bit words in which a source advertises its
//! offers, and the request object in which a sink picks one.

use crate::wire::{le_bytes, write_u32_le};
use vstd::prelude::*;

verus! {

/// The two-bit kind tag in bits 31..30 of a power data object:
/// 0 fixed supply, 1 battery, 2 variable supply, 3 augmented.
pub open spec fn kind_of(word: u32) -> u32 {
    word >> 30u32
}

/// The two-bit supply sub-tag in bits 29..28 of an augmented object:
/// 0 SPR programmable supply, 1 EPR adjustable voltage supply.
pub open spec fn supply_of(word: u32) -> u32 {
    (word >> 28u32) & 3u32
}

/// Every word is a possible power data object except an augmented one whose
/// supply sub-tag is 2 or 3, which the protocol never sends.
pub open spec fn is_valid_pdo_word(word: u32) -> bool {
    kind_of(word) != 3 || supply_of(word) <= 1
}

/// The object that a word decodes to, by its kind and supply tags.
pub open spec fn pdo_of(word: u32) -> PowerDataObject {
    if kind_of(word) == 0 {
        PowerDataObject::FixedSupply(FixedSupply(word))
    } else if kind_of(word) == 1 {
        PowerDataObject::Battery(Battery(word))
    } else if kind_of(word) == 2 {
        PowerDataObject::VariableSupply(VariableSupply(word))
    } else if supply_of(word) == 0 {
        PowerDataObject::AugmentedPowerDataObject(
            AugmentedPowerDataObject::SPR(SPRProgrammablePowerSupply(word)),
        )
    } else {
        PowerDataObject::AugmentedPowerDataObject(
            AugmentedPowerDataObject::EPR(EPRAdjustableVoltageSupply(word)),
        )
    }
}

/// Voltage field of a fixed supply, bits 19..10, in units of 50 mV.
pub open spec fn fixed_voltage(word: u32) -> u16 {
    ((word >> 10u32) & 0x3ffu32) as u16
}

/// Maximum current field of a fixed supply, bits 9..0, in units of 10 mA.
pub open spec fn fixed_max_current(word: u32) -> u16 {
    (word & 0x3ffu32) as u16
}

/// Fixed supply: one voltage, with the most current the source can give at it.
#[derive(Clone, Copy, Debug, PartialEq, Eq, Structural)]
pub struct FixedSupply(pub u32);

/// Battery supply, kept as its raw word.
#[derive(Clone, Copy, Debug, PartialEq, Eq, Structural)]
pub struct Battery(pub u32);

/// Variable (non-battery) supply, kept as its raw word.
#[derive(Clone, Copy, Debug, PartialEq, Eq, Structural)]
pub struct VariableSupply(pub u32);

/// SPR programmable power supply, kept as its raw word.
#[derive(Clone, Copy, Debug, PartialEq, Eq, Structural)]
pub struct SPRProgrammablePowerSupply(pub u32);

/// EPR adjustable voltage supply, kept as its raw word.
#[derive(Clone, Copy, Debug, PartialEq, Eq, Structural)]
pub struct EPRAdjustableVoltageSupply(pub u32);

#[derive(Clone, Copy, Debug, PartialEq, Eq, Structural)]
pub enum AugmentedPowerDataObject {
    SPR(SPRProgrammablePowerSupply),
    EPR(EPRAdjustableVoltageSupply),
}

/// A decoded power offer.
#[derive(Clone, Copy, Debug, PartialEq, Eq, Structural)]
pub enum PowerDataObject {
    FixedSupply(FixedSupply),
    Battery(Battery),
    VariableSupply(VariableSupply),
    AugmentedPowerDataObject(AugmentedPowerDataObject),
}

/// Header word of a vendor defined message.
#[derive(Clone, Copy, Debug, PartialEq, Eq, Structural)]
pub struct VDMHeader(pub u32);

impl VDMHeader {
    /// Standard or vendor id, bits 31..16.
    pub fn standard_or_vid(&self) -> (r: u16)
        ensures
            r == (self.0 >> 16u32) as u16,
    {
        (self.0 >> 16u32) as u16
    }

    /// VDM type, bit 15: true for a structured VDM.
    pub fn vdm_type(&self) -> (r: bool)
        ensures
            r == ((self.0 >> 15u32) & 1u32 == 1u32),
    {
        (self.0 >> 15u32) & 1u32 == 1u32
    }

    /// Structured VDM major version, bits 14..13.
    pub fn vdm_version(&self) -> (r: u8)
        ensures
            r == ((self.0 >> 13u32) & 3u32) as u8,
    {
        ((self.0 >> 13u32) & 3u32) as u8
    }

    /// Command type, bits 7..6.
    pub fn command_type(&self) -> (r: u8)
        ensures
            r == ((self.0 >> 6u32) & 3u32) as u8,
    {
        ((self.0 >> 6u32) & 3u32) as u8
    }

    /// Command, bits 4..0.
    pub fn command(&self) -> (r: u8)
        ensures
            r == (self.0 & 0x1fu32) as u8,
    {
        (self.0 & 0x1fu32) as u8
    }
}

impl FixedSupply {
    /// Voltage in units of 50 mV.
    pub fn voltage(&self) -> (r: u16)
        ensures
            r == fixed_voltage(self.0),
            r <= 0x3ff,
    {
        let w = self.0;
        assert((w >> 10u32) & 0x3ffu32 <= 0x3ffu32) by (bit_vector);
        ((w >> 10u32) & 0x3ffu32) as u16
    }

    /// Maximum current in units of 10 mA.
    pub fn max_current(&self) -> (r: u16)
        ensures
            r == fixed_max_current(self.0),
            r <= 0x3ff,
    {
        let w = self.0;
        assert(w & 0x3ffu32 <= 0x3ffu32) by (bit_vector);
        (w & 0x3ffu32) as u16
    }
}

impl PowerDataObject {
    /// Whether `word` can be decoded (see `is_valid_pdo_word`).
    pub fn is_valid_word(word: u32) -> (r: bool)
        ensures
            r == is_valid_pdo_word(word),
    {
        (word >> 30u32) != 3 || ((word >> 28u32) & 3u32) <= 1
    }

    /// Decodes a word by its kind tag and, for an augmented object, its supply sub-tag.
    pub fn decode(word: u32) -> (r: PowerDataObject)
        requires
            is_valid_pdo_word(word),
        ensures
            r == pdo_of(word),
    {
        let kind = word >> 30u32;
        if kind == 0 {
            PowerDataObject::FixedSupply(FixedSupply(word))
        } else if kind == 1 {
            PowerDataObject::Battery(Battery(word))
        } else if kind == 2 {
            PowerDataObject::VariableSupply(VariableSupply(word))
        } else if (word >> 28u32) & 3u32 == 0 {
            PowerDataObject::AugmentedPowerDataObject(
                AugmentedPowerDataObject::SPR(SPRProgrammablePowerSupply(word)),
            )
        } else {
            PowerDataObject::AugmentedPowerDataObject(
                AugmentedPowerDataObject::EPR(EPRAdjustableVoltageSupply(word)),
            )
        }
    }
}

/// The request word of a sink for a fixed or variable supply: object
/// position in bits 31..28, "USB communications capable" (bit 25) and "no USB
/// suspend" (bit 24) set, and `current` (in units of 10 mA) as both the
/// operating current (bits 19..10) and the maximum operating current (bits 9..0).
pub open spec fn request_word(object_position: u8, current: u16) -> u32 {
    ((object_position as u32) << 28u32) | (1u32 << 25u32) | (1u32 << 24u32) | ((current as u32)
        << 10u32) | (current as u32)
}

/// Request data object for a fixed or variable supply.
#[derive(Clone, Copy, Debug, PartialEq, Eq, Structural)]
pub struct FixedVariableRequestDataObject(pub u32);

impl FixedVariableRequestDataObject {
    /// The request a sink sends for the object at `object_position` (1-based),
    /// asking `current` units of 10 mA as operating and as maximum current.
    pub fn sink_request(object_position: u8, current: u16) -> (r: Self)
        requires
            object_position < 16,
            current <= 0x3ff,
        ensures
            r.0 == request_word(object_position, current),
            (r.0 >> 28u32) as u8 == object_position,
            ((r.0 >> 10u32) & 0x3ffu32) as u16 == current,
            (r.0 & 0x3ffu32) as u16 == current,
            (r.0 >> 24u32) & 1u32 == 1u32,
            (r.0 >> 25u32) & 1u32 == 1u32,
    {
        let p = object_position as u32;
        let c = current as u32;
        assert({
            let w = (p << 28u32) | (1u32 << 25u32) | (1u32 << 24u32) | (c << 10u32) | c;
            &&& w >> 28u32 == p
            &&& (w >> 10u32) & 0x3ffu32 == c
            &&& w & 0x3ffu32 == c
            &&& (w >> 24u32) & 1u32 == 1u32
            &&& (w >> 25u32) & 1u32 == 1u32
        }) by (bit_vector)
            requires
                p < 16,
                c <= 0x3ff,
        ;
        FixedVariableRequestDataObject(
            ((object_position as u32) << 28u32) | (1u32 << 25u32) | (1u32 << 24u32) | ((
            current as u32) << 10u32) | (current as u32),
        )
    }

    /// Object position (1-based), bits 31..28.
    pub fn object_position(&self) -> (r: u8)
        ensures
            r == (self.0 >> 28u32) as u8,
    {
        (self.0 >> 28u32) as u8
    }

    /// Operating current in units of 10 mA, bits 19..10.
    pub fn operating_current(&self) -> (r: u16)
        ensures
            r == ((self.0 >> 10u32) & 0x3ffu32) as u16,
    {
        ((self.0 >> 10u32) & 0x3ffu32) as u16
    }

    /// Maximum operating current in units of 10 mA, bits 9..0.
    pub fn maximum_operating_current(&self) -> (r: u16)
        ensures
            r == (self.0 & 0x3ffu32) as u16,
    {
        (self.0 & 0x3ffu32) as u16
    }

    /// "No USB suspend" flag, bit 24.
    pub fn no_usb_suspend(&self) -> (r: bool)
        ensures
            r == ((self.0 >> 24u32) & 1u32 == 1u32),
    {
        (self.0 >> 24u32) & 1u32 == 1u32
    }

    /// "USB communications capable" flag, bit 25.
    pub fn usb_communications_capable(&self) -> (r: bool)
        ensures
            r == ((self.0 >> 25u32) & 1u32 == 1u32),
    {
        (self.0 >> 25u32) & 1u32 == 1u32
    }

    /// The four bytes of the object on the wire, least significant first.
    pub fn to_bytes(&self) -> (r: [u8; 4])
        ensures
            r@ == le_bytes(self.0),
    {
        write_u32_le(self.0)
    }
}

/// A fixed-supply word (kind tag 0) decodes to a fixed supply of that same
/// word; its voltage and current fields are exactly bits 19..10 and 9..0 of
/// the word, and putting them back beside the word's other bits gives the
/// word again.
pub proof fn lemma_fixed_supply_round_trip(w: u32)
    requires
        kind_of(w) == 0,
    ensures
        pdo_of(w) == PowerDataObject::FixedSupply(FixedSupply(w)),
        fixed_voltage(w) as u32 == (w >> 10u32) & 0x3ffu32,
        fixed_max_current(w) as u32 == w & 0x3ffu32,
        (w & 0xfff00000u32) | ((fixed_voltage(w) as u32) << 10u32) | (fixed_max_current(w) as u32)
            == w,
{
    assert((w >> 10u32) & 0x3ffu32 <= 0x3ffu32) by (bit_vector);
    assert(w & 0x3ffu32 <= 0x3ffu32) by (bit_vector);
    assert((w & 0xfff00000u32) | (((w >> 10u32) & 0x3ffu32) << 10u32) | (w & 0x3ffu32) == w)
        by (bit_vector);
}

/// An augmented word (kind tag 3) decodes to an SPR programmable supply when
/// its supply sub-tag is 0 and to an EPR adjustable voltage supply when it is
/// 1; with any other sub-tag it is no valid word, and `decode` does not accept it.
pub proof fn lemma_augmented_dispatch(w: u32)
    requires
        kind_of(w) == 3,
    ensures
        supply_of(w) == 0 ==> pdo_of(w) == PowerDataObject::AugmentedPowerDataObject(
            AugmentedPowerDataObject::SPR(SPRProgrammablePowerSupply(w)),
        ),
        supply_of(w) == 1 ==> pdo_of(w) == PowerDataObject::AugmentedPowerDataObject(
            AugmentedPowerDataObject::EPR(EPRAdjustableVoltageSupply(w)),
        ),
        is_valid_pdo_word(w) <==> supply_of(w) <= 1,
{
}

} // verus!
