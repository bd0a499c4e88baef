use vstd::prelude::*;

verus! {

/// The named bits of `SpellFlags`.
pub const SPELL_FLAGS_KNOWN: u32 = 0x7;

/// Bits of `SpellFlags` that are never named but round-trip unchanged.
pub const SPELL_FLAGS_IGNORED: u32 = 0x0;

/// Bit flags on the wire: AUTOCALC is 0x1, PC_START is 0x2, ALWAYS is 0x4.
#[derive(PartialEq, Eq, Structural, Copy, Clone, Hash, PartialOrd, Ord, Debug)]
pub struct SpellFlags {
    pub bits: u32,
}

impl SpellFlags {
    /// Whether a wire value sets only named or ignored bits.
    pub open spec fn spec_valid_bits(v: u32) -> bool {
        v & !(SPELL_FLAGS_KNOWN | SPELL_FLAGS_IGNORED) == 0
    }

    /// The flag set a wire value names, if it sets only named or ignored
    /// bits; the ignored bits are kept as they came.
    pub open spec fn spec_from_bits(v: u32) -> Option<SpellFlags> {
        if SpellFlags::spec_valid_bits(v) {
            Some(SpellFlags { bits: v })
        } else {
            None
        }
    }

    /// The flag set a wire value names, if it sets only named or ignored
    /// bits.
    pub fn from_bits(v: u32) -> (r: Option<SpellFlags>)
        ensures
            r == SpellFlags::spec_from_bits(v),
    {
        if v & !(SPELL_FLAGS_KNOWN | SPELL_FLAGS_IGNORED) == 0 {
            Some(SpellFlags { bits: v })
        } else {
            None
        }
    }

    /// The wire value of the flag set.
    pub fn bits(self) -> (r: u32)
        ensures
            r == self.bits,
    {
        self.bits
    }
}

/// The named bits of `AiServices`.
pub const AI_SERVICES_KNOWN: u32 = 0x1EBFFFF;

/// Bits of `AiServices` that are never named but round-trip unchanged.
pub const AI_SERVICES_IGNORED: u32 = 0x0;

/// Bit flags on the wire: WEAPON is 0x1, ARMOR is 0x2, CLOTHING is 0x4, BOOKS is 0x8, INGREDIENTS is 0x10, PICKS is 0x20, PROBES is 0x40, LIGHTS is 0x80, APPARATUS is 0x100, REPAIR_ITEMS is 0x200, MISCELLANEOUS is 0x400, SPELLS is 0x800, MAGIC_ITEMS is 0x1000, POTIONS is 0x2000, TRAINING is 0x4000, SPELLMAKING is 0x8000, ENCHANTING is 0x10000, REPAIR is 0x20000, UNNAMED_80000 is 0x80000, UNNAMED_200000 is 0x200000, UNNAMED_400000 is 0x400000, UNNAMED_800000 is 0x800000, UNNAMED_1000000 is 0x1000000.
#[derive(PartialEq, Eq, Structural, Copy, Clone, Hash, PartialOrd, Ord, Debug)]
pub struct AiServices {
    pub bits: u32,
}

impl AiServices {
    /// Whether a wire value sets only named or ignored bits.
    pub open spec fn spec_valid_bits(v: u32) -> bool {
        v & !(AI_SERVICES_KNOWN | AI_SERVICES_IGNORED) == 0
    }

    /// The flag set a wire value names, if it sets only named or ignored
    /// bits; the ignored bits are kept as they came.
    pub open spec fn spec_from_bits(v: u32) -> Option<AiServices> {
        if AiServices::spec_valid_bits(v) {
            Some(AiServices { bits: v })
        } else {
            None
        }
    }

    /// The flag set a wire value names, if it sets only named or ignored
    /// bits.
    pub fn from_bits(v: u32) -> (r: Option<AiServices>)
        ensures
            r == AiServices::spec_from_bits(v),
    {
        if v & !(AI_SERVICES_KNOWN | AI_SERVICES_IGNORED) == 0 {
            Some(AiServices { bits: v })
        } else {
            None
        }
    }

    /// The wire value of the flag set.
    pub fn bits(self) -> (r: u32)
        ensures
            r == self.bits,
    {
        self.bits
    }
}

/// The named bits of `AiTravelFlags`.
pub const AI_TRAVEL_FLAGS_KNOWN: u32 = 0x100;

/// Bits of `AiTravelFlags` that are never named but round-trip unchanged.
pub const AI_TRAVEL_FLAGS_IGNORED: u32 = 0x1;

/// Bit flags on the wire: RESET is 0x100.
#[derive(PartialEq, Eq, Structural, Copy, Clone, Hash, PartialOrd, Ord, Debug)]
pub struct AiTravelFlags {
    pub bits: u32,
}

impl AiTravelFlags {
    /// Whether a wire value sets only named or ignored bits.
    pub open spec fn spec_valid_bits(v: u32) -> bool {
        v & !(AI_TRAVEL_FLAGS_KNOWN | AI_TRAVEL_FLAGS_IGNORED) == 0
    }

    /// The flag set a wire value names, if it sets only named or ignored
    /// bits; the ignored bits are kept as they came.
    pub open spec fn spec_from_bits(v: u32) -> Option<AiTravelFlags> {
        if AiTravelFlags::spec_valid_bits(v) {
            Some(AiTravelFlags { bits: v })
        } else {
            None
        }
    }

    /// The flag set a wire value names, if it sets only named or ignored
    /// bits.
    pub fn from_bits(v: u32) -> (r: Option<AiTravelFlags>)
        ensures
            r == AiTravelFlags::spec_from_bits(v),
    {
        if v & !(AI_TRAVEL_FLAGS_KNOWN | AI_TRAVEL_FLAGS_IGNORED) == 0 {
            Some(AiTravelFlags { bits: v })
        } else {
            None
        }
    }

    /// The wire value of the flag set.
    pub fn bits(self) -> (r: u32)
        ensures
            r == self.bits,
    {
        self.bits
    }
}

/// The named bits of `NpcFlags`.
pub const NPC_FLAGS_KNOWN: u8 = 0x17;

/// Bits of `NpcFlags` that are never named but round-trip unchanged.
pub const NPC_FLAGS_IGNORED: u8 = 0x8;

/// Bit flags on the wire: FEMALE is 0x1, ESSENTIAL is 0x2, RESPAWN is 0x4, AUTO_CALCULATE_STATS is 0x10.
#[derive(PartialEq, Eq, Structural, Copy, Clone, Hash, PartialOrd, Ord, Debug)]
pub struct NpcFlags {
    pub bits: u8,
}

impl NpcFlags {
    /// Whether a wire value sets only named or ignored bits.
    pub open spec fn spec_valid_bits(v: u8) -> bool {
        v & !(NPC_FLAGS_KNOWN | NPC_FLAGS_IGNORED) == 0
    }

    /// The flag set a wire value names, if it sets only named or ignored
    /// bits; the ignored bits are kept as they came.
    pub open spec fn spec_from_bits(v: u8) -> Option<NpcFlags> {
        if NpcFlags::spec_valid_bits(v) {
            Some(NpcFlags { bits: v })
        } else {
            None
        }
    }

    /// The flag set a wire value names, if it sets only named or ignored
    /// bits.
    pub fn from_bits(v: u8) -> (r: Option<NpcFlags>)
        ensures
            r == NpcFlags::spec_from_bits(v),
    {
        if v & !(NPC_FLAGS_KNOWN | NPC_FLAGS_IGNORED) == 0 {
            Some(NpcFlags { bits: v })
        } else {
            None
        }
    }

    /// The wire value of the flag set.
    pub fn bits(self) -> (r: u8)
        ensures
            r == self.bits,
    {
        self.bits
    }
}

/// The named bits of `CreatureFlags`.
pub const CREATURE_FLAGS_KNOWN: u8 = 0xF7;

/// Bits of `CreatureFlags` that are never named but round-trip unchanged.
pub const CREATURE_FLAGS_IGNORED: u8 = 0x8;

/// Bit flags on the wire: BIPED is 0x1, RESPAWN is 0x2, WEAPON_AND_SHIELD is 0x4, SWIMS is 0x10, FLIES is 0x20, WALKS is 0x40, ESSENTIAL is 0x80.
#[derive(PartialEq, Eq, Structural, Copy, Clone, Hash, PartialOrd, Ord, Debug)]
pub struct CreatureFlags {
    pub bits: u8,
}

impl CreatureFlags {
    /// Whether a wire value sets only named or ignored bits.
    pub open spec fn spec_valid_bits(v: u8) -> bool {
        v & !(CREATURE_FLAGS_KNOWN | CREATURE_FLAGS_IGNORED) == 0
    }

    /// The flag set a wire value names, if it sets only named or ignored
    /// bits; the ignored bits are kept as they came.
    pub open spec fn spec_from_bits(v: u8) -> Option<CreatureFlags> {
        if CreatureFlags::spec_valid_bits(v) {
            Some(CreatureFlags { bits: v })
        } else {
            None
        }
    }

    /// The flag set a wire value names, if it sets only named or ignored
    /// bits.
    pub fn from_bits(v: u8) -> (r: Option<CreatureFlags>)
        ensures
            r == CreatureFlags::spec_from_bits(v),
    {
        if v & !(CREATURE_FLAGS_KNOWN | CREATURE_FLAGS_IGNORED) == 0 {
            Some(CreatureFlags { bits: v })
        } else {
            None
        }
    }

    /// The wire value of the flag set.
    pub fn bits(self) -> (r: u8)
        ensures
            r == self.bits,
    {
        self.bits
    }
}

/// The named bits of `ContainerFlags`.
pub const CONTAINER_FLAGS_KNOWN: u32 = 0x3;

/// Bits of `ContainerFlags` that are never named but round-trip unchanged.
pub const CONTAINER_FLAGS_IGNORED: u32 = 0x8;

/// Bit flags on the wire: ORGANIC is 0x1, RESPAWN is 0x2.
#[derive(PartialEq, Eq, Structural, Copy, Clone, Hash, PartialOrd, Ord, Debug)]
pub struct ContainerFlags {
    pub bits: u32,
}

impl ContainerFlags {
    /// Whether a wire value sets only named or ignored bits.
    pub open spec fn spec_valid_bits(v: u32) -> bool {
        v & !(CONTAINER_FLAGS_KNOWN | CONTAINER_FLAGS_IGNORED) == 0
    }

    /// The flag set a wire value names, if it sets only named or ignored
    /// bits; the ignored bits are kept as they came.
    pub open spec fn spec_from_bits(v: u32) -> Option<ContainerFlags> {
        if ContainerFlags::spec_valid_bits(v) {
            Some(ContainerFlags { bits: v })
        } else {
            None
        }
    }

    /// The flag set a wire value names, if it sets only named or ignored
    /// bits.
    pub fn from_bits(v: u32) -> (r: Option<ContainerFlags>)
        ensures
            r == ContainerFlags::spec_from_bits(v),
    {
        if v & !(CONTAINER_FLAGS_KNOWN | CONTAINER_FLAGS_IGNORED) == 0 {
            Some(ContainerFlags { bits: v })
        } else {
            None
        }
    }

    /// The wire value of the flag set.
    pub fn bits(self) -> (r: u32)
        ensures
            r == self.bits,
    {
        self.bits
    }
}

/// The named bits of `LightFlags`.
pub const LIGHT_FLAGS_KNOWN: u32 = 0x1FF;

/// Bits of `LightFlags` that are never named but round-trip unchanged.
pub const LIGHT_FLAGS_IGNORED: u32 = 0x0;

/// Bit flags on the wire: DYNAMIC is 0x1, CAN_CARRY is 0x2, NEGATIVE is 0x4, FLICKER is 0x8, FIRE is 0x10, OFF_BY_DEFAULT is 0x20, FLICKER_SLOW is 0x40, PULSE is 0x80, PULSE_SLOW is 0x100.
#[derive(PartialEq, Eq, Structural, Copy, Clone, Hash, PartialOrd, Ord, Debug)]
pub struct LightFlags {
    pub bits: u32,
}

impl LightFlags {
    /// Whether a wire value sets only named or ignored bits.
    pub open spec fn spec_valid_bits(v: u32) -> bool {
        v & !(LIGHT_FLAGS_KNOWN | LIGHT_FLAGS_IGNORED) == 0
    }

    /// The flag set a wire value names, if it sets only named or ignored
    /// bits; the ignored bits are kept as they came.
    pub open spec fn spec_from_bits(v: u32) -> Option<LightFlags> {
        if LightFlags::spec_valid_bits(v) {
            Some(LightFlags { bits: v })
        } else {
            None
        }
    }

    /// The flag set a wire value names, if it sets only named or ignored
    /// bits.
    pub fn from_bits(v: u32) -> (r: Option<LightFlags>)
        ensures
            r == LightFlags::spec_from_bits(v),
    {
        if v & !(LIGHT_FLAGS_KNOWN | LIGHT_FLAGS_IGNORED) == 0 {
            Some(LightFlags { bits: v })
        } else {
            None
        }
    }

    /// The wire value of the flag set.
    pub fn bits(self) -> (r: u32)
        ensures
            r == self.bits,
    {
        self.bits
    }
}

/// The named bits of `WeaponFlags`.
pub const WEAPON_FLAGS_KNOWN: u32 = 0x3;

/// Bits of `WeaponFlags` that are never named but round-trip unchanged.
pub const WEAPON_FLAGS_IGNORED: u32 = 0x0;

/// Bit flags on the wire: MAGICAL is 0x1, SILVER is 0x2.
#[derive(PartialEq, Eq, Structural, Copy, Clone, Hash, PartialOrd, Ord, Debug)]
pub struct WeaponFlags {
    pub bits: u32,
}

impl WeaponFlags {
    /// Whether a wire value sets only named or ignored bits.
    pub open spec fn spec_valid_bits(v: u32) -> bool {
        v & !(WEAPON_FLAGS_KNOWN | WEAPON_FLAGS_IGNORED) == 0
    }

    /// The flag set a wire value names, if it sets only named or ignored
    /// bits; the ignored bits are kept as they came.
    pub open spec fn spec_from_bits(v: u32) -> Option<WeaponFlags> {
        if WeaponFlags::spec_valid_bits(v) {
            Some(WeaponFlags { bits: v })
        } else {
            None
        }
    }

    /// The flag set a wire value names, if it sets only named or ignored
    /// bits.
    pub fn from_bits(v: u32) -> (r: Option<WeaponFlags>)
        ensures
            r == WeaponFlags::spec_from_bits(v),
    {
        if v & !(WEAPON_FLAGS_KNOWN | WEAPON_FLAGS_IGNORED) == 0 {
            Some(WeaponFlags { bits: v })
        } else {
            None
        }
    }

    /// The wire value of the flag set.
    pub fn bits(self) -> (r: u32)
        ensures
            r == self.bits,
    {
        self.bits
    }
}

/// The named bits of `BodyPartFlags`.
pub const BODY_PART_FLAGS_KNOWN: u8 = 0x3;

/// Bits of `BodyPartFlags` that are never named but round-trip unchanged.
pub const BODY_PART_FLAGS_IGNORED: u8 = 0x0;

/// Bit flags on the wire: FEMALE is 0x1, NON_PLAYABLE is 0x2.
#[derive(PartialEq, Eq, Structural, Copy, Clone, Hash, PartialOrd, Ord, Debug)]
pub struct BodyPartFlags {
    pub bits: u8,
}

impl BodyPartFlags {
    /// Whether a wire value sets only named or ignored bits.
    pub open spec fn spec_valid_bits(v: u8) -> bool {
        v & !(BODY_PART_FLAGS_KNOWN | BODY_PART_FLAGS_IGNORED) == 0
    }

    /// The flag set a wire value names, if it sets only named or ignored
    /// bits; the ignored bits are kept as they came.
    pub open spec fn spec_from_bits(v: u8) -> Option<BodyPartFlags> {
        if BodyPartFlags::spec_valid_bits(v) {
            Some(BodyPartFlags { bits: v })
        } else {
            None
        }
    }

    /// The flag set a wire value names, if it sets only named or ignored
    /// bits.
    pub fn from_bits(v: u8) -> (r: Option<BodyPartFlags>)
        ensures
            r == BodyPartFlags::spec_from_bits(v),
    {
        if v & !(BODY_PART_FLAGS_KNOWN | BODY_PART_FLAGS_IGNORED) == 0 {
            Some(BodyPartFlags { bits: v })
        } else {
            None
        }
    }

    /// The wire value of the flag set.
    pub fn bits(self) -> (r: u8)
        ensures
            r == self.bits,
    {
        self.bits
    }
}

} // verus!
