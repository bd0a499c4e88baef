use vstd::prelude::*;

verus! {

/// Which named enumeration a wire value failed to match.
#[derive(PartialEq, Eq, Structural, Copy, Clone, Debug)]
pub enum EnumKind {
    FileType,
    DialogType,
    EffectRange,
    SpellType,
    BloodTexture,
    CreatureType,
    ApparatusType,
    ArmorType,
    WeaponType,
    MeshType,
    BodyPartType,
    BipedObject,
    ClothingType,
}

/// Which flag set a wire value failed to match.
#[derive(PartialEq, Eq, Structural, Copy, Clone, Debug)]
pub enum FlagKind {
    SpellFlags,
    AiServices,
    AiTravelFlags,
    NpcFlags,
    CreatureFlags,
    ContainerFlags,
    LightFlags,
    WeaponFlags,
    BodyPartFlags,
}

/// Why a field could not be decoded or encoded; every kind is fatal to
/// the current field.
#[derive(PartialEq, Eq, Structural, Copy, Clone, Debug)]
pub enum DeError {
    /// The payload size does not fit the field's shape.
    InvalidSize { expected: u32, actual: u32 },
    /// A boolean byte was neither zero nor one.
    InvalidBoolEncoding(u8),
    /// An integer named no variant of the expected enumeration.
    InvalidEnumValue(EnumKind, u64),
    /// Bits outside the named and the ignored ones were set.
    InvalidFlagBits(FlagKind, u64),
    /// Text to be written into a fixed width came out longer.
    InvalidFixedString { expected: u32, actual: u32 },
    /// A character has no single-byte form under the active code page.
    UnknownCodePageChar(char),
}

} // verus!
