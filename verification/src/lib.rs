//! A verified codec for the field layer of the ESP/ESM/ESS game-data
//! format: a length-prefixed, tag-dispatched binary form in which every
//! field's shape is fixed by its (record tag, field tag) pair.
//!
//! The record layer above hands the codec a payload it has already
//! framed; `decode_field` turns those bytes into a typed [`Field`] and
//! `encode_field` writes a [`Field`] back. The laws module proves the
//! format's round-trip guarantee: whatever decodes re-encodes to exactly
//! the bytes it came from, under either single-byte code page.

use vstd::prelude::*;

pub mod code_page;
pub mod codec;
pub mod color;
pub mod enums;
pub mod errors;
pub mod field;
pub mod field_codec;
pub mod field_type;
pub mod flags;
pub mod laws;
pub mod record_flags;
pub mod tag;
pub mod text;
pub mod wire;

pub use code_page::CodePage;
pub use color::Color;
pub use enums::ApparatusType;
pub use enums::ArmorType;
pub use enums::BipedObject;
pub use enums::BloodTexture;
pub use enums::BodyPartType;
pub use enums::ClothingType;
pub use enums::CreatureType;
pub use enums::DialogType;
pub use enums::EffectRange;
pub use enums::FileType;
pub use enums::MeshType;
pub use enums::SpellType;
pub use enums::WeaponType;
pub use errors::DeError;
pub use errors::EnumKind;
pub use errors::FlagKind;
pub use field::Ai;
pub use field::AiTravel;
pub use field::AiWander;
pub use field::Apparatus;
pub use field::Armor;
pub use field::Book;
pub use field::BodyPart;
pub use field::Clothing;
pub use field::Creature;
pub use field::DialogTypeOption;
pub use field::Effect;
pub use field::Field;
pub use field::FileMetadata;
pub use field::FlagsAndBloodTexture;
pub use field::Ingredient;
pub use field::Item;
pub use field::Light;
pub use field::MiscItem;
pub use field::Npc;
pub use field::Npc12;
pub use field::Npc12Or52;
pub use field::Npc52;
pub use field::NpcCharacteristics;
pub use field::NpcCharacteristicsOption;
pub use field::Record;
pub use field::SavedNpc;
pub use field::ScriptMetadata;
pub use field::SpellMetadata;
pub use field::StringZ;
pub use field::StringZList;
pub use field::allow_coerce;
pub use field_codec::decode_field;
pub use field_codec::encode_field;
pub use field_type::FieldType;
pub use field_type::Newline;
pub use flags::AiServices;
pub use flags::AiTravelFlags;
pub use flags::BodyPartFlags;
pub use flags::ContainerFlags;
pub use flags::CreatureFlags;
pub use flags::LightFlags;
pub use flags::NpcFlags;
pub use flags::SpellFlags;
pub use flags::WeaponFlags;
pub use record_flags::RecordFlags;
pub use tag::Tag;

verus! {

} // verus!
