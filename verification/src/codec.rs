use vstd::prelude::*;
use vstd::bytes::spec_u16_from_le_bytes;
use vstd::bytes::spec_u16_to_le_bytes;
use vstd::bytes::spec_u32_from_le_bytes;
use vstd::bytes::spec_u32_to_le_bytes;
use crate::enums::ApparatusType;
use crate::enums::ArmorType;
use crate::enums::BloodTexture;
use crate::enums::BodyPartType;
use crate::enums::ClothingType;
use crate::enums::CreatureType;
use crate::enums::EffectRange;
use crate::enums::MeshType;
use crate::enums::SpellType;
use crate::enums::WeaponType;
use crate::enums::lemma_apparatus_type_round_trip;
use crate::enums::lemma_armor_type_round_trip;
use crate::enums::lemma_blood_texture_round_trip;
use crate::enums::lemma_body_part_type_round_trip;
use crate::enums::lemma_clothing_type_round_trip;
use crate::enums::lemma_creature_type_round_trip;
use crate::enums::lemma_effect_range_round_trip;
use crate::enums::lemma_mesh_type_round_trip;
use crate::enums::lemma_spell_type_round_trip;
use crate::enums::lemma_weapon_type_round_trip;
use crate::errors::DeError;
use crate::errors::EnumKind;
use crate::errors::FlagKind;
use crate::field::Ai;
use crate::field::AiTravel;
use crate::field::Apparatus;
use crate::field::Armor;
use crate::field::Book;
use crate::field::BodyPart;
use crate::field::Clothing;
use crate::field::Creature;
use crate::field::Effect;
use crate::field::FlagsAndBloodTexture;
use crate::field::Light;
use crate::field::MiscItem;
use crate::field::Npc12;
use crate::field::Npc52;
use crate::field::NpcCharacteristics;
use crate::field::SavedNpc;
use crate::field::SpellMetadata;
use crate::field::Weapon;
use crate::flags::AiServices;
use crate::flags::AiTravelFlags;
use crate::flags::BodyPartFlags;
use crate::flags::CreatureFlags;
use crate::flags::LightFlags;
use crate::flags::NpcFlags;
use crate::flags::SpellFlags;
use crate::flags::WeaponFlags;
use crate::wire::read_i16_at;
use crate::wire::read_i32_at;
use crate::wire::read_i8_at;
use crate::wire::read_u16_at;
use crate::wire::read_u32_at;
use crate::wire::read_u8_at;
use crate::wire::push_i16;
use crate::wire::push_i32;
use crate::wire::push_i8;
use crate::wire::push_u16;
use crate::wire::push_u32;
use crate::wire::push_u8;
use crate::wire::spec_i16_from_le;
use crate::wire::spec_i16_to_le;
use crate::wire::spec_i32_from_le;
use crate::wire::spec_i32_to_le;
use crate::wire::lemma_le_round_trips;

verus! {

/// The characteristics block read from its 42 bytes.
pub open spec fn spec_read_npc_characteristics(bs: Seq<u8>) -> NpcCharacteristics
    recommends
        bs.len() == 42,
{
    NpcCharacteristics {
        strength: bs[0],
        intelligence: bs[1],
        willpower: bs[2],
        agility: bs[3],
        speed: bs[4],
        endurance: bs[5],
        personality: bs[6],
        luck: bs[7],
        block: bs[8],
        armorer: bs[9],
        medium_armor: bs[10],
        heavy_armor: bs[11],
        blunt_weapon: bs[12],
        long_blade: bs[13],
        axe: bs[14],
        spear: bs[15],
        athletics: bs[16],
        enchant: bs[17],
        destruction: bs[18],
        alteration: bs[19],
        illusion: bs[20],
        conjuration: bs[21],
        mysticism: bs[22],
        restoration: bs[23],
        alchemy: bs[24],
        unarmored: bs[25],
        security: bs[26],
        sneak: bs[27],
        acrobatics: bs[28],
        light_armor: bs[29],
        short_blade: bs[30],
        marksman: bs[31],
        mercantile: bs[32],
        speechcraft: bs[33],
        hand_to_hand: bs[34],
        faction: bs[35],
        health: spec_i16_from_le(bs.subrange(36, 38)),
        magicka: spec_i16_from_le(bs.subrange(38, 40)),
        fatigue: spec_i16_from_le(bs.subrange(40, 42)),
    }
}

/// The 42 bytes of a characteristics block.
pub open spec fn spec_encode_npc_characteristics(v: NpcCharacteristics) -> Seq<u8> {
    seq![v.strength, v.intelligence, v.willpower, v.agility, v.speed, v.endurance, v.personality, v.luck, v.block, v.armorer, v.medium_armor, v.heavy_armor, v.blunt_weapon, v.long_blade, v.axe, v.spear, v.athletics, v.enchant, v.destruction, v.alteration, v.illusion, v.conjuration, v.mysticism, v.restoration, v.alchemy, v.unarmored, v.security, v.sneak, v.acrobatics, v.light_armor, v.short_blade, v.marksman, v.mercantile, v.speechcraft, v.hand_to_hand, v.faction] + spec_i16_to_le(v.health) + spec_i16_to_le(v.magicka) + spec_i16_to_le(v.fatigue)
}

/// A characteristics block re-encodes to the 42 bytes it was read from.
pub proof fn lemma_npc_characteristics_round_trip(bs: Seq<u8>)
    requires
        bs.len() == 42,
    ensures
        spec_encode_npc_characteristics(spec_read_npc_characteristics(bs)) == bs,
{
    lemma_le_round_trips();
    assert(spec_encode_npc_characteristics(spec_read_npc_characteristics(bs)) =~= bs);
}

/// A characteristics block is always written as 42 bytes.
pub proof fn lemma_encode_npc_characteristics_len(v: NpcCharacteristics)
    ensures
        spec_encode_npc_characteristics(v).len() == 42,
{
    lemma_le_round_trips();
}

/// The characteristics block standing at `at`.
pub fn read_npc_characteristics_at(bs: &[u8], at: usize) -> (r: NpcCharacteristics)
    requires
        at + 42 <= bs@.len(),
    ensures
        r == spec_read_npc_characteristics(bs@.subrange(at as int, at as int + 42)),
{
    let l = bs.len();
    let r = NpcCharacteristics {
        strength: read_u8_at(bs, at + 0),
        intelligence: read_u8_at(bs, at + 1),
        willpower: read_u8_at(bs, at + 2),
        agility: read_u8_at(bs, at + 3),
        speed: read_u8_at(bs, at + 4),
        endurance: read_u8_at(bs, at + 5),
        personality: read_u8_at(bs, at + 6),
        luck: read_u8_at(bs, at + 7),
        block: read_u8_at(bs, at + 8),
        armorer: read_u8_at(bs, at + 9),
        medium_armor: read_u8_at(bs, at + 10),
        heavy_armor: read_u8_at(bs, at + 11),
        blunt_weapon: read_u8_at(bs, at + 12),
        long_blade: read_u8_at(bs, at + 13),
        axe: read_u8_at(bs, at + 14),
        spear: read_u8_at(bs, at + 15),
        athletics: read_u8_at(bs, at + 16),
        enchant: read_u8_at(bs, at + 17),
        destruction: read_u8_at(bs, at + 18),
        alteration: read_u8_at(bs, at + 19),
        illusion: read_u8_at(bs, at + 20),
        conjuration: read_u8_at(bs, at + 21),
        mysticism: read_u8_at(bs, at + 22),
        restoration: read_u8_at(bs, at + 23),
        alchemy: read_u8_at(bs, at + 24),
        unarmored: read_u8_at(bs, at + 25),
        security: read_u8_at(bs, at + 26),
        sneak: read_u8_at(bs, at + 27),
        acrobatics: read_u8_at(bs, at + 28),
        light_armor: read_u8_at(bs, at + 29),
        short_blade: read_u8_at(bs, at + 30),
        marksman: read_u8_at(bs, at + 31),
        mercantile: read_u8_at(bs, at + 32),
        speechcraft: read_u8_at(bs, at + 33),
        hand_to_hand: read_u8_at(bs, at + 34),
        faction: read_u8_at(bs, at + 35),
        health: read_i16_at(bs, at + 36),
        magicka: read_i16_at(bs, at + 38),
        fatigue: read_i16_at(bs, at + 40),
    };
    proof {
        let ghost sub = bs@.subrange(at as int, at as int + 42);
        assert(sub.subrange(36, 38) =~= bs@.subrange(at as int + 36, at as int + 38));
        assert(sub.subrange(38, 40) =~= bs@.subrange(at as int + 38, at as int + 40));
        assert(sub.subrange(40, 42) =~= bs@.subrange(at as int + 40, at as int + 42));
    }
    r
}

/// Appends the 42 bytes of a characteristics block.
pub fn push_npc_characteristics(out: &mut Vec<u8>, v: &NpcCharacteristics)
    ensures
        final(out)@ == old(out)@ + spec_encode_npc_characteristics(*v),
{
    push_u8(out, v.strength);
    push_u8(out, v.intelligence);
    push_u8(out, v.willpower);
    push_u8(out, v.agility);
    push_u8(out, v.speed);
    push_u8(out, v.endurance);
    push_u8(out, v.personality);
    push_u8(out, v.luck);
    push_u8(out, v.block);
    push_u8(out, v.armorer);
    push_u8(out, v.medium_armor);
    push_u8(out, v.heavy_armor);
    push_u8(out, v.blunt_weapon);
    push_u8(out, v.long_blade);
    push_u8(out, v.axe);
    push_u8(out, v.spear);
    push_u8(out, v.athletics);
    push_u8(out, v.enchant);
    push_u8(out, v.destruction);
    push_u8(out, v.alteration);
    push_u8(out, v.illusion);
    push_u8(out, v.conjuration);
    push_u8(out, v.mysticism);
    push_u8(out, v.restoration);
    push_u8(out, v.alchemy);
    push_u8(out, v.unarmored);
    push_u8(out, v.security);
    push_u8(out, v.sneak);
    push_u8(out, v.acrobatics);
    push_u8(out, v.light_armor);
    push_u8(out, v.short_blade);
    push_u8(out, v.marksman);
    push_u8(out, v.mercantile);
    push_u8(out, v.speechcraft);
    push_u8(out, v.hand_to_hand);
    push_u8(out, v.faction);
    push_i16(out, v.health);
    push_i16(out, v.magicka);
    push_i16(out, v.fatigue);
    proof {
        assert(out@ =~= old(out)@ + spec_encode_npc_characteristics(*v));
    }
}

/// The `SavedNpc` a 8-byte payload holds, if its sizes and values fit.
pub open spec fn spec_decode_saved_npc(bs: Seq<u8>) -> Option<SavedNpc> {
    if bs.len() != 8 {
        None
    } else {
Some(
            SavedNpc {
                disposition: spec_i16_from_le(bs.subrange(0, 2)),
                reputation: spec_i16_from_le(bs.subrange(2, 4)),
                index: spec_u32_from_le_bytes(bs.subrange(4, 8)),
            },
        )
    }
}

/// The 8 bytes that write a `SavedNpc`.
pub open spec fn spec_encode_saved_npc(v: SavedNpc) -> Seq<u8> {
    spec_i16_to_le(v.disposition) + spec_i16_to_le(v.reputation) + spec_u32_to_le_bytes(v.index)
}

/// A decoded `SavedNpc` re-encodes to exactly its payload bytes.
pub proof fn lemma_saved_npc_round_trip(bs: Seq<u8>)
    ensures
        spec_decode_saved_npc(bs) matches Some(v) ==> spec_encode_saved_npc(v) == bs,
{
    lemma_le_round_trips();
    match spec_decode_saved_npc(bs) {
        Option::Some(v) => {
            assert(spec_encode_saved_npc(v) =~= bs);
        },
        Option::None => {
        },
    }
}

/// A `SavedNpc` is always written as 8 bytes.
pub proof fn lemma_encode_saved_npc_len(v: SavedNpc)
    ensures
        spec_encode_saved_npc(v).len() == 8,
{
    lemma_le_round_trips();
}

/// Decodes a `SavedNpc` from its payload.
pub fn decode_saved_npc(bs: &[u8]) -> (r: Result<SavedNpc, DeError>)
    ensures
        r is Ok <==> spec_decode_saved_npc(bs@) is Some,
        r matches Ok(v) ==> Some(v) == spec_decode_saved_npc(bs@),
        bs@.len() != 8 ==> r == Err::<SavedNpc, DeError>(DeError::InvalidSize { expected: 8, actual: bs@.len() as u32 }),
{
    let l = bs.len();
    if l != 8 {
        return Err(DeError::InvalidSize { expected: 8, actual: l as u32 });
    }
    let disposition = read_i16_at(bs, 0);
    let reputation = read_i16_at(bs, 2);
    let index = read_u32_at(bs, 4);
    Ok(SavedNpc {
        disposition,
        reputation,
        index,
    })
}

/// Appends the 8 bytes of a `SavedNpc`.
pub fn encode_saved_npc(v: &SavedNpc, out: &mut Vec<u8>)
    ensures
        final(out)@ == old(out)@ + spec_encode_saved_npc(*v),
{
    push_i16(out, v.disposition);
    push_i16(out, v.reputation);
    push_u32(out, v.index);
    proof {
        assert(out@ =~= old(out)@ + spec_encode_saved_npc(*v));
    }
}

/// The `Npc12` a 12-byte payload holds, if its sizes and values fit.
pub open spec fn spec_decode_npc12(bs: Seq<u8>) -> Option<Npc12> {
    if bs.len() != 12 {
        None
    } else {
Some(
            Npc12 {
                level: spec_u16_from_le_bytes(bs.subrange(0, 2)),
                disposition: bs[2] as i8,
                reputation: bs[3] as i8,
                rank: bs[4] as i8,
                padding_8: bs[5],
                padding_16: spec_u16_from_le_bytes(bs.subrange(6, 8)),
                gold: spec_i32_from_le(bs.subrange(8, 12)),
            },
        )
    }
}

/// The 12 bytes that write a `Npc12`.
pub open spec fn spec_encode_npc12(v: Npc12) -> Seq<u8> {
    spec_u16_to_le_bytes(v.level) + seq![v.disposition as u8] + seq![v.reputation as u8] + seq![v.rank as u8] + seq![v.padding_8] + spec_u16_to_le_bytes(v.padding_16) + spec_i32_to_le(v.gold)
}

/// A decoded `Npc12` re-encodes to exactly its payload bytes.
pub proof fn lemma_npc12_round_trip(bs: Seq<u8>)
    ensures
        spec_decode_npc12(bs) matches Some(v) ==> spec_encode_npc12(v) == bs,
{
    lemma_le_round_trips();
    crate::wire::lemma_signed_casts();
    match spec_decode_npc12(bs) {
        Option::Some(v) => {
            assert(spec_encode_npc12(v) =~= bs);
        },
        Option::None => {
        },
    }
}

/// A `Npc12` is always written as 12 bytes.
pub proof fn lemma_encode_npc12_len(v: Npc12)
    ensures
        spec_encode_npc12(v).len() == 12,
{
    lemma_le_round_trips();
}

/// Decodes a `Npc12` from its payload.
pub fn decode_npc12(bs: &[u8]) -> (r: Result<Npc12, DeError>)
    ensures
        r is Ok <==> spec_decode_npc12(bs@) is Some,
        r matches Ok(v) ==> Some(v) == spec_decode_npc12(bs@),
        bs@.len() != 12 ==> r == Err::<Npc12, DeError>(DeError::InvalidSize { expected: 12, actual: bs@.len() as u32 }),
{
    let l = bs.len();
    if l != 12 {
        return Err(DeError::InvalidSize { expected: 12, actual: l as u32 });
    }
    let level = read_u16_at(bs, 0);
    let disposition = read_i8_at(bs, 2);
    let reputation = read_i8_at(bs, 3);
    let rank = read_i8_at(bs, 4);
    let padding_8 = read_u8_at(bs, 5);
    let padding_16 = read_u16_at(bs, 6);
    let gold = read_i32_at(bs, 8);
    Ok(Npc12 {
        level,
        disposition,
        reputation,
        rank,
        padding_8,
        padding_16,
        gold,
    })
}

/// Appends the 12 bytes of a `Npc12`.
pub fn encode_npc12(v: &Npc12, out: &mut Vec<u8>)
    ensures
        final(out)@ == old(out)@ + spec_encode_npc12(*v),
{
    push_u16(out, v.level);
    push_i8(out, v.disposition);
    push_i8(out, v.reputation);
    push_i8(out, v.rank);
    push_u8(out, v.padding_8);
    push_u16(out, v.padding_16);
    push_i32(out, v.gold);
    proof {
        assert(out@ =~= old(out)@ + spec_encode_npc12(*v));
    }
}

/// The `Npc52` a 52-byte payload holds, if its sizes and values fit.
pub open spec fn spec_decode_npc52(bs: Seq<u8>) -> Option<Npc52> {
    if bs.len() != 52 {
        None
    } else {
Some(
            Npc52 {
                level: spec_u16_from_le_bytes(bs.subrange(0, 2)),
                characteristics: spec_read_npc_characteristics(bs.subrange(2, 44)),
                disposition: bs[44] as i8,
                reputation: bs[45] as i8,
                rank: bs[46] as i8,
                padding: bs[47],
                gold: spec_i32_from_le(bs.subrange(48, 52)),
            },
        )
    }
}

/// The 52 bytes that write a `Npc52`.
pub open spec fn spec_encode_npc52(v: Npc52) -> Seq<u8> {
    spec_u16_to_le_bytes(v.level) + spec_encode_npc_characteristics(v.characteristics) + seq![v.disposition as u8] + seq![v.reputation as u8] + seq![v.rank as u8] + seq![v.padding] + spec_i32_to_le(v.gold)
}

/// A decoded `Npc52` re-encodes to exactly its payload bytes.
pub proof fn lemma_npc52_round_trip(bs: Seq<u8>)
    ensures
        spec_decode_npc52(bs) matches Some(v) ==> spec_encode_npc52(v) == bs,
{
    lemma_le_round_trips();
    crate::wire::lemma_signed_casts();
    match spec_decode_npc52(bs) {
        Option::Some(v) => {
            lemma_npc_characteristics_round_trip(bs.subrange(2, 44));
            assert(spec_encode_npc52(v) =~= bs);
        },
        Option::None => {
        },
    }
}

/// A `Npc52` is always written as 52 bytes.
pub proof fn lemma_encode_npc52_len(v: Npc52)
    ensures
        spec_encode_npc52(v).len() == 52,
{
    lemma_le_round_trips();
    lemma_encode_npc_characteristics_len(v.characteristics);
}

/// Decodes a `Npc52` from its payload.
pub fn decode_npc52(bs: &[u8]) -> (r: Result<Npc52, DeError>)
    ensures
        r is Ok <==> spec_decode_npc52(bs@) is Some,
        r matches Ok(v) ==> Some(v) == spec_decode_npc52(bs@),
        bs@.len() != 52 ==> r == Err::<Npc52, DeError>(DeError::InvalidSize { expected: 52, actual: bs@.len() as u32 }),
{
    let l = bs.len();
    if l != 52 {
        return Err(DeError::InvalidSize { expected: 52, actual: l as u32 });
    }
    let level = read_u16_at(bs, 0);
    let characteristics = read_npc_characteristics_at(bs, 2);
    let disposition = read_i8_at(bs, 44);
    let reputation = read_i8_at(bs, 45);
    let rank = read_i8_at(bs, 46);
    let padding = read_u8_at(bs, 47);
    let gold = read_i32_at(bs, 48);
    Ok(Npc52 {
        level,
        characteristics,
        disposition,
        reputation,
        rank,
        padding,
        gold,
    })
}

/// Appends the 52 bytes of a `Npc52`.
pub fn encode_npc52(v: &Npc52, out: &mut Vec<u8>)
    ensures
        final(out)@ == old(out)@ + spec_encode_npc52(*v),
{
    push_u16(out, v.level);
    push_npc_characteristics(out, &v.characteristics);
    push_i8(out, v.disposition);
    push_i8(out, v.reputation);
    push_i8(out, v.rank);
    push_u8(out, v.padding);
    push_i32(out, v.gold);
    proof {
        assert(out@ =~= old(out)@ + spec_encode_npc52(*v));
    }
}

/// The `Effect` a 24-byte payload holds, if its sizes and values fit.
pub open spec fn spec_decode_effect(bs: Seq<u8>) -> Option<Effect> {
    if bs.len() != 24 {
        None
    } else {
        match EffectRange::spec_from_i32(spec_i32_from_le(bs.subrange(4, 8))) {
            Option::None => None,
            Option::Some(range) => Some(
                Effect {
                    effect_id: spec_i16_from_le(bs.subrange(0, 2)),
                    skill: bs[2] as i8,
                    attribute: bs[3] as i8,
                    range,
                    area: spec_i32_from_le(bs.subrange(8, 12)),
                    duration: spec_i32_from_le(bs.subrange(12, 16)),
                    magnitude_min: spec_i32_from_le(bs.subrange(16, 20)),
                    magnitude_max: spec_i32_from_le(bs.subrange(20, 24)),
                },
            ),
        }
    }
}

/// The 24 bytes that write a `Effect`.
pub open spec fn spec_encode_effect(v: Effect) -> Seq<u8> {
    spec_i16_to_le(v.effect_id) + seq![v.skill as u8] + seq![v.attribute as u8] + spec_i32_to_le(v.range.spec_to_i32()) + spec_i32_to_le(v.area) + spec_i32_to_le(v.duration) + spec_i32_to_le(v.magnitude_min) + spec_i32_to_le(v.magnitude_max)
}

/// A decoded `Effect` re-encodes to exactly its payload bytes.
pub proof fn lemma_effect_round_trip(bs: Seq<u8>)
    ensures
        spec_decode_effect(bs) matches Some(v) ==> spec_encode_effect(v) == bs,
{
    lemma_le_round_trips();
    crate::wire::lemma_signed_casts();
    match spec_decode_effect(bs) {
        Option::Some(v) => {
            lemma_effect_range_round_trip(spec_i32_from_le(bs.subrange(4, 8)));
            assert(spec_encode_effect(v) =~= bs);
        },
        Option::None => {
        },
    }
}

/// A `Effect` is always written as 24 bytes.
pub proof fn lemma_encode_effect_len(v: Effect)
    ensures
        spec_encode_effect(v).len() == 24,
{
    lemma_le_round_trips();
}

/// Decodes a `Effect` from its payload.
pub fn decode_effect(bs: &[u8]) -> (r: Result<Effect, DeError>)
    ensures
        r is Ok <==> spec_decode_effect(bs@) is Some,
        r matches Ok(v) ==> Some(v) == spec_decode_effect(bs@),
        bs@.len() != 24 ==> r == Err::<Effect, DeError>(DeError::InvalidSize { expected: 24, actual: bs@.len() as u32 }),
        (bs@.len() == 24 && EffectRange::spec_from_i32(spec_i32_from_le(bs@.subrange(4, 8))) is None) ==> r == Err::<Effect, DeError>(DeError::InvalidEnumValue(EnumKind::EffectRange, spec_i32_from_le(bs@.subrange(4, 8)) as u64)),
{
    let l = bs.len();
    if l != 24 {
        return Err(DeError::InvalidSize { expected: 24, actual: l as u32 });
    }
    let effect_id = read_i16_at(bs, 0);
    let skill = read_i8_at(bs, 2);
    let attribute = read_i8_at(bs, 3);
    let raw_range = read_i32_at(bs, 4);
    let range = match EffectRange::from_i32(raw_range) {
        Option::Some(v) => v,
        Option::None => {
            return Err(DeError::InvalidEnumValue(EnumKind::EffectRange, raw_range as u64));
        },
    };
    let area = read_i32_at(bs, 8);
    let duration = read_i32_at(bs, 12);
    let magnitude_min = read_i32_at(bs, 16);
    let magnitude_max = read_i32_at(bs, 20);
    Ok(Effect {
        effect_id,
        skill,
        attribute,
        range,
        area,
        duration,
        magnitude_min,
        magnitude_max,
    })
}

/// Appends the 24 bytes of a `Effect`.
pub fn encode_effect(v: &Effect, out: &mut Vec<u8>)
    ensures
        final(out)@ == old(out)@ + spec_encode_effect(*v),
{
    push_i16(out, v.effect_id);
    push_i8(out, v.skill);
    push_i8(out, v.attribute);
    push_i32(out, v.range.to_i32());
    push_i32(out, v.area);
    push_i32(out, v.duration);
    push_i32(out, v.magnitude_min);
    push_i32(out, v.magnitude_max);
    proof {
        assert(out@ =~= old(out)@ + spec_encode_effect(*v));
    }
}

/// The `SpellMetadata` a 12-byte payload holds, if its sizes and values fit.
pub open spec fn spec_decode_spell_metadata(bs: Seq<u8>) -> Option<SpellMetadata> {
    if bs.len() != 12 {
        None
    } else {
        match SpellType::spec_from_u32(spec_u32_from_le_bytes(bs.subrange(0, 4))) {
            Option::None => None,
            Option::Some(spell_type) =>             match SpellFlags::spec_from_bits(spec_u32_from_le_bytes(bs.subrange(8, 12))) {
                Option::None => None,
                Option::Some(flags) => Some(
                    SpellMetadata {
                        spell_type,
                        cost: spec_u32_from_le_bytes(bs.subrange(4, 8)),
                        flags,
                    },
                ),
            },
        }
    }
}

/// The 12 bytes that write a `SpellMetadata`.
pub open spec fn spec_encode_spell_metadata(v: SpellMetadata) -> Seq<u8> {
    spec_u32_to_le_bytes(v.spell_type.spec_to_u32()) + spec_u32_to_le_bytes(v.cost) + spec_u32_to_le_bytes(v.flags.bits)
}

/// A decoded `SpellMetadata` re-encodes to exactly its payload bytes.
pub proof fn lemma_spell_metadata_round_trip(bs: Seq<u8>)
    ensures
        spec_decode_spell_metadata(bs) matches Some(v) ==> spec_encode_spell_metadata(v) == bs,
{
    lemma_le_round_trips();
    match spec_decode_spell_metadata(bs) {
        Option::Some(v) => {
            lemma_spell_type_round_trip(spec_u32_from_le_bytes(bs.subrange(0, 4)));
            assert(spec_encode_spell_metadata(v) =~= bs);
        },
        Option::None => {
        },
    }
}

/// A `SpellMetadata` is always written as 12 bytes.
pub proof fn lemma_encode_spell_metadata_len(v: SpellMetadata)
    ensures
        spec_encode_spell_metadata(v).len() == 12,
{
    lemma_le_round_trips();
}

/// Decodes a `SpellMetadata` from its payload.
pub fn decode_spell_metadata(bs: &[u8]) -> (r: Result<SpellMetadata, DeError>)
    ensures
        r is Ok <==> spec_decode_spell_metadata(bs@) is Some,
        r matches Ok(v) ==> Some(v) == spec_decode_spell_metadata(bs@),
        bs@.len() != 12 ==> r == Err::<SpellMetadata, DeError>(DeError::InvalidSize { expected: 12, actual: bs@.len() as u32 }),
        (bs@.len() == 12 && SpellType::spec_from_u32(spec_u32_from_le_bytes(bs@.subrange(0, 4))) is None) ==> r == Err::<SpellMetadata, DeError>(DeError::InvalidEnumValue(EnumKind::SpellType, spec_u32_from_le_bytes(bs@.subrange(0, 4)) as u64)),
        (bs@.len() == 12 && SpellType::spec_from_u32(spec_u32_from_le_bytes(bs@.subrange(0, 4))) is Some && SpellFlags::spec_from_bits(spec_u32_from_le_bytes(bs@.subrange(8, 12))) is None) ==> r == Err::<SpellMetadata, DeError>(DeError::InvalidFlagBits(FlagKind::SpellFlags, spec_u32_from_le_bytes(bs@.subrange(8, 12)) as u64)),
{
    let l = bs.len();
    if l != 12 {
        return Err(DeError::InvalidSize { expected: 12, actual: l as u32 });
    }
    let raw_spell_type = read_u32_at(bs, 0);
    let spell_type = match SpellType::from_u32(raw_spell_type) {
        Option::Some(v) => v,
        Option::None => {
            return Err(DeError::InvalidEnumValue(EnumKind::SpellType, raw_spell_type as u64));
        },
    };
    let cost = read_u32_at(bs, 4);
    let raw_flags = read_u32_at(bs, 8);
    let flags = match SpellFlags::from_bits(raw_flags) {
        Option::Some(v) => v,
        Option::None => {
            return Err(DeError::InvalidFlagBits(FlagKind::SpellFlags, raw_flags as u64));
        },
    };
    Ok(SpellMetadata {
        spell_type,
        cost,
        flags,
    })
}

/// Appends the 12 bytes of a `SpellMetadata`.
pub fn encode_spell_metadata(v: &SpellMetadata, out: &mut Vec<u8>)
    ensures
        final(out)@ == old(out)@ + spec_encode_spell_metadata(*v),
{
    push_u32(out, v.spell_type.to_u32());
    push_u32(out, v.cost);
    push_u32(out, v.flags.bits);
    proof {
        assert(out@ =~= old(out)@ + spec_encode_spell_metadata(*v));
    }
}

/// The `Ai` a 12-byte payload holds, if its sizes and values fit.
pub open spec fn spec_decode_ai(bs: Seq<u8>) -> Option<Ai> {
    if bs.len() != 12 {
        None
    } else {
        match AiServices::spec_from_bits(spec_u32_from_le_bytes(bs.subrange(8, 12))) {
            Option::None => None,
            Option::Some(services) => Some(
                Ai {
                    hello: spec_u16_from_le_bytes(bs.subrange(0, 2)),
                    fight: bs[2],
                    flee: bs[3],
                    alarm: bs[4],
                    padding_8: bs[5],
                    padding_16: spec_u16_from_le_bytes(bs.subrange(6, 8)),
                    services,
                },
            ),
        }
    }
}

/// The 12 bytes that write a `Ai`.
pub open spec fn spec_encode_ai(v: Ai) -> Seq<u8> {
    spec_u16_to_le_bytes(v.hello) + seq![v.fight] + seq![v.flee] + seq![v.alarm] + seq![v.padding_8] + spec_u16_to_le_bytes(v.padding_16) + spec_u32_to_le_bytes(v.services.bits)
}

/// A decoded `Ai` re-encodes to exactly its payload bytes.
pub proof fn lemma_ai_round_trip(bs: Seq<u8>)
    ensures
        spec_decode_ai(bs) matches Some(v) ==> spec_encode_ai(v) == bs,
{
    lemma_le_round_trips();
    match spec_decode_ai(bs) {
        Option::Some(v) => {
            assert(spec_encode_ai(v) =~= bs);
        },
        Option::None => {
        },
    }
}

/// A `Ai` is always written as 12 bytes.
pub proof fn lemma_encode_ai_len(v: Ai)
    ensures
        spec_encode_ai(v).len() == 12,
{
    lemma_le_round_trips();
}

/// Decodes a `Ai` from its payload.
pub fn decode_ai(bs: &[u8]) -> (r: Result<Ai, DeError>)
    ensures
        r is Ok <==> spec_decode_ai(bs@) is Some,
        r matches Ok(v) ==> Some(v) == spec_decode_ai(bs@),
        bs@.len() != 12 ==> r == Err::<Ai, DeError>(DeError::InvalidSize { expected: 12, actual: bs@.len() as u32 }),
        (bs@.len() == 12 && AiServices::spec_from_bits(spec_u32_from_le_bytes(bs@.subrange(8, 12))) is None) ==> r == Err::<Ai, DeError>(DeError::InvalidFlagBits(FlagKind::AiServices, spec_u32_from_le_bytes(bs@.subrange(8, 12)) as u64)),
{
    let l = bs.len();
    if l != 12 {
        return Err(DeError::InvalidSize { expected: 12, actual: l as u32 });
    }
    let hello = read_u16_at(bs, 0);
    let fight = read_u8_at(bs, 2);
    let flee = read_u8_at(bs, 3);
    let alarm = read_u8_at(bs, 4);
    let padding_8 = read_u8_at(bs, 5);
    let padding_16 = read_u16_at(bs, 6);
    let raw_services = read_u32_at(bs, 8);
    let services = match AiServices::from_bits(raw_services) {
        Option::Some(v) => v,
        Option::None => {
            return Err(DeError::InvalidFlagBits(FlagKind::AiServices, raw_services as u64));
        },
    };
    Ok(Ai {
        hello,
        fight,
        flee,
        alarm,
        padding_8,
        padding_16,
        services,
    })
}

/// Appends the 12 bytes of a `Ai`.
pub fn encode_ai(v: &Ai, out: &mut Vec<u8>)
    ensures
        final(out)@ == old(out)@ + spec_encode_ai(*v),
{
    push_u16(out, v.hello);
    push_u8(out, v.fight);
    push_u8(out, v.flee);
    push_u8(out, v.alarm);
    push_u8(out, v.padding_8);
    push_u16(out, v.padding_16);
    push_u32(out, v.services.bits);
    proof {
        assert(out@ =~= old(out)@ + spec_encode_ai(*v));
    }
}

/// The `AiTravel` a 16-byte payload holds, if its sizes and values fit.
pub open spec fn spec_decode_ai_travel(bs: Seq<u8>) -> Option<AiTravel> {
    if bs.len() != 16 {
        None
    } else {
        match AiTravelFlags::spec_from_bits(spec_u32_from_le_bytes(bs.subrange(12, 16))) {
            Option::None => None,
            Option::Some(flags) => Some(
                AiTravel {
                    x: spec_u32_from_le_bytes(bs.subrange(0, 4)),
                    y: spec_u32_from_le_bytes(bs.subrange(4, 8)),
                    z: spec_u32_from_le_bytes(bs.subrange(8, 12)),
                    flags,
                },
            ),
        }
    }
}

/// The 16 bytes that write a `AiTravel`.
pub open spec fn spec_encode_ai_travel(v: AiTravel) -> Seq<u8> {
    spec_u32_to_le_bytes(v.x) + spec_u32_to_le_bytes(v.y) + spec_u32_to_le_bytes(v.z) + spec_u32_to_le_bytes(v.flags.bits)
}

/// A decoded `AiTravel` re-encodes to exactly its payload bytes.
pub proof fn lemma_ai_travel_round_trip(bs: Seq<u8>)
    ensures
        spec_decode_ai_travel(bs) matches Some(v) ==> spec_encode_ai_travel(v) == bs,
{
    lemma_le_round_trips();
    match spec_decode_ai_travel(bs) {
        Option::Some(v) => {
            assert(spec_encode_ai_travel(v) =~= bs);
        },
        Option::None => {
        },
    }
}

/// A `AiTravel` is always written as 16 bytes.
pub proof fn lemma_encode_ai_travel_len(v: AiTravel)
    ensures
        spec_encode_ai_travel(v).len() == 16,
{
    lemma_le_round_trips();
}

/// Decodes a `AiTravel` from its payload.
pub fn decode_ai_travel(bs: &[u8]) -> (r: Result<AiTravel, DeError>)
    ensures
        r is Ok <==> spec_decode_ai_travel(bs@) is Some,
        r matches Ok(v) ==> Some(v) == spec_decode_ai_travel(bs@),
        bs@.len() != 16 ==> r == Err::<AiTravel, DeError>(DeError::InvalidSize { expected: 16, actual: bs@.len() as u32 }),
        (bs@.len() == 16 && AiTravelFlags::spec_from_bits(spec_u32_from_le_bytes(bs@.subrange(12, 16))) is None) ==> r == Err::<AiTravel, DeError>(DeError::InvalidFlagBits(FlagKind::AiTravelFlags, spec_u32_from_le_bytes(bs@.subrange(12, 16)) as u64)),
{
    let l = bs.len();
    if l != 16 {
        return Err(DeError::InvalidSize { expected: 16, actual: l as u32 });
    }
    let x = read_u32_at(bs, 0);
    let y = read_u32_at(bs, 4);
    let z = read_u32_at(bs, 8);
    let raw_flags = read_u32_at(bs, 12);
    let flags = match AiTravelFlags::from_bits(raw_flags) {
        Option::Some(v) => v,
        Option::None => {
            return Err(DeError::InvalidFlagBits(FlagKind::AiTravelFlags, raw_flags as u64));
        },
    };
    Ok(AiTravel {
        x,
        y,
        z,
        flags,
    })
}

/// Appends the 16 bytes of a `AiTravel`.
pub fn encode_ai_travel(v: &AiTravel, out: &mut Vec<u8>)
    ensures
        final(out)@ == old(out)@ + spec_encode_ai_travel(*v),
{
    push_u32(out, v.x);
    push_u32(out, v.y);
    push_u32(out, v.z);
    push_u32(out, v.flags.bits);
    proof {
        assert(out@ =~= old(out)@ + spec_encode_ai_travel(*v));
    }
}

/// The `Book` a 20-byte payload holds, if its sizes and values fit.
pub open spec fn spec_decode_book(bs: Seq<u8>) -> Option<Book> {
    if bs.len() != 20 {
        None
    } else {
Some(
            Book {
                weight: spec_u32_from_le_bytes(bs.subrange(0, 4)),
                value: spec_u32_from_le_bytes(bs.subrange(4, 8)),
                scroll: spec_u32_from_le_bytes(bs.subrange(8, 12)),
                skill: spec_i32_from_le(bs.subrange(12, 16)),
                enchantment: spec_u32_from_le_bytes(bs.subrange(16, 20)),
            },
        )
    }
}

/// The 20 bytes that write a `Book`.
pub open spec fn spec_encode_book(v: Book) -> Seq<u8> {
    spec_u32_to_le_bytes(v.weight) + spec_u32_to_le_bytes(v.value) + spec_u32_to_le_bytes(v.scroll) + spec_i32_to_le(v.skill) + spec_u32_to_le_bytes(v.enchantment)
}

/// A decoded `Book` re-encodes to exactly its payload bytes.
pub proof fn lemma_book_round_trip(bs: Seq<u8>)
    ensures
        spec_decode_book(bs) matches Some(v) ==> spec_encode_book(v) == bs,
{
    lemma_le_round_trips();
    match spec_decode_book(bs) {
        Option::Some(v) => {
            assert(spec_encode_book(v) =~= bs);
        },
        Option::None => {
        },
    }
}

/// A `Book` is always written as 20 bytes.
pub proof fn lemma_encode_book_len(v: Book)
    ensures
        spec_encode_book(v).len() == 20,
{
    lemma_le_round_trips();
}

/// Decodes a `Book` from its payload.
pub fn decode_book(bs: &[u8]) -> (r: Result<Book, DeError>)
    ensures
        r is Ok <==> spec_decode_book(bs@) is Some,
        r matches Ok(v) ==> Some(v) == spec_decode_book(bs@),
        bs@.len() != 20 ==> r == Err::<Book, DeError>(DeError::InvalidSize { expected: 20, actual: bs@.len() as u32 }),
{
    let l = bs.len();
    if l != 20 {
        return Err(DeError::InvalidSize { expected: 20, actual: l as u32 });
    }
    let weight = read_u32_at(bs, 0);
    let value = read_u32_at(bs, 4);
    let scroll = read_u32_at(bs, 8);
    let skill = read_i32_at(bs, 12);
    let enchantment = read_u32_at(bs, 16);
    Ok(Book {
        weight,
        value,
        scroll,
        skill,
        enchantment,
    })
}

/// Appends the 20 bytes of a `Book`.
pub fn encode_book(v: &Book, out: &mut Vec<u8>)
    ensures
        final(out)@ == old(out)@ + spec_encode_book(*v),
{
    push_u32(out, v.weight);
    push_u32(out, v.value);
    push_u32(out, v.scroll);
    push_i32(out, v.skill);
    push_u32(out, v.enchantment);
    proof {
        assert(out@ =~= old(out)@ + spec_encode_book(*v));
    }
}

/// The `Creature` a 96-byte payload holds, if its sizes and values fit.
pub open spec fn spec_decode_creature(bs: Seq<u8>) -> Option<Creature> {
    if bs.len() != 96 {
        None
    } else {
        match CreatureType::spec_from_u32(spec_u32_from_le_bytes(bs.subrange(0, 4))) {
            Option::None => None,
            Option::Some(creature_type) => Some(
                Creature {
                    creature_type,
                    level: spec_u32_from_le_bytes(bs.subrange(4, 8)),
                    strength: spec_u32_from_le_bytes(bs.subrange(8, 12)),
                    intelligence: spec_u32_from_le_bytes(bs.subrange(12, 16)),
                    willpower: spec_u32_from_le_bytes(bs.subrange(16, 20)),
                    agility: spec_u32_from_le_bytes(bs.subrange(20, 24)),
                    speed: spec_u32_from_le_bytes(bs.subrange(24, 28)),
                    endurance: spec_u32_from_le_bytes(bs.subrange(28, 32)),
                    personality: spec_u32_from_le_bytes(bs.subrange(32, 36)),
                    luck: spec_u32_from_le_bytes(bs.subrange(36, 40)),
                    health: spec_u32_from_le_bytes(bs.subrange(40, 44)),
                    magicka: spec_u32_from_le_bytes(bs.subrange(44, 48)),
                    fatigue: spec_u32_from_le_bytes(bs.subrange(48, 52)),
                    soul: spec_u32_from_le_bytes(bs.subrange(52, 56)),
                    combat: spec_u32_from_le_bytes(bs.subrange(56, 60)),
                    magic: spec_u32_from_le_bytes(bs.subrange(60, 64)),
                    stealth: spec_u32_from_le_bytes(bs.subrange(64, 68)),
                    attack_1_min: spec_u32_from_le_bytes(bs.subrange(68, 72)),
                    attack_1_max: spec_u32_from_le_bytes(bs.subrange(72, 76)),
                    attack_2_min: spec_u32_from_le_bytes(bs.subrange(76, 80)),
                    attack_2_max: spec_u32_from_le_bytes(bs.subrange(80, 84)),
                    attack_3_min: spec_u32_from_le_bytes(bs.subrange(84, 88)),
                    attack_3_max: spec_u32_from_le_bytes(bs.subrange(88, 92)),
                    gold: spec_u32_from_le_bytes(bs.subrange(92, 96)),
                },
            ),
        }
    }
}

/// The 96 bytes that write a `Creature`.
pub open spec fn spec_encode_creature(v: Creature) -> Seq<u8> {
    spec_u32_to_le_bytes(v.creature_type.spec_to_u32()) + spec_u32_to_le_bytes(v.level) + spec_u32_to_le_bytes(v.strength) + spec_u32_to_le_bytes(v.intelligence) + spec_u32_to_le_bytes(v.willpower) + spec_u32_to_le_bytes(v.agility) + spec_u32_to_le_bytes(v.speed) + spec_u32_to_le_bytes(v.endurance) + spec_u32_to_le_bytes(v.personality) + spec_u32_to_le_bytes(v.luck) + spec_u32_to_le_bytes(v.health) + spec_u32_to_le_bytes(v.magicka) + spec_u32_to_le_bytes(v.fatigue) + spec_u32_to_le_bytes(v.soul) + spec_u32_to_le_bytes(v.combat) + spec_u32_to_le_bytes(v.magic) + spec_u32_to_le_bytes(v.stealth) + spec_u32_to_le_bytes(v.attack_1_min) + spec_u32_to_le_bytes(v.attack_1_max) + spec_u32_to_le_bytes(v.attack_2_min) + spec_u32_to_le_bytes(v.attack_2_max) + spec_u32_to_le_bytes(v.attack_3_min) + spec_u32_to_le_bytes(v.attack_3_max) + spec_u32_to_le_bytes(v.gold)
}

/// A decoded `Creature` re-encodes to exactly its payload bytes.
pub proof fn lemma_creature_round_trip(bs: Seq<u8>)
    ensures
        spec_decode_creature(bs) matches Some(v) ==> spec_encode_creature(v) == bs,
{
    lemma_le_round_trips();
    match spec_decode_creature(bs) {
        Option::Some(v) => {
            lemma_creature_type_round_trip(spec_u32_from_le_bytes(bs.subrange(0, 4)));
            assert(spec_encode_creature(v) =~= bs);
        },
        Option::None => {
        },
    }
}

/// A `Creature` is always written as 96 bytes.
pub proof fn lemma_encode_creature_len(v: Creature)
    ensures
        spec_encode_creature(v).len() == 96,
{
    lemma_le_round_trips();
}

/// Decodes a `Creature` from its payload.
pub fn decode_creature(bs: &[u8]) -> (r: Result<Creature, DeError>)
    ensures
        r is Ok <==> spec_decode_creature(bs@) is Some,
        r matches Ok(v) ==> Some(v) == spec_decode_creature(bs@),
        bs@.len() != 96 ==> r == Err::<Creature, DeError>(DeError::InvalidSize { expected: 96, actual: bs@.len() as u32 }),
        (bs@.len() == 96 && CreatureType::spec_from_u32(spec_u32_from_le_bytes(bs@.subrange(0, 4))) is None) ==> r == Err::<Creature, DeError>(DeError::InvalidEnumValue(EnumKind::CreatureType, spec_u32_from_le_bytes(bs@.subrange(0, 4)) as u64)),
{
    let l = bs.len();
    if l != 96 {
        return Err(DeError::InvalidSize { expected: 96, actual: l as u32 });
    }
    let raw_creature_type = read_u32_at(bs, 0);
    let creature_type = match CreatureType::from_u32(raw_creature_type) {
        Option::Some(v) => v,
        Option::None => {
            return Err(DeError::InvalidEnumValue(EnumKind::CreatureType, raw_creature_type as u64));
        },
    };
    let level = read_u32_at(bs, 4);
    let strength = read_u32_at(bs, 8);
    let intelligence = read_u32_at(bs, 12);
    let willpower = read_u32_at(bs, 16);
    let agility = read_u32_at(bs, 20);
    let speed = read_u32_at(bs, 24);
    let endurance = read_u32_at(bs, 28);
    let personality = read_u32_at(bs, 32);
    let luck = read_u32_at(bs, 36);
    let health = read_u32_at(bs, 40);
    let magicka = read_u32_at(bs, 44);
    let fatigue = read_u32_at(bs, 48);
    let soul = read_u32_at(bs, 52);
    let combat = read_u32_at(bs, 56);
    let magic = read_u32_at(bs, 60);
    let stealth = read_u32_at(bs, 64);
    let attack_1_min = read_u32_at(bs, 68);
    let attack_1_max = read_u32_at(bs, 72);
    let attack_2_min = read_u32_at(bs, 76);
    let attack_2_max = read_u32_at(bs, 80);
    let attack_3_min = read_u32_at(bs, 84);
    let attack_3_max = read_u32_at(bs, 88);
    let gold = read_u32_at(bs, 92);
    Ok(Creature {
        creature_type,
        level,
        strength,
        intelligence,
        willpower,
        agility,
        speed,
        endurance,
        personality,
        luck,
        health,
        magicka,
        fatigue,
        soul,
        combat,
        magic,
        stealth,
        attack_1_min,
        attack_1_max,
        attack_2_min,
        attack_2_max,
        attack_3_min,
        attack_3_max,
        gold,
    })
}

/// Appends the 96 bytes of a `Creature`.
pub fn encode_creature(v: &Creature, out: &mut Vec<u8>)
    ensures
        final(out)@ == old(out)@ + spec_encode_creature(*v),
{
    push_u32(out, v.creature_type.to_u32());
    push_u32(out, v.level);
    push_u32(out, v.strength);
    push_u32(out, v.intelligence);
    push_u32(out, v.willpower);
    push_u32(out, v.agility);
    push_u32(out, v.speed);
    push_u32(out, v.endurance);
    push_u32(out, v.personality);
    push_u32(out, v.luck);
    push_u32(out, v.health);
    push_u32(out, v.magicka);
    push_u32(out, v.fatigue);
    push_u32(out, v.soul);
    push_u32(out, v.combat);
    push_u32(out, v.magic);
    push_u32(out, v.stealth);
    push_u32(out, v.attack_1_min);
    push_u32(out, v.attack_1_max);
    push_u32(out, v.attack_2_min);
    push_u32(out, v.attack_2_max);
    push_u32(out, v.attack_3_min);
    push_u32(out, v.attack_3_max);
    push_u32(out, v.gold);
    proof {
        assert(out@ =~= old(out)@ + spec_encode_creature(*v));
    }
}

/// The `Light` a 24-byte payload holds, if its sizes and values fit.
pub open spec fn spec_decode_light(bs: Seq<u8>) -> Option<Light> {
    if bs.len() != 24 {
        None
    } else {
        match LightFlags::spec_from_bits(spec_u32_from_le_bytes(bs.subrange(20, 24))) {
            Option::None => None,
            Option::Some(flags) => Some(
                Light {
                    weight: spec_u32_from_le_bytes(bs.subrange(0, 4)),
                    value: spec_u32_from_le_bytes(bs.subrange(4, 8)),
                    time: spec_i32_from_le(bs.subrange(8, 12)),
                    radius: spec_u32_from_le_bytes(bs.subrange(12, 16)),
                    color: crate::color::Color(spec_u32_from_le_bytes(bs.subrange(16, 20))),
                    flags,
                },
            ),
        }
    }
}

/// The 24 bytes that write a `Light`.
pub open spec fn spec_encode_light(v: Light) -> Seq<u8> {
    spec_u32_to_le_bytes(v.weight) + spec_u32_to_le_bytes(v.value) + spec_i32_to_le(v.time) + spec_u32_to_le_bytes(v.radius) + spec_u32_to_le_bytes(v.color.0) + spec_u32_to_le_bytes(v.flags.bits)
}

/// A decoded `Light` re-encodes to exactly its payload bytes.
pub proof fn lemma_light_round_trip(bs: Seq<u8>)
    ensures
        spec_decode_light(bs) matches Some(v) ==> spec_encode_light(v) == bs,
{
    lemma_le_round_trips();
    match spec_decode_light(bs) {
        Option::Some(v) => {
            assert(spec_encode_light(v) =~= bs);
        },
        Option::None => {
        },
    }
}

/// A `Light` is always written as 24 bytes.
pub proof fn lemma_encode_light_len(v: Light)
    ensures
        spec_encode_light(v).len() == 24,
{
    lemma_le_round_trips();
}

/// Decodes a `Light` from its payload.
pub fn decode_light(bs: &[u8]) -> (r: Result<Light, DeError>)
    ensures
        r is Ok <==> spec_decode_light(bs@) is Some,
        r matches Ok(v) ==> Some(v) == spec_decode_light(bs@),
        bs@.len() != 24 ==> r == Err::<Light, DeError>(DeError::InvalidSize { expected: 24, actual: bs@.len() as u32 }),
        (bs@.len() == 24 && LightFlags::spec_from_bits(spec_u32_from_le_bytes(bs@.subrange(20, 24))) is None) ==> r == Err::<Light, DeError>(DeError::InvalidFlagBits(FlagKind::LightFlags, spec_u32_from_le_bytes(bs@.subrange(20, 24)) as u64)),
{
    let l = bs.len();
    if l != 24 {
        return Err(DeError::InvalidSize { expected: 24, actual: l as u32 });
    }
    let weight = read_u32_at(bs, 0);
    let value = read_u32_at(bs, 4);
    let time = read_i32_at(bs, 8);
    let radius = read_u32_at(bs, 12);
    let color = crate::color::Color(read_u32_at(bs, 16));
    let raw_flags = read_u32_at(bs, 20);
    let flags = match LightFlags::from_bits(raw_flags) {
        Option::Some(v) => v,
        Option::None => {
            return Err(DeError::InvalidFlagBits(FlagKind::LightFlags, raw_flags as u64));
        },
    };
    Ok(Light {
        weight,
        value,
        time,
        radius,
        color,
        flags,
    })
}

/// Appends the 24 bytes of a `Light`.
pub fn encode_light(v: &Light, out: &mut Vec<u8>)
    ensures
        final(out)@ == old(out)@ + spec_encode_light(*v),
{
    push_u32(out, v.weight);
    push_u32(out, v.value);
    push_i32(out, v.time);
    push_u32(out, v.radius);
    push_u32(out, v.color.0);
    push_u32(out, v.flags.bits);
    proof {
        assert(out@ =~= old(out)@ + spec_encode_light(*v));
    }
}

/// The `MiscItem` a 12-byte payload holds, if its sizes and values fit.
pub open spec fn spec_decode_misc_item(bs: Seq<u8>) -> Option<MiscItem> {
    if bs.len() != 12 {
        None
    } else {
Some(
            MiscItem {
                weight: spec_u32_from_le_bytes(bs.subrange(0, 4)),
                value: spec_u32_from_le_bytes(bs.subrange(4, 8)),
                is_key: spec_u32_from_le_bytes(bs.subrange(8, 12)),
            },
        )
    }
}

/// The 12 bytes that write a `MiscItem`.
pub open spec fn spec_encode_misc_item(v: MiscItem) -> Seq<u8> {
    spec_u32_to_le_bytes(v.weight) + spec_u32_to_le_bytes(v.value) + spec_u32_to_le_bytes(v.is_key)
}

/// A decoded `MiscItem` re-encodes to exactly its payload bytes.
pub proof fn lemma_misc_item_round_trip(bs: Seq<u8>)
    ensures
        spec_decode_misc_item(bs) matches Some(v) ==> spec_encode_misc_item(v) == bs,
{
    lemma_le_round_trips();
    match spec_decode_misc_item(bs) {
        Option::Some(v) => {
            assert(spec_encode_misc_item(v) =~= bs);
        },
        Option::None => {
        },
    }
}

/// A `MiscItem` is always written as 12 bytes.
pub proof fn lemma_encode_misc_item_len(v: MiscItem)
    ensures
        spec_encode_misc_item(v).len() == 12,
{
    lemma_le_round_trips();
}

/// Decodes a `MiscItem` from its payload.
pub fn decode_misc_item(bs: &[u8]) -> (r: Result<MiscItem, DeError>)
    ensures
        r is Ok <==> spec_decode_misc_item(bs@) is Some,
        r matches Ok(v) ==> Some(v) == spec_decode_misc_item(bs@),
        bs@.len() != 12 ==> r == Err::<MiscItem, DeError>(DeError::InvalidSize { expected: 12, actual: bs@.len() as u32 }),
{
    let l = bs.len();
    if l != 12 {
        return Err(DeError::InvalidSize { expected: 12, actual: l as u32 });
    }
    let weight = read_u32_at(bs, 0);
    let value = read_u32_at(bs, 4);
    let is_key = read_u32_at(bs, 8);
    Ok(MiscItem {
        weight,
        value,
        is_key,
    })
}

/// Appends the 12 bytes of a `MiscItem`.
pub fn encode_misc_item(v: &MiscItem, out: &mut Vec<u8>)
    ensures
        final(out)@ == old(out)@ + spec_encode_misc_item(*v),
{
    push_u32(out, v.weight);
    push_u32(out, v.value);
    push_u32(out, v.is_key);
    proof {
        assert(out@ =~= old(out)@ + spec_encode_misc_item(*v));
    }
}

/// The `Apparatus` a 16-byte payload holds, if its sizes and values fit.
pub open spec fn spec_decode_apparatus(bs: Seq<u8>) -> Option<Apparatus> {
    if bs.len() != 16 {
        None
    } else {
        match ApparatusType::spec_from_u32(spec_u32_from_le_bytes(bs.subrange(0, 4))) {
            Option::None => None,
            Option::Some(apparatus_type) => Some(
                Apparatus {
                    apparatus_type,
                    quality: spec_u32_from_le_bytes(bs.subrange(4, 8)),
                    weight: spec_u32_from_le_bytes(bs.subrange(8, 12)),
                    value: spec_u32_from_le_bytes(bs.subrange(12, 16)),
                },
            ),
        }
    }
}

/// The 16 bytes that write a `Apparatus`.
pub open spec fn spec_encode_apparatus(v: Apparatus) -> Seq<u8> {
    spec_u32_to_le_bytes(v.apparatus_type.spec_to_u32()) + spec_u32_to_le_bytes(v.quality) + spec_u32_to_le_bytes(v.weight) + spec_u32_to_le_bytes(v.value)
}

/// A decoded `Apparatus` re-encodes to exactly its payload bytes.
pub proof fn lemma_apparatus_round_trip(bs: Seq<u8>)
    ensures
        spec_decode_apparatus(bs) matches Some(v) ==> spec_encode_apparatus(v) == bs,
{
    lemma_le_round_trips();
    match spec_decode_apparatus(bs) {
        Option::Some(v) => {
            lemma_apparatus_type_round_trip(spec_u32_from_le_bytes(bs.subrange(0, 4)));
            assert(spec_encode_apparatus(v) =~= bs);
        },
        Option::None => {
        },
    }
}

/// A `Apparatus` is always written as 16 bytes.
pub proof fn lemma_encode_apparatus_len(v: Apparatus)
    ensures
        spec_encode_apparatus(v).len() == 16,
{
    lemma_le_round_trips();
}

/// Decodes a `Apparatus` from its payload.
pub fn decode_apparatus(bs: &[u8]) -> (r: Result<Apparatus, DeError>)
    ensures
        r is Ok <==> spec_decode_apparatus(bs@) is Some,
        r matches Ok(v) ==> Some(v) == spec_decode_apparatus(bs@),
        bs@.len() != 16 ==> r == Err::<Apparatus, DeError>(DeError::InvalidSize { expected: 16, actual: bs@.len() as u32 }),
        (bs@.len() == 16 && ApparatusType::spec_from_u32(spec_u32_from_le_bytes(bs@.subrange(0, 4))) is None) ==> r == Err::<Apparatus, DeError>(DeError::InvalidEnumValue(EnumKind::ApparatusType, spec_u32_from_le_bytes(bs@.subrange(0, 4)) as u64)),
{
    let l = bs.len();
    if l != 16 {
        return Err(DeError::InvalidSize { expected: 16, actual: l as u32 });
    }
    let raw_apparatus_type = read_u32_at(bs, 0);
    let apparatus_type = match ApparatusType::from_u32(raw_apparatus_type) {
        Option::Some(v) => v,
        Option::None => {
            return Err(DeError::InvalidEnumValue(EnumKind::ApparatusType, raw_apparatus_type as u64));
        },
    };
    let quality = read_u32_at(bs, 4);
    let weight = read_u32_at(bs, 8);
    let value = read_u32_at(bs, 12);
    Ok(Apparatus {
        apparatus_type,
        quality,
        weight,
        value,
    })
}

/// Appends the 16 bytes of a `Apparatus`.
pub fn encode_apparatus(v: &Apparatus, out: &mut Vec<u8>)
    ensures
        final(out)@ == old(out)@ + spec_encode_apparatus(*v),
{
    push_u32(out, v.apparatus_type.to_u32());
    push_u32(out, v.quality);
    push_u32(out, v.weight);
    push_u32(out, v.value);
    proof {
        assert(out@ =~= old(out)@ + spec_encode_apparatus(*v));
    }
}

/// The `Armor` a 24-byte payload holds, if its sizes and values fit.
pub open spec fn spec_decode_armor(bs: Seq<u8>) -> Option<Armor> {
    if bs.len() != 24 {
        None
    } else {
        match ArmorType::spec_from_u32(spec_u32_from_le_bytes(bs.subrange(0, 4))) {
            Option::None => None,
            Option::Some(armor_type) => Some(
                Armor {
                    armor_type,
                    weight: spec_u32_from_le_bytes(bs.subrange(4, 8)),
                    value: spec_u32_from_le_bytes(bs.subrange(8, 12)),
                    health: spec_u32_from_le_bytes(bs.subrange(12, 16)),
                    enchantment: spec_u32_from_le_bytes(bs.subrange(16, 20)),
                    armor: spec_u32_from_le_bytes(bs.subrange(20, 24)),
                },
            ),
        }
    }
}

/// The 24 bytes that write a `Armor`.
pub open spec fn spec_encode_armor(v: Armor) -> Seq<u8> {
    spec_u32_to_le_bytes(v.armor_type.spec_to_u32()) + spec_u32_to_le_bytes(v.weight) + spec_u32_to_le_bytes(v.value) + spec_u32_to_le_bytes(v.health) + spec_u32_to_le_bytes(v.enchantment) + spec_u32_to_le_bytes(v.armor)
}

/// A decoded `Armor` re-encodes to exactly its payload bytes.
pub proof fn lemma_armor_round_trip(bs: Seq<u8>)
    ensures
        spec_decode_armor(bs) matches Some(v) ==> spec_encode_armor(v) == bs,
{
    lemma_le_round_trips();
    match spec_decode_armor(bs) {
        Option::Some(v) => {
            lemma_armor_type_round_trip(spec_u32_from_le_bytes(bs.subrange(0, 4)));
            assert(spec_encode_armor(v) =~= bs);
        },
        Option::None => {
        },
    }
}

/// A `Armor` is always written as 24 bytes.
pub proof fn lemma_encode_armor_len(v: Armor)
    ensures
        spec_encode_armor(v).len() == 24,
{
    lemma_le_round_trips();
}

/// Decodes a `Armor` from its payload.
pub fn decode_armor(bs: &[u8]) -> (r: Result<Armor, DeError>)
    ensures
        r is Ok <==> spec_decode_armor(bs@) is Some,
        r matches Ok(v) ==> Some(v) == spec_decode_armor(bs@),
        bs@.len() != 24 ==> r == Err::<Armor, DeError>(DeError::InvalidSize { expected: 24, actual: bs@.len() as u32 }),
        (bs@.len() == 24 && ArmorType::spec_from_u32(spec_u32_from_le_bytes(bs@.subrange(0, 4))) is None) ==> r == Err::<Armor, DeError>(DeError::InvalidEnumValue(EnumKind::ArmorType, spec_u32_from_le_bytes(bs@.subrange(0, 4)) as u64)),
{
    let l = bs.len();
    if l != 24 {
        return Err(DeError::InvalidSize { expected: 24, actual: l as u32 });
    }
    let raw_armor_type = read_u32_at(bs, 0);
    let armor_type = match ArmorType::from_u32(raw_armor_type) {
        Option::Some(v) => v,
        Option::None => {
            return Err(DeError::InvalidEnumValue(EnumKind::ArmorType, raw_armor_type as u64));
        },
    };
    let weight = read_u32_at(bs, 4);
    let value = read_u32_at(bs, 8);
    let health = read_u32_at(bs, 12);
    let enchantment = read_u32_at(bs, 16);
    let armor = read_u32_at(bs, 20);
    Ok(Armor {
        armor_type,
        weight,
        value,
        health,
        enchantment,
        armor,
    })
}

/// Appends the 24 bytes of a `Armor`.
pub fn encode_armor(v: &Armor, out: &mut Vec<u8>)
    ensures
        final(out)@ == old(out)@ + spec_encode_armor(*v),
{
    push_u32(out, v.armor_type.to_u32());
    push_u32(out, v.weight);
    push_u32(out, v.value);
    push_u32(out, v.health);
    push_u32(out, v.enchantment);
    push_u32(out, v.armor);
    proof {
        assert(out@ =~= old(out)@ + spec_encode_armor(*v));
    }
}

/// The `Weapon` a 32-byte payload holds, if its sizes and values fit.
pub open spec fn spec_decode_weapon(bs: Seq<u8>) -> Option<Weapon> {
    if bs.len() != 32 {
        None
    } else {
        match WeaponType::spec_from_u16(spec_u16_from_le_bytes(bs.subrange(8, 10))) {
            Option::None => None,
            Option::Some(weapon_type) =>             match WeaponFlags::spec_from_bits(spec_u32_from_le_bytes(bs.subrange(28, 32))) {
                Option::None => None,
                Option::Some(flags) => Some(
                    Weapon {
                        weight: spec_u32_from_le_bytes(bs.subrange(0, 4)),
                        value: spec_u32_from_le_bytes(bs.subrange(4, 8)),
                        weapon_type,
                        health: spec_u16_from_le_bytes(bs.subrange(10, 12)),
                        speed: spec_u32_from_le_bytes(bs.subrange(12, 16)),
                        reach: spec_u32_from_le_bytes(bs.subrange(16, 20)),
                        enchantment: spec_u16_from_le_bytes(bs.subrange(20, 22)),
                        chop_min: bs[22],
                        chop_max: bs[23],
                        slash_min: bs[24],
                        slash_max: bs[25],
                        thrust_min: bs[26],
                        thrust_max: bs[27],
                        flags,
                    },
                ),
            },
        }
    }
}

/// The 32 bytes that write a `Weapon`.
pub open spec fn spec_encode_weapon(v: Weapon) -> Seq<u8> {
    spec_u32_to_le_bytes(v.weight) + spec_u32_to_le_bytes(v.value) + spec_u16_to_le_bytes(v.weapon_type.spec_to_u16()) + spec_u16_to_le_bytes(v.health) + spec_u32_to_le_bytes(v.speed) + spec_u32_to_le_bytes(v.reach) + spec_u16_to_le_bytes(v.enchantment) + seq![v.chop_min] + seq![v.chop_max] + seq![v.slash_min] + seq![v.slash_max] + seq![v.thrust_min] + seq![v.thrust_max] + spec_u32_to_le_bytes(v.flags.bits)
}

/// A decoded `Weapon` re-encodes to exactly its payload bytes.
pub proof fn lemma_weapon_round_trip(bs: Seq<u8>)
    ensures
        spec_decode_weapon(bs) matches Some(v) ==> spec_encode_weapon(v) == bs,
{
    lemma_le_round_trips();
    match spec_decode_weapon(bs) {
        Option::Some(v) => {
            lemma_weapon_type_round_trip(spec_u16_from_le_bytes(bs.subrange(8, 10)));
            assert(spec_encode_weapon(v) =~= bs);
        },
        Option::None => {
        },
    }
}

/// A `Weapon` is always written as 32 bytes.
pub proof fn lemma_encode_weapon_len(v: Weapon)
    ensures
        spec_encode_weapon(v).len() == 32,
{
    lemma_le_round_trips();
}

/// Decodes a `Weapon` from its payload.
pub fn decode_weapon(bs: &[u8]) -> (r: Result<Weapon, DeError>)
    ensures
        r is Ok <==> spec_decode_weapon(bs@) is Some,
        r matches Ok(v) ==> Some(v) == spec_decode_weapon(bs@),
        bs@.len() != 32 ==> r == Err::<Weapon, DeError>(DeError::InvalidSize { expected: 32, actual: bs@.len() as u32 }),
        (bs@.len() == 32 && WeaponType::spec_from_u16(spec_u16_from_le_bytes(bs@.subrange(8, 10))) is None) ==> r == Err::<Weapon, DeError>(DeError::InvalidEnumValue(EnumKind::WeaponType, spec_u16_from_le_bytes(bs@.subrange(8, 10)) as u64)),
        (bs@.len() == 32 && WeaponType::spec_from_u16(spec_u16_from_le_bytes(bs@.subrange(8, 10))) is Some && WeaponFlags::spec_from_bits(spec_u32_from_le_bytes(bs@.subrange(28, 32))) is None) ==> r == Err::<Weapon, DeError>(DeError::InvalidFlagBits(FlagKind::WeaponFlags, spec_u32_from_le_bytes(bs@.subrange(28, 32)) as u64)),
{
    let l = bs.len();
    if l != 32 {
        return Err(DeError::InvalidSize { expected: 32, actual: l as u32 });
    }
    let weight = read_u32_at(bs, 0);
    let value = read_u32_at(bs, 4);
    let raw_weapon_type = read_u16_at(bs, 8);
    let weapon_type = match WeaponType::from_u16(raw_weapon_type) {
        Option::Some(v) => v,
        Option::None => {
            return Err(DeError::InvalidEnumValue(EnumKind::WeaponType, raw_weapon_type as u64));
        },
    };
    let health = read_u16_at(bs, 10);
    let speed = read_u32_at(bs, 12);
    let reach = read_u32_at(bs, 16);
    let enchantment = read_u16_at(bs, 20);
    let chop_min = read_u8_at(bs, 22);
    let chop_max = read_u8_at(bs, 23);
    let slash_min = read_u8_at(bs, 24);
    let slash_max = read_u8_at(bs, 25);
    let thrust_min = read_u8_at(bs, 26);
    let thrust_max = read_u8_at(bs, 27);
    let raw_flags = read_u32_at(bs, 28);
    let flags = match WeaponFlags::from_bits(raw_flags) {
        Option::Some(v) => v,
        Option::None => {
            return Err(DeError::InvalidFlagBits(FlagKind::WeaponFlags, raw_flags as u64));
        },
    };
    Ok(Weapon {
        weight,
        value,
        weapon_type,
        health,
        speed,
        reach,
        enchantment,
        chop_min,
        chop_max,
        slash_min,
        slash_max,
        thrust_min,
        thrust_max,
        flags,
    })
}

/// Appends the 32 bytes of a `Weapon`.
pub fn encode_weapon(v: &Weapon, out: &mut Vec<u8>)
    ensures
        final(out)@ == old(out)@ + spec_encode_weapon(*v),
{
    push_u32(out, v.weight);
    push_u32(out, v.value);
    push_u16(out, v.weapon_type.to_u16());
    push_u16(out, v.health);
    push_u32(out, v.speed);
    push_u32(out, v.reach);
    push_u16(out, v.enchantment);
    push_u8(out, v.chop_min);
    push_u8(out, v.chop_max);
    push_u8(out, v.slash_min);
    push_u8(out, v.slash_max);
    push_u8(out, v.thrust_min);
    push_u8(out, v.thrust_max);
    push_u32(out, v.flags.bits);
    proof {
        assert(out@ =~= old(out)@ + spec_encode_weapon(*v));
    }
}

/// The `BodyPart` a 4-byte payload holds, if its sizes and values fit.
pub open spec fn spec_decode_body_part(bs: Seq<u8>) -> Option<BodyPart> {
    if bs.len() != 4 {
        None
    } else {
        match MeshType::spec_from_u8(bs[0]) {
            Option::None => None,
            Option::Some(mesh_type) =>             match BodyPartFlags::spec_from_bits(bs[2]) {
                Option::None => None,
                Option::Some(flags) =>                 match BodyPartType::spec_from_u8(bs[3]) {
                    Option::None => None,
                    Option::Some(body_part_type) => Some(
                        BodyPart {
                            mesh_type,
                            vampire: bs[1],
                            flags,
                            body_part_type,
                        },
                    ),
                },
            },
        }
    }
}

/// The 4 bytes that write a `BodyPart`.
pub open spec fn spec_encode_body_part(v: BodyPart) -> Seq<u8> {
    seq![v.mesh_type.spec_to_u8()] + seq![v.vampire] + seq![v.flags.bits] + seq![v.body_part_type.spec_to_u8()]
}

/// A decoded `BodyPart` re-encodes to exactly its payload bytes.
pub proof fn lemma_body_part_round_trip(bs: Seq<u8>)
    ensures
        spec_decode_body_part(bs) matches Some(v) ==> spec_encode_body_part(v) == bs,
{
    lemma_le_round_trips();
    match spec_decode_body_part(bs) {
        Option::Some(v) => {
            lemma_mesh_type_round_trip(bs[0]);
            lemma_body_part_type_round_trip(bs[3]);
            assert(spec_encode_body_part(v) =~= bs);
        },
        Option::None => {
        },
    }
}

/// A `BodyPart` is always written as 4 bytes.
pub proof fn lemma_encode_body_part_len(v: BodyPart)
    ensures
        spec_encode_body_part(v).len() == 4,
{
    lemma_le_round_trips();
}

/// Decodes a `BodyPart` from its payload.
pub fn decode_body_part(bs: &[u8]) -> (r: Result<BodyPart, DeError>)
    ensures
        r is Ok <==> spec_decode_body_part(bs@) is Some,
        r matches Ok(v) ==> Some(v) == spec_decode_body_part(bs@),
        bs@.len() != 4 ==> r == Err::<BodyPart, DeError>(DeError::InvalidSize { expected: 4, actual: bs@.len() as u32 }),
        (bs@.len() == 4 && MeshType::spec_from_u8(bs@[0]) is None) ==> r == Err::<BodyPart, DeError>(DeError::InvalidEnumValue(EnumKind::MeshType, bs@[0] as u64)),
        (bs@.len() == 4 && MeshType::spec_from_u8(bs@[0]) is Some && BodyPartFlags::spec_from_bits(bs@[2]) is None) ==> r == Err::<BodyPart, DeError>(DeError::InvalidFlagBits(FlagKind::BodyPartFlags, bs@[2] as u64)),
        (bs@.len() == 4 && MeshType::spec_from_u8(bs@[0]) is Some && BodyPartFlags::spec_from_bits(bs@[2]) is Some && BodyPartType::spec_from_u8(bs@[3]) is None) ==> r == Err::<BodyPart, DeError>(DeError::InvalidEnumValue(EnumKind::BodyPartType, bs@[3] as u64)),
{
    let l = bs.len();
    if l != 4 {
        return Err(DeError::InvalidSize { expected: 4, actual: l as u32 });
    }
    let raw_mesh_type = read_u8_at(bs, 0);
    let mesh_type = match MeshType::from_u8(raw_mesh_type) {
        Option::Some(v) => v,
        Option::None => {
            return Err(DeError::InvalidEnumValue(EnumKind::MeshType, raw_mesh_type as u64));
        },
    };
    let vampire = read_u8_at(bs, 1);
    let raw_flags = read_u8_at(bs, 2);
    let flags = match BodyPartFlags::from_bits(raw_flags) {
        Option::Some(v) => v,
        Option::None => {
            return Err(DeError::InvalidFlagBits(FlagKind::BodyPartFlags, raw_flags as u64));
        },
    };
    let raw_body_part_type = read_u8_at(bs, 3);
    let body_part_type = match BodyPartType::from_u8(raw_body_part_type) {
        Option::Some(v) => v,
        Option::None => {
            return Err(DeError::InvalidEnumValue(EnumKind::BodyPartType, raw_body_part_type as u64));
        },
    };
    Ok(BodyPart {
        mesh_type,
        vampire,
        flags,
        body_part_type,
    })
}

/// Appends the 4 bytes of a `BodyPart`.
pub fn encode_body_part(v: &BodyPart, out: &mut Vec<u8>)
    ensures
        final(out)@ == old(out)@ + spec_encode_body_part(*v),
{
    push_u8(out, v.mesh_type.to_u8());
    push_u8(out, v.vampire);
    push_u8(out, v.flags.bits);
    push_u8(out, v.body_part_type.to_u8());
    proof {
        assert(out@ =~= old(out)@ + spec_encode_body_part(*v));
    }
}

/// The `Clothing` a 12-byte payload holds, if its sizes and values fit.
pub open spec fn spec_decode_clothing(bs: Seq<u8>) -> Option<Clothing> {
    if bs.len() != 12 {
        None
    } else {
        match ClothingType::spec_from_u32(spec_u32_from_le_bytes(bs.subrange(0, 4))) {
            Option::None => None,
            Option::Some(clothing_type) => Some(
                Clothing {
                    clothing_type,
                    weight: spec_u32_from_le_bytes(bs.subrange(4, 8)),
                    value: spec_u16_from_le_bytes(bs.subrange(8, 10)),
                    enchantment: spec_u16_from_le_bytes(bs.subrange(10, 12)),
                },
            ),
        }
    }
}

/// The 12 bytes that write a `Clothing`.
pub open spec fn spec_encode_clothing(v: Clothing) -> Seq<u8> {
    spec_u32_to_le_bytes(v.clothing_type.spec_to_u32()) + spec_u32_to_le_bytes(v.weight) + spec_u16_to_le_bytes(v.value) + spec_u16_to_le_bytes(v.enchantment)
}

/// A decoded `Clothing` re-encodes to exactly its payload bytes.
pub proof fn lemma_clothing_round_trip(bs: Seq<u8>)
    ensures
        spec_decode_clothing(bs) matches Some(v) ==> spec_encode_clothing(v) == bs,
{
    lemma_le_round_trips();
    match spec_decode_clothing(bs) {
        Option::Some(v) => {
            lemma_clothing_type_round_trip(spec_u32_from_le_bytes(bs.subrange(0, 4)));
            assert(spec_encode_clothing(v) =~= bs);
        },
        Option::None => {
        },
    }
}

/// A `Clothing` is always written as 12 bytes.
pub proof fn lemma_encode_clothing_len(v: Clothing)
    ensures
        spec_encode_clothing(v).len() == 12,
{
    lemma_le_round_trips();
}

/// Decodes a `Clothing` from its payload.
pub fn decode_clothing(bs: &[u8]) -> (r: Result<Clothing, DeError>)
    ensures
        r is Ok <==> spec_decode_clothing(bs@) is Some,
        r matches Ok(v) ==> Some(v) == spec_decode_clothing(bs@),
        bs@.len() != 12 ==> r == Err::<Clothing, DeError>(DeError::InvalidSize { expected: 12, actual: bs@.len() as u32 }),
        (bs@.len() == 12 && ClothingType::spec_from_u32(spec_u32_from_le_bytes(bs@.subrange(0, 4))) is None) ==> r == Err::<Clothing, DeError>(DeError::InvalidEnumValue(EnumKind::ClothingType, spec_u32_from_le_bytes(bs@.subrange(0, 4)) as u64)),
{
    let l = bs.len();
    if l != 12 {
        return Err(DeError::InvalidSize { expected: 12, actual: l as u32 });
    }
    let raw_clothing_type = read_u32_at(bs, 0);
    let clothing_type = match ClothingType::from_u32(raw_clothing_type) {
        Option::Some(v) => v,
        Option::None => {
            return Err(DeError::InvalidEnumValue(EnumKind::ClothingType, raw_clothing_type as u64));
        },
    };
    let weight = read_u32_at(bs, 4);
    let value = read_u16_at(bs, 8);
    let enchantment = read_u16_at(bs, 10);
    Ok(Clothing {
        clothing_type,
        weight,
        value,
        enchantment,
    })
}

/// Appends the 12 bytes of a `Clothing`.
pub fn encode_clothing(v: &Clothing, out: &mut Vec<u8>)
    ensures
        final(out)@ == old(out)@ + spec_encode_clothing(*v),
{
    push_u32(out, v.clothing_type.to_u32());
    push_u32(out, v.weight);
    push_u16(out, v.value);
    push_u16(out, v.enchantment);
    proof {
        assert(out@ =~= old(out)@ + spec_encode_clothing(*v));
    }
}

/// The `FlagsAndBloodTexture<NpcFlags>` a 4-byte payload holds, if its sizes and values fit.
pub open spec fn spec_decode_npc_flags(bs: Seq<u8>) -> Option<FlagsAndBloodTexture<NpcFlags>> {
    if bs.len() != 4 {
        None
    } else {
        match NpcFlags::spec_from_bits(bs[0]) {
            Option::None => None,
            Option::Some(flags) =>             match BloodTexture::spec_from_u8(bs[1]) {
                Option::None => None,
                Option::Some(blood_texture) => Some(
                    FlagsAndBloodTexture {
                        flags,
                        blood_texture,
                        padding: spec_u16_from_le_bytes(bs.subrange(2, 4)),
                    },
                ),
            },
        }
    }
}

/// The 4 bytes that write a `FlagsAndBloodTexture<NpcFlags>`.
pub open spec fn spec_encode_npc_flags(v: FlagsAndBloodTexture<NpcFlags>) -> Seq<u8> {
    seq![v.flags.bits] + seq![v.blood_texture.spec_to_u8()] + spec_u16_to_le_bytes(v.padding)
}

/// A decoded `FlagsAndBloodTexture<NpcFlags>` re-encodes to exactly its payload bytes.
pub proof fn lemma_npc_flags_round_trip(bs: Seq<u8>)
    ensures
        spec_decode_npc_flags(bs) matches Some(v) ==> spec_encode_npc_flags(v) == bs,
{
    lemma_le_round_trips();
    match spec_decode_npc_flags(bs) {
        Option::Some(v) => {
            lemma_blood_texture_round_trip(bs[1]);
            assert(spec_encode_npc_flags(v) =~= bs);
        },
        Option::None => {
        },
    }
}

/// A `FlagsAndBloodTexture<NpcFlags>` is always written as 4 bytes.
pub proof fn lemma_encode_npc_flags_len(v: FlagsAndBloodTexture<NpcFlags>)
    ensures
        spec_encode_npc_flags(v).len() == 4,
{
    lemma_le_round_trips();
}

/// Decodes a `FlagsAndBloodTexture<NpcFlags>` from its payload.
pub fn decode_npc_flags(bs: &[u8]) -> (r: Result<FlagsAndBloodTexture<NpcFlags>, DeError>)
    ensures
        r is Ok <==> spec_decode_npc_flags(bs@) is Some,
        r matches Ok(v) ==> Some(v) == spec_decode_npc_flags(bs@),
        bs@.len() != 4 ==> r == Err::<FlagsAndBloodTexture<NpcFlags>, DeError>(DeError::InvalidSize { expected: 4, actual: bs@.len() as u32 }),
        (bs@.len() == 4 && NpcFlags::spec_from_bits(bs@[0]) is None) ==> r == Err::<FlagsAndBloodTexture<NpcFlags>, DeError>(DeError::InvalidFlagBits(FlagKind::NpcFlags, bs@[0] as u64)),
        (bs@.len() == 4 && NpcFlags::spec_from_bits(bs@[0]) is Some && BloodTexture::spec_from_u8(bs@[1]) is None) ==> r == Err::<FlagsAndBloodTexture<NpcFlags>, DeError>(DeError::InvalidEnumValue(EnumKind::BloodTexture, bs@[1] as u64)),
{
    let l = bs.len();
    if l != 4 {
        return Err(DeError::InvalidSize { expected: 4, actual: l as u32 });
    }
    let raw_flags = read_u8_at(bs, 0);
    let flags = match NpcFlags::from_bits(raw_flags) {
        Option::Some(v) => v,
        Option::None => {
            return Err(DeError::InvalidFlagBits(FlagKind::NpcFlags, raw_flags as u64));
        },
    };
    let raw_blood_texture = read_u8_at(bs, 1);
    let blood_texture = match BloodTexture::from_u8(raw_blood_texture) {
        Option::Some(v) => v,
        Option::None => {
            return Err(DeError::InvalidEnumValue(EnumKind::BloodTexture, raw_blood_texture as u64));
        },
    };
    let padding = read_u16_at(bs, 2);
    Ok(FlagsAndBloodTexture {
        flags,
        blood_texture,
        padding,
    })
}

/// Appends the 4 bytes of a `FlagsAndBloodTexture<NpcFlags>`.
pub fn encode_npc_flags(v: &FlagsAndBloodTexture<NpcFlags>, out: &mut Vec<u8>)
    ensures
        final(out)@ == old(out)@ + spec_encode_npc_flags(*v),
{
    push_u8(out, v.flags.bits);
    push_u8(out, v.blood_texture.to_u8());
    push_u16(out, v.padding);
    proof {
        assert(out@ =~= old(out)@ + spec_encode_npc_flags(*v));
    }
}

/// The `FlagsAndBloodTexture<CreatureFlags>` a 4-byte payload holds, if its sizes and values fit.
pub open spec fn spec_decode_creature_flags(bs: Seq<u8>) -> Option<FlagsAndBloodTexture<CreatureFlags>> {
    if bs.len() != 4 {
        None
    } else {
        match CreatureFlags::spec_from_bits(bs[0]) {
            Option::None => None,
            Option::Some(flags) =>             match BloodTexture::spec_from_u8(bs[1]) {
                Option::None => None,
                Option::Some(blood_texture) => Some(
                    FlagsAndBloodTexture {
                        flags,
                        blood_texture,
                        padding: spec_u16_from_le_bytes(bs.subrange(2, 4)),
                    },
                ),
            },
        }
    }
}

/// The 4 bytes that write a `FlagsAndBloodTexture<CreatureFlags>`.
pub open spec fn spec_encode_creature_flags(v: FlagsAndBloodTexture<CreatureFlags>) -> Seq<u8> {
    seq![v.flags.bits] + seq![v.blood_texture.spec_to_u8()] + spec_u16_to_le_bytes(v.padding)
}

/// A decoded `FlagsAndBloodTexture<CreatureFlags>` re-encodes to exactly its payload bytes.
pub proof fn lemma_creature_flags_round_trip(bs: Seq<u8>)
    ensures
        spec_decode_creature_flags(bs) matches Some(v) ==> spec_encode_creature_flags(v) == bs,
{
    lemma_le_round_trips();
    match spec_decode_creature_flags(bs) {
        Option::Some(v) => {
            lemma_blood_texture_round_trip(bs[1]);
            assert(spec_encode_creature_flags(v) =~= bs);
        },
        Option::None => {
        },
    }
}

/// A `FlagsAndBloodTexture<CreatureFlags>` is always written as 4 bytes.
pub proof fn lemma_encode_creature_flags_len(v: FlagsAndBloodTexture<CreatureFlags>)
    ensures
        spec_encode_creature_flags(v).len() == 4,
{
    lemma_le_round_trips();
}

/// Decodes a `FlagsAndBloodTexture<CreatureFlags>` from its payload.
pub fn decode_creature_flags(bs: &[u8]) -> (r: Result<FlagsAndBloodTexture<CreatureFlags>, DeError>)
    ensures
        r is Ok <==> spec_decode_creature_flags(bs@) is Some,
        r matches Ok(v) ==> Some(v) == spec_decode_creature_flags(bs@),
        bs@.len() != 4 ==> r == Err::<FlagsAndBloodTexture<CreatureFlags>, DeError>(DeError::InvalidSize { expected: 4, actual: bs@.len() as u32 }),
        (bs@.len() == 4 && CreatureFlags::spec_from_bits(bs@[0]) is None) ==> r == Err::<FlagsAndBloodTexture<CreatureFlags>, DeError>(DeError::InvalidFlagBits(FlagKind::CreatureFlags, bs@[0] as u64)),
        (bs@.len() == 4 && CreatureFlags::spec_from_bits(bs@[0]) is Some && BloodTexture::spec_from_u8(bs@[1]) is None) ==> r == Err::<FlagsAndBloodTexture<CreatureFlags>, DeError>(DeError::InvalidEnumValue(EnumKind::BloodTexture, bs@[1] as u64)),
{
    let l = bs.len();
    if l != 4 {
        return Err(DeError::InvalidSize { expected: 4, actual: l as u32 });
    }
    let raw_flags = read_u8_at(bs, 0);
    let flags = match CreatureFlags::from_bits(raw_flags) {
        Option::Some(v) => v,
        Option::None => {
            return Err(DeError::InvalidFlagBits(FlagKind::CreatureFlags, raw_flags as u64));
        },
    };
    let raw_blood_texture = read_u8_at(bs, 1);
    let blood_texture = match BloodTexture::from_u8(raw_blood_texture) {
        Option::Some(v) => v,
        Option::None => {
            return Err(DeError::InvalidEnumValue(EnumKind::BloodTexture, raw_blood_texture as u64));
        },
    };
    let padding = read_u16_at(bs, 2);
    Ok(FlagsAndBloodTexture {
        flags,
        blood_texture,
        padding,
    })
}

/// Appends the 4 bytes of a `FlagsAndBloodTexture<CreatureFlags>`.
pub fn encode_creature_flags(v: &FlagsAndBloodTexture<CreatureFlags>, out: &mut Vec<u8>)
    ensures
        final(out)@ == old(out)@ + spec_encode_creature_flags(*v),
{
    push_u8(out, v.flags.bits);
    push_u8(out, v.blood_texture.to_u8());
    push_u16(out, v.padding);
    proof {
        assert(out@ =~= old(out)@ + spec_encode_creature_flags(*v));
    }
}

} // verus!
