use esl::CodePage;
use esl::Field;
use esl::Tag;
use esl::decode_field;
use esl::encode_field;

fn tag(dword: u32) -> Tag {
    Tag { dword }
}

fn round_trip(record: u32, field_tag: u32, payload: &[u8]) -> Field {
    let field = decode_field(tag(record), tag(field_tag), payload, CodePage::Western).unwrap();
    let out = encode_field(tag(record), tag(field_tag), &field, CodePage::Western).unwrap();
    assert_eq!(payload.to_vec(), out);
    field
}

#[test]
fn saved_npc_round_trip() {
    let mut payload = Vec::new();
    payload.extend_from_slice(&(-1i16).to_le_bytes());
    payload.extend_from_slice(&2i16.to_le_bytes());
    payload.extend_from_slice(&3u32.to_le_bytes());
    match round_trip(esl::tag::NPCC, esl::tag::NPDT, &payload) {
        Field::SavedNpc(v) => {
            assert_eq!(-1, v.disposition);
            assert_eq!(2, v.reputation);
            assert_eq!(3, v.index);
        },
        other => panic!("expected a saved NPC, got {:?}", other),
    }
}

#[test]
fn spell_metadata_round_trip() {
    let mut payload = Vec::new();
    payload.extend_from_slice(&5u32.to_le_bytes());
    payload.extend_from_slice(&100u32.to_le_bytes());
    payload.extend_from_slice(&6u32.to_le_bytes());
    match round_trip(esl::tag::SPEL, esl::tag::SPDT, &payload) {
        Field::SpellMetadata(v) => {
            assert_eq!(esl::SpellType::Power, v.spell_type);
            assert_eq!(100, v.cost);
            assert_eq!(6, v.flags.bits);
        },
        other => panic!("expected spell metadata, got {:?}", other),
    }
}

#[test]
fn ai_round_trip() {
    let mut payload = Vec::new();
    payload.extend_from_slice(&30u16.to_le_bytes());
    payload.extend_from_slice(&[10, 20, 40, 7]);
    payload.extend_from_slice(&0xBEEFu16.to_le_bytes());
    payload.extend_from_slice(&0x00002801u32.to_le_bytes());
    match round_trip(esl::tag::NPC_, esl::tag::AIDT, &payload) {
        Field::Ai(v) => {
            assert_eq!(30, v.hello);
            assert_eq!(10, v.fight);
            assert_eq!(7, v.padding_8);
            assert_eq!(0xBEEF, v.padding_16);
            assert_eq!(0x00002801, v.services.bits);
        },
        other => panic!("expected an AI package, got {:?}", other),
    }
}

#[test]
fn ai_wander_round_trip() {
    let mut payload = Vec::new();
    payload.extend_from_slice(&128u16.to_le_bytes());
    payload.extend_from_slice(&5u16.to_le_bytes());
    payload.push(2);
    payload.extend_from_slice(&[60, 20, 10, 0, 0, 0, 0, 0]);
    payload.push(1);
    match round_trip(esl::tag::NPC_, esl::tag::AI_W, &payload) {
        Field::AiWander(v) => {
            assert_eq!(128, v.distance);
            assert_eq!([60, 20, 10, 0, 0, 0, 0, 0], v.idle);
            assert_eq!(1, v.repeat);
        },
        other => panic!("expected a wander package, got {:?}", other),
    }
}

#[test]
fn ai_travel_keeps_ignored_flag_bit() {
    let mut payload = Vec::new();
    payload.extend_from_slice(&0x3F800000u32.to_le_bytes());
    payload.extend_from_slice(&0x40000000u32.to_le_bytes());
    payload.extend_from_slice(&0x40400000u32.to_le_bytes());
    payload.extend_from_slice(&0x00000101u32.to_le_bytes());
    match round_trip(esl::tag::NPC_, esl::tag::AI_T, &payload) {
        Field::AiTravel(v) => {
            assert_eq!(1.0f32, f32::from_bits(v.x));
            assert_eq!(0x101, v.flags.bits);
        },
        other => panic!("expected a travel package, got {:?}", other),
    }
}

#[test]
fn npc_flags_keep_ignored_bit() {
    let payload = [0x09u8, 0x04, 0x34, 0x12];
    match round_trip(esl::tag::NPC_, esl::tag::FLAG, &payload) {
        Field::NpcFlags(v) => {
            assert_eq!(0x09, v.flags.bits);
            assert_eq!(esl::BloodTexture::Skeleton, v.blood_texture);
            assert_eq!(0x1234, v.padding);
        },
        other => panic!("expected NPC flags, got {:?}", other),
    }
    let bad = [0x20u8, 0x04, 0x34, 0x12];
    let err = decode_field(tag(esl::tag::NPC_), tag(esl::tag::FLAG), &bad, CodePage::Western)
        .unwrap_err();
    assert_eq!(esl::DeError::InvalidFlagBits(esl::FlagKind::NpcFlags, 0x20), err);
}

#[test]
fn creature_round_trip() {
    let mut payload = Vec::new();
    for v in 0..24u32 {
        payload.push(if v == 0 { 3 } else { v as u8 });
        payload.extend_from_slice(&[0, 0, 0]);
    }
    assert_eq!(96, payload.len());
    match round_trip(esl::tag::CREA, esl::tag::NPDT, &payload) {
        Field::Creature(v) => {
            assert_eq!(esl::CreatureType::Humanoid, v.creature_type);
            assert_eq!(1, v.level);
            assert_eq!(23, v.gold);
        },
        other => panic!("expected a creature, got {:?}", other),
    }
}

#[test]
fn light_round_trip() {
    let mut payload = Vec::new();
    payload.extend_from_slice(&0x3F000000u32.to_le_bytes());
    payload.extend_from_slice(&40u32.to_le_bytes());
    payload.extend_from_slice(&(-1i32).to_le_bytes());
    payload.extend_from_slice(&256u32.to_le_bytes());
    payload.extend_from_slice(&0x00FF8040u32.to_le_bytes());
    payload.extend_from_slice(&0x0011u32.to_le_bytes());
    match round_trip(esl::tag::LIGH, esl::tag::LHDT, &payload) {
        Field::Light(v) => {
            assert_eq!(-1, v.time);
            assert_eq!(0x40, v.color.r());
            assert_eq!(0x80, v.color.g());
            assert_eq!(0xFF, v.color.b());
            assert_eq!(0x11, v.flags.bits);
        },
        other => panic!("expected a light, got {:?}", other),
    }
}

#[test]
fn body_part_and_biped_object_round_trip() {
    let payload = [14u8, 1, 2, 2];
    match round_trip(esl::tag::BODY, esl::tag::BYDT, &payload) {
        Field::BodyPart(v) => {
            assert_eq!(esl::MeshType::Tail, v.mesh_type);
            assert_eq!(1, v.vampire);
            assert_eq!(2, v.flags.bits);
            assert_eq!(esl::BodyPartType::Armor, v.body_part_type);
        },
        other => panic!("expected a body part, got {:?}", other),
    }
    match round_trip(esl::tag::ARMO, esl::tag::INDX, &[26u8]) {
        Field::BipedObject(v) => assert_eq!(esl::BipedObject::Tail, v),
        other => panic!("expected a biped object, got {:?}", other),
    }
    let err = decode_field(tag(esl::tag::ARMO), tag(esl::tag::INDX), &[27u8], CodePage::Western)
        .unwrap_err();
    assert_eq!(esl::DeError::InvalidEnumValue(esl::EnumKind::BipedObject, 27), err);
}

#[test]
fn armor_apparatus_clothing_round_trip() {
    let mut payload = Vec::new();
    payload.extend_from_slice(&8u32.to_le_bytes());
    payload.extend_from_slice(&0x41A00000u32.to_le_bytes());
    payload.extend_from_slice(&120u32.to_le_bytes());
    payload.extend_from_slice(&300u32.to_le_bytes());
    payload.extend_from_slice(&0u32.to_le_bytes());
    payload.extend_from_slice(&18u32.to_le_bytes());
    match round_trip(esl::tag::ARMO, esl::tag::AODT, &payload) {
        Field::Armor(v) => {
            assert_eq!(esl::ArmorType::Shield, v.armor_type);
            assert_eq!(18, v.armor);
        },
        other => panic!("expected an armor piece, got {:?}", other),
    }

    let mut payload = Vec::new();
    payload.extend_from_slice(&2u32.to_le_bytes());
    payload.extend_from_slice(&0x3F800000u32.to_le_bytes());
    payload.extend_from_slice(&0x40A00000u32.to_le_bytes());
    payload.extend_from_slice(&75u32.to_le_bytes());
    match round_trip(esl::tag::APPA, esl::tag::AADT, &payload) {
        Field::Apparatus(v) => {
            assert_eq!(esl::ApparatusType::Calcinator, v.apparatus_type);
            assert_eq!(75, v.value);
        },
        other => panic!("expected an apparatus, got {:?}", other),
    }

    let mut payload = Vec::new();
    payload.extend_from_slice(&9u32.to_le_bytes());
    payload.extend_from_slice(&0x3D800000u32.to_le_bytes());
    payload.extend_from_slice(&150u16.to_le_bytes());
    payload.extend_from_slice(&4u16.to_le_bytes());
    match round_trip(esl::tag::CLOT, esl::tag::CTDT, &payload) {
        Field::Clothing(v) => {
            assert_eq!(esl::ClothingType::Amulet, v.clothing_type);
            assert_eq!(4, v.enchantment);
        },
        other => panic!("expected a clothing piece, got {:?}", other),
    }
}

#[test]
fn book_and_misc_item_round_trip() {
    let mut payload = Vec::new();
    payload.extend_from_slice(&0x40400000u32.to_le_bytes());
    payload.extend_from_slice(&50u32.to_le_bytes());
    payload.extend_from_slice(&1u32.to_le_bytes());
    payload.extend_from_slice(&(-1i32).to_le_bytes());
    payload.extend_from_slice(&0u32.to_le_bytes());
    match round_trip(esl::tag::BOOK, esl::tag::BKDT, &payload) {
        Field::Book(v) => {
            assert_eq!(1, v.scroll);
            assert_eq!(-1, v.skill);
        },
        other => panic!("expected a book, got {:?}", other),
    }

    let mut payload = Vec::new();
    payload.extend_from_slice(&0x3C800000u32.to_le_bytes());
    payload.extend_from_slice(&35u32.to_le_bytes());
    payload.extend_from_slice(&1u32.to_le_bytes());
    match round_trip(esl::tag::MISC, esl::tag::MCDT, &payload) {
        Field::MiscItem(v) => {
            assert_eq!(35, v.value);
            assert_eq!(1, v.is_key);
        },
        other => panic!("expected a miscellaneous item, got {:?}", other),
    }
}

#[test]
fn binary_and_var_string_round_trip() {
    let payload = [1u8, 2, 0, 4, 255];
    match round_trip(esl::tag::PCDT, esl::tag::FNAM, &payload) {
        Field::Binary(v) => assert_eq!(payload.to_vec(), v),
        other => panic!("expected raw bytes, got {:?}", other),
    }
    let payload = b"no terminator here";
    match round_trip(esl::tag::QUES, esl::tag::DATA, payload) {
        Field::String(s) => assert_eq!("no terminator here", s),
        other => panic!("expected text, got {:?}", other),
    }
}
