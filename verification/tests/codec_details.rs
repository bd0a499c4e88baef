use esl::CodePage;
use esl::DeError;
use esl::EnumKind;
use esl::Field;
use esl::FlagKind;
use esl::StringZList;
use esl::Tag;
use esl::decode_field;
use esl::encode_field;

fn tag(dword: u32) -> Tag {
    Tag { dword }
}

fn round_trip(record: u32, field_tag: u32, payload: &[u8], cp: CodePage) -> Field {
    let field = decode_field(tag(record), tag(field_tag), payload, cp).unwrap();
    let out = encode_field(tag(record), tag(field_tag), &field, cp).unwrap();
    assert_eq!(payload.to_vec(), out);
    field
}

#[test]
fn effect_round_trip_and_range_check() {
    let mut payload = Vec::new();
    payload.extend_from_slice(&0x0102i16.to_le_bytes());
    payload.push(3);
    payload.push(4);
    payload.extend_from_slice(&2i32.to_le_bytes());
    payload.extend_from_slice(&7i32.to_le_bytes());
    payload.extend_from_slice(&8i32.to_le_bytes());
    payload.extend_from_slice(&9i32.to_le_bytes());
    payload.extend_from_slice(&10i32.to_le_bytes());
    let field = round_trip(esl::tag::ALCH, esl::tag::ENAM, &payload, CodePage::Western);
    match field {
        Field::Effect(e) => {
            assert_eq!(0x0102, e.effect_id);
            assert_eq!(esl::EffectRange::Target, e.range);
            assert_eq!(10, e.magnitude_max);
        },
        other => panic!("expected an effect, got {:?}", other),
    }

    let mut bad = payload.clone();
    bad[4..8].copy_from_slice(&3i32.to_le_bytes());
    let err = decode_field(tag(esl::tag::ALCH), tag(esl::tag::ENAM), &bad, CodePage::Western)
        .unwrap_err();
    assert_eq!(DeError::InvalidEnumValue(EnumKind::EffectRange, 3), err);
}

#[test]
fn size_mismatch_is_fatal() {
    let err = decode_field(
        tag(esl::tag::CELL),
        tag(esl::tag::ACTN),
        &[1, 2, 3],
        CodePage::Western,
    )
    .unwrap_err();
    assert_eq!(DeError::InvalidSize { expected: 4, actual: 3 }, err);
}

#[test]
fn container_flags_reject_unknown_bits() {
    let err = decode_field(
        tag(esl::tag::CONT),
        tag(esl::tag::FLAG),
        &0x10u32.to_le_bytes(),
        CodePage::Western,
    )
    .unwrap_err();
    assert_eq!(DeError::InvalidFlagBits(FlagKind::ContainerFlags, 0x10), err);

    // The ignored bit 0x08 round-trips even though it is never named.
    let field = round_trip(
        esl::tag::CONT,
        esl::tag::FLAG,
        &0x0Bu32.to_le_bytes(),
        CodePage::Western,
    );
    match field {
        Field::ContainerFlags(f) => assert_eq!(0x0B, f.bits),
        other => panic!("expected container flags, got {:?}", other),
    }
}

#[test]
fn fixed_string_overflow_is_fatal() {
    let long = "abcdefghijklmnopqrstuvwxyz0123456";
    assert_eq!(33, long.len());
    let err = encode_field(
        tag(esl::tag::BSGN),
        tag(esl::tag::NPCS),
        &Field::String(long.to_string()),
        CodePage::Western,
    )
    .unwrap_err();
    assert_eq!(DeError::InvalidFixedString { expected: 32, actual: 33 }, err);
}

#[test]
fn unencodable_character_is_fatal() {
    let err = encode_field(
        tag(esl::tag::SSCR),
        tag(esl::tag::DATA),
        &Field::String("\u{416}".to_string()),
        CodePage::Western,
    )
    .unwrap_err();
    assert_eq!(DeError::UnknownCodePageChar('\u{416}'), err);
}

#[test]
fn cyrillic_text_decodes_and_encodes() {
    // 0xC6 is the Cyrillic capital zhe under windows-1251.
    let field = round_trip(esl::tag::SSCR, esl::tag::DATA, &[0xC6, 0x21], CodePage::Cyrillic);
    assert_eq!(Field::String("\u{416}!".to_string()), field);
    // The same byte is a Latin AE ligature under windows-1252.
    let field = decode_field(
        tag(esl::tag::SSCR),
        tag(esl::tag::DATA),
        &[0xC6],
        CodePage::Western,
    )
    .unwrap();
    assert_eq!(Field::String("\u{C6}".to_string()), field);
}

#[test]
fn string_z_list_round_trip() {
    let payload = b"first\0second\0";
    let field = round_trip(esl::tag::SCPT, esl::tag::SCVR, payload, CodePage::Western);
    assert_eq!(
        Field::StringZList(StringZList {
            strings: vec!["first".to_string(), "second".to_string()],
            has_tail_zero: true,
        }),
        field
    );
    let payload = b"first\0second";
    let field = round_trip(esl::tag::SCPT, esl::tag::SCVR, payload, CodePage::Western);
    assert_eq!(
        Field::StringZList(StringZList {
            strings: vec!["first".to_string(), "second".to_string()],
            has_tail_zero: false,
        }),
        field
    );
}

#[test]
fn file_metadata_round_trip() {
    let mut payload = Vec::new();
    payload.extend_from_slice(&0x40000000u32.to_le_bytes());
    payload.extend_from_slice(&32u32.to_le_bytes());
    let mut author = b"somebody".to_vec();
    author.resize(32, 0);
    payload.extend_from_slice(&author);
    let mut description = b"line one\r\nline two".to_vec();
    description.resize(256, 0);
    payload.extend_from_slice(&description);
    payload.extend_from_slice(&77u32.to_le_bytes());
    assert_eq!(300, payload.len());
    let field = round_trip(esl::tag::TES3, esl::tag::HEDR, &payload, CodePage::Western);
    match field {
        Field::FileMetadata(m) => {
            assert_eq!(0x40000000, m.version);
            assert_eq!(esl::FileType::ESS, m.file_type);
            assert_eq!(2, m.description.len());
            assert_eq!("line one", m.description[0]);
            assert_eq!(77, m.records_count);
        },
        other => panic!("expected file metadata, got {:?}", other),
    }

    let mut bad = payload.clone();
    bad[4..8].copy_from_slice(&2u32.to_le_bytes());
    let err = decode_field(tag(esl::tag::TES3), tag(esl::tag::HEDR), &bad, CodePage::Western)
        .unwrap_err();
    assert_eq!(DeError::InvalidEnumValue(EnumKind::FileType, 2), err);
}

#[test]
fn script_metadata_round_trip() {
    let mut payload = Vec::new();
    let mut name = b"my_script".to_vec();
    name.resize(32, 0);
    payload.extend_from_slice(&name);
    for v in [1u32, 2, 3, 4, 5] {
        payload.extend_from_slice(&v.to_le_bytes());
    }
    let field = round_trip(esl::tag::SCPT, esl::tag::SCHD, &payload, CodePage::Western);
    match field {
        Field::ScriptMetadata(m) => {
            assert!(m.name.starts_with("my_script"));
            assert_eq!(1, m.shorts);
            assert_eq!(5, m.var_table_size);
        },
        other => panic!("expected script metadata, got {:?}", other),
    }
}

#[test]
fn item_and_ingredient_round_trip() {
    let mut payload = Vec::new();
    payload.extend_from_slice(&(-3i32).to_le_bytes());
    let mut id = b"gold_001".to_vec();
    id.resize(32, 0);
    payload.extend_from_slice(&id);
    let field = round_trip(esl::tag::CONT, esl::tag::NPCO, &payload, CodePage::Western);
    match field {
        Field::Item(item) => {
            assert_eq!(-3, item.count);
            assert!(item.item_id.starts_with("gold_001"));
        },
        other => panic!("expected an item, got {:?}", other),
    }

    let mut payload = Vec::new();
    payload.extend_from_slice(&0x3F800000u32.to_le_bytes());
    payload.extend_from_slice(&25u32.to_le_bytes());
    for v in 0..12i32 {
        payload.extend_from_slice(&v.to_le_bytes());
    }
    let field = round_trip(esl::tag::INGR, esl::tag::IRDT, &payload, CodePage::Western);
    match field {
        Field::Ingredient(i) => {
            assert_eq!(1.0f32, f32::from_bits(i.weight));
            assert_eq!([0, 1, 2, 3], i.effects);
            assert_eq!([8, 9, 10, 11], i.attributes);
        },
        other => panic!("expected an ingredient, got {:?}", other),
    }
}

#[test]
fn weapon_round_trip() {
    let mut payload = Vec::new();
    payload.extend_from_slice(&0x40000000u32.to_le_bytes());
    payload.extend_from_slice(&150u32.to_le_bytes());
    payload.extend_from_slice(&9u16.to_le_bytes());
    payload.extend_from_slice(&400u16.to_le_bytes());
    payload.extend_from_slice(&0x3F800000u32.to_le_bytes());
    payload.extend_from_slice(&0x3F000000u32.to_le_bytes());
    payload.extend_from_slice(&7u16.to_le_bytes());
    payload.extend_from_slice(&[1, 10, 2, 20, 3, 30]);
    payload.extend_from_slice(&3u32.to_le_bytes());
    assert_eq!(32, payload.len());
    let field = round_trip(esl::tag::WEAP, esl::tag::WPDT, &payload, CodePage::Western);
    match field {
        Field::Weapon(w) => {
            assert_eq!(esl::WeaponType::MarksmanBow, w.weapon_type);
            assert_eq!(400, w.health);
            assert_eq!(30, w.thrust_max);
            assert_eq!(3, w.flags.bits);
        },
        other => panic!("expected a weapon, got {:?}", other),
    }
}

#[test]
fn numeric_fields_round_trip() {
    let field = round_trip(
        esl::tag::TES3,
        esl::tag::DATA,
        &(-5i64).to_le_bytes(),
        CodePage::Western,
    );
    assert_eq!(Field::Long(-5), field);
    let field = round_trip(
        esl::tag::LEVI,
        esl::tag::INTV,
        &(-2i16).to_le_bytes(),
        CodePage::Western,
    );
    assert_eq!(Field::Short(-2), field);
    let field = round_trip(esl::tag::CELL, esl::tag::MNAM, &[0xFE], CodePage::Western);
    assert_eq!(Field::Byte(0xFE), field);
    let field = round_trip(
        esl::tag::CONT,
        esl::tag::CNDT,
        &0x41200000u32.to_le_bytes(),
        CodePage::Western,
    );
    assert_eq!(Field::Float(0x41200000), field);
}

#[test]
fn color_parse_and_display() {
    let c = esl::Color::parse("#FF00FF00").unwrap();
    assert_eq!(0xFF, c.a());
    assert_eq!(0x00, c.r());
    assert_eq!(0xFF, c.g());
    assert_eq!(0x00, c.b());
    assert_eq!("#FF00FF00", c.display_string());
    assert_eq!(Ok(esl::Color::rgb(0x12, 0x34, 0x56)), esl::Color::parse("#123456"));
    assert_eq!(Err(()), esl::Color::parse("#12345"));
    assert_eq!(Err(()), esl::Color::parse("#+23456"));
    assert_eq!(Err(()), esl::Color::parse("123456#"));
}

#[test]
fn coercion_of_string_z_and_lists() {
    let mut field = Field::StringZ(esl::StringZ {
        string: "keep\0cut".to_string(),
        has_tail_zero: false,
    });
    field.coerce(tag(esl::tag::BSGN), tag(esl::tag::DESC));
    assert_eq!(
        Field::StringZ(esl::StringZ { string: "keep".to_string(), has_tail_zero: true }),
        field
    );

    let mut field = Field::StringList(vec![
        "one".to_string(),
        "tw\0o".to_string(),
        "three".to_string(),
    ]);
    field.coerce(tag(esl::tag::BOOK), tag(esl::tag::TEXT));
    assert_eq!(
        Field::StringList(vec!["one".to_string(), "tw".to_string()]),
        field
    );
}

#[test]
fn coercion_of_fixed_width_and_nul_lists() {
    let mut payload = b"guild rank".to_vec();
    payload.resize(32, 0);
    let mut field = decode_field(
        tag(esl::tag::FACT),
        tag(esl::tag::RNAM),
        &payload,
        CodePage::Western,
    )
    .unwrap();
    field.coerce(tag(esl::tag::FACT), tag(esl::tag::RNAM));
    assert_eq!(Field::String("guild rank".to_string()), field);

    let mut field = Field::StringZList(StringZList {
        strings: vec!["a".to_string(), "b".to_string()],
        has_tail_zero: false,
    });
    field.coerce(tag(esl::tag::SCPT), tag(esl::tag::SCVR));
    // The list coercion pair is not on the whitelist, so nothing changes.
    assert_eq!(
        Field::StringZList(StringZList {
            strings: vec!["a".to_string(), "b".to_string()],
            has_tail_zero: false,
        }),
        field
    );
}
