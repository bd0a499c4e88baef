use esl::CodePage;
use esl::DeError;
use esl::DialogTypeOption;
use esl::Field;
use esl::FieldType;
use esl::NpcCharacteristicsOption;
use esl::StringZ;
use esl::Tag;
use esl::decode_field;
use esl::encode_field;

fn tag(dword: u32) -> Tag {
    Tag { dword }
}

#[test]
fn tag_from_chars_round_trip() {
    let t = Tag::from_chars("TES3");
    assert_eq!(0x33534554, t.dword);
    assert_eq!([0x54, 0x45, 0x53, 0x33], t.dword.to_le_bytes());
    assert_eq!("TES3", t.display_string());
}

#[test]
fn npc_size_dispatch_twelve() {
    let payload = [
        0x01u8, 0x00, 0x02, 0x03, 0x04, 0x05, 0x06, 0x07, 0x08, 0x09, 0x0A, 0x0B,
    ];
    let field = decode_field(
        tag(esl::tag::NPC_),
        tag(esl::tag::NPDT),
        &payload,
        CodePage::Western,
    )
    .unwrap();
    match &field {
        Field::Npc(npc) => {
            assert_eq!(1, npc.level);
            assert_eq!(2, npc.disposition);
            assert_eq!(3, npc.reputation);
            assert_eq!(4, npc.rank);
            assert_eq!(5, npc.padding);
            assert_eq!(0x0B0A0908, npc.gold);
            assert_eq!(NpcCharacteristicsOption::Padding(0x0706), npc.characteristics);
        },
        other => panic!("expected an NPC field, got {:?}", other),
    }
    let out = encode_field(
        tag(esl::tag::NPC_),
        tag(esl::tag::NPDT),
        &field,
        CodePage::Western,
    )
    .unwrap();
    assert_eq!(payload.to_vec(), out);
}

#[test]
fn npc_size_dispatch_fifty_two() {
    let mut payload = vec![0x01u8, 0x00];
    for i in 0..42u8 {
        payload.push(i);
    }
    payload.extend_from_slice(&[0x02, 0x03, 0x04, 0x05, 0x08, 0x09, 0x0A, 0x0B]);
    assert_eq!(52, payload.len());
    let field = decode_field(
        tag(esl::tag::NPC_),
        tag(esl::tag::NPDT),
        &payload,
        CodePage::Western,
    )
    .unwrap();
    match &field {
        Field::Npc(npc) => {
            assert_eq!(1, npc.level);
            assert_eq!(2, npc.disposition);
            assert_eq!(3, npc.reputation);
            assert_eq!(4, npc.rank);
            assert_eq!(5, npc.padding);
            assert_eq!(0x0B0A0908, npc.gold);
            match &npc.characteristics {
                NpcCharacteristicsOption::Present(c) => {
                    assert_eq!(0, c.strength);
                    assert_eq!(34, c.hand_to_hand);
                    assert_eq!(35, c.faction);
                    // health at offsets 36..38 of the block: bytes 36, 37
                    assert_eq!(i16::from_le_bytes([36, 37]), c.health);
                    assert_eq!(i16::from_le_bytes([40, 41]), c.fatigue);
                },
                other => panic!("expected characteristics, got {:?}", other),
            }
        },
        other => panic!("expected an NPC field, got {:?}", other),
    }
    let out = encode_field(
        tag(esl::tag::NPC_),
        tag(esl::tag::NPDT),
        &field,
        CodePage::Western,
    )
    .unwrap();
    assert_eq!(payload, out);
}

#[test]
fn string_z_preserves_tail_zero() {
    let with_zero = [0x48u8, 0x69, 0x00];
    let field = decode_field(
        tag(esl::tag::BOOK),
        tag(esl::tag::ANAM),
        &with_zero,
        CodePage::Western,
    )
    .unwrap();
    assert_eq!(
        Field::StringZ(StringZ { string: "Hi".to_string(), has_tail_zero: true }),
        field
    );
    let out = encode_field(
        tag(esl::tag::BOOK),
        tag(esl::tag::ANAM),
        &field,
        CodePage::Western,
    )
    .unwrap();
    assert_eq!(with_zero.to_vec(), out);

    let without_zero = [0x48u8, 0x69];
    let field = decode_field(
        tag(esl::tag::BOOK),
        tag(esl::tag::ANAM),
        &without_zero,
        CodePage::Western,
    )
    .unwrap();
    assert_eq!(
        Field::StringZ(StringZ { string: "Hi".to_string(), has_tail_zero: false }),
        field
    );
    let out = encode_field(
        tag(esl::tag::BOOK),
        tag(esl::tag::ANAM),
        &field,
        CodePage::Western,
    )
    .unwrap();
    assert_eq!(without_zero.to_vec(), out);
}

#[test]
fn coercion_respects_whitelist() {
    let mut field = Field::String("foo\0bar".to_string());
    field.coerce(tag(esl::tag::ARMO), tag(esl::tag::BNAM));
    assert_eq!(Field::String("foo".to_string()), field);

    let mut field = Field::String("foo\0bar".to_string());
    field.coerce(tag(esl::tag::PCDT), tag(esl::tag::BNAM));
    assert_eq!(Field::String("foo\0bar".to_string()), field);
}

#[test]
fn multiline_round_trip() {
    let payload = b"a\r\nb\r\nc";
    let field = decode_field(
        tag(esl::tag::INFO),
        tag(esl::tag::BNAM),
        payload,
        CodePage::Western,
    )
    .unwrap();
    assert_eq!(
        Field::StringList(vec!["a".to_string(), "b".to_string(), "c".to_string()]),
        field
    );
    let out = encode_field(
        tag(esl::tag::INFO),
        tag(esl::tag::BNAM),
        &field,
        CodePage::Western,
    )
    .unwrap();
    assert_eq!(payload.to_vec(), out);
}

#[test]
fn fixed_width_string_pads_with_nul() {
    let out = encode_field(
        tag(esl::tag::BSGN),
        tag(esl::tag::NPCS),
        &Field::String("abc".to_string()),
        CodePage::Western,
    )
    .unwrap();
    assert_eq!(32, out.len());
    assert_eq!(&[0x61, 0x62, 0x63], &out[0..3]);
    assert!(out[3..].iter().all(|&b| b == 0));
}

#[test]
fn dispatch_prefers_specific_rows() {
    assert_eq!(FieldType::Npc, FieldType::from_tags(tag(esl::tag::NPC_), tag(esl::tag::NPDT)));
    assert_eq!(
        FieldType::SavedNpc,
        FieldType::from_tags(tag(esl::tag::NPCC), tag(esl::tag::NPDT))
    );
    assert_eq!(
        FieldType::FixedString(32),
        FieldType::from_tags(tag(esl::tag::BSGN), tag(esl::tag::NPCS))
    );
    assert_eq!(
        FieldType::VarString,
        FieldType::from_tags(tag(esl::tag::FACT), tag(esl::tag::ANAM))
    );
    assert_eq!(
        FieldType::StringZ,
        FieldType::from_tags(tag(esl::tag::CELL), tag(esl::tag::ANAM))
    );
    assert_eq!(
        FieldType::Binary,
        FieldType::from_tags(tag(esl::tag::TES3), tag(0x58585858))
    );
}

#[test]
fn dialog_metadata_by_size() {
    let four = [0x06u8, 0x07, 0x00, 0x00];
    let field = decode_field(
        tag(esl::tag::DIAL),
        tag(esl::tag::DATA),
        &four,
        CodePage::Western,
    )
    .unwrap();
    assert_eq!(Field::DialogMetadata(DialogTypeOption::Padding(0x0706)), field);
    let out = encode_field(tag(esl::tag::DIAL), tag(esl::tag::DATA), &field, CodePage::Western)
        .unwrap();
    assert_eq!(four.to_vec(), out);

    let one = [0x04u8];
    let field = decode_field(
        tag(esl::tag::DIAL),
        tag(esl::tag::DATA),
        &one,
        CodePage::Western,
    )
    .unwrap();
    assert_eq!(
        Field::DialogMetadata(DialogTypeOption::Present(esl::DialogType::Journal)),
        field
    );
    let out = encode_field(tag(esl::tag::DIAL), tag(esl::tag::DATA), &field, CodePage::Western)
        .unwrap();
    assert_eq!(one.to_vec(), out);

    let bad = [0x07u8];
    let err = decode_field(
        tag(esl::tag::DIAL),
        tag(esl::tag::DATA),
        &bad,
        CodePage::Western,
    )
    .unwrap_err();
    assert_eq!(DeError::InvalidEnumValue(esl::EnumKind::DialogType, 7), err);
}
