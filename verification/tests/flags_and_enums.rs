use std::collections::hash_map::DefaultHasher;
use std::hash::Hash;
use std::str::FromStr;
use esl::EffectRange;
use esl::FileType;
use esl::Npc12;
use esl::Npc12Or52;
use esl::NpcCharacteristicsOption;
use esl::RecordFlags;
use esl::Tag;

#[test]
fn record_flags_traits() {
    assert_eq!(RecordFlags::persistent(), *&RecordFlags::persistent());
    assert!(RecordFlags::persistent() < RecordFlags::blocked());
    let mut hasher = DefaultHasher::new();
    RecordFlags::deleted().hash(&mut hasher);
}

#[test]
fn debug_and_display_tag() {
    let tes3 = Tag { dword: esl::tag::TES3 };
    assert_eq!("TES3", tes3.display_string());
    assert_eq!("TES3", format!("{}", tes3.display_string()));
    assert_eq!(Ok(Tag { dword: esl::tag::SCPT }), Tag::from_str("SCPT"));
}

#[test]
fn field_debug_and_display_tag() {
    let tes3 = Tag { dword: esl::tag::TES3 };
    assert_eq!("TES3", tes3.display_string());
    assert_eq!("TES3", format!("{}", tes3.display_string()));
    assert_eq!(Ok(Tag { dword: esl::tag::SCPT }), Tag::from_str("SCPT"));
}

#[test]
fn lib_debug_and_display_tag() {
    let tes3 = Tag { dword: esl::tag::TES3 };
    assert_eq!("TES3", tes3.display_string());
    assert_eq!("TES3", format!("{}", tes3.display_string()));
    assert_eq!(Ok(Tag { dword: esl::tag::SCPT }), Tag::from_str("SCPT"));
}

#[test]
fn test_file_type() {
    assert_eq!("ESM", FileType::ESM.display_string());
    assert_eq!("ESS", format!("{:?}", FileType::ESS));
    assert_eq!(Some(FileType::ESP), FileType::from_u32(0));
    assert_eq!(None, FileType::from_u32(2));
    assert_eq!(32, FileType::ESS.to_u32());
    assert_eq!(Ok(FileType::ESP), FileType::from_str("ESP"));
}

#[test]
fn field_test_file_type() {
    assert_eq!("ESM", FileType::ESM.display_string());
    assert_eq!("ESS", format!("{:?}", FileType::ESS));
    assert_eq!(Some(FileType::ESP), FileType::from_u32(0));
    assert_eq!(None, FileType::from_u32(2));
    assert_eq!(32, FileType::ESS.to_u32());
    assert_eq!(Ok(FileType::ESP), FileType::from_str("ESP"));
    assert_eq!(Some(FileType::ESS), FileType::from_u32(32));
}

#[test]
fn lib_test_file_type() {
    assert_eq!("ESM", FileType::ESM.display_string());
    assert_eq!("ESS", format!("{:?}", FileType::ESS));
    assert_eq!(Some(FileType::ESP), FileType::from_u32(0));
    assert_eq!(None, FileType::from_u32(2));
    assert_eq!(32, FileType::ESS.to_u32());
    assert_eq!(Ok(FileType::ESP), FileType::from_str("ESP"));
}

#[test]
fn test_record_flags() {
    assert_eq!("PERSISTENT", RecordFlags::persistent().display_string());
    assert_eq!(
        "PERSISTENT | DELETED",
        RecordFlags::persistent().union(RecordFlags::deleted()).display_string()
    );
    assert_eq!(
        0x202000000000,
        RecordFlags::blocked().union(RecordFlags::deleted()).bits
    );
    assert_eq!(
        Some(RecordFlags::blocked().union(RecordFlags::deleted())),
        RecordFlags::from_bits(0x202000000000)
    );
    assert_eq!(Ok(RecordFlags::deleted()), RecordFlags::from_str("DELETED"));
    assert_eq!(
        Ok(RecordFlags::deleted().union(RecordFlags::persistent())),
        RecordFlags::from_str("DELETED|PERSISTENT")
    );
    assert_eq!(
        Ok(RecordFlags::deleted().union(RecordFlags::persistent())),
        RecordFlags::from_str("PERSISTENT | DELETED")
    );
    assert_eq!(Ok(RecordFlags::empty()), RecordFlags::from_str(""));
    assert_eq!(Err(()), RecordFlags::from_str(" "));
}

#[test]
fn lib_test_record_flags() {
    assert_eq!("PERSISTENT", RecordFlags::persistent().display_string());
    assert_eq!(
        "PERSISTENT | DELETED",
        RecordFlags::persistent().union(RecordFlags::deleted()).display_string()
    );
    assert_eq!(
        0x202000000000,
        RecordFlags::blocked().union(RecordFlags::deleted()).bits
    );
    assert_eq!(
        Some(RecordFlags::blocked().union(RecordFlags::deleted())),
        RecordFlags::from_bits(0x202000000000)
    );
    assert_eq!(None, RecordFlags::from_bits(1));
}

#[test]
fn all_code_pages_are_single_byte_encodings() {
    for code_page in [esl::CodePage::Western, esl::CodePage::Cyrillic] {
        for byte in 0u8..=255 {
            let s = esl::text::decode_text(code_page, &[byte]);
            assert_eq!(1, s.chars().count());
            let b = esl::text::encode_text(code_page, &s).unwrap();
            assert_eq!(1, b.len());
            assert_eq!(byte, b[0]);
        }
    }
}

#[test]
fn empty_record_flags_display() {
    assert_eq!("(empty)", RecordFlags::empty().display_string());
    assert_eq!(
        "PERSISTENT | BLOCKED | DELETED",
        RecordFlags::persistent()
            .union(RecordFlags::blocked())
            .union(RecordFlags::deleted())
            .display_string()
    );
}

#[test]
fn tag_parse_rejects_bad_input() {
    assert_eq!(Err(()), Tag::from_str("TES"));
    assert_eq!(Err(()), Tag::from_str("TES33"));
    assert_eq!(Err(()), Tag::from_str("TE\u{416}3"));
}

#[test]
fn effect_range_names() {
    assert_eq!("Self", EffectRange::Self_.display_string());
    assert_eq!(Ok(EffectRange::Target), EffectRange::from_str("Target"));
    assert_eq!(Err(()), EffectRange::from_str("Oneself"));
}

#[test]
fn npc_sized_forms_convert_both_ways() {
    let short = Npc12 {
        level: 7,
        disposition: -1,
        reputation: 2,
        rank: 3,
        padding_8: 9,
        padding_16: 0xABCD,
        gold: -5,
    };
    let npc = Npc12Or52::Npc12(short).to_npc();
    assert_eq!(7, npc.level);
    assert_eq!(9, npc.padding);
    assert_eq!(NpcCharacteristicsOption::Padding(0xABCD), npc.characteristics);
    assert_eq!(Npc12Or52::Npc12(short), npc.to_sized());
}
