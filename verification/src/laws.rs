use vstd::prelude::*;
use crate::code_page::CodePage;
use crate::field_codec::lemma_ai_wander_round_trip;
use crate::field_codec::lemma_biped_object_round_trip;
use crate::field_codec::lemma_dialog_metadata_round_trip;
use crate::field_codec::lemma_file_metadata_round_trip;
use crate::field_codec::lemma_fixed_text_round_trip;
use crate::field_codec::lemma_ingredient_round_trip;
use crate::field_codec::lemma_item_round_trip;
use crate::field_codec::lemma_multiline_round_trip;
use crate::field_codec::lemma_npc_field_round_trip;
use crate::field_codec::lemma_script_metadata_round_trip;
use crate::field_codec::lemma_string_z_list_round_trip;
use crate::field_codec::lemma_string_z_round_trip;
use crate::field_codec::spec_decode_field;
use crate::field_codec::spec_encode_field;
use crate::field_type::FieldType;
use crate::field_type::spec_field_type;
use crate::text::lemma_text_round_trip;
use crate::wire::lemma_le_round_trips;

verus! {

/// The universal round-trip law, first direction: whatever a field
/// payload decodes to under a pair of tags and a code page re-encodes,
/// under the same pair and page, to exactly the payload bytes.
pub proof fn lemma_field_round_trip(r: u32, f: u32, cp: CodePage, bs: Seq<u8>)
    ensures
        spec_decode_field(r, f, cp, bs) matches Some(fv) ==> spec_encode_field(r, f, cp, fv)
            == Some(bs),
{
    lemma_le_round_trips();
    match spec_field_type(r, f) {
        FieldType::Binary => {
        },
        FieldType::Compressed => {
        },
        FieldType::VarString => {
            lemma_text_round_trip(cp, bs);
        },
        FieldType::FixedString(w) => {
            lemma_fixed_text_round_trip(cp, bs);
        },
        FieldType::StringZ => {
            lemma_string_z_round_trip(cp, bs);
        },
        FieldType::Multiline(nl) => {
            lemma_multiline_round_trip(cp, nl, bs);
        },
        FieldType::StringZList => {
            lemma_string_z_list_round_trip(cp, bs);
        },
        FieldType::Item => {
            lemma_item_round_trip(cp, bs);
        },
        FieldType::Float => {
        },
        FieldType::Int => {
        },
        FieldType::Short => {
        },
        FieldType::Long => {
        },
        FieldType::Byte => {
            if bs.len() == 1 {
                assert(seq![bs[0]] =~= bs);
            }
        },
        FieldType::Ingredient => {
            lemma_ingredient_round_trip(bs);
        },
        FieldType::ScriptMetadata => {
            lemma_script_metadata_round_trip(cp, bs);
        },
        FieldType::DialogMetadata => {
            lemma_dialog_metadata_round_trip(bs);
        },
        FieldType::FileMetadata => {
            lemma_file_metadata_round_trip(cp, bs);
        },
        FieldType::Npc => {
            lemma_npc_field_round_trip(bs);
        },
        FieldType::SavedNpc => {
            crate::codec::lemma_saved_npc_round_trip(bs);
        },
        FieldType::Effect => {
            crate::codec::lemma_effect_round_trip(bs);
        },
        FieldType::SpellMetadata => {
            crate::codec::lemma_spell_metadata_round_trip(bs);
        },
        FieldType::Ai => {
            crate::codec::lemma_ai_round_trip(bs);
        },
        FieldType::AiWander => {
            lemma_ai_wander_round_trip(bs);
        },
        FieldType::AiTravel => {
            crate::codec::lemma_ai_travel_round_trip(bs);
        },
        FieldType::NpcFlags => {
            crate::codec::lemma_npc_flags_round_trip(bs);
        },
        FieldType::CreatureFlags => {
            crate::codec::lemma_creature_flags_round_trip(bs);
        },
        FieldType::Book => {
            crate::codec::lemma_book_round_trip(bs);
        },
        FieldType::ContainerFlags => {
        },
        FieldType::Creature => {
            crate::codec::lemma_creature_round_trip(bs);
        },
        FieldType::Light => {
            crate::codec::lemma_light_round_trip(bs);
        },
        FieldType::MiscItem => {
            crate::codec::lemma_misc_item_round_trip(bs);
        },
        FieldType::Apparatus => {
            crate::codec::lemma_apparatus_round_trip(bs);
        },
        FieldType::Weapon => {
            crate::codec::lemma_weapon_round_trip(bs);
        },
        FieldType::Armor => {
            crate::codec::lemma_armor_round_trip(bs);
        },
        FieldType::BipedObject => {
            lemma_biped_object_round_trip(bs);
        },
        FieldType::BodyPart => {
            crate::codec::lemma_body_part_round_trip(bs);
        },
        FieldType::Clothing => {
            crate::codec::lemma_clothing_round_trip(bs);
        },
    }
}

/// The universal round-trip law, second direction: a field value the
/// decoder can produce encodes to bytes that decode back to exactly that
/// value.
pub proof fn lemma_field_decode_of_encode(r: u32, f: u32, cp: CodePage, bs: Seq<u8>)
    ensures
        spec_decode_field(r, f, cp, bs) matches Some(fv) ==> (spec_encode_field(r, f, cp, fv)
            matches Some(out) && spec_decode_field(r, f, cp, out) == Some(fv)),
{
    lemma_field_round_trip(r, f, cp, bs);
}

/// The intrinsic payload size of each field shape with only one: the
/// variable-length and the size-dispatched shapes have none.
pub open spec fn spec_fixed_size(t: FieldType) -> Option<int> {
    match t {
        FieldType::Binary => None,
        FieldType::Compressed => None,
        FieldType::VarString => None,
        FieldType::FixedString(w) => Some(w as int),
        FieldType::StringZ => None,
        FieldType::Multiline(_) => None,
        FieldType::StringZList => None,
        FieldType::Item => Some(36),
        FieldType::Float => Some(4),
        FieldType::Int => Some(4),
        FieldType::Short => Some(2),
        FieldType::Long => Some(8),
        FieldType::Byte => Some(1),
        FieldType::Ingredient => Some(56),
        FieldType::ScriptMetadata => Some(52),
        FieldType::DialogMetadata => None,
        FieldType::FileMetadata => Some(300),
        FieldType::Npc => None,
        FieldType::SavedNpc => Some(8),
        FieldType::Effect => Some(24),
        FieldType::SpellMetadata => Some(12),
        FieldType::Ai => Some(12),
        FieldType::AiWander => Some(14),
        FieldType::AiTravel => Some(16),
        FieldType::NpcFlags => Some(4),
        FieldType::CreatureFlags => Some(4),
        FieldType::Book => Some(20),
        FieldType::ContainerFlags => Some(4),
        FieldType::Creature => Some(96),
        FieldType::Light => Some(24),
        FieldType::MiscItem => Some(12),
        FieldType::Apparatus => Some(16),
        FieldType::Weapon => Some(32),
        FieldType::Armor => Some(24),
        FieldType::BipedObject => Some(1),
        FieldType::BodyPart => Some(4),
        FieldType::Clothing => Some(12),
    }
}

/// The size law: a field with an intrinsic size decodes only from a
/// payload of exactly that size, and whatever decodes re-encodes to
/// exactly as many bytes as it came from.
pub proof fn lemma_size_law(r: u32, f: u32, cp: CodePage, bs: Seq<u8>)
    ensures
        spec_decode_field(r, f, cp, bs) is Some ==> (spec_fixed_size(spec_field_type(r, f))
            matches Some(n) ==> bs.len() == n),
        spec_decode_field(r, f, cp, bs) matches Some(fv) ==> (spec_encode_field(r, f, cp, fv)
            matches Some(out) && out.len() == bs.len()),
{
    lemma_field_round_trip(r, f, cp, bs);
}


/// Whatever a pair of tags decodes has the shape the dispatch table
/// gives that pair, so it can always be handed back to the encoder.
pub proof fn lemma_decoded_field_matches(r: u32, f: u32, cp: CodePage, bs: Seq<u8>)
    ensures
        spec_decode_field(r, f, cp, bs) matches Some(fv) ==> crate::field_codec::spec_field_matches(
            spec_field_type(r, f),
            fv,
        ),
{
}


/// The encoder's half of the size law, for every value it accepts: a
/// field shape with an intrinsic size is always written as exactly that
/// many bytes, and the two size-dispatched shapes as one of their two
/// sizes.
pub proof fn lemma_encode_size(r: u32, f: u32, cp: CodePage, fv: crate::field::FieldView)
    ensures
        spec_encode_field(r, f, cp, fv) matches Some(out) ==> (spec_fixed_size(
            spec_field_type(r, f),
        ) matches Some(n) ==> out.len() == n),
        spec_encode_field(r, f, cp, fv) matches Some(out) ==> (spec_field_type(r, f)
            is DialogMetadata ==> (out.len() == 4 || out.len() == 1)),
        spec_encode_field(r, f, cp, fv) matches Some(out) ==> (spec_field_type(r, f) is Npc ==> (
        out.len() == 12 || out.len() == 52)),
{
    lemma_le_round_trips();
    match spec_field_type(r, f) {
        FieldType::Ingredient => {
            match fv {
                crate::field::FieldView::Ingredient(v) => {
                    assert(crate::field_codec::spec_encode_ingredient(v).len() == 56);
                },
                _ => {
                },
            }
        },
        FieldType::Npc => {
            match fv {
                crate::field::FieldView::Npc(v) => {
                    crate::codec::lemma_encode_npc12_len(
                        crate::field::Npc12 {
                            level: v.level,
                            disposition: v.disposition,
                            reputation: v.reputation,
                            rank: v.rank,
                            padding_8: v.padding,
                            padding_16: 0,
                            gold: v.gold,
                        },
                    );
                    match v.spec_to_sized() {
                        crate::field::Npc12Or52::Npc12(s) => {
                            crate::codec::lemma_encode_npc12_len(s);
                        },
                        crate::field::Npc12Or52::Npc52(s) => {
                            crate::codec::lemma_encode_npc52_len(s);
                        },
                    }
                },
                _ => {
                },
            }
        },
        FieldType::SavedNpc => {
            match fv {
                crate::field::FieldView::SavedNpc(v) => {
                    crate::codec::lemma_encode_saved_npc_len(v);
                },
                _ => {
                },
            }
        },
        FieldType::Effect => {
            match fv {
                crate::field::FieldView::Effect(v) => {
                    crate::codec::lemma_encode_effect_len(v);
                },
                _ => {
                },
            }
        },
        FieldType::SpellMetadata => {
            match fv {
                crate::field::FieldView::SpellMetadata(v) => {
                    crate::codec::lemma_encode_spell_metadata_len(v);
                },
                _ => {
                },
            }
        },
        FieldType::Ai => {
            match fv {
                crate::field::FieldView::Ai(v) => {
                    crate::codec::lemma_encode_ai_len(v);
                },
                _ => {
                },
            }
        },
        FieldType::AiTravel => {
            match fv {
                crate::field::FieldView::AiTravel(v) => {
                    crate::codec::lemma_encode_ai_travel_len(v);
                },
                _ => {
                },
            }
        },
        FieldType::NpcFlags => {
            match fv {
                crate::field::FieldView::NpcFlags(v) => {
                    crate::codec::lemma_encode_npc_flags_len(v);
                },
                _ => {
                },
            }
        },
        FieldType::CreatureFlags => {
            match fv {
                crate::field::FieldView::CreatureFlags(v) => {
                    crate::codec::lemma_encode_creature_flags_len(v);
                },
                _ => {
                },
            }
        },
        FieldType::Book => {
            match fv {
                crate::field::FieldView::Book(v) => {
                    crate::codec::lemma_encode_book_len(v);
                },
                _ => {
                },
            }
        },
        FieldType::Creature => {
            match fv {
                crate::field::FieldView::Creature(v) => {
                    crate::codec::lemma_encode_creature_len(v);
                },
                _ => {
                },
            }
        },
        FieldType::Light => {
            match fv {
                crate::field::FieldView::Light(v) => {
                    crate::codec::lemma_encode_light_len(v);
                },
                _ => {
                },
            }
        },
        FieldType::MiscItem => {
            match fv {
                crate::field::FieldView::MiscItem(v) => {
                    crate::codec::lemma_encode_misc_item_len(v);
                },
                _ => {
                },
            }
        },
        FieldType::Apparatus => {
            match fv {
                crate::field::FieldView::Apparatus(v) => {
                    crate::codec::lemma_encode_apparatus_len(v);
                },
                _ => {
                },
            }
        },
        FieldType::Weapon => {
            match fv {
                crate::field::FieldView::Weapon(v) => {
                    crate::codec::lemma_encode_weapon_len(v);
                },
                _ => {
                },
            }
        },
        FieldType::Armor => {
            match fv {
                crate::field::FieldView::Armor(v) => {
                    crate::codec::lemma_encode_armor_len(v);
                },
                _ => {
                },
            }
        },
        FieldType::BodyPart => {
            match fv {
                crate::field::FieldView::BodyPart(v) => {
                    crate::codec::lemma_encode_body_part_len(v);
                },
                _ => {
                },
            }
        },
        FieldType::Clothing => {
            match fv {
                crate::field::FieldView::Clothing(v) => {
                    crate::codec::lemma_encode_clothing_len(v);
                },
                _ => {
                },
            }
        },
        _ => {
        },
    }
}

} // verus!
