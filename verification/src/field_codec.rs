use vstd::prelude::*;
use vstd::bytes::spec_u32_from_le_bytes;
use vstd::bytes::spec_u32_to_le_bytes;
use vstd::slice::slice_subrange;
use vstd::slice::slice_to_vec;
use crate::code_page::CodePage;
use crate::enums::DialogType;
use crate::enums::FileType;
use crate::enums::lemma_dialog_type_round_trip;
use crate::enums::lemma_file_type_round_trip;
use crate::errors::DeError;
use crate::errors::EnumKind;
use crate::field::DialogTypeOption;
use crate::field::FileMetadataV;
use crate::field::ItemV;
use crate::field::ScriptMetadataV;
use crate::field::StringZV;
use crate::field::StringZListV;
use crate::field_type::FieldType;
use crate::field_type::Newline;
use crate::text::decode_lines;
use crate::text::decode_text;
use crate::text::encode_lines;
use crate::text::encode_text;
use crate::text::lemma_lines_round_trip;
use crate::text::lemma_text_round_trip;
use crate::text::spec_decode_text;
use crate::text::spec_encode_lines;
use crate::text::spec_encode_text;
use crate::text::spec_split;
use crate::wire::lemma_le_round_trips;
use crate::wire::push_i32;
use crate::wire::push_u32;
use crate::wire::push_zeros;
use crate::wire::read_u32_at;
use crate::wire::read_i32_at;
use crate::wire::spec_i32_from_le;
use crate::wire::spec_i32_to_le;
use crate::wire::spec_zeros;

verus! {

/// The separator bytes a newline style writes between lines.
pub open spec fn spec_newline_sep(nl: Newline) -> Seq<u8> {
    match nl {
        Newline::Unix => seq![10u8],
        Newline::Dos => seq![13u8, 10u8],
    }
}

/// The separator bytes a newline style writes between lines.
pub fn newline_sep(nl: Newline) -> (r: Vec<u8>)
    ensures
        r@ == spec_newline_sep(nl),
{
    let mut v: Vec<u8> = Vec::new();
    match nl {
        Newline::Unix => {
            v.push(10);
            proof {
                assert(v@ =~= spec_newline_sep(nl));
            }
        },
        Newline::Dos => {
            v.push(13);
            v.push(10);
            proof {
                assert(v@ =~= spec_newline_sep(nl));
            }
        },
    }
    v
}

/// The text a whole payload denotes, up to an optional final NUL, with
/// the flag that remembers whether that NUL was present.
pub open spec fn spec_decode_string_z(cp: CodePage, bs: Seq<u8>) -> StringZV {
    let tail = bs.len() > 0 && bs.last() == 0;
    let body = if tail {
        bs.drop_last()
    } else {
        bs
    };
    StringZV { string: spec_decode_text(cp, body), has_tail_zero: tail }
}

/// The bytes of a NUL-flagged text: its encoding, then a NUL exactly when
/// the flag says so.
pub open spec fn spec_encode_string_z(cp: CodePage, v: StringZV) -> Option<Seq<u8>> {
    match spec_encode_text(cp, v.string) {
        Option::None => None,
        Option::Some(e) => Some(
            if v.has_tail_zero {
                e.push(0)
            } else {
                e
            },
        ),
    }
}

/// A decoded NUL-flagged text re-encodes to exactly its payload bytes.
pub proof fn lemma_string_z_round_trip(cp: CodePage, bs: Seq<u8>)
    ensures
        spec_encode_string_z(cp, spec_decode_string_z(cp, bs)) == Some(bs),
{
    let tail = bs.len() > 0 && bs.last() == 0;
    if tail {
        lemma_text_round_trip(cp, bs.drop_last());
        assert(bs.drop_last().push(0) =~= bs);
    } else {
        lemma_text_round_trip(cp, bs);
    }
}

/// The lines a whole payload denotes under a newline style.
pub open spec fn spec_decode_multiline(cp: CodePage, nl: Newline, bs: Seq<u8>) -> Seq<Seq<char>> {
    spec_split(bs, spec_newline_sep(nl)).map_values(|p: Seq<u8>| spec_decode_text(cp, p))
}

/// The bytes of a line list: the lines encoded and joined by the newline
/// style's separator.
pub open spec fn spec_encode_multiline(cp: CodePage, nl: Newline, lines: Seq<Seq<char>>) -> Option<
    Seq<u8>,
> {
    spec_encode_lines(cp, lines, spec_newline_sep(nl))
}

/// Decoded lines re-encode to exactly their payload bytes.
pub proof fn lemma_multiline_round_trip(cp: CodePage, nl: Newline, bs: Seq<u8>)
    ensures
        spec_encode_multiline(cp, nl, spec_decode_multiline(cp, nl, bs)) == Some(bs),
{
    lemma_lines_round_trip(cp, bs, spec_newline_sep(nl));
}

/// The NUL-separated texts a whole payload denotes, with the flag that
/// remembers whether a final NUL was present.
pub open spec fn spec_decode_string_z_list(cp: CodePage, bs: Seq<u8>) -> StringZListV {
    let tail = bs.len() > 0 && bs.last() == 0;
    let body = if tail {
        bs.drop_last()
    } else {
        bs
    };
    StringZListV {
        strings: spec_split(body, seq![0u8]).map_values(|p: Seq<u8>| spec_decode_text(cp, p)),
        has_tail_zero: tail,
    }
}

/// The bytes of a NUL-separated list: the texts encoded and joined by
/// NUL, then a final NUL exactly when the flag says so.
pub open spec fn spec_encode_string_z_list(cp: CodePage, v: StringZListV) -> Option<Seq<u8>> {
    match spec_encode_lines(cp, v.strings, seq![0u8]) {
        Option::None => None,
        Option::Some(e) => Some(
            if v.has_tail_zero {
                e.push(0)
            } else {
                e
            },
        ),
    }
}

/// A decoded NUL-separated list re-encodes to exactly its payload bytes.
pub proof fn lemma_string_z_list_round_trip(cp: CodePage, bs: Seq<u8>)
    ensures
        spec_encode_string_z_list(cp, spec_decode_string_z_list(cp, bs)) == Some(bs),
{
    let tail = bs.len() > 0 && bs.last() == 0;
    if tail {
        lemma_lines_round_trip(cp, bs.drop_last(), seq![0u8]);
        assert(bs.drop_last().push(0) =~= bs);
    } else {
        lemma_lines_round_trip(cp, bs, seq![0u8]);
    }
}

/// Text written into a fixed width: its encoding padded with NULs up to
/// the width, or nothing if it comes out longer.
pub open spec fn spec_encode_fixed_text(cp: CodePage, w: int, cs: Seq<char>) -> Option<Seq<u8>> {
    match spec_encode_text(cp, cs) {
        Option::None => None,
        Option::Some(e) => if e.len() > w {
            None
        } else {
            Some(e + spec_zeros(w - e.len()))
        },
    }
}

/// Text decoded from a full fixed-width region re-encodes to exactly
/// that region.
pub proof fn lemma_fixed_text_round_trip(cp: CodePage, bs: Seq<u8>)
    ensures
        spec_encode_fixed_text(cp, bs.len() as int, spec_decode_text(cp, bs)) == Some(bs),
{
    lemma_text_round_trip(cp, bs);
    assert(bs + spec_zeros(0) =~= bs);
}

/// Encodes text into a fixed-width region, NUL-padded; fails with
/// `InvalidFixedString` when the encoding is longer than the width, and
/// with `UnknownCodePageChar` when a character has no single-byte form.
pub fn encode_fixed_text(cp: CodePage, w: u32, s: &str, out: &mut Vec<u8>) -> (r: Result<
    (),
    DeError,
>)
    ensures
        r is Ok <==> spec_encode_fixed_text(cp, w as int, s@) is Some,
        r is Ok ==> final(out)@ == old(out)@ + spec_encode_fixed_text(cp, w as int, s@)->Some_0,
        r is Err ==> final(out)@ == old(out)@,
        r matches Err(e) ==> ((e matches DeError::UnknownCodePageChar(_)) && spec_encode_text(
            cp,
            s@,
        ) is None) || ((e matches DeError::InvalidFixedString { expected, actual } && (expected
            == w && (spec_encode_text(cp, s@) matches Some(enc) && (actual == enc.len() as u32
            && enc.len() > w))))),
{
    match encode_text(cp, s) {
        Option::None => {
            let c = first_unencodable_char(cp, s);
            Err(DeError::UnknownCodePageChar(c))
        },
        Option::Some(mut e) => {
            if e.len() > w as usize {
                return Err(
                    DeError::InvalidFixedString { expected: w, actual: e.len() as u32 },
                );
            }
            let pad = w as usize - e.len();
            out.append(&mut e);
            push_zeros(out, pad);
            proof {
                assert(final(out)@ =~= old(out)@ + spec_encode_fixed_text(
                    cp,
                    w as int,
                    s@,
                )->Some_0);
            }
            Ok(())
        },
    }
}

/// The first character of the string that the code page cannot write,
/// or NUL when every character encodes.
fn first_unencodable_char(cp: CodePage, s: &str) -> (c: char) {
    let len = s.unicode_len();
    let mut i: usize = 0;
    while i < len
        invariant
            len == s@.len(),
            i <= len,
        decreases len - i,
    {
        let c = s.get_char(i);
        if crate::code_page::encode_char(cp, c).is_none() {
            return c;
        }
        i = i + 1;
    }
    '\0'
}


/// The inventory entry a 36-byte payload holds.
pub open spec fn spec_decode_item(cp: CodePage, bs: Seq<u8>) -> Option<ItemV> {
    if bs.len() != 36 {
        None
    } else {
        Some(
            ItemV {
                count: spec_i32_from_le(bs.subrange(0, 4)),
                item_id: spec_decode_text(cp, bs.subrange(4, 36)),
            },
        )
    }
}

/// The 36 bytes of an inventory entry: the count, then the name in 32
/// NUL-padded bytes.
pub open spec fn spec_encode_item(cp: CodePage, v: ItemV) -> Option<Seq<u8>> {
    match spec_encode_fixed_text(cp, 32, v.item_id) {
        Option::None => None,
        Option::Some(e) => Some(spec_i32_to_le(v.count) + e),
    }
}

/// A decoded inventory entry re-encodes to exactly its payload bytes.
pub proof fn lemma_item_round_trip(cp: CodePage, bs: Seq<u8>)
    ensures
        spec_decode_item(cp, bs) matches Some(v) ==> spec_encode_item(cp, v) == Some(bs),
{
    lemma_le_round_trips();
    if bs.len() == 36 {
        lemma_fixed_text_round_trip(cp, bs.subrange(4, 36));
        match spec_decode_item(cp, bs) {
            Option::Some(v) => {
                assert(spec_i32_to_le(spec_i32_from_le(bs.subrange(0, 4))) == bs.subrange(0, 4));
                assert(bs.subrange(0, 4) + bs.subrange(4, 36) =~= bs);
            },
            Option::None => {
            },
        }
    }
}

/// The script header a 52-byte payload holds.
pub open spec fn spec_decode_script_metadata(cp: CodePage, bs: Seq<u8>) -> Option<
    ScriptMetadataV,
> {
    if bs.len() != 52 {
        None
    } else {
        Some(
            ScriptMetadataV {
                name: spec_decode_text(cp, bs.subrange(0, 32)),
                shorts: spec_u32_from_le_bytes(bs.subrange(32, 36)),
                longs: spec_u32_from_le_bytes(bs.subrange(36, 40)),
                floats: spec_u32_from_le_bytes(bs.subrange(40, 44)),
                data_size: spec_u32_from_le_bytes(bs.subrange(44, 48)),
                var_table_size: spec_u32_from_le_bytes(bs.subrange(48, 52)),
            },
        )
    }
}

/// The 52 bytes of a script header: the name in 32 NUL-padded bytes,
/// then its five counters.
pub open spec fn spec_encode_script_metadata(cp: CodePage, v: ScriptMetadataV) -> Option<
    Seq<u8>,
> {
    match spec_encode_fixed_text(cp, 32, v.name) {
        Option::None => None,
        Option::Some(e) => Some(
            e + spec_u32_to_le_bytes(v.shorts) + spec_u32_to_le_bytes(v.longs)
                + spec_u32_to_le_bytes(v.floats) + spec_u32_to_le_bytes(v.data_size)
                + spec_u32_to_le_bytes(v.var_table_size),
        ),
    }
}

/// A decoded script header re-encodes to exactly its payload bytes.
pub proof fn lemma_script_metadata_round_trip(cp: CodePage, bs: Seq<u8>)
    ensures
        spec_decode_script_metadata(cp, bs) matches Some(v) ==> spec_encode_script_metadata(
            cp,
            v,
        ) == Some(bs),
{
    lemma_le_round_trips();
    if bs.len() == 52 {
        lemma_fixed_text_round_trip(cp, bs.subrange(0, 32));
        match spec_decode_script_metadata(cp, bs) {
            Option::Some(v) => {
                assert(bs.subrange(0, 32) + bs.subrange(32, 36) + bs.subrange(36, 40)
                    + bs.subrange(40, 44) + bs.subrange(44, 48) + bs.subrange(48, 52) =~= bs);
            },
            Option::None => {
            },
        }
    }
}

/// The file header a 300-byte payload holds, if its file type is named.
pub open spec fn spec_decode_file_metadata(cp: CodePage, bs: Seq<u8>) -> Option<FileMetadataV> {
    if bs.len() != 300 {
        None
    } else {
        match FileType::spec_from_u32(spec_u32_from_le_bytes(bs.subrange(4, 8))) {
            Option::None => None,
            Option::Some(file_type) => Some(
                FileMetadataV {
                    version: spec_u32_from_le_bytes(bs.subrange(0, 4)),
                    file_type,
                    author: spec_decode_text(cp, bs.subrange(8, 40)),
                    description: spec_split(bs.subrange(40, 296), spec_newline_sep(Newline::Dos))
                        .map_values(|p: Seq<u8>| spec_decode_text(cp, p)),
                    records_count: spec_u32_from_le_bytes(bs.subrange(296, 300)),
                },
            ),
        }
    }
}

/// The 300 bytes of a file header: version, file type, the author in 32
/// NUL-padded bytes, the description lines joined by DOS newlines in 256
/// NUL-padded bytes, and the record count.
pub open spec fn spec_encode_file_metadata(cp: CodePage, v: FileMetadataV) -> Option<Seq<u8>> {
    match spec_encode_fixed_text(cp, 32, v.author) {
        Option::None => None,
        Option::Some(a) => match spec_encode_lines(cp, v.description, spec_newline_sep(
            Newline::Dos,
        )) {
            Option::None => None,
            Option::Some(d) => if d.len() > 256 {
                None
            } else {
                Some(
                    spec_u32_to_le_bytes(v.version) + spec_u32_to_le_bytes(
                        v.file_type.spec_to_u32(),
                    ) + a + d + spec_zeros(256 - d.len()) + spec_u32_to_le_bytes(v.records_count),
                )
            },
        },
    }
}

/// A decoded file header re-encodes to exactly its payload bytes.
pub proof fn lemma_file_metadata_round_trip(cp: CodePage, bs: Seq<u8>)
    ensures
        spec_decode_file_metadata(cp, bs) matches Some(v) ==> spec_encode_file_metadata(cp, v)
            == Some(bs),
{
    lemma_le_round_trips();
    if bs.len() == 300 {
        lemma_file_type_round_trip(spec_u32_from_le_bytes(bs.subrange(4, 8)));
        lemma_fixed_text_round_trip(cp, bs.subrange(8, 40));
        lemma_lines_round_trip(cp, bs.subrange(40, 296), spec_newline_sep(Newline::Dos));
        match spec_decode_file_metadata(cp, bs) {
            Option::Some(v) => {
                assert(bs.subrange(40, 296) + spec_zeros(0) =~= bs.subrange(40, 296));
                assert(bs.subrange(0, 4) + bs.subrange(4, 8) + bs.subrange(8, 40) + (bs.subrange(
                    40,
                    296,
                ) + spec_zeros(0)) + bs.subrange(296, 300) =~= bs);
            },
            Option::None => {
            },
        }
    }
}

/// The dialog note a payload holds: four padding bytes, or one dialog
/// type byte; the payload size alone decides which.
pub open spec fn spec_decode_dialog_metadata(bs: Seq<u8>) -> Option<DialogTypeOption> {
    if bs.len() == 4 {
        Some(DialogTypeOption::Padding(spec_u32_from_le_bytes(bs)))
    } else if bs.len() == 1 {
        match DialogType::spec_from_u8(bs[0]) {
            Option::None => None,
            Option::Some(d) => Some(DialogTypeOption::Present(d)),
        }
    } else {
        None
    }
}

/// The bytes of a dialog note: the four padding bytes, or the one type
/// byte.
pub open spec fn spec_encode_dialog_metadata(v: DialogTypeOption) -> Seq<u8> {
    match v {
        DialogTypeOption::Padding(p) => spec_u32_to_le_bytes(p),
        DialogTypeOption::Present(d) => seq![d.spec_to_u8()],
    }
}

/// A decoded dialog note re-encodes to exactly its payload bytes.
pub proof fn lemma_dialog_metadata_round_trip(bs: Seq<u8>)
    ensures
        spec_decode_dialog_metadata(bs) matches Some(v) ==> spec_encode_dialog_metadata(v) == bs,
{
    lemma_le_round_trips();
    if bs.len() == 1 {
        lemma_dialog_type_round_trip(bs[0]);
        match spec_decode_dialog_metadata(bs) {
            Option::Some(v) => {
                assert(spec_encode_dialog_metadata(v) =~= bs);
            },
            Option::None => {
            },
        }
    }
}

/// The NPC stats a payload holds, in whichever of the two sized forms
/// its length names.
pub open spec fn spec_decode_npc_field(bs: Seq<u8>) -> Option<crate::field::Npc> {
    if bs.len() == 12 {
        match crate::codec::spec_decode_npc12(bs) {
            Option::None => None,
            Option::Some(v) => Some(crate::field::Npc12Or52::Npc12(v).spec_to_npc()),
        }
    } else if bs.len() == 52 {
        match crate::codec::spec_decode_npc52(bs) {
            Option::None => None,
            Option::Some(v) => Some(crate::field::Npc12Or52::Npc52(v).spec_to_npc()),
        }
    } else {
        None
    }
}

/// The bytes of NPC stats, 12 or 52 of them as the characteristics are
/// absent or present.
pub open spec fn spec_encode_npc_field(n: crate::field::Npc) -> Seq<u8> {
    match n.spec_to_sized() {
        crate::field::Npc12Or52::Npc12(v) => crate::codec::spec_encode_npc12(v),
        crate::field::Npc12Or52::Npc52(v) => crate::codec::spec_encode_npc52(v),
    }
}

/// Decoded NPC stats re-encode to exactly their payload bytes.
pub proof fn lemma_npc_field_round_trip(bs: Seq<u8>)
    ensures
        spec_decode_npc_field(bs) matches Some(n) ==> spec_encode_npc_field(n) == bs,
{
    crate::codec::lemma_npc12_round_trip(bs);
    crate::codec::lemma_npc52_round_trip(bs);
    match spec_decode_npc_field(bs) {
        Option::Some(n) => {
            crate::field::lemma_npc_sized_round_trip(n, n.spec_to_sized());
            if bs.len() == 12 {
                match crate::codec::spec_decode_npc12(bs) {
                    Option::Some(v) => {
                        crate::field::lemma_npc_sized_round_trip(
                            n,
                            crate::field::Npc12Or52::Npc12(v),
                        );
                    },
                    Option::None => {
                    },
                }
            } else {
                match crate::codec::spec_decode_npc52(bs) {
                    Option::Some(v) => {
                        crate::field::lemma_npc_sized_round_trip(
                            n,
                            crate::field::Npc12Or52::Npc52(v),
                        );
                    },
                    Option::None => {
                    },
                }
            }
        },
        Option::None => {
        },
    }
}

/// The ingredient stats a 56-byte payload holds.
pub open spec fn spec_decode_ingredient(bs: Seq<u8>) -> Option<crate::field::IngredientV> {
    if bs.len() != 56 {
        None
    } else {
        Some(
            crate::field::IngredientV {
                weight: spec_u32_from_le_bytes(bs.subrange(0, 4)),
                value: spec_u32_from_le_bytes(bs.subrange(4, 8)),
                effects: seq![
                    spec_i32_from_le(bs.subrange(8, 12)),
                    spec_i32_from_le(bs.subrange(12, 16)),
                    spec_i32_from_le(bs.subrange(16, 20)),
                    spec_i32_from_le(bs.subrange(20, 24)),
                ],
                skills: seq![
                    spec_i32_from_le(bs.subrange(24, 28)),
                    spec_i32_from_le(bs.subrange(28, 32)),
                    spec_i32_from_le(bs.subrange(32, 36)),
                    spec_i32_from_le(bs.subrange(36, 40)),
                ],
                attributes: seq![
                    spec_i32_from_le(bs.subrange(40, 44)),
                    spec_i32_from_le(bs.subrange(44, 48)),
                    spec_i32_from_le(bs.subrange(48, 52)),
                    spec_i32_from_le(bs.subrange(52, 56)),
                ],
            },
        )
    }
}

/// The 56 bytes of ingredient stats.
pub open spec fn spec_encode_ingredient(v: crate::field::IngredientV) -> Seq<u8> {
    spec_u32_to_le_bytes(v.weight) + spec_u32_to_le_bytes(v.value) + spec_i32_to_le(v.effects[0])
        + spec_i32_to_le(v.effects[1]) + spec_i32_to_le(v.effects[2]) + spec_i32_to_le(
        v.effects[3],
    ) + spec_i32_to_le(v.skills[0]) + spec_i32_to_le(v.skills[1]) + spec_i32_to_le(v.skills[2])
        + spec_i32_to_le(v.skills[3]) + spec_i32_to_le(v.attributes[0]) + spec_i32_to_le(
        v.attributes[1],
    ) + spec_i32_to_le(v.attributes[2]) + spec_i32_to_le(v.attributes[3])
}

/// Decoded ingredient stats re-encode to exactly their payload bytes.
pub proof fn lemma_ingredient_round_trip(bs: Seq<u8>)
    ensures
        spec_decode_ingredient(bs) matches Some(v) ==> spec_encode_ingredient(v) == bs,
{
    lemma_le_round_trips();
    match spec_decode_ingredient(bs) {
        Option::Some(v) => {
            assert(spec_encode_ingredient(v) =~= bs);
        },
        Option::None => {
        },
    }
}

/// The wander package a 14-byte payload holds.
pub open spec fn spec_decode_ai_wander(bs: Seq<u8>) -> Option<crate::field::AiWanderV> {
    if bs.len() != 14 {
        None
    } else {
        Some(
            crate::field::AiWanderV {
                distance: vstd::bytes::spec_u16_from_le_bytes(bs.subrange(0, 2)),
                duration: vstd::bytes::spec_u16_from_le_bytes(bs.subrange(2, 4)),
                time_of_day: bs[4],
                idle: bs.subrange(5, 13),
                repeat: bs[13],
            },
        )
    }
}

/// The 14 bytes of a wander package; a value whose idle block is not
/// eight bytes has no written form.
pub open spec fn spec_encode_ai_wander(v: crate::field::AiWanderV) -> Option<Seq<u8>> {
    if v.idle.len() != 8 {
        None
    } else {
        Some(
            vstd::bytes::spec_u16_to_le_bytes(v.distance) + vstd::bytes::spec_u16_to_le_bytes(
                v.duration,
            ) + seq![v.time_of_day] + v.idle + seq![v.repeat],
        )
    }
}

/// A decoded wander package re-encodes to exactly its payload bytes.
pub proof fn lemma_ai_wander_round_trip(bs: Seq<u8>)
    ensures
        spec_decode_ai_wander(bs) matches Some(v) ==> spec_encode_ai_wander(v) == Some(bs),
{
    lemma_le_round_trips();
    match spec_decode_ai_wander(bs) {
        Option::Some(v) => {
            match spec_encode_ai_wander(v) {
                Option::Some(e) => {
                    assert(e =~= bs);
                },
                Option::None => {
                },
            }
        },
        Option::None => {
        },
    }
}

/// The body slot a one-byte payload names.
pub open spec fn spec_decode_biped_object(bs: Seq<u8>) -> Option<crate::enums::BipedObject> {
    if bs.len() != 1 {
        None
    } else {
        crate::enums::BipedObject::spec_from_u8(bs[0])
    }
}

/// The one byte of a body slot.
pub open spec fn spec_encode_biped_object(v: crate::enums::BipedObject) -> Seq<u8> {
    seq![v.spec_to_u8()]
}

/// A decoded body slot re-encodes to exactly its payload byte.
pub proof fn lemma_biped_object_round_trip(bs: Seq<u8>)
    ensures
        spec_decode_biped_object(bs) matches Some(v) ==> spec_encode_biped_object(v) == bs,
{
    if bs.len() == 1 {
        crate::enums::lemma_biped_object_round_trip(bs[0]);
        match spec_decode_biped_object(bs) {
            Option::Some(v) => {
                assert(spec_encode_biped_object(v) =~= bs);
            },
            Option::None => {
            },
        }
    }
}


/// The value a field payload holds, by the dispatch table: `None` where
/// the size or a named value does not fit the field's shape.
pub open spec fn spec_decode_field(r: u32, f: u32, cp: CodePage, bs: Seq<u8>) -> Option<
    crate::field::FieldView,
> {
    match crate::field_type::spec_field_type(r, f) {
        FieldType::Binary => Some(crate::field::FieldView::Binary(bs)),
        FieldType::Compressed => Some(crate::field::FieldView::Binary(bs)),
        FieldType::VarString => Some(crate::field::FieldView::String(spec_decode_text(cp, bs))),
        FieldType::FixedString(w) => if bs.len() == w {
            Some(crate::field::FieldView::String(spec_decode_text(cp, bs)))
        } else {
            None
        },
        FieldType::StringZ => Some(
            crate::field::FieldView::StringZ(spec_decode_string_z(cp, bs)),
        ),
        FieldType::Multiline(nl) => Some(
            crate::field::FieldView::StringList(spec_decode_multiline(cp, nl, bs)),
        ),
        FieldType::StringZList => Some(
            crate::field::FieldView::StringZList(spec_decode_string_z_list(cp, bs)),
        ),
        FieldType::Item => match spec_decode_item(cp, bs) {
            Option::Some(v) => Some(crate::field::FieldView::Item(v)),
            Option::None => None,
        },
        FieldType::Float => if bs.len() == 4 {
            Some(crate::field::FieldView::Float(spec_u32_from_le_bytes(bs)))
        } else {
            None
        },
        FieldType::Int => if bs.len() == 4 {
            Some(crate::field::FieldView::Int(spec_i32_from_le(bs)))
        } else {
            None
        },
        FieldType::Short => if bs.len() == 2 {
            Some(crate::field::FieldView::Short(crate::wire::spec_i16_from_le(bs)))
        } else {
            None
        },
        FieldType::Long => if bs.len() == 8 {
            Some(crate::field::FieldView::Long(crate::wire::spec_i64_from_le(bs)))
        } else {
            None
        },
        FieldType::Byte => if bs.len() == 1 {
            Some(crate::field::FieldView::Byte(bs[0]))
        } else {
            None
        },
        FieldType::Ingredient => match spec_decode_ingredient(bs) {
            Option::Some(v) => Some(crate::field::FieldView::Ingredient(v)),
            Option::None => None,
        },
        FieldType::ScriptMetadata => match spec_decode_script_metadata(cp, bs) {
            Option::Some(v) => Some(crate::field::FieldView::ScriptMetadata(v)),
            Option::None => None,
        },
        FieldType::DialogMetadata => match spec_decode_dialog_metadata(bs) {
            Option::Some(v) => Some(crate::field::FieldView::DialogMetadata(v)),
            Option::None => None,
        },
        FieldType::FileMetadata => match spec_decode_file_metadata(cp, bs) {
            Option::Some(v) => Some(crate::field::FieldView::FileMetadata(v)),
            Option::None => None,
        },
        FieldType::Npc => match spec_decode_npc_field(bs) {
            Option::Some(v) => Some(crate::field::FieldView::Npc(v)),
            Option::None => None,
        },
        FieldType::SavedNpc => match crate::codec::spec_decode_saved_npc(bs) {
            Option::Some(v) => Some(crate::field::FieldView::SavedNpc(v)),
            Option::None => None,
        },
        FieldType::Effect => match crate::codec::spec_decode_effect(bs) {
            Option::Some(v) => Some(crate::field::FieldView::Effect(v)),
            Option::None => None,
        },
        FieldType::SpellMetadata => match crate::codec::spec_decode_spell_metadata(bs) {
            Option::Some(v) => Some(crate::field::FieldView::SpellMetadata(v)),
            Option::None => None,
        },
        FieldType::Ai => match crate::codec::spec_decode_ai(bs) {
            Option::Some(v) => Some(crate::field::FieldView::Ai(v)),
            Option::None => None,
        },
        FieldType::AiWander => match spec_decode_ai_wander(bs) {
            Option::Some(v) => Some(crate::field::FieldView::AiWander(v)),
            Option::None => None,
        },
        FieldType::AiTravel => match crate::codec::spec_decode_ai_travel(bs) {
            Option::Some(v) => Some(crate::field::FieldView::AiTravel(v)),
            Option::None => None,
        },
        FieldType::NpcFlags => match crate::codec::spec_decode_npc_flags(bs) {
            Option::Some(v) => Some(crate::field::FieldView::NpcFlags(v)),
            Option::None => None,
        },
        FieldType::CreatureFlags => match crate::codec::spec_decode_creature_flags(bs) {
            Option::Some(v) => Some(crate::field::FieldView::CreatureFlags(v)),
            Option::None => None,
        },
        FieldType::Book => match crate::codec::spec_decode_book(bs) {
            Option::Some(v) => Some(crate::field::FieldView::Book(v)),
            Option::None => None,
        },
        FieldType::ContainerFlags => if bs.len() == 4 {
            match crate::flags::ContainerFlags::spec_from_bits(spec_u32_from_le_bytes(bs)) {
                Option::Some(v) => Some(crate::field::FieldView::ContainerFlags(v)),
                Option::None => None,
            }
        } else {
            None
        },
        FieldType::Creature => match crate::codec::spec_decode_creature(bs) {
            Option::Some(v) => Some(crate::field::FieldView::Creature(v)),
            Option::None => None,
        },
        FieldType::Light => match crate::codec::spec_decode_light(bs) {
            Option::Some(v) => Some(crate::field::FieldView::Light(v)),
            Option::None => None,
        },
        FieldType::MiscItem => match crate::codec::spec_decode_misc_item(bs) {
            Option::Some(v) => Some(crate::field::FieldView::MiscItem(v)),
            Option::None => None,
        },
        FieldType::Apparatus => match crate::codec::spec_decode_apparatus(bs) {
            Option::Some(v) => Some(crate::field::FieldView::Apparatus(v)),
            Option::None => None,
        },
        FieldType::Weapon => match crate::codec::spec_decode_weapon(bs) {
            Option::Some(v) => Some(crate::field::FieldView::Weapon(v)),
            Option::None => None,
        },
        FieldType::Armor => match crate::codec::spec_decode_armor(bs) {
            Option::Some(v) => Some(crate::field::FieldView::Armor(v)),
            Option::None => None,
        },
        FieldType::BipedObject => match spec_decode_biped_object(bs) {
            Option::Some(v) => Some(crate::field::FieldView::BipedObject(v)),
            Option::None => None,
        },
        FieldType::BodyPart => match crate::codec::spec_decode_body_part(bs) {
            Option::Some(v) => Some(crate::field::FieldView::BodyPart(v)),
            Option::None => None,
        },
        FieldType::Clothing => match crate::codec::spec_decode_clothing(bs) {
            Option::Some(v) => Some(crate::field::FieldView::Clothing(v)),
            Option::None => None,
        },
    }
}

/// Whether a field value has the shape that the dispatch table assigns
/// to the pair, so that it can be written under it.
pub open spec fn spec_field_matches(t: FieldType, fv: crate::field::FieldView) -> bool {
    match t {
        FieldType::Binary => fv is Binary,
        FieldType::Compressed => fv is Binary,
        FieldType::VarString => fv is String,
        FieldType::FixedString(_) => fv is String,
        FieldType::StringZ => fv is StringZ,
        FieldType::Multiline(_) => fv is StringList,
        FieldType::StringZList => fv is StringZList,
        FieldType::Item => fv is Item,
        FieldType::Float => fv is Float,
        FieldType::Int => fv is Int,
        FieldType::Short => fv is Short,
        FieldType::Long => fv is Long,
        FieldType::Byte => fv is Byte,
        FieldType::Ingredient => fv is Ingredient,
        FieldType::ScriptMetadata => fv is ScriptMetadata,
        FieldType::DialogMetadata => fv is DialogMetadata,
        FieldType::FileMetadata => fv is FileMetadata,
        FieldType::Npc => fv is Npc,
        FieldType::SavedNpc => fv is SavedNpc,
        FieldType::Effect => fv is Effect,
        FieldType::SpellMetadata => fv is SpellMetadata,
        FieldType::Ai => fv is Ai,
        FieldType::AiWander => fv is AiWander,
        FieldType::AiTravel => fv is AiTravel,
        FieldType::NpcFlags => fv is NpcFlags,
        FieldType::CreatureFlags => fv is CreatureFlags,
        FieldType::Book => fv is Book,
        FieldType::ContainerFlags => fv is ContainerFlags,
        FieldType::Creature => fv is Creature,
        FieldType::Light => fv is Light,
        FieldType::MiscItem => fv is MiscItem,
        FieldType::Apparatus => fv is Apparatus,
        FieldType::Weapon => fv is Weapon,
        FieldType::Armor => fv is Armor,
        FieldType::BipedObject => fv is BipedObject,
        FieldType::BodyPart => fv is BodyPart,
        FieldType::Clothing => fv is Clothing,
    }
}

/// The bytes that write a field value under the dispatch table's shape
/// for the pair: `None` where a character cannot be encoded, fixed-width
/// text runs over, or the value's shape is not the pair's.
pub open spec fn spec_encode_field(r: u32, f: u32, cp: CodePage, fv: crate::field::FieldView) -> Option<
    Seq<u8>,
> {
    match crate::field_type::spec_field_type(r, f) {
        FieldType::Binary | FieldType::Compressed => match fv {
            crate::field::FieldView::Binary(b) => Some(b),
            _ => None,
        },
        FieldType::VarString => match fv {
            crate::field::FieldView::String(s) => spec_encode_text(cp, s),
            _ => None,
        },
        FieldType::FixedString(w) => match fv {
            crate::field::FieldView::String(s) => spec_encode_fixed_text(cp, w as int, s),
            _ => None,
        },
        FieldType::StringZ => match fv {
            crate::field::FieldView::StringZ(z) => spec_encode_string_z(cp, z),
            _ => None,
        },
        FieldType::Multiline(nl) => match fv {
            crate::field::FieldView::StringList(ls) => spec_encode_multiline(cp, nl, ls),
            _ => None,
        },
        FieldType::StringZList => match fv {
            crate::field::FieldView::StringZList(z) => spec_encode_string_z_list(cp, z),
            _ => None,
        },
        FieldType::Item => match fv {
            crate::field::FieldView::Item(v) => spec_encode_item(cp, v),
            _ => None,
        },
        FieldType::Float => match fv {
            crate::field::FieldView::Float(x) => Some(spec_u32_to_le_bytes(x)),
            _ => None,
        },
        FieldType::Int => match fv {
            crate::field::FieldView::Int(x) => Some(spec_i32_to_le(x)),
            _ => None,
        },
        FieldType::Short => match fv {
            crate::field::FieldView::Short(x) => Some(crate::wire::spec_i16_to_le(x)),
            _ => None,
        },
        FieldType::Long => match fv {
            crate::field::FieldView::Long(x) => Some(crate::wire::spec_i64_to_le(x)),
            _ => None,
        },
        FieldType::Byte => match fv {
            crate::field::FieldView::Byte(x) => Some(seq![x]),
            _ => None,
        },
        FieldType::Ingredient => match fv {
            crate::field::FieldView::Ingredient(v) => Some(spec_encode_ingredient(v)),
            _ => None,
        },
        FieldType::ScriptMetadata => match fv {
            crate::field::FieldView::ScriptMetadata(v) => spec_encode_script_metadata(cp, v),
            _ => None,
        },
        FieldType::DialogMetadata => match fv {
            crate::field::FieldView::DialogMetadata(v) => Some(spec_encode_dialog_metadata(v)),
            _ => None,
        },
        FieldType::FileMetadata => match fv {
            crate::field::FieldView::FileMetadata(v) => spec_encode_file_metadata(cp, v),
            _ => None,
        },
        FieldType::Npc => match fv {
            crate::field::FieldView::Npc(v) => Some(spec_encode_npc_field(v)),
            _ => None,
        },
        FieldType::SavedNpc => match fv {
            crate::field::FieldView::SavedNpc(v) => Some(crate::codec::spec_encode_saved_npc(v)),
            _ => None,
        },
        FieldType::Effect => match fv {
            crate::field::FieldView::Effect(v) => Some(crate::codec::spec_encode_effect(v)),
            _ => None,
        },
        FieldType::SpellMetadata => match fv {
            crate::field::FieldView::SpellMetadata(v) => Some(
                crate::codec::spec_encode_spell_metadata(v),
            ),
            _ => None,
        },
        FieldType::Ai => match fv {
            crate::field::FieldView::Ai(v) => Some(crate::codec::spec_encode_ai(v)),
            _ => None,
        },
        FieldType::AiWander => match fv {
            crate::field::FieldView::AiWander(v) => spec_encode_ai_wander(v),
            _ => None,
        },
        FieldType::AiTravel => match fv {
            crate::field::FieldView::AiTravel(v) => Some(crate::codec::spec_encode_ai_travel(v)),
            _ => None,
        },
        FieldType::NpcFlags => match fv {
            crate::field::FieldView::NpcFlags(v) => Some(crate::codec::spec_encode_npc_flags(v)),
            _ => None,
        },
        FieldType::CreatureFlags => match fv {
            crate::field::FieldView::CreatureFlags(v) => Some(
                crate::codec::spec_encode_creature_flags(v),
            ),
            _ => None,
        },
        FieldType::Book => match fv {
            crate::field::FieldView::Book(v) => Some(crate::codec::spec_encode_book(v)),
            _ => None,
        },
        FieldType::ContainerFlags => match fv {
            crate::field::FieldView::ContainerFlags(v) => Some(spec_u32_to_le_bytes(v.bits)),
            _ => None,
        },
        FieldType::Creature => match fv {
            crate::field::FieldView::Creature(v) => Some(crate::codec::spec_encode_creature(v)),
            _ => None,
        },
        FieldType::Light => match fv {
            crate::field::FieldView::Light(v) => Some(crate::codec::spec_encode_light(v)),
            _ => None,
        },
        FieldType::MiscItem => match fv {
            crate::field::FieldView::MiscItem(v) => Some(crate::codec::spec_encode_misc_item(v)),
            _ => None,
        },
        FieldType::Apparatus => match fv {
            crate::field::FieldView::Apparatus(v) => Some(crate::codec::spec_encode_apparatus(v)),
            _ => None,
        },
        FieldType::Weapon => match fv {
            crate::field::FieldView::Weapon(v) => Some(crate::codec::spec_encode_weapon(v)),
            _ => None,
        },
        FieldType::Armor => match fv {
            crate::field::FieldView::Armor(v) => Some(crate::codec::spec_encode_armor(v)),
            _ => None,
        },
        FieldType::BipedObject => match fv {
            crate::field::FieldView::BipedObject(v) => Some(spec_encode_biped_object(v)),
            _ => None,
        },
        FieldType::BodyPart => match fv {
            crate::field::FieldView::BodyPart(v) => Some(crate::codec::spec_encode_body_part(v)),
            _ => None,
        },
        FieldType::Clothing => match fv {
            crate::field::FieldView::Clothing(v) => Some(crate::codec::spec_encode_clothing(v)),
            _ => None,
        },
    }
}


/// Decodes one field: the payload bytes are the whole slice, exactly as
/// the record layer framed them; the dispatch table on the two tags
/// picks the shape.
#[verifier::rlimit(80)]
#[verifier::spinoff_prover]
pub fn decode_field(
    record_tag: crate::tag::Tag,
    field_tag: crate::tag::Tag,
    payload: &[u8],
    code_page: CodePage,
) -> (r: Result<crate::field::Field, DeError>)
    ensures
        r is Ok <==> spec_decode_field(
            record_tag.dword,
            field_tag.dword,
            code_page,
            payload@,
        ) is Some,
        r matches Ok(fld) ==> Some(fld@) == spec_decode_field(
            record_tag.dword,
            field_tag.dword,
            code_page,
            payload@,
        ),
        crate::laws::spec_fixed_size(
            crate::field_type::spec_field_type(record_tag.dword, field_tag.dword),
        ) matches Some(n) ==> (payload@.len() != n ==> r == Err::<crate::field::Field, DeError>(
            DeError::InvalidSize { expected: n as u32, actual: payload@.len() as u32 },
        )),
        (crate::field_type::spec_field_type(record_tag.dword, field_tag.dword)
            is DialogMetadata && payload@.len() != 1 && payload@.len() != 4) ==> r == Err::<
            crate::field::Field,
            DeError,
        >(DeError::InvalidSize { expected: 4, actual: payload@.len() as u32 }),
        (crate::field_type::spec_field_type(record_tag.dword, field_tag.dword)
            is DialogMetadata && payload@.len() == 1 && DialogType::spec_from_u8(
            payload@[0],
        ) is None) ==> r == Err::<crate::field::Field, DeError>(
            DeError::InvalidEnumValue(EnumKind::DialogType, payload@[0] as u64),
        ),
        (crate::field_type::spec_field_type(record_tag.dword, field_tag.dword) is Npc
            && payload@.len() != 12 && payload@.len() != 52) ==> r == Err::<
            crate::field::Field,
            DeError,
        >(DeError::InvalidSize { expected: 52, actual: payload@.len() as u32 }),
        (crate::field_type::spec_field_type(record_tag.dword, field_tag.dword)
            is FileMetadata && payload@.len() == 300 && FileType::spec_from_u32(
            spec_u32_from_le_bytes(payload@.subrange(4, 8)),
        ) is None) ==> r == Err::<crate::field::Field, DeError>(
            DeError::InvalidEnumValue(
                EnumKind::FileType,
                spec_u32_from_le_bytes(payload@.subrange(4, 8)) as u64,
            ),
        ),
        (crate::field_type::spec_field_type(record_tag.dword, field_tag.dword)
            is ContainerFlags && payload@.len() == 4
            && !crate::flags::ContainerFlags::spec_valid_bits(
            spec_u32_from_le_bytes(payload@),
        )) ==> r == Err::<crate::field::Field, DeError>(
            DeError::InvalidFlagBits(
                crate::errors::FlagKind::ContainerFlags,
                spec_u32_from_le_bytes(payload@) as u64,
            ),
        ),
        (crate::field_type::spec_field_type(record_tag.dword, field_tag.dword)
            is BipedObject && payload@.len() == 1 && crate::enums::BipedObject::spec_from_u8(
            payload@[0],
        ) is None) ==> r == Err::<crate::field::Field, DeError>(
            DeError::InvalidEnumValue(EnumKind::BipedObject, payload@[0] as u64),
        ),
{
    let cp = code_page;
    let len = payload.len();
    match crate::field_type::FieldType::from_tags(record_tag, field_tag) {
        FieldType::Binary | FieldType::Compressed => {
            let out = crate::field::Field::Binary(slice_to_vec(payload));
            proof {
                assert(out@ =~~= crate::field::FieldView::Binary(payload@));
            }
            Ok(out)
        },
        FieldType::VarString => {
            let out = crate::field::Field::String(decode_text(cp, payload));
            proof {
                assert(out@ =~~= crate::field::FieldView::String(spec_decode_text(cp, payload@)));
            }
            Ok(out)
        },
        FieldType::FixedString(w) => {
            if len != w as usize {
                return Err(DeError::InvalidSize { expected: w, actual: len as u32 });
            }
            let out = crate::field::Field::String(decode_text(cp, payload));
            proof {
                assert(out@ =~~= crate::field::FieldView::String(spec_decode_text(cp, payload@)));
            }
            Ok(out)
        },
        FieldType::StringZ => {
            let tail = len > 0 && payload[len - 1] == 0;
            let body = if tail {
                slice_subrange(payload, 0, len - 1)
            } else {
                payload
            };
            proof {
                if tail {
                    assert(body@ =~= payload@.drop_last());
                }
            }
            let out = crate::field::Field::StringZ(
                crate::field::StringZ { string: decode_text(cp, body), has_tail_zero: tail },
            );
            proof {
                assert(out@ =~~= crate::field::FieldView::StringZ(
                    spec_decode_string_z(cp, payload@),
                ));
            }
            Ok(out)
        },
        FieldType::Multiline(nl) => {
            let sep = newline_sep(nl);
            let lines = decode_lines(cp, payload, sep.as_slice());
            let out = crate::field::Field::StringList(lines);
            proof {
                assert(out@ =~~= crate::field::FieldView::StringList(
                    spec_decode_multiline(cp, nl, payload@),
                ));
            }
            Ok(out)
        },
        FieldType::StringZList => {
            let tail = len > 0 && payload[len - 1] == 0;
            let body = if tail {
                slice_subrange(payload, 0, len - 1)
            } else {
                payload
            };
            proof {
                if tail {
                    assert(body@ =~= payload@.drop_last());
                }
            }
            let mut sep: Vec<u8> = Vec::new();
            sep.push(0);
            proof {
                assert(sep@ =~= seq![0u8]);
            }
            let lines = decode_lines(cp, body, sep.as_slice());
            let out = crate::field::Field::StringZList(
                crate::field::StringZList { strings: lines, has_tail_zero: tail },
            );
            proof {
                assert(out@ =~~= crate::field::FieldView::StringZList(
                    spec_decode_string_z_list(cp, payload@),
                ));
            }
            Ok(out)
        },
        FieldType::Item => {
            if len != 36 {
                return Err(DeError::InvalidSize { expected: 36, actual: len as u32 });
            }
            let count = read_i32_at(payload, 0);
            let item_id = decode_text(cp, slice_subrange(payload, 4, 36));
            let out = crate::field::Field::Item(crate::field::Item { count, item_id });
            proof {
                assert(out@ =~~= crate::field::FieldView::Item(
                    spec_decode_item(cp, payload@)->Some_0,
                ));
            }
            Ok(out)
        },
        FieldType::Float => {
            if len != 4 {
                return Err(DeError::InvalidSize { expected: 4, actual: len as u32 });
            }
            proof {
                assert(payload@.subrange(0, 4) =~= payload@);
            }
            Ok(crate::field::Field::Float(read_u32_at(payload, 0)))
        },
        FieldType::Int => {
            if len != 4 {
                return Err(DeError::InvalidSize { expected: 4, actual: len as u32 });
            }
            proof {
                assert(payload@.subrange(0, 4) =~= payload@);
            }
            Ok(crate::field::Field::Int(read_i32_at(payload, 0)))
        },
        FieldType::Short => {
            if len != 2 {
                return Err(DeError::InvalidSize { expected: 2, actual: len as u32 });
            }
            proof {
                assert(payload@.subrange(0, 2) =~= payload@);
            }
            Ok(crate::field::Field::Short(crate::wire::read_i16_at(payload, 0)))
        },
        FieldType::Long => {
            if len != 8 {
                return Err(DeError::InvalidSize { expected: 8, actual: len as u32 });
            }
            proof {
                assert(payload@.subrange(0, 8) =~= payload@);
            }
            Ok(crate::field::Field::Long(crate::wire::read_i64_at(payload, 0)))
        },
        FieldType::Byte => {
            if len != 1 {
                return Err(DeError::InvalidSize { expected: 1, actual: len as u32 });
            }
            Ok(crate::field::Field::Byte(payload[0]))
        },
        FieldType::Ingredient => {
            if len != 56 {
                return Err(DeError::InvalidSize { expected: 56, actual: len as u32 });
            }
            let out = crate::field::Field::Ingredient(
                crate::field::Ingredient {
                    weight: read_u32_at(payload, 0),
                    value: read_u32_at(payload, 4),
                    effects: [
                        read_i32_at(payload, 8),
                        read_i32_at(payload, 12),
                        read_i32_at(payload, 16),
                        read_i32_at(payload, 20),
                    ],
                    skills: [
                        read_i32_at(payload, 24),
                        read_i32_at(payload, 28),
                        read_i32_at(payload, 32),
                        read_i32_at(payload, 36),
                    ],
                    attributes: [
                        read_i32_at(payload, 40),
                        read_i32_at(payload, 44),
                        read_i32_at(payload, 48),
                        read_i32_at(payload, 52),
                    ],
                },
            );
            proof {
                assert(out@ =~~= crate::field::FieldView::Ingredient(
                    spec_decode_ingredient(payload@)->Some_0,
                ));
            }
            Ok(out)
        },
        FieldType::ScriptMetadata => {
            if len != 52 {
                return Err(DeError::InvalidSize { expected: 52, actual: len as u32 });
            }
            let out = crate::field::Field::ScriptMetadata(
                crate::field::ScriptMetadata {
                    name: decode_text(cp, slice_subrange(payload, 0, 32)),
                    shorts: read_u32_at(payload, 32),
                    longs: read_u32_at(payload, 36),
                    floats: read_u32_at(payload, 40),
                    data_size: read_u32_at(payload, 44),
                    var_table_size: read_u32_at(payload, 48),
                },
            );
            proof {
                assert(out@ =~~= crate::field::FieldView::ScriptMetadata(
                    spec_decode_script_metadata(cp, payload@)->Some_0,
                ));
            }
            Ok(out)
        },
        FieldType::DialogMetadata => {
            if len == 4 {
                proof {
                    assert(payload@.subrange(0, 4) =~= payload@);
                }
                Ok(crate::field::Field::DialogMetadata(
                    DialogTypeOption::Padding(read_u32_at(payload, 0)),
                ))
            } else if len == 1 {
                let raw = payload[0];
                match DialogType::from_u8(raw) {
                    Option::Some(d) => Ok(crate::field::Field::DialogMetadata(
                        DialogTypeOption::Present(d),
                    )),
                    Option::None => Err(DeError::InvalidEnumValue(
                        EnumKind::DialogType,
                        raw as u64,
                    )),
                }
            } else {
                Err(DeError::InvalidSize { expected: 4, actual: len as u32 })
            }
        },
        FieldType::FileMetadata => {
            if len != 300 {
                return Err(DeError::InvalidSize { expected: 300, actual: len as u32 });
            }
            let raw_ft = read_u32_at(payload, 4);
            let file_type = match FileType::from_u32(raw_ft) {
                Option::Some(v) => v,
                Option::None => {
                    return Err(DeError::InvalidEnumValue(EnumKind::FileType, raw_ft as u64));
                },
            };
            let sep = newline_sep(Newline::Dos);
            let description = decode_lines(cp, slice_subrange(payload, 40, 296), sep.as_slice());
            let out = crate::field::Field::FileMetadata(
                crate::field::FileMetadata {
                    version: read_u32_at(payload, 0),
                    file_type,
                    author: decode_text(cp, slice_subrange(payload, 8, 40)),
                    description,
                    records_count: read_u32_at(payload, 296),
                },
            );
            proof {
                assert(out@ =~~= crate::field::FieldView::FileMetadata(
                    spec_decode_file_metadata(cp, payload@)->Some_0,
                ));
            }
            Ok(out)
        },
        FieldType::Npc => {
            if len == 12 {
                match crate::codec::decode_npc12(payload) {
                    Ok(v) => Ok(crate::field::Field::Npc(
                        crate::field::Npc12Or52::Npc12(v).to_npc(),
                    )),
                    Err(e) => Err(e),
                }
            } else if len == 52 {
                match crate::codec::decode_npc52(payload) {
                    Ok(v) => Ok(crate::field::Field::Npc(
                        crate::field::Npc12Or52::Npc52(v).to_npc(),
                    )),
                    Err(e) => Err(e),
                }
            } else {
                Err(DeError::InvalidSize { expected: 52, actual: len as u32 })
            }
        },
        FieldType::SavedNpc => {
            match crate::codec::decode_saved_npc(payload) {
                Ok(v) => Ok(crate::field::Field::SavedNpc(v)),
                Err(e) => Err(e),
            }
        },
        FieldType::Effect => {
            match crate::codec::decode_effect(payload) {
                Ok(v) => Ok(crate::field::Field::Effect(v)),
                Err(e) => Err(e),
            }
        },
        FieldType::SpellMetadata => {
            match crate::codec::decode_spell_metadata(payload) {
                Ok(v) => Ok(crate::field::Field::SpellMetadata(v)),
                Err(e) => Err(e),
            }
        },
        FieldType::Ai => {
            match crate::codec::decode_ai(payload) {
                Ok(v) => Ok(crate::field::Field::Ai(v)),
                Err(e) => Err(e),
            }
        },
        FieldType::AiWander => {
            if len != 14 {
                return Err(DeError::InvalidSize { expected: 14, actual: len as u32 });
            }
            let out = crate::field::Field::AiWander(
                crate::field::AiWander {
                    distance: crate::wire::read_u16_at(payload, 0),
                    duration: crate::wire::read_u16_at(payload, 2),
                    time_of_day: payload[4],
                    idle: [
                        payload[5],
                        payload[6],
                        payload[7],
                        payload[8],
                        payload[9],
                        payload[10],
                        payload[11],
                        payload[12],
                    ],
                    repeat: payload[13],
                },
            );
            proof {
                match out {
                    crate::field::Field::AiWander(w) => {
                        assert(w.idle@ =~= payload@.subrange(5, 13));
                    },
                    _ => {
                    },
                }
                assert(out@ =~~= crate::field::FieldView::AiWander(
                    spec_decode_ai_wander(payload@)->Some_0,
                ));
            }
            Ok(out)
        },
        FieldType::AiTravel => {
            match crate::codec::decode_ai_travel(payload) {
                Ok(v) => Ok(crate::field::Field::AiTravel(v)),
                Err(e) => Err(e),
            }
        },
        FieldType::NpcFlags => {
            match crate::codec::decode_npc_flags(payload) {
                Ok(v) => Ok(crate::field::Field::NpcFlags(v)),
                Err(e) => Err(e),
            }
        },
        FieldType::CreatureFlags => {
            match crate::codec::decode_creature_flags(payload) {
                Ok(v) => Ok(crate::field::Field::CreatureFlags(v)),
                Err(e) => Err(e),
            }
        },
        FieldType::Book => {
            match crate::codec::decode_book(payload) {
                Ok(v) => Ok(crate::field::Field::Book(v)),
                Err(e) => Err(e),
            }
        },
        FieldType::ContainerFlags => {
            if len != 4 {
                return Err(DeError::InvalidSize { expected: 4, actual: len as u32 });
            }
            proof {
                assert(payload@.subrange(0, 4) =~= payload@);
            }
            let raw = read_u32_at(payload, 0);
            match crate::flags::ContainerFlags::from_bits(raw) {
                Option::Some(v) => Ok(crate::field::Field::ContainerFlags(v)),
                Option::None => Err(DeError::InvalidFlagBits(
                    crate::errors::FlagKind::ContainerFlags,
                    raw as u64,
                )),
            }
        },
        FieldType::Creature => {
            match crate::codec::decode_creature(payload) {
                Ok(v) => Ok(crate::field::Field::Creature(v)),
                Err(e) => Err(e),
            }
        },
        FieldType::Light => {
            match crate::codec::decode_light(payload) {
                Ok(v) => Ok(crate::field::Field::Light(v)),
                Err(e) => Err(e),
            }
        },
        FieldType::MiscItem => {
            match crate::codec::decode_misc_item(payload) {
                Ok(v) => Ok(crate::field::Field::MiscItem(v)),
                Err(e) => Err(e),
            }
        },
        FieldType::Apparatus => {
            match crate::codec::decode_apparatus(payload) {
                Ok(v) => Ok(crate::field::Field::Apparatus(v)),
                Err(e) => Err(e),
            }
        },
        FieldType::Weapon => {
            match crate::codec::decode_weapon(payload) {
                Ok(v) => Ok(crate::field::Field::Weapon(v)),
                Err(e) => Err(e),
            }
        },
        FieldType::Armor => {
            match crate::codec::decode_armor(payload) {
                Ok(v) => Ok(crate::field::Field::Armor(v)),
                Err(e) => Err(e),
            }
        },
        FieldType::BipedObject => {
            if len != 1 {
                return Err(DeError::InvalidSize { expected: 1, actual: len as u32 });
            }
            let raw = payload[0];
            match crate::enums::BipedObject::from_u8(raw) {
                Option::Some(v) => Ok(crate::field::Field::BipedObject(v)),
                Option::None => Err(DeError::InvalidEnumValue(
                    EnumKind::BipedObject,
                    raw as u64,
                )),
            }
        },
        FieldType::BodyPart => {
            match crate::codec::decode_body_part(payload) {
                Ok(v) => Ok(crate::field::Field::BodyPart(v)),
                Err(e) => Err(e),
            }
        },
        FieldType::Clothing => {
            match crate::codec::decode_clothing(payload) {
                Ok(v) => Ok(crate::field::Field::Clothing(v)),
                Err(e) => Err(e),
            }
        },
    }
}


/// Encodes one field under the shape the dispatch table gives the pair;
/// the bytes returned are exactly the payload the record layer frames.
/// The field value must have that shape, as every value decoded under
/// the same pair does.
#[verifier::rlimit(80)]
#[verifier::spinoff_prover]
pub fn encode_field(
    record_tag: crate::tag::Tag,
    field_tag: crate::tag::Tag,
    field: &crate::field::Field,
    code_page: CodePage,
) -> (r: Result<Vec<u8>, DeError>)
    requires
        spec_field_matches(
            crate::field_type::spec_field_type(record_tag.dword, field_tag.dword),
            field@,
        ),
    ensures
        r is Ok <==> spec_encode_field(
            record_tag.dword,
            field_tag.dword,
            code_page,
            field@,
        ) is Some,
        r matches Ok(v) ==> Some(v@) == spec_encode_field(
            record_tag.dword,
            field_tag.dword,
            code_page,
            field@,
        ),
        r matches Err(e) ==> ((e matches DeError::UnknownCodePageChar(_)) || (e matches
        DeError::InvalidFixedString { expected, actual })),
{
    let cp = code_page;
    match crate::field_type::FieldType::from_tags(record_tag, field_tag) {
        FieldType::Binary | FieldType::Compressed => match field {
            crate::field::Field::Binary(b) => Ok(slice_to_vec(b.as_slice())),
            _ => vstd::pervasive::unreached(),
        },
        FieldType::VarString => match field {
            crate::field::Field::String(st) => match encode_text(cp, st.as_str()) {
                Option::Some(e) => Ok(e),
                Option::None => Err(DeError::UnknownCodePageChar(
                    first_unencodable_char(cp, st.as_str()),
                )),
            },
            _ => vstd::pervasive::unreached(),
        },
        FieldType::FixedString(w) => match field {
            crate::field::Field::String(st) => {
                let mut out: Vec<u8> = Vec::new();
                match encode_fixed_text(cp, w, st.as_str(), &mut out) {
                    Ok(()) => Ok(out),
                    Err(e) => Err(e),
                }
            },
            _ => vstd::pervasive::unreached(),
        },
        FieldType::StringZ => match field {
            crate::field::Field::StringZ(z) => match encode_text(cp, z.string.as_str()) {
                Option::Some(mut e) => {
                    if z.has_tail_zero {
                        e.push(0);
                    }
                    Ok(e)
                },
                Option::None => Err(DeError::UnknownCodePageChar(
                    first_unencodable_char(cp, z.string.as_str()),
                )),
            },
            _ => vstd::pervasive::unreached(),
        },
        FieldType::Multiline(nl) => match field {
            crate::field::Field::StringList(ls) => {
                let sep = newline_sep(nl);
                match encode_lines(cp, ls, sep.as_slice()) {
                    Option::Some(e) => Ok(e),
                    Option::None => Err(DeError::UnknownCodePageChar(
                        first_unencodable_in_lines(cp, ls),
                    )),
                }
            },
            _ => vstd::pervasive::unreached(),
        },
        FieldType::StringZList => match field {
            crate::field::Field::StringZList(z) => {
                let mut sep: Vec<u8> = Vec::new();
                sep.push(0);
                proof {
                    assert(sep@ =~= seq![0u8]);
                }
                match encode_lines(cp, &z.strings, sep.as_slice()) {
                    Option::Some(mut e) => {
                        if z.has_tail_zero {
                            e.push(0);
                        }
                        Ok(e)
                    },
                    Option::None => Err(DeError::UnknownCodePageChar(
                        first_unencodable_in_lines(cp, &z.strings),
                    )),
                }
            },
            _ => vstd::pervasive::unreached(),
        },
        FieldType::Item => match field {
            crate::field::Field::Item(v) => {
                let mut out: Vec<u8> = Vec::new();
                push_i32(&mut out, v.count);
                match encode_fixed_text(cp, 32, v.item_id.as_str(), &mut out) {
                    Ok(()) => Ok(out),
                    Err(e) => Err(e),
                }
            },
            _ => vstd::pervasive::unreached(),
        },
        FieldType::Float => match field {
            crate::field::Field::Float(x) => {
                let mut out: Vec<u8> = Vec::new();
                push_u32(&mut out, *x);
                Ok(out)
            },
            _ => vstd::pervasive::unreached(),
        },
        FieldType::Int => match field {
            crate::field::Field::Int(x) => {
                let mut out: Vec<u8> = Vec::new();
                push_i32(&mut out, *x);
                Ok(out)
            },
            _ => vstd::pervasive::unreached(),
        },
        FieldType::Short => match field {
            crate::field::Field::Short(x) => {
                let mut out: Vec<u8> = Vec::new();
                crate::wire::push_i16(&mut out, *x);
                Ok(out)
            },
            _ => vstd::pervasive::unreached(),
        },
        FieldType::Long => match field {
            crate::field::Field::Long(x) => {
                let mut out: Vec<u8> = Vec::new();
                crate::wire::push_i64(&mut out, *x);
                Ok(out)
            },
            _ => vstd::pervasive::unreached(),
        },
        FieldType::Byte => match field {
            crate::field::Field::Byte(x) => {
                let mut out: Vec<u8> = Vec::new();
                out.push(*x);
                proof {
                    assert(out@ =~= seq![field@->Byte_0]);
                }
                Ok(out)
            },
            _ => vstd::pervasive::unreached(),
        },
        FieldType::Ingredient => match field {
            crate::field::Field::Ingredient(v) => {
                let mut out: Vec<u8> = Vec::new();
                push_u32(&mut out, v.weight);
                push_u32(&mut out, v.value);
                push_i32(&mut out, v.effects[0]);
                push_i32(&mut out, v.effects[1]);
                push_i32(&mut out, v.effects[2]);
                push_i32(&mut out, v.effects[3]);
                push_i32(&mut out, v.skills[0]);
                push_i32(&mut out, v.skills[1]);
                push_i32(&mut out, v.skills[2]);
                push_i32(&mut out, v.skills[3]);
                push_i32(&mut out, v.attributes[0]);
                push_i32(&mut out, v.attributes[1]);
                push_i32(&mut out, v.attributes[2]);
                push_i32(&mut out, v.attributes[3]);
                proof {
                    assert(out@ =~= spec_encode_ingredient(v@));
                }
                Ok(out)
            },
            _ => vstd::pervasive::unreached(),
        },
        FieldType::ScriptMetadata => match field {
            crate::field::Field::ScriptMetadata(v) => {
                let mut out: Vec<u8> = Vec::new();
                match encode_fixed_text(cp, 32, v.name.as_str(), &mut out) {
                    Ok(()) => {
                        push_u32(&mut out, v.shorts);
                        push_u32(&mut out, v.longs);
                        push_u32(&mut out, v.floats);
                        push_u32(&mut out, v.data_size);
                        push_u32(&mut out, v.var_table_size);
                        proof {
                            assert(Some(out@) =~~= spec_encode_script_metadata(cp, v@));
                        }
                        Ok(out)
                    },
                    Err(e) => Err(e),
                }
            },
            _ => vstd::pervasive::unreached(),
        },
        FieldType::DialogMetadata => match field {
            crate::field::Field::DialogMetadata(v) => {
                let mut out: Vec<u8> = Vec::new();
                match v {
                    DialogTypeOption::Padding(p) => {
                        push_u32(&mut out, *p);
                    },
                    DialogTypeOption::Present(d) => {
                        out.push(d.to_u8());
                    },
                }
                proof {
                    assert(out@ =~= spec_encode_dialog_metadata(*v));
                }
                Ok(out)
            },
            _ => vstd::pervasive::unreached(),
        },
        FieldType::FileMetadata => match field {
            crate::field::Field::FileMetadata(v) => {
                let mut out: Vec<u8> = Vec::new();
                push_u32(&mut out, v.version);
                push_u32(&mut out, v.file_type.to_u32());
                match encode_fixed_text(cp, 32, v.author.as_str(), &mut out) {
                    Ok(()) => {},
                    Err(e) => {
                        return Err(e);
                    },
                }
                let sep = newline_sep(Newline::Dos);
                let mut d = match encode_lines(cp, &v.description, sep.as_slice()) {
                    Option::Some(d) => d,
                    Option::None => {
                        return Err(DeError::UnknownCodePageChar(
                            first_unencodable_in_lines(cp, &v.description),
                        ));
                    },
                };
                if d.len() > 256 {
                    return Err(DeError::InvalidFixedString {
                        expected: 256,
                        actual: d.len() as u32,
                    });
                }
                let pad = 256 - d.len();
                out.append(&mut d);
                push_zeros(&mut out, pad);
                push_u32(&mut out, v.records_count);
                proof {
                    assert(Some(out@) =~~= spec_encode_file_metadata(cp, v@));
                }
                Ok(out)
            },
            _ => vstd::pervasive::unreached(),
        },
        FieldType::Npc => match field {
            crate::field::Field::Npc(n) => {
                let mut out: Vec<u8> = Vec::new();
                match n.to_sized() {
                    crate::field::Npc12Or52::Npc12(v) => {
                        crate::codec::encode_npc12(&v, &mut out);
                    },
                    crate::field::Npc12Or52::Npc52(v) => {
                        crate::codec::encode_npc52(&v, &mut out);
                    },
                }
                Ok(out)
            },
            _ => vstd::pervasive::unreached(),
        },
        FieldType::SavedNpc => match field {
            crate::field::Field::SavedNpc(v) => {
                let mut out: Vec<u8> = Vec::new();
                crate::codec::encode_saved_npc(v, &mut out);
                Ok(out)
            },
            _ => vstd::pervasive::unreached(),
        },
        FieldType::Effect => match field {
            crate::field::Field::Effect(v) => {
                let mut out: Vec<u8> = Vec::new();
                crate::codec::encode_effect(v, &mut out);
                Ok(out)
            },
            _ => vstd::pervasive::unreached(),
        },
        FieldType::SpellMetadata => match field {
            crate::field::Field::SpellMetadata(v) => {
                let mut out: Vec<u8> = Vec::new();
                crate::codec::encode_spell_metadata(v, &mut out);
                Ok(out)
            },
            _ => vstd::pervasive::unreached(),
        },
        FieldType::Ai => match field {
            crate::field::Field::Ai(v) => {
                let mut out: Vec<u8> = Vec::new();
                crate::codec::encode_ai(v, &mut out);
                Ok(out)
            },
            _ => vstd::pervasive::unreached(),
        },
        FieldType::AiWander => match field {
            crate::field::Field::AiWander(v) => {
                let mut out: Vec<u8> = Vec::new();
                crate::wire::push_u16(&mut out, v.distance);
                crate::wire::push_u16(&mut out, v.duration);
                out.push(v.time_of_day);
                out.push(v.idle[0]);
                out.push(v.idle[1]);
                out.push(v.idle[2]);
                out.push(v.idle[3]);
                out.push(v.idle[4]);
                out.push(v.idle[5]);
                out.push(v.idle[6]);
                out.push(v.idle[7]);
                out.push(v.repeat);
                proof {
                    assert(v@.idle.len() == 8);
                    assert(Some(out@) =~~= spec_encode_ai_wander(v@));
                }
                Ok(out)
            },
            _ => vstd::pervasive::unreached(),
        },
        FieldType::AiTravel => match field {
            crate::field::Field::AiTravel(v) => {
                let mut out: Vec<u8> = Vec::new();
                crate::codec::encode_ai_travel(v, &mut out);
                Ok(out)
            },
            _ => vstd::pervasive::unreached(),
        },
        FieldType::NpcFlags => match field {
            crate::field::Field::NpcFlags(v) => {
                let mut out: Vec<u8> = Vec::new();
                crate::codec::encode_npc_flags(v, &mut out);
                Ok(out)
            },
            _ => vstd::pervasive::unreached(),
        },
        FieldType::CreatureFlags => match field {
            crate::field::Field::CreatureFlags(v) => {
                let mut out: Vec<u8> = Vec::new();
                crate::codec::encode_creature_flags(v, &mut out);
                Ok(out)
            },
            _ => vstd::pervasive::unreached(),
        },
        FieldType::Book => match field {
            crate::field::Field::Book(v) => {
                let mut out: Vec<u8> = Vec::new();
                crate::codec::encode_book(v, &mut out);
                Ok(out)
            },
            _ => vstd::pervasive::unreached(),
        },
        FieldType::ContainerFlags => match field {
            crate::field::Field::ContainerFlags(v) => {
                let mut out: Vec<u8> = Vec::new();
                push_u32(&mut out, v.bits);
                Ok(out)
            },
            _ => vstd::pervasive::unreached(),
        },
        FieldType::Creature => match field {
            crate::field::Field::Creature(v) => {
                let mut out: Vec<u8> = Vec::new();
                crate::codec::encode_creature(v, &mut out);
                Ok(out)
            },
            _ => vstd::pervasive::unreached(),
        },
        FieldType::Light => match field {
            crate::field::Field::Light(v) => {
                let mut out: Vec<u8> = Vec::new();
                crate::codec::encode_light(v, &mut out);
                Ok(out)
            },
            _ => vstd::pervasive::unreached(),
        },
        FieldType::MiscItem => match field {
            crate::field::Field::MiscItem(v) => {
                let mut out: Vec<u8> = Vec::new();
                crate::codec::encode_misc_item(v, &mut out);
                Ok(out)
            },
            _ => vstd::pervasive::unreached(),
        },
        FieldType::Apparatus => match field {
            crate::field::Field::Apparatus(v) => {
                let mut out: Vec<u8> = Vec::new();
                crate::codec::encode_apparatus(v, &mut out);
                Ok(out)
            },
            _ => vstd::pervasive::unreached(),
        },
        FieldType::Weapon => match field {
            crate::field::Field::Weapon(v) => {
                let mut out: Vec<u8> = Vec::new();
                crate::codec::encode_weapon(v, &mut out);
                Ok(out)
            },
            _ => vstd::pervasive::unreached(),
        },
        FieldType::Armor => match field {
            crate::field::Field::Armor(v) => {
                let mut out: Vec<u8> = Vec::new();
                crate::codec::encode_armor(v, &mut out);
                Ok(out)
            },
            _ => vstd::pervasive::unreached(),
        },
        FieldType::BipedObject => match field {
            crate::field::Field::BipedObject(v) => {
                let mut out: Vec<u8> = Vec::new();
                out.push(v.to_u8());
                proof {
                    assert(out@ =~= spec_encode_biped_object(*v));
                }
                Ok(out)
            },
            _ => vstd::pervasive::unreached(),
        },
        FieldType::BodyPart => match field {
            crate::field::Field::BodyPart(v) => {
                let mut out: Vec<u8> = Vec::new();
                crate::codec::encode_body_part(v, &mut out);
                Ok(out)
            },
            _ => vstd::pervasive::unreached(),
        },
        FieldType::Clothing => match field {
            crate::field::Field::Clothing(v) => {
                let mut out: Vec<u8> = Vec::new();
                crate::codec::encode_clothing(v, &mut out);
                Ok(out)
            },
            _ => vstd::pervasive::unreached(),
        },
    }
}

/// The first character in any of the lines that the code page cannot
/// write, or NUL when every character encodes.
fn first_unencodable_in_lines(cp: CodePage, lines: &Vec<String>) -> (c: char) {
    let mut i: usize = 0;
    while i < lines.len()
        decreases lines@.len() - i,
    {
        let c = first_unencodable_char(cp, lines[i].as_str());
        if c != '\0' {
            return c;
        }
        i = i + 1;
    }
    '\0'
}

} // verus!
