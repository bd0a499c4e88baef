use vstd::prelude::*;

verus! {

/// The single-byte text encoding that a codec call works under:
/// `Western` is the windows-1252 table, `Cyrillic` the windows-1251 table.
/// Both map every byte to a character and are inverted exactly by
/// `spec_encode_char`.
#[derive(PartialEq, Eq, Structural, Copy, Clone, Hash, PartialOrd, Ord, Debug)]
pub enum CodePage {
    Western,
    Cyrillic,
}

/// The character a byte denotes under the Western code page.
pub open spec fn spec_decode_byte_western(b: u8) -> char {
    if b < 0x80 {
        b as char
    } else if b == 0x80 {
        '\u{20AC}'
    } else if b == 0x82 {
        '\u{201A}'
    } else if b == 0x83 {
        '\u{192}'
    } else if b == 0x84 {
        '\u{201E}'
    } else if b == 0x85 {
        '\u{2026}'
    } else if b == 0x86 {
        '\u{2020}'
    } else if b == 0x87 {
        '\u{2021}'
    } else if b == 0x88 {
        '\u{2C6}'
    } else if b == 0x89 {
        '\u{2030}'
    } else if b == 0x8A {
        '\u{160}'
    } else if b == 0x8B {
        '\u{2039}'
    } else if b == 0x8C {
        '\u{152}'
    } else if b == 0x8E {
        '\u{17D}'
    } else if b == 0x91 {
        '\u{2018}'
    } else if b == 0x92 {
        '\u{2019}'
    } else if b == 0x93 {
        '\u{201C}'
    } else if b == 0x94 {
        '\u{201D}'
    } else if b == 0x95 {
        '\u{2022}'
    } else if b == 0x96 {
        '\u{2013}'
    } else if b == 0x97 {
        '\u{2014}'
    } else if b == 0x98 {
        '\u{2DC}'
    } else if b == 0x99 {
        '\u{2122}'
    } else if b == 0x9A {
        '\u{161}'
    } else if b == 0x9B {
        '\u{203A}'
    } else if b == 0x9C {
        '\u{153}'
    } else if b == 0x9E {
        '\u{17E}'
    } else if b == 0x9F {
        '\u{178}'
    } else {
        b as char
    }
}

/// The character a byte denotes under the Cyrillic code page.
pub open spec fn spec_decode_byte_cyrillic(b: u8) -> char {
    if b < 0x80 {
        b as char
    } else if b == 0x80 {
        '\u{402}'
    } else if b == 0x81 {
        '\u{403}'
    } else if b == 0x82 {
        '\u{201A}'
    } else if b == 0x83 {
        '\u{453}'
    } else if b == 0x84 {
        '\u{201E}'
    } else if b == 0x85 {
        '\u{2026}'
    } else if b == 0x86 {
        '\u{2020}'
    } else if b == 0x87 {
        '\u{2021}'
    } else if b == 0x88 {
        '\u{20AC}'
    } else if b == 0x89 {
        '\u{2030}'
    } else if b == 0x8A {
        '\u{409}'
    } else if b == 0x8B {
        '\u{2039}'
    } else if b == 0x8C {
        '\u{40A}'
    } else if b == 0x8D {
        '\u{40C}'
    } else if b == 0x8E {
        '\u{40B}'
    } else if b == 0x8F {
        '\u{40F}'
    } else if b == 0x90 {
        '\u{452}'
    } else if b == 0x91 {
        '\u{2018}'
    } else if b == 0x92 {
        '\u{2019}'
    } else if b == 0x93 {
        '\u{201C}'
    } else if b == 0x94 {
        '\u{201D}'
    } else if b == 0x95 {
        '\u{2022}'
    } else if b == 0x96 {
        '\u{2013}'
    } else if b == 0x97 {
        '\u{2014}'
    } else if b == 0x99 {
        '\u{2122}'
    } else if b == 0x9A {
        '\u{459}'
    } else if b == 0x9B {
        '\u{203A}'
    } else if b == 0x9C {
        '\u{45A}'
    } else if b == 0x9D {
        '\u{45C}'
    } else if b == 0x9E {
        '\u{45B}'
    } else if b == 0x9F {
        '\u{45F}'
    } else if b == 0xA1 {
        '\u{40E}'
    } else if b == 0xA2 {
        '\u{45E}'
    } else if b == 0xA3 {
        '\u{408}'
    } else if b == 0xA5 {
        '\u{490}'
    } else if b == 0xA8 {
        '\u{401}'
    } else if b == 0xAA {
        '\u{404}'
    } else if b == 0xAF {
        '\u{407}'
    } else if b == 0xB2 {
        '\u{406}'
    } else if b == 0xB3 {
        '\u{456}'
    } else if b == 0xB4 {
        '\u{491}'
    } else if b == 0xB8 {
        '\u{451}'
    } else if b == 0xB9 {
        '\u{2116}'
    } else if b == 0xBA {
        '\u{454}'
    } else if b == 0xBC {
        '\u{458}'
    } else if b == 0xBD {
        '\u{405}'
    } else if b == 0xBE {
        '\u{455}'
    } else if b == 0xBF {
        '\u{457}'
    } else if b == 0xC0 {
        '\u{410}'
    } else if b == 0xC1 {
        '\u{411}'
    } else if b == 0xC2 {
        '\u{412}'
    } else if b == 0xC3 {
        '\u{413}'
    } else if b == 0xC4 {
        '\u{414}'
    } else if b == 0xC5 {
        '\u{415}'
    } else if b == 0xC6 {
        '\u{416}'
    } else if b == 0xC7 {
        '\u{417}'
    } else if b == 0xC8 {
        '\u{418}'
    } else if b == 0xC9 {
        '\u{419}'
    } else if b == 0xCA {
        '\u{41A}'
    } else if b == 0xCB {
        '\u{41B}'
    } else if b == 0xCC {
        '\u{41C}'
    } else if b == 0xCD {
        '\u{41D}'
    } else if b == 0xCE {
        '\u{41E}'
    } else if b == 0xCF {
        '\u{41F}'
    } else if b == 0xD0 {
        '\u{420}'
    } else if b == 0xD1 {
        '\u{421}'
    } else if b == 0xD2 {
        '\u{422}'
    } else if b == 0xD3 {
        '\u{423}'
    } else if b == 0xD4 {
        '\u{424}'
    } else if b == 0xD5 {
        '\u{425}'
    } else if b == 0xD6 {
        '\u{426}'
    } else if b == 0xD7 {
        '\u{427}'
    } else if b == 0xD8 {
        '\u{428}'
    } else if b == 0xD9 {
        '\u{429}'
    } else if b == 0xDA {
        '\u{42A}'
    } else if b == 0xDB {
        '\u{42B}'
    } else if b == 0xDC {
        '\u{42C}'
    } else if b == 0xDD {
        '\u{42D}'
    } else if b == 0xDE {
        '\u{42E}'
    } else if b == 0xDF {
        '\u{42F}'
    } else if b == 0xE0 {
        '\u{430}'
    } else if b == 0xE1 {
        '\u{431}'
    } else if b == 0xE2 {
        '\u{432}'
    } else if b == 0xE3 {
        '\u{433}'
    } else if b == 0xE4 {
        '\u{434}'
    } else if b == 0xE5 {
        '\u{435}'
    } else if b == 0xE6 {
        '\u{436}'
    } else if b == 0xE7 {
        '\u{437}'
    } else if b == 0xE8 {
        '\u{438}'
    } else if b == 0xE9 {
        '\u{439}'
    } else if b == 0xEA {
        '\u{43A}'
    } else if b == 0xEB {
        '\u{43B}'
    } else if b == 0xEC {
        '\u{43C}'
    } else if b == 0xED {
        '\u{43D}'
    } else if b == 0xEE {
        '\u{43E}'
    } else if b == 0xEF {
        '\u{43F}'
    } else if b == 0xF0 {
        '\u{440}'
    } else if b == 0xF1 {
        '\u{441}'
    } else if b == 0xF2 {
        '\u{442}'
    } else if b == 0xF3 {
        '\u{443}'
    } else if b == 0xF4 {
        '\u{444}'
    } else if b == 0xF5 {
        '\u{445}'
    } else if b == 0xF6 {
        '\u{446}'
    } else if b == 0xF7 {
        '\u{447}'
    } else if b == 0xF8 {
        '\u{448}'
    } else if b == 0xF9 {
        '\u{449}'
    } else if b == 0xFA {
        '\u{44A}'
    } else if b == 0xFB {
        '\u{44B}'
    } else if b == 0xFC {
        '\u{44C}'
    } else if b == 0xFD {
        '\u{44D}'
    } else if b == 0xFE {
        '\u{44E}'
    } else if b == 0xFF {
        '\u{44F}'
    } else {
        b as char
    }
}

/// The character a byte denotes under the given code page.
pub open spec fn spec_decode_byte(cp: CodePage, b: u8) -> char {
    match cp {
        CodePage::Western => spec_decode_byte_western(b),
        CodePage::Cyrillic => spec_decode_byte_cyrillic(b),
    }
}

/// The byte that encodes a character under the Western code page, if any.
pub open spec fn spec_encode_char_western(c: char) -> Option<u8> {
    if (c as u32) < 0x80 {
        Some(c as u8)
    } else if c == '\u{20AC}' {
        Some(0x80)
    } else if c == '\u{201A}' {
        Some(0x82)
    } else if c == '\u{192}' {
        Some(0x83)
    } else if c == '\u{201E}' {
        Some(0x84)
    } else if c == '\u{2026}' {
        Some(0x85)
    } else if c == '\u{2020}' {
        Some(0x86)
    } else if c == '\u{2021}' {
        Some(0x87)
    } else if c == '\u{2C6}' {
        Some(0x88)
    } else if c == '\u{2030}' {
        Some(0x89)
    } else if c == '\u{160}' {
        Some(0x8A)
    } else if c == '\u{2039}' {
        Some(0x8B)
    } else if c == '\u{152}' {
        Some(0x8C)
    } else if c == '\u{17D}' {
        Some(0x8E)
    } else if c == '\u{2018}' {
        Some(0x91)
    } else if c == '\u{2019}' {
        Some(0x92)
    } else if c == '\u{201C}' {
        Some(0x93)
    } else if c == '\u{201D}' {
        Some(0x94)
    } else if c == '\u{2022}' {
        Some(0x95)
    } else if c == '\u{2013}' {
        Some(0x96)
    } else if c == '\u{2014}' {
        Some(0x97)
    } else if c == '\u{2DC}' {
        Some(0x98)
    } else if c == '\u{2122}' {
        Some(0x99)
    } else if c == '\u{161}' {
        Some(0x9A)
    } else if c == '\u{203A}' {
        Some(0x9B)
    } else if c == '\u{153}' {
        Some(0x9C)
    } else if c == '\u{17E}' {
        Some(0x9E)
    } else if c == '\u{178}' {
        Some(0x9F)
    } else if (c as u32) == 0x81 || (c as u32) == 0x8D || (c as u32) == 0x8F
        || (c as u32) == 0x90 || (c as u32) == 0x9D
        || (0xA0 <= (c as u32) && (c as u32) <= 0xFF) {
        Some(c as u8)
    } else {
        None
    }
}

/// The byte that encodes a character under the Cyrillic code page, if any.
pub open spec fn spec_encode_char_cyrillic(c: char) -> Option<u8> {
    if (c as u32) < 0x80 {
        Some(c as u8)
    } else if c == '\u{402}' {
        Some(0x80)
    } else if c == '\u{403}' {
        Some(0x81)
    } else if c == '\u{201A}' {
        Some(0x82)
    } else if c == '\u{453}' {
        Some(0x83)
    } else if c == '\u{201E}' {
        Some(0x84)
    } else if c == '\u{2026}' {
        Some(0x85)
    } else if c == '\u{2020}' {
        Some(0x86)
    } else if c == '\u{2021}' {
        Some(0x87)
    } else if c == '\u{20AC}' {
        Some(0x88)
    } else if c == '\u{2030}' {
        Some(0x89)
    } else if c == '\u{409}' {
        Some(0x8A)
    } else if c == '\u{2039}' {
        Some(0x8B)
    } else if c == '\u{40A}' {
        Some(0x8C)
    } else if c == '\u{40C}' {
        Some(0x8D)
    } else if c == '\u{40B}' {
        Some(0x8E)
    } else if c == '\u{40F}' {
        Some(0x8F)
    } else if c == '\u{452}' {
        Some(0x90)
    } else if c == '\u{2018}' {
        Some(0x91)
    } else if c == '\u{2019}' {
        Some(0x92)
    } else if c == '\u{201C}' {
        Some(0x93)
    } else if c == '\u{201D}' {
        Some(0x94)
    } else if c == '\u{2022}' {
        Some(0x95)
    } else if c == '\u{2013}' {
        Some(0x96)
    } else if c == '\u{2014}' {
        Some(0x97)
    } else if c == '\u{2122}' {
        Some(0x99)
    } else if c == '\u{459}' {
        Some(0x9A)
    } else if c == '\u{203A}' {
        Some(0x9B)
    } else if c == '\u{45A}' {
        Some(0x9C)
    } else if c == '\u{45C}' {
        Some(0x9D)
    } else if c == '\u{45B}' {
        Some(0x9E)
    } else if c == '\u{45F}' {
        Some(0x9F)
    } else if c == '\u{40E}' {
        Some(0xA1)
    } else if c == '\u{45E}' {
        Some(0xA2)
    } else if c == '\u{408}' {
        Some(0xA3)
    } else if c == '\u{490}' {
        Some(0xA5)
    } else if c == '\u{401}' {
        Some(0xA8)
    } else if c == '\u{404}' {
        Some(0xAA)
    } else if c == '\u{407}' {
        Some(0xAF)
    } else if c == '\u{406}' {
        Some(0xB2)
    } else if c == '\u{456}' {
        Some(0xB3)
    } else if c == '\u{491}' {
        Some(0xB4)
    } else if c == '\u{451}' {
        Some(0xB8)
    } else if c == '\u{2116}' {
        Some(0xB9)
    } else if c == '\u{454}' {
        Some(0xBA)
    } else if c == '\u{458}' {
        Some(0xBC)
    } else if c == '\u{405}' {
        Some(0xBD)
    } else if c == '\u{455}' {
        Some(0xBE)
    } else if c == '\u{457}' {
        Some(0xBF)
    } else if c == '\u{410}' {
        Some(0xC0)
    } else if c == '\u{411}' {
        Some(0xC1)
    } else if c == '\u{412}' {
        Some(0xC2)
    } else if c == '\u{413}' {
        Some(0xC3)
    } else if c == '\u{414}' {
        Some(0xC4)
    } else if c == '\u{415}' {
        Some(0xC5)
    } else if c == '\u{416}' {
        Some(0xC6)
    } else if c == '\u{417}' {
        Some(0xC7)
    } else if c == '\u{418}' {
        Some(0xC8)
    } else if c == '\u{419}' {
        Some(0xC9)
    } else if c == '\u{41A}' {
        Some(0xCA)
    } else if c == '\u{41B}' {
        Some(0xCB)
    } else if c == '\u{41C}' {
        Some(0xCC)
    } else if c == '\u{41D}' {
        Some(0xCD)
    } else if c == '\u{41E}' {
        Some(0xCE)
    } else if c == '\u{41F}' {
        Some(0xCF)
    } else if c == '\u{420}' {
        Some(0xD0)
    } else if c == '\u{421}' {
        Some(0xD1)
    } else if c == '\u{422}' {
        Some(0xD2)
    } else if c == '\u{423}' {
        Some(0xD3)
    } else if c == '\u{424}' {
        Some(0xD4)
    } else if c == '\u{425}' {
        Some(0xD5)
    } else if c == '\u{426}' {
        Some(0xD6)
    } else if c == '\u{427}' {
        Some(0xD7)
    } else if c == '\u{428}' {
        Some(0xD8)
    } else if c == '\u{429}' {
        Some(0xD9)
    } else if c == '\u{42A}' {
        Some(0xDA)
    } else if c == '\u{42B}' {
        Some(0xDB)
    } else if c == '\u{42C}' {
        Some(0xDC)
    } else if c == '\u{42D}' {
        Some(0xDD)
    } else if c == '\u{42E}' {
        Some(0xDE)
    } else if c == '\u{42F}' {
        Some(0xDF)
    } else if c == '\u{430}' {
        Some(0xE0)
    } else if c == '\u{431}' {
        Some(0xE1)
    } else if c == '\u{432}' {
        Some(0xE2)
    } else if c == '\u{433}' {
        Some(0xE3)
    } else if c == '\u{434}' {
        Some(0xE4)
    } else if c == '\u{435}' {
        Some(0xE5)
    } else if c == '\u{436}' {
        Some(0xE6)
    } else if c == '\u{437}' {
        Some(0xE7)
    } else if c == '\u{438}' {
        Some(0xE8)
    } else if c == '\u{439}' {
        Some(0xE9)
    } else if c == '\u{43A}' {
        Some(0xEA)
    } else if c == '\u{43B}' {
        Some(0xEB)
    } else if c == '\u{43C}' {
        Some(0xEC)
    } else if c == '\u{43D}' {
        Some(0xED)
    } else if c == '\u{43E}' {
        Some(0xEE)
    } else if c == '\u{43F}' {
        Some(0xEF)
    } else if c == '\u{440}' {
        Some(0xF0)
    } else if c == '\u{441}' {
        Some(0xF1)
    } else if c == '\u{442}' {
        Some(0xF2)
    } else if c == '\u{443}' {
        Some(0xF3)
    } else if c == '\u{444}' {
        Some(0xF4)
    } else if c == '\u{445}' {
        Some(0xF5)
    } else if c == '\u{446}' {
        Some(0xF6)
    } else if c == '\u{447}' {
        Some(0xF7)
    } else if c == '\u{448}' {
        Some(0xF8)
    } else if c == '\u{449}' {
        Some(0xF9)
    } else if c == '\u{44A}' {
        Some(0xFA)
    } else if c == '\u{44B}' {
        Some(0xFB)
    } else if c == '\u{44C}' {
        Some(0xFC)
    } else if c == '\u{44D}' {
        Some(0xFD)
    } else if c == '\u{44E}' {
        Some(0xFE)
    } else if c == '\u{44F}' {
        Some(0xFF)
    } else if (c as u32) == 0x98 || (c as u32) == 0xA0 || (c as u32) == 0xA4
        || (c as u32) == 0xA6 || (c as u32) == 0xA7 || (c as u32) == 0xA9
        || (c as u32) == 0xAB || (c as u32) == 0xAC || (c as u32) == 0xAD
        || (c as u32) == 0xAE || (c as u32) == 0xB0 || (c as u32) == 0xB1
        || (c as u32) == 0xB5 || (c as u32) == 0xB6 || (c as u32) == 0xB7
        || (c as u32) == 0xBB {
        Some(c as u8)
    } else {
        None
    }
}

/// The byte that encodes a character under the given code page, if any.
pub open spec fn spec_encode_char(cp: CodePage, c: char) -> Option<u8> {
    match cp {
        CodePage::Western => spec_encode_char_western(c),
        CodePage::Cyrillic => spec_encode_char_cyrillic(c),
    }
}

/// Both code pages are exact single-byte codecs: every byte decodes to a
/// character, and encoding that character gives the byte back.
#[verifier::rlimit(60)]
pub proof fn lemma_code_page_round_trip(cp: CodePage, b: u8)
    ensures
        spec_encode_char(cp, spec_decode_byte(cp, b)) == Some(b),
{
}

/// The character a byte denotes; executable form of `spec_decode_byte_western`.
pub fn decode_byte_western(b: u8) -> (c: char)
    ensures
        c == spec_decode_byte_western(b),
{
    if b < 0x80 {
        b as char
    } else if b == 0x80 {
        '\u{20AC}'
    } else if b == 0x82 {
        '\u{201A}'
    } else if b == 0x83 {
        '\u{192}'
    } else if b == 0x84 {
        '\u{201E}'
    } else if b == 0x85 {
        '\u{2026}'
    } else if b == 0x86 {
        '\u{2020}'
    } else if b == 0x87 {
        '\u{2021}'
    } else if b == 0x88 {
        '\u{2C6}'
    } else if b == 0x89 {
        '\u{2030}'
    } else if b == 0x8A {
        '\u{160}'
    } else if b == 0x8B {
        '\u{2039}'
    } else if b == 0x8C {
        '\u{152}'
    } else if b == 0x8E {
        '\u{17D}'
    } else if b == 0x91 {
        '\u{2018}'
    } else if b == 0x92 {
        '\u{2019}'
    } else if b == 0x93 {
        '\u{201C}'
    } else if b == 0x94 {
        '\u{201D}'
    } else if b == 0x95 {
        '\u{2022}'
    } else if b == 0x96 {
        '\u{2013}'
    } else if b == 0x97 {
        '\u{2014}'
    } else if b == 0x98 {
        '\u{2DC}'
    } else if b == 0x99 {
        '\u{2122}'
    } else if b == 0x9A {
        '\u{161}'
    } else if b == 0x9B {
        '\u{203A}'
    } else if b == 0x9C {
        '\u{153}'
    } else if b == 0x9E {
        '\u{17E}'
    } else if b == 0x9F {
        '\u{178}'
    } else {
        b as char
    }
}

/// The character a byte denotes; executable form of `spec_decode_byte_cyrillic`.
pub fn decode_byte_cyrillic(b: u8) -> (c: char)
    ensures
        c == spec_decode_byte_cyrillic(b),
{
    if b < 0x80 {
        b as char
    } else if b == 0x80 {
        '\u{402}'
    } else if b == 0x81 {
        '\u{403}'
    } else if b == 0x82 {
        '\u{201A}'
    } else if b == 0x83 {
        '\u{453}'
    } else if b == 0x84 {
        '\u{201E}'
    } else if b == 0x85 {
        '\u{2026}'
    } else if b == 0x86 {
        '\u{2020}'
    } else if b == 0x87 {
        '\u{2021}'
    } else if b == 0x88 {
        '\u{20AC}'
    } else if b == 0x89 {
        '\u{2030}'
    } else if b == 0x8A {
        '\u{409}'
    } else if b == 0x8B {
        '\u{2039}'
    } else if b == 0x8C {
        '\u{40A}'
    } else if b == 0x8D {
        '\u{40C}'
    } else if b == 0x8E {
        '\u{40B}'
    } else if b == 0x8F {
        '\u{40F}'
    } else if b == 0x90 {
        '\u{452}'
    } else if b == 0x91 {
        '\u{2018}'
    } else if b == 0x92 {
        '\u{2019}'
    } else if b == 0x93 {
        '\u{201C}'
    } else if b == 0x94 {
        '\u{201D}'
    } else if b == 0x95 {
        '\u{2022}'
    } else if b == 0x96 {
        '\u{2013}'
    } else if b == 0x97 {
        '\u{2014}'
    } else if b == 0x99 {
        '\u{2122}'
    } else if b == 0x9A {
        '\u{459}'
    } else if b == 0x9B {
        '\u{203A}'
    } else if b == 0x9C {
        '\u{45A}'
    } else if b == 0x9D {
        '\u{45C}'
    } else if b == 0x9E {
        '\u{45B}'
    } else if b == 0x9F {
        '\u{45F}'
    } else if b == 0xA1 {
        '\u{40E}'
    } else if b == 0xA2 {
        '\u{45E}'
    } else if b == 0xA3 {
        '\u{408}'
    } else if b == 0xA5 {
        '\u{490}'
    } else if b == 0xA8 {
        '\u{401}'
    } else if b == 0xAA {
        '\u{404}'
    } else if b == 0xAF {
        '\u{407}'
    } else if b == 0xB2 {
        '\u{406}'
    } else if b == 0xB3 {
        '\u{456}'
    } else if b == 0xB4 {
        '\u{491}'
    } else if b == 0xB8 {
        '\u{451}'
    } else if b == 0xB9 {
        '\u{2116}'
    } else if b == 0xBA {
        '\u{454}'
    } else if b == 0xBC {
        '\u{458}'
    } else if b == 0xBD {
        '\u{405}'
    } else if b == 0xBE {
        '\u{455}'
    } else if b == 0xBF {
        '\u{457}'
    } else if b == 0xC0 {
        '\u{410}'
    } else if b == 0xC1 {
        '\u{411}'
    } else if b == 0xC2 {
        '\u{412}'
    } else if b == 0xC3 {
        '\u{413}'
    } else if b == 0xC4 {
        '\u{414}'
    } else if b == 0xC5 {
        '\u{415}'
    } else if b == 0xC6 {
        '\u{416}'
    } else if b == 0xC7 {
        '\u{417}'
    } else if b == 0xC8 {
        '\u{418}'
    } else if b == 0xC9 {
        '\u{419}'
    } else if b == 0xCA {
        '\u{41A}'
    } else if b == 0xCB {
        '\u{41B}'
    } else if b == 0xCC {
        '\u{41C}'
    } else if b == 0xCD {
        '\u{41D}'
    } else if b == 0xCE {
        '\u{41E}'
    } else if b == 0xCF {
        '\u{41F}'
    } else if b == 0xD0 {
        '\u{420}'
    } else if b == 0xD1 {
        '\u{421}'
    } else if b == 0xD2 {
        '\u{422}'
    } else if b == 0xD3 {
        '\u{423}'
    } else if b == 0xD4 {
        '\u{424}'
    } else if b == 0xD5 {
        '\u{425}'
    } else if b == 0xD6 {
        '\u{426}'
    } else if b == 0xD7 {
        '\u{427}'
    } else if b == 0xD8 {
        '\u{428}'
    } else if b == 0xD9 {
        '\u{429}'
    } else if b == 0xDA {
        '\u{42A}'
    } else if b == 0xDB {
        '\u{42B}'
    } else if b == 0xDC {
        '\u{42C}'
    } else if b == 0xDD {
        '\u{42D}'
    } else if b == 0xDE {
        '\u{42E}'
    } else if b == 0xDF {
        '\u{42F}'
    } else if b == 0xE0 {
        '\u{430}'
    } else if b == 0xE1 {
        '\u{431}'
    } else if b == 0xE2 {
        '\u{432}'
    } else if b == 0xE3 {
        '\u{433}'
    } else if b == 0xE4 {
        '\u{434}'
    } else if b == 0xE5 {
        '\u{435}'
    } else if b == 0xE6 {
        '\u{436}'
    } else if b == 0xE7 {
        '\u{437}'
    } else if b == 0xE8 {
        '\u{438}'
    } else if b == 0xE9 {
        '\u{439}'
    } else if b == 0xEA {
        '\u{43A}'
    } else if b == 0xEB {
        '\u{43B}'
    } else if b == 0xEC {
        '\u{43C}'
    } else if b == 0xED {
        '\u{43D}'
    } else if b == 0xEE {
        '\u{43E}'
    } else if b == 0xEF {
        '\u{43F}'
    } else if b == 0xF0 {
        '\u{440}'
    } else if b == 0xF1 {
        '\u{441}'
    } else if b == 0xF2 {
        '\u{442}'
    } else if b == 0xF3 {
        '\u{443}'
    } else if b == 0xF4 {
        '\u{444}'
    } else if b == 0xF5 {
        '\u{445}'
    } else if b == 0xF6 {
        '\u{446}'
    } else if b == 0xF7 {
        '\u{447}'
    } else if b == 0xF8 {
        '\u{448}'
    } else if b == 0xF9 {
        '\u{449}'
    } else if b == 0xFA {
        '\u{44A}'
    } else if b == 0xFB {
        '\u{44B}'
    } else if b == 0xFC {
        '\u{44C}'
    } else if b == 0xFD {
        '\u{44D}'
    } else if b == 0xFE {
        '\u{44E}'
    } else if b == 0xFF {
        '\u{44F}'
    } else {
        b as char
    }
}

/// The byte encoding a character, if any; executable form of `spec_encode_char_western`.
pub fn encode_char_western(c: char) -> (r: Option<u8>)
    ensures
        r == spec_encode_char_western(c),
{
    let u = c as u32;
    if u < 0x80 {
        Some(c as u8)
    } else if c == '\u{20AC}' {
        Some(0x80)
    } else if c == '\u{201A}' {
        Some(0x82)
    } else if c == '\u{192}' {
        Some(0x83)
    } else if c == '\u{201E}' {
        Some(0x84)
    } else if c == '\u{2026}' {
        Some(0x85)
    } else if c == '\u{2020}' {
        Some(0x86)
    } else if c == '\u{2021}' {
        Some(0x87)
    } else if c == '\u{2C6}' {
        Some(0x88)
    } else if c == '\u{2030}' {
        Some(0x89)
    } else if c == '\u{160}' {
        Some(0x8A)
    } else if c == '\u{2039}' {
        Some(0x8B)
    } else if c == '\u{152}' {
        Some(0x8C)
    } else if c == '\u{17D}' {
        Some(0x8E)
    } else if c == '\u{2018}' {
        Some(0x91)
    } else if c == '\u{2019}' {
        Some(0x92)
    } else if c == '\u{201C}' {
        Some(0x93)
    } else if c == '\u{201D}' {
        Some(0x94)
    } else if c == '\u{2022}' {
        Some(0x95)
    } else if c == '\u{2013}' {
        Some(0x96)
    } else if c == '\u{2014}' {
        Some(0x97)
    } else if c == '\u{2DC}' {
        Some(0x98)
    } else if c == '\u{2122}' {
        Some(0x99)
    } else if c == '\u{161}' {
        Some(0x9A)
    } else if c == '\u{203A}' {
        Some(0x9B)
    } else if c == '\u{153}' {
        Some(0x9C)
    } else if c == '\u{17E}' {
        Some(0x9E)
    } else if c == '\u{178}' {
        Some(0x9F)
    } else if u == 0x81 || u == 0x8D || u == 0x8F || u == 0x90 || u == 0x9D || (0xA0 <= u && u <= 0xFF) {
        Some(c as u8)
    } else {
        None
    }
}

/// The byte encoding a character, if any; executable form of `spec_encode_char_cyrillic`.
pub fn encode_char_cyrillic(c: char) -> (r: Option<u8>)
    ensures
        r == spec_encode_char_cyrillic(c),
{
    let u = c as u32;
    if u < 0x80 {
        Some(c as u8)
    } else if c == '\u{402}' {
        Some(0x80)
    } else if c == '\u{403}' {
        Some(0x81)
    } else if c == '\u{201A}' {
        Some(0x82)
    } else if c == '\u{453}' {
        Some(0x83)
    } else if c == '\u{201E}' {
        Some(0x84)
    } else if c == '\u{2026}' {
        Some(0x85)
    } else if c == '\u{2020}' {
        Some(0x86)
    } else if c == '\u{2021}' {
        Some(0x87)
    } else if c == '\u{20AC}' {
        Some(0x88)
    } else if c == '\u{2030}' {
        Some(0x89)
    } else if c == '\u{409}' {
        Some(0x8A)
    } else if c == '\u{2039}' {
        Some(0x8B)
    } else if c == '\u{40A}' {
        Some(0x8C)
    } else if c == '\u{40C}' {
        Some(0x8D)
    } else if c == '\u{40B}' {
        Some(0x8E)
    } else if c == '\u{40F}' {
        Some(0x8F)
    } else if c == '\u{452}' {
        Some(0x90)
    } else if c == '\u{2018}' {
        Some(0x91)
    } else if c == '\u{2019}' {
        Some(0x92)
    } else if c == '\u{201C}' {
        Some(0x93)
    } else if c == '\u{201D}' {
        Some(0x94)
    } else if c == '\u{2022}' {
        Some(0x95)
    } else if c == '\u{2013}' {
        Some(0x96)
    } else if c == '\u{2014}' {
        Some(0x97)
    } else if c == '\u{2122}' {
        Some(0x99)
    } else if c == '\u{459}' {
        Some(0x9A)
    } else if c == '\u{203A}' {
        Some(0x9B)
    } else if c == '\u{45A}' {
        Some(0x9C)
    } else if c == '\u{45C}' {
        Some(0x9D)
    } else if c == '\u{45B}' {
        Some(0x9E)
    } else if c == '\u{45F}' {
        Some(0x9F)
    } else if c == '\u{40E}' {
        Some(0xA1)
    } else if c == '\u{45E}' {
        Some(0xA2)
    } else if c == '\u{408}' {
        Some(0xA3)
    } else if c == '\u{490}' {
        Some(0xA5)
    } else if c == '\u{401}' {
        Some(0xA8)
    } else if c == '\u{404}' {
        Some(0xAA)
    } else if c == '\u{407}' {
        Some(0xAF)
    } else if c == '\u{406}' {
        Some(0xB2)
    } else if c == '\u{456}' {
        Some(0xB3)
    } else if c == '\u{491}' {
        Some(0xB4)
    } else if c == '\u{451}' {
        Some(0xB8)
    } else if c == '\u{2116}' {
        Some(0xB9)
    } else if c == '\u{454}' {
        Some(0xBA)
    } else if c == '\u{458}' {
        Some(0xBC)
    } else if c == '\u{405}' {
        Some(0xBD)
    } else if c == '\u{455}' {
        Some(0xBE)
    } else if c == '\u{457}' {
        Some(0xBF)
    } else if c == '\u{410}' {
        Some(0xC0)
    } else if c == '\u{411}' {
        Some(0xC1)
    } else if c == '\u{412}' {
        Some(0xC2)
    } else if c == '\u{413}' {
        Some(0xC3)
    } else if c == '\u{414}' {
        Some(0xC4)
    } else if c == '\u{415}' {
        Some(0xC5)
    } else if c == '\u{416}' {
        Some(0xC6)
    } else if c == '\u{417}' {
        Some(0xC7)
    } else if c == '\u{418}' {
        Some(0xC8)
    } else if c == '\u{419}' {
        Some(0xC9)
    } else if c == '\u{41A}' {
        Some(0xCA)
    } else if c == '\u{41B}' {
        Some(0xCB)
    } else if c == '\u{41C}' {
        Some(0xCC)
    } else if c == '\u{41D}' {
        Some(0xCD)
    } else if c == '\u{41E}' {
        Some(0xCE)
    } else if c == '\u{41F}' {
        Some(0xCF)
    } else if c == '\u{420}' {
        Some(0xD0)
    } else if c == '\u{421}' {
        Some(0xD1)
    } else if c == '\u{422}' {
        Some(0xD2)
    } else if c == '\u{423}' {
        Some(0xD3)
    } else if c == '\u{424}' {
        Some(0xD4)
    } else if c == '\u{425}' {
        Some(0xD5)
    } else if c == '\u{426}' {
        Some(0xD6)
    } else if c == '\u{427}' {
        Some(0xD7)
    } else if c == '\u{428}' {
        Some(0xD8)
    } else if c == '\u{429}' {
        Some(0xD9)
    } else if c == '\u{42A}' {
        Some(0xDA)
    } else if c == '\u{42B}' {
        Some(0xDB)
    } else if c == '\u{42C}' {
        Some(0xDC)
    } else if c == '\u{42D}' {
        Some(0xDD)
    } else if c == '\u{42E}' {
        Some(0xDE)
    } else if c == '\u{42F}' {
        Some(0xDF)
    } else if c == '\u{430}' {
        Some(0xE0)
    } else if c == '\u{431}' {
        Some(0xE1)
    } else if c == '\u{432}' {
        Some(0xE2)
    } else if c == '\u{433}' {
        Some(0xE3)
    } else if c == '\u{434}' {
        Some(0xE4)
    } else if c == '\u{435}' {
        Some(0xE5)
    } else if c == '\u{436}' {
        Some(0xE6)
    } else if c == '\u{437}' {
        Some(0xE7)
    } else if c == '\u{438}' {
        Some(0xE8)
    } else if c == '\u{439}' {
        Some(0xE9)
    } else if c == '\u{43A}' {
        Some(0xEA)
    } else if c == '\u{43B}' {
        Some(0xEB)
    } else if c == '\u{43C}' {
        Some(0xEC)
    } else if c == '\u{43D}' {
        Some(0xED)
    } else if c == '\u{43E}' {
        Some(0xEE)
    } else if c == '\u{43F}' {
        Some(0xEF)
    } else if c == '\u{440}' {
        Some(0xF0)
    } else if c == '\u{441}' {
        Some(0xF1)
    } else if c == '\u{442}' {
        Some(0xF2)
    } else if c == '\u{443}' {
        Some(0xF3)
    } else if c == '\u{444}' {
        Some(0xF4)
    } else if c == '\u{445}' {
        Some(0xF5)
    } else if c == '\u{446}' {
        Some(0xF6)
    } else if c == '\u{447}' {
        Some(0xF7)
    } else if c == '\u{448}' {
        Some(0xF8)
    } else if c == '\u{449}' {
        Some(0xF9)
    } else if c == '\u{44A}' {
        Some(0xFA)
    } else if c == '\u{44B}' {
        Some(0xFB)
    } else if c == '\u{44C}' {
        Some(0xFC)
    } else if c == '\u{44D}' {
        Some(0xFD)
    } else if c == '\u{44E}' {
        Some(0xFE)
    } else if c == '\u{44F}' {
        Some(0xFF)
    } else if u == 0x98 || u == 0xA0 || u == 0xA4 || u == 0xA6 || u == 0xA7 || u == 0xA9 || u == 0xAB || u == 0xAC || u == 0xAD || u == 0xAE || u == 0xB0 || u == 0xB1 || u == 0xB5 || u == 0xB6 || u == 0xB7 || u == 0xBB {
        Some(c as u8)
    } else {
        None
    }
}

/// The character a byte denotes under the given code page.
pub fn decode_byte(cp: CodePage, b: u8) -> (c: char)
    ensures
        c == spec_decode_byte(cp, b),
{
    match cp {
        CodePage::Western => decode_byte_western(b),
        CodePage::Cyrillic => decode_byte_cyrillic(b),
    }
}

/// The byte encoding a character under the given code page, if any.
pub fn encode_char(cp: CodePage, c: char) -> (r: Option<u8>)
    ensures
        r == spec_encode_char(cp, c),
{
    match cp {
        CodePage::Western => encode_char_western(c),
        CodePage::Cyrillic => encode_char_cyrillic(c),
    }
}

} // verus!
