use vstd::prelude::*;
use crate::enums::BipedObject;
use crate::enums::BloodTexture;
use crate::enums::BodyPartType;
use crate::enums::ApparatusType;
use crate::enums::ArmorType;
use crate::enums::ClothingType;
use crate::enums::CreatureType;
use crate::enums::DialogType;
use crate::enums::EffectRange;
use crate::enums::FileType;
use crate::enums::MeshType;
use crate::enums::SpellType;
use crate::enums::WeaponType;
use crate::field_type::FieldType;
use crate::field_type::spec_field_type;
use crate::flags::AiServices;
use crate::flags::AiTravelFlags;
use crate::flags::BodyPartFlags;
use crate::flags::ContainerFlags;
use crate::flags::CreatureFlags;
use crate::flags::LightFlags;
use crate::flags::NpcFlags;
use crate::flags::SpellFlags;
use crate::flags::WeaponFlags;
use crate::tag::Tag;

verus! {

/// Text read up to an optional final NUL; `has_tail_zero` remembers
/// whether that NUL was present, so re-encoding is byte-exact.
#[derive(PartialEq, Eq, Clone, Debug)]
pub struct StringZ {
    pub string: String,
    pub has_tail_zero: bool,
}

impl StringZ {
    /// The given text with a terminating NUL.
    pub fn new(text: &str) -> (r: StringZ)
        ensures
            r.string@ == text@,
            r.has_tail_zero,
    {
        StringZ { string: text.to_owned(), has_tail_zero: true }
    }
}

impl Default for StringZ {
    /// Empty text with a terminating NUL.
    fn default() -> (r: StringZ)
        ensures
            r.string@.len() == 0,
            r.has_tail_zero,
    {
        StringZ { string: String::new(), has_tail_zero: true }
    }
}

/// NUL-separated texts; `has_tail_zero` remembers whether a final NUL was
/// present, so re-encoding is byte-exact.
#[derive(PartialEq, Eq, Clone, Debug)]
pub struct StringZList {
    pub strings: Vec<String>,
    pub has_tail_zero: bool,
}

/// An inventory entry: a count and a 32-character item name.
#[derive(PartialEq, Eq, Clone, Debug)]
pub struct Item {
    pub count: i32,
    pub item_id: String,
}

/// An ingredient's stats. `weight` holds the bit pattern of the on-disk
/// 32-bit float, so equality and round-trips are bit-exact.
#[derive(PartialEq, Eq, Copy, Clone, Debug)]
pub struct Ingredient {
    pub weight: u32,
    pub value: u32,
    pub effects: [i32; 4],
    pub skills: [i32; 4],
    pub attributes: [i32; 4],
}

/// A script's header: its 32-character name and its table sizes.
#[derive(PartialEq, Eq, Clone, Debug)]
pub struct ScriptMetadata {
    pub name: String,
    pub shorts: u32,
    pub longs: u32,
    pub floats: u32,
    pub data_size: u32,
    pub var_table_size: u32,
}

/// A plugin file's header: version, file type, a 32-character author,
/// a 256-character description of DOS-newline lines, and a record count.
#[derive(PartialEq, Eq, Clone, Debug)]
pub struct FileMetadata {
    pub version: u32,
    pub file_type: FileType,
    pub author: String,
    pub description: Vec<String>,
    pub records_count: u32,
}

/// One magic effect of a spell, enchantment or potion.
#[derive(PartialEq, Eq, Structural, Copy, Clone, Debug)]
pub struct Effect {
    pub effect_id: i16,
    pub skill: i8,
    pub attribute: i8,
    pub range: EffectRange,
    pub area: i32,
    pub duration: i32,
    pub magnitude_min: i32,
    pub magnitude_max: i32,
}

/// A saved game's note on a changed NPC.
#[derive(PartialEq, Eq, Structural, Copy, Clone, Debug)]
pub struct SavedNpc {
    pub disposition: i16,
    pub reputation: i16,
    pub index: u32,
}

/// An NPC's attributes, skills and derived stats, 42 bytes on disk.
#[derive(PartialEq, Eq, Structural, Copy, Clone, Debug)]
pub struct NpcCharacteristics {
    pub strength: u8,
    pub intelligence: u8,
    pub willpower: u8,
    pub agility: u8,
    pub speed: u8,
    pub endurance: u8,
    pub personality: u8,
    pub luck: u8,
    pub block: u8,
    pub armorer: u8,
    pub medium_armor: u8,
    pub heavy_armor: u8,
    pub blunt_weapon: u8,
    pub long_blade: u8,
    pub axe: u8,
    pub spear: u8,
    pub athletics: u8,
    pub enchant: u8,
    pub destruction: u8,
    pub alteration: u8,
    pub illusion: u8,
    pub conjuration: u8,
    pub mysticism: u8,
    pub restoration: u8,
    pub alchemy: u8,
    pub unarmored: u8,
    pub security: u8,
    pub sneak: u8,
    pub acrobatics: u8,
    pub light_armor: u8,
    pub short_blade: u8,
    pub marksman: u8,
    pub mercantile: u8,
    pub speechcraft: u8,
    pub hand_to_hand: u8,
    pub faction: u8,
    pub health: i16,
    pub magicka: i16,
    pub fatigue: i16,
}

/// Either the two padding bytes of the short NPC form, or the full
/// characteristics of the long form.
#[derive(PartialEq, Eq, Structural, Copy, Clone, Debug)]
pub enum NpcCharacteristicsOption {
    Padding(u16),
    Present(NpcCharacteristics),
}

/// An NPC's stats; which of the two on-disk forms it takes is decided by
/// whether the characteristics are present.
#[derive(PartialEq, Eq, Structural, Copy, Clone, Debug)]
pub struct Npc {
    pub level: u16,
    pub disposition: i8,
    pub reputation: i8,
    pub rank: i8,
    pub gold: i32,
    pub padding: u8,
    pub characteristics: NpcCharacteristicsOption,
}

/// The 12-byte NPC form: no characteristics, two padding words.
#[derive(PartialEq, Eq, Structural, Copy, Clone, Debug)]
pub struct Npc12 {
    pub level: u16,
    pub disposition: i8,
    pub reputation: i8,
    pub rank: i8,
    pub padding_8: u8,
    pub padding_16: u16,
    pub gold: i32,
}

/// The 52-byte NPC form: characteristics between level and disposition.
#[derive(PartialEq, Eq, Structural, Copy, Clone, Debug)]
pub struct Npc52 {
    pub level: u16,
    pub characteristics: NpcCharacteristics,
    pub disposition: i8,
    pub reputation: i8,
    pub rank: i8,
    pub padding: u8,
    pub gold: i32,
}

/// An NPC in whichever of the two on-disk forms it takes.
#[derive(PartialEq, Eq, Structural, Copy, Clone, Debug)]
pub enum Npc12Or52 {
    Npc12(Npc12),
    Npc52(Npc52),
}

impl Npc {
    /// The sized form this NPC takes on disk.
    pub fn to_sized(&self) -> (r: Npc12Or52)
        ensures
            r == self.spec_to_sized(),
    {
        match self.characteristics {
            NpcCharacteristicsOption::Present(characteristics) => Npc12Or52::Npc52(
                Npc52 {
                    level: self.level,
                    characteristics,
                    disposition: self.disposition,
                    reputation: self.reputation,
                    rank: self.rank,
                    padding: self.padding,
                    gold: self.gold,
                },
            ),
            NpcCharacteristicsOption::Padding(padding_16) => Npc12Or52::Npc12(
                Npc12 {
                    level: self.level,
                    disposition: self.disposition,
                    reputation: self.reputation,
                    rank: self.rank,
                    padding_8: self.padding,
                    padding_16,
                    gold: self.gold,
                },
            ),
        }
    }

    /// The sized form this NPC takes on disk.
    pub open spec fn spec_to_sized(self) -> Npc12Or52 {
        match self.characteristics {
            NpcCharacteristicsOption::Present(characteristics) => Npc12Or52::Npc52(
                Npc52 {
                    level: self.level,
                    characteristics,
                    disposition: self.disposition,
                    reputation: self.reputation,
                    rank: self.rank,
                    padding: self.padding,
                    gold: self.gold,
                },
            ),
            NpcCharacteristicsOption::Padding(padding_16) => Npc12Or52::Npc12(
                Npc12 {
                    level: self.level,
                    disposition: self.disposition,
                    reputation: self.reputation,
                    rank: self.rank,
                    padding_8: self.padding,
                    padding_16,
                    gold: self.gold,
                },
            ),
        }
    }
}

impl Npc12Or52 {
    /// The NPC this sized form describes.
    pub fn to_npc(&self) -> (r: Npc)
        ensures
            r == self.spec_to_npc(),
    {
        match *self {
            Npc12Or52::Npc12(n) => Npc {
                level: n.level,
                disposition: n.disposition,
                reputation: n.reputation,
                rank: n.rank,
                gold: n.gold,
                padding: n.padding_8,
                characteristics: NpcCharacteristicsOption::Padding(n.padding_16),
            },
            Npc12Or52::Npc52(n) => Npc {
                level: n.level,
                disposition: n.disposition,
                reputation: n.reputation,
                rank: n.rank,
                gold: n.gold,
                padding: n.padding,
                characteristics: NpcCharacteristicsOption::Present(n.characteristics),
            },
        }
    }

    /// The NPC this sized form describes.
    pub open spec fn spec_to_npc(self) -> Npc {
        match self {
            Npc12Or52::Npc12(n) => Npc {
                level: n.level,
                disposition: n.disposition,
                reputation: n.reputation,
                rank: n.rank,
                gold: n.gold,
                padding: n.padding_8,
                characteristics: NpcCharacteristicsOption::Padding(n.padding_16),
            },
            Npc12Or52::Npc52(n) => Npc {
                level: n.level,
                disposition: n.disposition,
                reputation: n.reputation,
                rank: n.rank,
                gold: n.gold,
                padding: n.padding,
                characteristics: NpcCharacteristicsOption::Present(n.characteristics),
            },
        }
    }
}

/// The two sized NPC forms describe exactly the NPCs, both ways around.
pub proof fn lemma_npc_sized_round_trip(npc: Npc, sized: Npc12Or52)
    ensures
        npc.spec_to_sized().spec_to_npc() == npc,
        sized.spec_to_npc().spec_to_sized() == sized,
{
}

/// Either the four padding bytes of an undecided dialog entry, or the
/// dialog type byte.
#[derive(PartialEq, Eq, Structural, Copy, Clone, Debug)]
pub enum DialogTypeOption {
    Padding(u32),
    Present(DialogType),
}

/// A spell's header.
#[derive(PartialEq, Eq, Structural, Copy, Clone, Debug)]
pub struct SpellMetadata {
    pub spell_type: SpellType,
    pub cost: u32,
    pub flags: SpellFlags,
}

/// An actor's AI parameters.
#[derive(PartialEq, Eq, Structural, Copy, Clone, Debug)]
pub struct Ai {
    pub hello: u16,
    pub fight: u8,
    pub flee: u8,
    pub alarm: u8,
    pub padding_8: u8,
    pub padding_16: u16,
    pub services: AiServices,
}

/// An actor's wander package.
#[derive(PartialEq, Eq, Copy, Clone, Debug)]
pub struct AiWander {
    pub distance: u16,
    pub duration: u16,
    pub time_of_day: u8,
    pub idle: [u8; 8],
    pub repeat: u8,
}

/// An actor's travel package. The coordinates hold the bit patterns of
/// the on-disk 32-bit floats.
#[derive(PartialEq, Eq, Structural, Copy, Clone, Debug)]
pub struct AiTravel {
    pub x: u32,
    pub y: u32,
    pub z: u32,
    pub flags: AiTravelFlags,
}

/// A flag byte and a blood texture byte, shared by NPC and creature
/// records.
#[derive(PartialEq, Eq, Structural, Copy, Clone, Debug)]
pub struct FlagsAndBloodTexture<Flags> {
    pub flags: Flags,
    pub blood_texture: BloodTexture,
    pub padding: u16,
}

/// A book's stats. `weight` holds the on-disk float's bit pattern.
#[derive(PartialEq, Eq, Structural, Copy, Clone, Debug)]
pub struct Book {
    pub weight: u32,
    pub value: u32,
    pub scroll: u32,
    pub skill: i32,
    pub enchantment: u32,
}

/// A creature's stats.
#[derive(PartialEq, Eq, Structural, Copy, Clone, Debug)]
pub struct Creature {
    pub creature_type: CreatureType,
    pub level: u32,
    pub strength: u32,
    pub intelligence: u32,
    pub willpower: u32,
    pub agility: u32,
    pub speed: u32,
    pub endurance: u32,
    pub personality: u32,
    pub luck: u32,
    pub health: u32,
    pub magicka: u32,
    pub fatigue: u32,
    pub soul: u32,
    pub combat: u32,
    pub magic: u32,
    pub stealth: u32,
    pub attack_1_min: u32,
    pub attack_1_max: u32,
    pub attack_2_min: u32,
    pub attack_2_max: u32,
    pub attack_3_min: u32,
    pub attack_3_max: u32,
    pub gold: u32,
}

/// A light's stats. `weight` holds the on-disk float's bit pattern.
#[derive(PartialEq, Eq, Structural, Copy, Clone, Debug)]
pub struct Light {
    pub weight: u32,
    pub value: u32,
    pub time: i32,
    pub radius: u32,
    pub color: crate::color::Color,
    pub flags: LightFlags,
}

/// A miscellaneous item's stats. `weight` holds the float's bit pattern.
#[derive(PartialEq, Eq, Structural, Copy, Clone, Debug)]
pub struct MiscItem {
    pub weight: u32,
    pub value: u32,
    pub is_key: u32,
}

/// An alchemy apparatus's stats; `quality` and `weight` hold float bit
/// patterns.
#[derive(PartialEq, Eq, Structural, Copy, Clone, Debug)]
pub struct Apparatus {
    pub apparatus_type: ApparatusType,
    pub quality: u32,
    pub weight: u32,
    pub value: u32,
}

/// An armor piece's stats. `weight` holds the float's bit pattern.
#[derive(PartialEq, Eq, Structural, Copy, Clone, Debug)]
pub struct Armor {
    pub armor_type: ArmorType,
    pub weight: u32,
    pub value: u32,
    pub health: u32,
    pub enchantment: u32,
    pub armor: u32,
}

/// A weapon's stats; `speed` and `reach` hold float bit patterns.
#[derive(PartialEq, Eq, Structural, Copy, Clone, Debug)]
pub struct Weapon {
    pub weight: u32,
    pub value: u32,
    pub weapon_type: WeaponType,
    pub health: u16,
    pub speed: u32,
    pub reach: u32,
    pub enchantment: u16,
    pub chop_min: u8,
    pub chop_max: u8,
    pub slash_min: u8,
    pub slash_max: u8,
    pub thrust_min: u8,
    pub thrust_max: u8,
    pub flags: WeaponFlags,
}

/// A body part's kind and flags.
#[derive(PartialEq, Eq, Structural, Copy, Clone, Debug)]
pub struct BodyPart {
    pub mesh_type: MeshType,
    pub vampire: u8,
    pub flags: BodyPartFlags,
    pub body_part_type: BodyPartType,
}

/// A clothing piece's stats. `weight` holds the float's bit pattern.
#[derive(PartialEq, Eq, Structural, Copy, Clone, Debug)]
pub struct Clothing {
    pub clothing_type: ClothingType,
    pub weight: u32,
    pub value: u16,
    pub enchantment: u16,
}

/// A decoded field value; each variant carries everything needed to
/// re-emit byte-identical output. `Float` holds the on-disk float's bit
/// pattern.
#[derive(PartialEq, Eq, Clone, Debug)]
pub enum Field {
    Binary(Vec<u8>),
    String(String),
    StringZ(StringZ),
    StringList(Vec<String>),
    StringZList(StringZList),
    Item(Item),
    Float(u32),
    Int(i32),
    Short(i16),
    Long(i64),
    Byte(u8),
    Ingredient(Ingredient),
    ScriptMetadata(ScriptMetadata),
    DialogMetadata(DialogTypeOption),
    FileMetadata(FileMetadata),
    SavedNpc(SavedNpc),
    Npc(Npc),
    Effect(Effect),
    SpellMetadata(SpellMetadata),
    Ai(Ai),
    AiWander(AiWander),
    AiTravel(AiTravel),
    NpcFlags(FlagsAndBloodTexture<NpcFlags>),
    CreatureFlags(FlagsAndBloodTexture<CreatureFlags>),
    Book(Book),
    ContainerFlags(ContainerFlags),
    Creature(Creature),
    Light(Light),
    MiscItem(MiscItem),
    Apparatus(Apparatus),
    Armor(Armor),
    Weapon(Weapon),
    BipedObject(BipedObject),
    BodyPart(BodyPart),
    Clothing(Clothing),
}

/// Whether the pair is on the coercion whitelist: only these fields may
/// have their text cut at the first embedded NUL after decoding.
pub open spec fn spec_allow_coerce(r: u32, f: u32) -> bool {
    ||| (r == crate::tag::ARMO && f == crate::tag::BNAM)
    ||| (r == crate::tag::BODY && f == crate::tag::BNAM)
    ||| (r == crate::tag::CLOT && f == crate::tag::BNAM)
    ||| (r == crate::tag::INFO && f == crate::tag::BNAM)
    ||| (r == crate::tag::ARMO && f == crate::tag::CNAM)
    ||| (r == crate::tag::SSCR && f == crate::tag::DATA)
    ||| (r == crate::tag::BSGN && f == crate::tag::DESC)
    ||| (r == crate::tag::SSCR && f == crate::tag::NAME)
    ||| (f == crate::tag::SCTX)
    ||| (r == crate::tag::BOOK && f == crate::tag::TEXT)
    ||| (r == crate::tag::FACT && f == crate::tag::RNAM)
}

/// Whether the pair is on the coercion whitelist.
pub fn allow_coerce(record_tag: Tag, field_tag: Tag) -> (r: bool)
    ensures
        r == spec_allow_coerce(record_tag.dword, field_tag.dword),
{
    let r = record_tag.dword;
    let f = field_tag.dword;
    (r == crate::tag::ARMO && f == crate::tag::BNAM) || (r == crate::tag::BODY && f
        == crate::tag::BNAM) || (r == crate::tag::CLOT && f == crate::tag::BNAM) || (r
        == crate::tag::INFO && f == crate::tag::BNAM) || (r == crate::tag::ARMO && f
        == crate::tag::CNAM) || (r == crate::tag::SSCR && f == crate::tag::DATA) || (r
        == crate::tag::BSGN && f == crate::tag::DESC) || (r == crate::tag::SSCR && f
        == crate::tag::NAME) || (f == crate::tag::SCTX) || (r == crate::tag::BOOK && f
        == crate::tag::TEXT) || (r == crate::tag::FACT && f == crate::tag::RNAM)
}

/// The position of the first NUL character, if any.
pub open spec fn spec_find_nul(cs: Seq<char>) -> Option<int>
    decreases cs.len(),
{
    if cs.len() == 0 {
        None
    } else if cs[0] == '\0' {
        Some(0)
    } else {
        match spec_find_nul(cs.drop_first()) {
            Option::None => None,
            Option::Some(i) => Some(i + 1),
        }
    }
}

/// Where the first NUL stands: inside the text, on a NUL, with none
/// before it; or nowhere, and the text has no NUL.
pub proof fn lemma_find_nul_props(cs: Seq<char>)
    ensures
        match spec_find_nul(cs) {
            Option::Some(i) => 0 <= i < cs.len() && cs[i] == '\0' && (forall|j: int|
                0 <= j < i ==> cs[j] != '\0'),
            Option::None => forall|j: int| 0 <= j < cs.len() ==> cs[j] != '\0',
        },
    decreases cs.len(),
{
    if cs.len() == 0 {
    } else if cs[0] == '\0' {
    } else {
        lemma_find_nul_props(cs.drop_first());
        assert forall|j: int| 0 < j < cs.len() implies cs.drop_first()[j - 1] == cs[j] by {
        }
    }
}

/// The text cut at its first NUL; text without a NUL is kept whole.
pub open spec fn spec_cut_nul(cs: Seq<char>) -> Seq<char> {
    match spec_find_nul(cs) {
        Option::None => cs,
        Option::Some(i) => cs.take(i),
    }
}

/// Lines cut at the first NUL: the line holding it is truncated there
/// and the lines after it are dropped; a list without a NUL is kept
/// whole.
pub open spec fn spec_cut_nul_lines(lines: Seq<Seq<char>>) -> Seq<Seq<char>>
    decreases lines.len(),
{
    if lines.len() == 0 {
        lines
    } else {
        match spec_find_nul(lines[0]) {
            Option::Some(i) => seq![lines[0].take(i)],
            Option::None => seq![lines[0]] + spec_cut_nul_lines(lines.drop_first()),
        }
    }
}

/// The position of the first NUL character, if any.
fn find_nul(s: &str) -> (r: Option<usize>)
    ensures
        match r {
            Some(i) => Some(i as int) == spec_find_nul(s@),
            None => spec_find_nul(s@) is None,
        },
{
    proof {
        lemma_find_nul_props(s@);
    }
    let len = s.unicode_len();
    let mut i: usize = 0;
    while i < len
        invariant
            len == s@.len(),
            i <= len,
            forall|j: int| 0 <= j < i ==> s@[j] != '\0',
        decreases len - i,
    {
        if s.get_char(i) == '\0' {
            proof {
                lemma_find_nul_props(s@);
            }
            return Some(i);
        }
        i = i + 1;
    }
    proof {
        lemma_find_nul_props(s@);
    }
    None
}

/// The text cut at its first NUL, as a fresh string.
fn cut_nul(s: &str) -> (r: String)
    ensures
        r@ == spec_cut_nul(s@),
{
    match find_nul(s) {
        Option::None => s.to_owned(),
        Option::Some(i) => {
            proof {
                lemma_find_nul_props(s@);
                assert(s@.subrange(0, i as int) =~= s@.take(i as int));
            }
            s.substring_char(0, i).to_owned()
        },
    }
}

/// Lines cut at the first NUL, as fresh strings.
fn cut_nul_lines(lines: &Vec<String>) -> (r: Vec<String>)
    ensures
        r@.map_values(|s: String| s@) == spec_cut_nul_lines(
            lines@.map_values(|s: String| s@),
        ),
{
    let ghost linesv = lines@.map_values(|s: String| s@);
    let mut out: Vec<String> = Vec::new();
    let mut i: usize = 0;
    proof {
        assert(linesv.skip(0) =~= linesv);
        assert(out@.map_values(|s: String| s@) + spec_cut_nul_lines(linesv) =~= spec_cut_nul_lines(
            linesv));
    }
    loop
        invariant
            linesv == lines@.map_values(|s: String| s@),
            i <= lines@.len(),
            spec_cut_nul_lines(linesv) == out@.map_values(|s: String| s@)
                + spec_cut_nul_lines(linesv.skip(i as int)),
        decreases lines@.len() - i,
    {
        if i == lines.len() {
            proof {
                assert(spec_cut_nul_lines(linesv) =~= out@.map_values(|s: String| s@));
            }
            return out;
        }
        proof {
            assert(linesv.skip(i as int)[0] == linesv[i as int]);
            assert(linesv[i as int] == lines@[i as int]@);
        }
        let line = &lines[i];
        let ghost prevm = out@.map_values(|s: String| s@);
        match find_nul(line.as_str()) {
            Option::Some(p) => {
                proof {
                    lemma_find_nul_props(line@);
                    assert(line@.subrange(0, p as int) =~= line@.take(p as int));
                }
                let cut = line.substring_char(0, p).to_owned();
                out.push(cut);
                proof {
                    assert(spec_cut_nul_lines(linesv.skip(i as int)) =~= seq![linesv[
                        i as int].take(p as int)]);
                    assert(out@.map_values(|s: String| s@) =~= prevm.push(linesv[i as int].take(
                        p as int)));
                    assert(spec_cut_nul_lines(linesv) =~= out@.map_values(|s: String| s@));
                }
                return out;
            },
            Option::None => {
                let kept = line.clone();
                out.push(kept);
                proof {
                    assert(linesv.skip(i as int).drop_first() =~= linesv.skip(i as int + 1));
                    assert(out@.map_values(|s: String| s@) =~= prevm.push(linesv[i as int]));
                    assert(spec_cut_nul_lines(linesv) =~= out@.map_values(|s: String| s@)
                        + spec_cut_nul_lines(linesv.skip(i as int + 1)));
                }
            },
        }
        i = i + 1;
    }
}

/// Whether a field value has the shape that coercion for this pair works
/// on; pairs off the whitelist accept anything.
pub open spec fn spec_coerce_compat(f: Field, r: u32, t: u32) -> bool {
    if !spec_allow_coerce(r, t) {
        true
    } else {
        match spec_field_type(r, t) {
            FieldType::VarString => f is String,
            FieldType::FixedString(_) => f is String,
            FieldType::Multiline(_) => f is StringList,
            FieldType::StringZ => f is StringZ,
            FieldType::StringZList => f is StringZList,
            _ => true,
        }
    }
}

/// What coercion does: for a whitelisted pair, text is cut at its first
/// embedded NUL, and a trailing-NUL flag is forced on; everything else is
/// left exactly as it came.
pub open spec fn spec_coerce_rel(before: Field, after: Field, r: u32, t: u32) -> bool {
    if !spec_allow_coerce(r, t) {
        after == before
    } else {
        match spec_field_type(r, t) {
            FieldType::VarString | FieldType::FixedString(_) => match before {
                Field::String(s) => after matches Field::String(s2) && s2@ == spec_cut_nul(s@),
                _ => after == before,
            },
            FieldType::Multiline(_) => match before {
                Field::StringList(ls) => after matches Field::StringList(ls2) && ls2@.map_values(
                    |s: String| s@,
                ) == spec_cut_nul_lines(ls@.map_values(|s: String| s@)),
                _ => after == before,
            },
            FieldType::StringZ => match before {
                Field::StringZ(z) => after matches Field::StringZ(z2) && z2.string@
                    == spec_cut_nul(z.string@) && z2.has_tail_zero,
                _ => after == before,
            },
            FieldType::StringZList => match before {
                Field::StringZList(z) => after matches Field::StringZList(z2) && z2.strings
                    == z.strings && z2.has_tail_zero,
                _ => after == before,
            },
            _ => after == before,
        }
    }
}

impl Field {
    /// The coercion pass: an explicit post-decode step that, for a
    /// whitelisted pair, cuts text at its first embedded NUL and forces
    /// the trailing-NUL flag on.
    pub fn coerce(&mut self, record_tag: Tag, field_tag: Tag)
        requires
            spec_coerce_compat(*old(self), record_tag.dword, field_tag.dword),
        ensures
            spec_coerce_rel(*old(self), *final(self), record_tag.dword, field_tag.dword),
    {
        if !allow_coerce(record_tag, field_tag) {
            return ;
        }
        match FieldType::from_tags(record_tag, field_tag) {
            FieldType::VarString | FieldType::FixedString(_) => {
                let cut = match &*self {
                    Field::String(s) => cut_nul(s.as_str()),
                    _ => {
                        return ;
                    },
                };
                *self = Field::String(cut);
            },
            FieldType::Multiline(_) => {
                let cut = match &*self {
                    Field::StringList(ls) => cut_nul_lines(ls),
                    _ => {
                        return ;
                    },
                };
                *self = Field::StringList(cut);
            },
            FieldType::StringZ => {
                let cut = match &*self {
                    Field::StringZ(z) => cut_nul(z.string.as_str()),
                    _ => {
                        return ;
                    },
                };
                *self = Field::StringZ(StringZ { string: cut, has_tail_zero: true });
            },
            FieldType::StringZList => {
                let strings = match &*self {
                    Field::StringZList(z) => z.strings.clone(),
                    _ => {
                        return ;
                    },
                };
                *self = Field::StringZList(StringZList { strings, has_tail_zero: true });
            },
            _ => {},
        }
    }
}


/// The mathematical value of a `StringZ`.
pub ghost struct StringZV {
    pub string: Seq<char>,
    pub has_tail_zero: bool,
}

impl View for StringZ {
    type V = StringZV;

    open spec fn view(&self) -> StringZV {
        StringZV { string: self.string@, has_tail_zero: self.has_tail_zero }
    }
}

/// The mathematical value of a `StringZList`.
pub ghost struct StringZListV {
    pub strings: Seq<Seq<char>>,
    pub has_tail_zero: bool,
}

impl View for StringZList {
    type V = StringZListV;

    open spec fn view(&self) -> StringZListV {
        StringZListV {
            strings: self.strings@.map_values(|s: String| s@),
            has_tail_zero: self.has_tail_zero,
        }
    }
}

/// The mathematical value of an `Item`.
pub ghost struct ItemV {
    pub count: i32,
    pub item_id: Seq<char>,
}

impl View for Item {
    type V = ItemV;

    open spec fn view(&self) -> ItemV {
        ItemV { count: self.count, item_id: self.item_id@ }
    }
}

/// The mathematical value of an `Ingredient`.
pub ghost struct IngredientV {
    pub weight: u32,
    pub value: u32,
    pub effects: Seq<i32>,
    pub skills: Seq<i32>,
    pub attributes: Seq<i32>,
}

impl View for Ingredient {
    type V = IngredientV;

    open spec fn view(&self) -> IngredientV {
        IngredientV {
            weight: self.weight,
            value: self.value,
            effects: self.effects@,
            skills: self.skills@,
            attributes: self.attributes@,
        }
    }
}

/// The mathematical value of a `ScriptMetadata`.
pub ghost struct ScriptMetadataV {
    pub name: Seq<char>,
    pub shorts: u32,
    pub longs: u32,
    pub floats: u32,
    pub data_size: u32,
    pub var_table_size: u32,
}

impl View for ScriptMetadata {
    type V = ScriptMetadataV;

    open spec fn view(&self) -> ScriptMetadataV {
        ScriptMetadataV {
            name: self.name@,
            shorts: self.shorts,
            longs: self.longs,
            floats: self.floats,
            data_size: self.data_size,
            var_table_size: self.var_table_size,
        }
    }
}

/// The mathematical value of a `FileMetadata`.
pub ghost struct FileMetadataV {
    pub version: u32,
    pub file_type: FileType,
    pub author: Seq<char>,
    pub description: Seq<Seq<char>>,
    pub records_count: u32,
}

impl View for FileMetadata {
    type V = FileMetadataV;

    open spec fn view(&self) -> FileMetadataV {
        FileMetadataV {
            version: self.version,
            file_type: self.file_type,
            author: self.author@,
            description: self.description@.map_values(|s: String| s@),
            records_count: self.records_count,
        }
    }
}

/// The mathematical value of an `AiWander`.
pub ghost struct AiWanderV {
    pub distance: u16,
    pub duration: u16,
    pub time_of_day: u8,
    pub idle: Seq<u8>,
    pub repeat: u8,
}

impl View for AiWander {
    type V = AiWanderV;

    open spec fn view(&self) -> AiWanderV {
        AiWanderV {
            distance: self.distance,
            duration: self.duration,
            time_of_day: self.time_of_day,
            idle: self.idle@,
            repeat: self.repeat,
        }
    }
}

/// The mathematical value of a field: text and byte payloads as
/// sequences, everything else as it stands.
pub ghost enum FieldView {
    Binary(Seq<u8>),
    String(Seq<char>),
    StringZ(StringZV),
    StringList(Seq<Seq<char>>),
    StringZList(StringZListV),
    Item(ItemV),
    Float(u32),
    Int(i32),
    Short(i16),
    Long(i64),
    Byte(u8),
    Ingredient(IngredientV),
    ScriptMetadata(ScriptMetadataV),
    DialogMetadata(DialogTypeOption),
    FileMetadata(FileMetadataV),
    SavedNpc(SavedNpc),
    Npc(Npc),
    Effect(Effect),
    SpellMetadata(SpellMetadata),
    Ai(Ai),
    AiWander(AiWanderV),
    AiTravel(AiTravel),
    NpcFlags(FlagsAndBloodTexture<NpcFlags>),
    CreatureFlags(FlagsAndBloodTexture<CreatureFlags>),
    Book(Book),
    ContainerFlags(ContainerFlags),
    Creature(Creature),
    Light(Light),
    MiscItem(MiscItem),
    Apparatus(Apparatus),
    Armor(Armor),
    Weapon(Weapon),
    BipedObject(BipedObject),
    BodyPart(BodyPart),
    Clothing(Clothing),
}

impl View for Field {
    type V = FieldView;

    open spec fn view(&self) -> FieldView {
        match self {
            Field::Binary(v) => FieldView::Binary(v@),
            Field::String(v) => FieldView::String(v@),
            Field::StringZ(v) => FieldView::StringZ(v@),
            Field::StringList(v) => FieldView::StringList(v@.map_values(|s: String| s@)),
            Field::StringZList(v) => FieldView::StringZList(v@),
            Field::Item(v) => FieldView::Item(v@),
            Field::Float(v) => FieldView::Float(*v),
            Field::Int(v) => FieldView::Int(*v),
            Field::Short(v) => FieldView::Short(*v),
            Field::Long(v) => FieldView::Long(*v),
            Field::Byte(v) => FieldView::Byte(*v),
            Field::Ingredient(v) => FieldView::Ingredient(v@),
            Field::ScriptMetadata(v) => FieldView::ScriptMetadata(v@),
            Field::DialogMetadata(v) => FieldView::DialogMetadata(*v),
            Field::FileMetadata(v) => FieldView::FileMetadata(v@),
            Field::SavedNpc(v) => FieldView::SavedNpc(*v),
            Field::Npc(v) => FieldView::Npc(*v),
            Field::Effect(v) => FieldView::Effect(*v),
            Field::SpellMetadata(v) => FieldView::SpellMetadata(*v),
            Field::Ai(v) => FieldView::Ai(*v),
            Field::AiWander(v) => FieldView::AiWander(v@),
            Field::AiTravel(v) => FieldView::AiTravel(*v),
            Field::NpcFlags(v) => FieldView::NpcFlags(*v),
            Field::CreatureFlags(v) => FieldView::CreatureFlags(*v),
            Field::Book(v) => FieldView::Book(*v),
            Field::ContainerFlags(v) => FieldView::ContainerFlags(*v),
            Field::Creature(v) => FieldView::Creature(*v),
            Field::Light(v) => FieldView::Light(*v),
            Field::MiscItem(v) => FieldView::MiscItem(*v),
            Field::Apparatus(v) => FieldView::Apparatus(*v),
            Field::Armor(v) => FieldView::Armor(*v),
            Field::Weapon(v) => FieldView::Weapon(*v),
            Field::BipedObject(v) => FieldView::BipedObject(*v),
            Field::BodyPart(v) => FieldView::BodyPart(*v),
            Field::Clothing(v) => FieldView::Clothing(*v),
        }
    }
}


/// A whole record as the layer above the field codec frames it: its tag,
/// its flag word, and its fields in order.
#[derive(PartialEq, Eq, Clone, Debug)]
pub struct Record {
    pub tag: Tag,
    pub flags: crate::record_flags::RecordFlags,
    pub fields: Vec<Field>,
}

} // verus!
