use vstd::prelude::*;
use crate::tag::Tag;

verus! {

/// The newline style of a multi-line text field.
#[derive(PartialEq, Eq, Structural, Copy, Clone, Hash, PartialOrd, Ord, Debug)]
pub enum Newline {
    Unix,
    Dos,
}

impl Newline {
    /// The characters this style writes between lines.
    pub fn as_str(self) -> (r: &'static str)
        ensures
            self is Unix ==> r@ == "\n"@,
            self is Dos ==> r@ == "\r\n"@,
    {
        if self == Newline::Unix {
            "\n"
        } else {
            "\r\n"
        }
    }
}

/// The on-disk shape of a field's payload, as the dispatch table assigns
/// it to a (record tag, field tag) pair.
#[derive(PartialEq, Eq, Structural, Copy, Clone, Debug)]
pub enum FieldType {
    Binary,
    VarString,
    FixedString(u32),
    StringZ,
    Multiline(Newline),
    StringZList,
    Item,
    Float,
    Int,
    Short,
    Long,
    Byte,
    Compressed,
    Ingredient,
    ScriptMetadata,
    DialogMetadata,
    FileMetadata,
    Npc,
    SavedNpc,
    Effect,
    SpellMetadata,
    Ai,
    AiWander,
    AiTravel,
    NpcFlags,
    CreatureFlags,
    Book,
    ContainerFlags,
    Creature,
    Light,
    MiscItem,
    Apparatus,
    Weapon,
    Armor,
    BipedObject,
    BodyPart,
    Clothing,
}

/// The dispatch table: the shape of the field named `f` inside a record
/// named `r`. A row naming both tags wins over a row naming the field tag
/// alone; a pair no row names is raw bytes.
pub open spec fn spec_field_type(r: u32, f: u32) -> FieldType {
    if r == crate::tag::APPA && f == crate::tag::AADT {
        FieldType::Apparatus
    } else if r == crate::tag::INFO && f == crate::tag::ACDT {
        FieldType::VarString
    } else if r == crate::tag::CELL && f == crate::tag::ACTN {
        FieldType::Int
    } else if f == crate::tag::AI_T {
        FieldType::AiTravel
    } else if f == crate::tag::AI_W {
        FieldType::AiWander
    } else if f == crate::tag::AIDT {
        FieldType::Ai
    } else if r == crate::tag::FACT && f == crate::tag::ANAM {
        FieldType::VarString
    } else if f == crate::tag::ANAM {
        FieldType::StringZ
    } else if r == crate::tag::ARMO && f == crate::tag::AODT {
        FieldType::Armor
    } else if f == crate::tag::ASND {
        FieldType::StringZ
    } else if f == crate::tag::AVFX {
        FieldType::StringZ
    } else if r == crate::tag::BOOK && f == crate::tag::BKDT {
        FieldType::Book
    } else if r == crate::tag::ARMO && f == crate::tag::BNAM {
        FieldType::VarString
    } else if r == crate::tag::BODY && f == crate::tag::BNAM {
        FieldType::VarString
    } else if r == crate::tag::CLOT && f == crate::tag::BNAM {
        FieldType::VarString
    } else if r == crate::tag::INFO && f == crate::tag::BNAM {
        FieldType::Multiline(Newline::Dos)
    } else if r == crate::tag::PCDT && f == crate::tag::BNAM {
        FieldType::VarString
    } else if f == crate::tag::BNAM {
        FieldType::StringZ
    } else if f == crate::tag::BSND {
        FieldType::StringZ
    } else if f == crate::tag::BVFX {
        FieldType::StringZ
    } else if r == crate::tag::BODY && f == crate::tag::BYDT {
        FieldType::BodyPart
    } else if r == crate::tag::ARMO && f == crate::tag::CNAM {
        FieldType::VarString
    } else if r == crate::tag::CLOT && f == crate::tag::CNAM {
        FieldType::VarString
    } else if r == crate::tag::KLST && f == crate::tag::CNAM {
        FieldType::Int
    } else if r == crate::tag::REGN && f == crate::tag::CNAM {
        FieldType::Int
    } else if f == crate::tag::CNAM {
        FieldType::StringZ
    } else if r == crate::tag::CONT && f == crate::tag::CNDT {
        FieldType::Float
    } else if f == crate::tag::CSND {
        FieldType::StringZ
    } else if r == crate::tag::CLOT && f == crate::tag::CTDT {
        FieldType::Clothing
    } else if f == crate::tag::CVFX {
        FieldType::StringZ
    } else if r == crate::tag::DIAL && f == crate::tag::DATA {
        FieldType::DialogMetadata
    } else if r == crate::tag::LAND && f == crate::tag::DATA {
        FieldType::Int
    } else if r == crate::tag::LEVC && f == crate::tag::DATA {
        FieldType::Int
    } else if r == crate::tag::LEVI && f == crate::tag::DATA {
        FieldType::Int
    } else if r == crate::tag::LTEX && f == crate::tag::DATA {
        FieldType::StringZ
    } else if r == crate::tag::SSCR && f == crate::tag::DATA {
        FieldType::VarString
    } else if r == crate::tag::TES3 && f == crate::tag::DATA {
        FieldType::Long
    } else if r == crate::tag::QUES && f == crate::tag::DATA {
        FieldType::VarString
    } else if r == crate::tag::DIAL && f == crate::tag::DELE {
        FieldType::Int
    } else if r == crate::tag::BSGN && f == crate::tag::DESC {
        FieldType::StringZ
    } else if f == crate::tag::DESC {
        FieldType::VarString
    } else if f == crate::tag::DNAM {
        FieldType::StringZ
    } else if r == crate::tag::ALCH && f == crate::tag::ENAM {
        FieldType::Effect
    } else if r == crate::tag::ENCH && f == crate::tag::ENAM {
        FieldType::Effect
    } else if r == crate::tag::PCDT && f == crate::tag::ENAM {
        FieldType::Long
    } else if r == crate::tag::SPEL && f == crate::tag::ENAM {
        FieldType::Effect
    } else if f == crate::tag::ENAM {
        FieldType::StringZ
    } else if r == crate::tag::CELL && f == crate::tag::FGTN {
        FieldType::VarString
    } else if r == crate::tag::CONT && f == crate::tag::FLAG {
        FieldType::ContainerFlags
    } else if r == crate::tag::CREA && f == crate::tag::FLAG {
        FieldType::CreatureFlags
    } else if r == crate::tag::NPC_ && f == crate::tag::FLAG {
        FieldType::NpcFlags
    } else if f == crate::tag::FLAG {
        FieldType::Int
    } else if f == crate::tag::FLTV {
        FieldType::Float
    } else if r == crate::tag::GLOB && f == crate::tag::FNAM {
        FieldType::VarString
    } else if r == crate::tag::PCDT && f == crate::tag::FNAM {
        FieldType::Binary
    } else if f == crate::tag::FNAM {
        FieldType::StringZ
    } else if r == crate::tag::CELL && f == crate::tag::FRMR {
        FieldType::Int
    } else if r == crate::tag::TES3 && f == crate::tag::HEDR {
        FieldType::FileMetadata
    } else if f == crate::tag::HSND {
        FieldType::StringZ
    } else if f == crate::tag::HVFX {
        FieldType::StringZ
    } else if f == crate::tag::INAM {
        FieldType::StringZ
    } else if r == crate::tag::ARMO && f == crate::tag::INDX {
        FieldType::BipedObject
    } else if r == crate::tag::CLOT && f == crate::tag::INDX {
        FieldType::BipedObject
    } else if f == crate::tag::INDX {
        FieldType::Int
    } else if r == crate::tag::LAND && f == crate::tag::INTV {
        FieldType::Long
    } else if r == crate::tag::LEVC && f == crate::tag::INTV {
        FieldType::Short
    } else if r == crate::tag::LEVI && f == crate::tag::INTV {
        FieldType::Short
    } else if f == crate::tag::INTV {
        FieldType::Int
    } else if r == crate::tag::INGR && f == crate::tag::IRDT {
        FieldType::Ingredient
    } else if f == crate::tag::ITEX {
        FieldType::StringZ
    } else if r == crate::tag::PCDT && f == crate::tag::KNAM {
        FieldType::Binary
    } else if f == crate::tag::KNAM {
        FieldType::StringZ
    } else if r == crate::tag::LIGH && f == crate::tag::LHDT {
        FieldType::Light
    } else if r == crate::tag::PCDT && f == crate::tag::LNAM {
        FieldType::Long
    } else if r == crate::tag::CELL && f == crate::tag::LSHN {
        FieldType::VarString
    } else if r == crate::tag::CELL && f == crate::tag::LSTN {
        FieldType::VarString
    } else if f == crate::tag::LVCR {
        FieldType::Byte
    } else if r == crate::tag::FMAP && f == crate::tag::MAPD {
        FieldType::Compressed
    } else if r == crate::tag::FMAP && f == crate::tag::MAPH {
        FieldType::Long
    } else if r == crate::tag::TES3 && f == crate::tag::MAST {
        FieldType::StringZ
    } else if r == crate::tag::MISC && f == crate::tag::MCDT {
        FieldType::MiscItem
    } else if r == crate::tag::PCDT && f == crate::tag::MNAM {
        FieldType::VarString
    } else if r == crate::tag::CELL && f == crate::tag::MNAM {
        FieldType::Byte
    } else if f == crate::tag::MODL {
        FieldType::StringZ
    } else if r == crate::tag::CELL && f == crate::tag::NAM0 {
        FieldType::Int
    } else if r == crate::tag::SPLM && f == crate::tag::NAM0 {
        FieldType::Byte
    } else if r == crate::tag::CELL && f == crate::tag::NAM5 {
        FieldType::Int
    } else if r == crate::tag::CELL && f == crate::tag::NAM9 {
        FieldType::Int
    } else if r == crate::tag::PCDT && f == crate::tag::NAM9 {
        FieldType::Int
    } else if r == crate::tag::GMST && f == crate::tag::NAME {
        FieldType::VarString
    } else if r == crate::tag::INFO && f == crate::tag::NAME {
        FieldType::VarString
    } else if r == crate::tag::JOUR && f == crate::tag::NAME {
        FieldType::Multiline(Newline::Unix)
    } else if r == crate::tag::SPLM && f == crate::tag::NAME {
        FieldType::Int
    } else if r == crate::tag::SSCR && f == crate::tag::NAME {
        FieldType::VarString
    } else if f == crate::tag::NAME {
        FieldType::StringZ
    } else if f == crate::tag::ND3D {
        FieldType::Byte
    } else if r == crate::tag::LEVC && f == crate::tag::NNAM {
        FieldType::Byte
    } else if r == crate::tag::LEVI && f == crate::tag::NNAM {
        FieldType::Byte
    } else if f == crate::tag::NNAM {
        FieldType::StringZ
    } else if f == crate::tag::NPCO {
        FieldType::Item
    } else if r == crate::tag::CREA && f == crate::tag::NPDT {
        FieldType::Creature
    } else if r == crate::tag::NPC_ && f == crate::tag::NPDT {
        FieldType::Npc
    } else if r == crate::tag::NPCC && f == crate::tag::NPDT {
        FieldType::SavedNpc
    } else if f == crate::tag::NPCS {
        FieldType::FixedString(32)
    } else if f == crate::tag::ONAM {
        FieldType::StringZ
    } else if r == crate::tag::PCDT && f == crate::tag::PNAM {
        FieldType::Binary
    } else if f == crate::tag::PNAM {
        FieldType::StringZ
    } else if f == crate::tag::PTEX {
        FieldType::StringZ
    } else if f == crate::tag::RGNN {
        FieldType::StringZ
    } else if r == crate::tag::FACT && f == crate::tag::RNAM {
        FieldType::FixedString(32)
    } else if r == crate::tag::SCPT && f == crate::tag::RNAM {
        FieldType::Int
    } else if f == crate::tag::RNAM {
        FieldType::StringZ
    } else if r == crate::tag::SCPT && f == crate::tag::SCHD {
        FieldType::ScriptMetadata
    } else if f == crate::tag::SCRI {
        FieldType::StringZ
    } else if f == crate::tag::SCTX {
        FieldType::Multiline(Newline::Dos)
    } else if r == crate::tag::SCPT && f == crate::tag::SCVR {
        FieldType::StringZList
    } else if f == crate::tag::SCVR {
        FieldType::VarString
    } else if r == crate::tag::PCDT && f == crate::tag::SNAM {
        FieldType::Binary
    } else if r == crate::tag::REGN && f == crate::tag::SNAM {
        FieldType::Binary
    } else if f == crate::tag::SNAM {
        FieldType::StringZ
    } else if r == crate::tag::SPEL && f == crate::tag::SPDT {
        FieldType::SpellMetadata
    } else if f == crate::tag::STRV {
        FieldType::VarString
    } else if r == crate::tag::BOOK && f == crate::tag::TEXT {
        FieldType::Multiline(Newline::Dos)
    } else if f == crate::tag::TEXT {
        FieldType::StringZ
    } else if f == crate::tag::TNAM {
        FieldType::StringZ
    } else if f == crate::tag::VCLR {
        FieldType::Compressed
    } else if f == crate::tag::VHGT {
        FieldType::Compressed
    } else if f == crate::tag::VNML {
        FieldType::Compressed
    } else if f == crate::tag::VTEX {
        FieldType::Compressed
    } else if f == crate::tag::WHGT {
        FieldType::Int
    } else if f == crate::tag::WIDX {
        FieldType::Long
    } else if f == crate::tag::WNAM {
        FieldType::Compressed
    } else if r == crate::tag::WEAP && f == crate::tag::WPDT {
        FieldType::Weapon
    } else if f == crate::tag::XCHG {
        FieldType::Int
    } else if f == crate::tag::XHLT {
        FieldType::Int
    } else if f == crate::tag::XIDX {
        FieldType::Int
    } else if f == crate::tag::XSOL {
        FieldType::StringZ
    } else if r == crate::tag::SPLM && f == crate::tag::XNAM {
        FieldType::Byte
    } else if r == crate::tag::CELL && f == crate::tag::XSCL {
        FieldType::Int
    } else if r == crate::tag::CELL && f == crate::tag::ZNAM {
        FieldType::Byte
    } else {
        FieldType::Binary
    }
}

impl FieldType {
    /// The shape of the field named `field_tag` inside a record named
    /// `record_tag`, by the dispatch table.
    pub fn from_tags(record_tag: Tag, field_tag: Tag) -> (t: FieldType)
        ensures
            t == spec_field_type(record_tag.dword, field_tag.dword),
    {
        let r = record_tag.dword;
        let f = field_tag.dword;
        if r == crate::tag::APPA && f == crate::tag::AADT {
            FieldType::Apparatus
        } else if r == crate::tag::INFO && f == crate::tag::ACDT {
            FieldType::VarString
        } else if r == crate::tag::CELL && f == crate::tag::ACTN {
            FieldType::Int
        } else if f == crate::tag::AI_T {
            FieldType::AiTravel
        } else if f == crate::tag::AI_W {
            FieldType::AiWander
        } else if f == crate::tag::AIDT {
            FieldType::Ai
        } else if r == crate::tag::FACT && f == crate::tag::ANAM {
            FieldType::VarString
        } else if f == crate::tag::ANAM {
            FieldType::StringZ
        } else if r == crate::tag::ARMO && f == crate::tag::AODT {
            FieldType::Armor
        } else if f == crate::tag::ASND {
            FieldType::StringZ
        } else if f == crate::tag::AVFX {
            FieldType::StringZ
        } else if r == crate::tag::BOOK && f == crate::tag::BKDT {
            FieldType::Book
        } else if r == crate::tag::ARMO && f == crate::tag::BNAM {
            FieldType::VarString
        } else if r == crate::tag::BODY && f == crate::tag::BNAM {
            FieldType::VarString
        } else if r == crate::tag::CLOT && f == crate::tag::BNAM {
            FieldType::VarString
        } else if r == crate::tag::INFO && f == crate::tag::BNAM {
            FieldType::Multiline(Newline::Dos)
        } else if r == crate::tag::PCDT && f == crate::tag::BNAM {
            FieldType::VarString
        } else if f == crate::tag::BNAM {
            FieldType::StringZ
        } else if f == crate::tag::BSND {
            FieldType::StringZ
        } else if f == crate::tag::BVFX {
            FieldType::StringZ
        } else if r == crate::tag::BODY && f == crate::tag::BYDT {
            FieldType::BodyPart
        } else if r == crate::tag::ARMO && f == crate::tag::CNAM {
            FieldType::VarString
        } else if r == crate::tag::CLOT && f == crate::tag::CNAM {
            FieldType::VarString
        } else if r == crate::tag::KLST && f == crate::tag::CNAM {
            FieldType::Int
        } else if r == crate::tag::REGN && f == crate::tag::CNAM {
            FieldType::Int
        } else if f == crate::tag::CNAM {
            FieldType::StringZ
        } else if r == crate::tag::CONT && f == crate::tag::CNDT {
            FieldType::Float
        } else if f == crate::tag::CSND {
            FieldType::StringZ
        } else if r == crate::tag::CLOT && f == crate::tag::CTDT {
            FieldType::Clothing
        } else if f == crate::tag::CVFX {
            FieldType::StringZ
        } else if r == crate::tag::DIAL && f == crate::tag::DATA {
            FieldType::DialogMetadata
        } else if r == crate::tag::LAND && f == crate::tag::DATA {
            FieldType::Int
        } else if r == crate::tag::LEVC && f == crate::tag::DATA {
            FieldType::Int
        } else if r == crate::tag::LEVI && f == crate::tag::DATA {
            FieldType::Int
        } else if r == crate::tag::LTEX && f == crate::tag::DATA {
            FieldType::StringZ
        } else if r == crate::tag::SSCR && f == crate::tag::DATA {
            FieldType::VarString
        } else if r == crate::tag::TES3 && f == crate::tag::DATA {
            FieldType::Long
        } else if r == crate::tag::QUES && f == crate::tag::DATA {
            FieldType::VarString
        } else if r == crate::tag::DIAL && f == crate::tag::DELE {
            FieldType::Int
        } else if r == crate::tag::BSGN && f == crate::tag::DESC {
            FieldType::StringZ
        } else if f == crate::tag::DESC {
            FieldType::VarString
        } else if f == crate::tag::DNAM {
            FieldType::StringZ
        } else if r == crate::tag::ALCH && f == crate::tag::ENAM {
            FieldType::Effect
        } else if r == crate::tag::ENCH && f == crate::tag::ENAM {
            FieldType::Effect
        } else if r == crate::tag::PCDT && f == crate::tag::ENAM {
            FieldType::Long
        } else if r == crate::tag::SPEL && f == crate::tag::ENAM {
            FieldType::Effect
        } else if f == crate::tag::ENAM {
            FieldType::StringZ
        } else if r == crate::tag::CELL && f == crate::tag::FGTN {
            FieldType::VarString
        } else if r == crate::tag::CONT && f == crate::tag::FLAG {
            FieldType::ContainerFlags
        } else if r == crate::tag::CREA && f == crate::tag::FLAG {
            FieldType::CreatureFlags
        } else if r == crate::tag::NPC_ && f == crate::tag::FLAG {
            FieldType::NpcFlags
        } else if f == crate::tag::FLAG {
            FieldType::Int
        } else if f == crate::tag::FLTV {
            FieldType::Float
        } else if r == crate::tag::GLOB && f == crate::tag::FNAM {
            FieldType::VarString
        } else if r == crate::tag::PCDT && f == crate::tag::FNAM {
            FieldType::Binary
        } else if f == crate::tag::FNAM {
            FieldType::StringZ
        } else if r == crate::tag::CELL && f == crate::tag::FRMR {
            FieldType::Int
        } else if r == crate::tag::TES3 && f == crate::tag::HEDR {
            FieldType::FileMetadata
        } else if f == crate::tag::HSND {
            FieldType::StringZ
        } else if f == crate::tag::HVFX {
            FieldType::StringZ
        } else if f == crate::tag::INAM {
            FieldType::StringZ
        } else if r == crate::tag::ARMO && f == crate::tag::INDX {
            FieldType::BipedObject
        } else if r == crate::tag::CLOT && f == crate::tag::INDX {
            FieldType::BipedObject
        } else if f == crate::tag::INDX {
            FieldType::Int
        } else if r == crate::tag::LAND && f == crate::tag::INTV {
            FieldType::Long
        } else if r == crate::tag::LEVC && f == crate::tag::INTV {
            FieldType::Short
        } else if r == crate::tag::LEVI && f == crate::tag::INTV {
            FieldType::Short
        } else if f == crate::tag::INTV {
            FieldType::Int
        } else if r == crate::tag::INGR && f == crate::tag::IRDT {
            FieldType::Ingredient
        } else if f == crate::tag::ITEX {
            FieldType::StringZ
        } else if r == crate::tag::PCDT && f == crate::tag::KNAM {
            FieldType::Binary
        } else if f == crate::tag::KNAM {
            FieldType::StringZ
        } else if r == crate::tag::LIGH && f == crate::tag::LHDT {
            FieldType::Light
        } else if r == crate::tag::PCDT && f == crate::tag::LNAM {
            FieldType::Long
        } else if r == crate::tag::CELL && f == crate::tag::LSHN {
            FieldType::VarString
        } else if r == crate::tag::CELL && f == crate::tag::LSTN {
            FieldType::VarString
        } else if f == crate::tag::LVCR {
            FieldType::Byte
        } else if r == crate::tag::FMAP && f == crate::tag::MAPD {
            FieldType::Compressed
        } else if r == crate::tag::FMAP && f == crate::tag::MAPH {
            FieldType::Long
        } else if r == crate::tag::TES3 && f == crate::tag::MAST {
            FieldType::StringZ
        } else if r == crate::tag::MISC && f == crate::tag::MCDT {
            FieldType::MiscItem
        } else if r == crate::tag::PCDT && f == crate::tag::MNAM {
            FieldType::VarString
        } else if r == crate::tag::CELL && f == crate::tag::MNAM {
            FieldType::Byte
        } else if f == crate::tag::MODL {
            FieldType::StringZ
        } else if r == crate::tag::CELL && f == crate::tag::NAM0 {
            FieldType::Int
        } else if r == crate::tag::SPLM && f == crate::tag::NAM0 {
            FieldType::Byte
        } else if r == crate::tag::CELL && f == crate::tag::NAM5 {
            FieldType::Int
        } else if r == crate::tag::CELL && f == crate::tag::NAM9 {
            FieldType::Int
        } else if r == crate::tag::PCDT && f == crate::tag::NAM9 {
            FieldType::Int
        } else if r == crate::tag::GMST && f == crate::tag::NAME {
            FieldType::VarString
        } else if r == crate::tag::INFO && f == crate::tag::NAME {
            FieldType::VarString
        } else if r == crate::tag::JOUR && f == crate::tag::NAME {
            FieldType::Multiline(Newline::Unix)
        } else if r == crate::tag::SPLM && f == crate::tag::NAME {
            FieldType::Int
        } else if r == crate::tag::SSCR && f == crate::tag::NAME {
            FieldType::VarString
        } else if f == crate::tag::NAME {
            FieldType::StringZ
        } else if f == crate::tag::ND3D {
            FieldType::Byte
        } else if r == crate::tag::LEVC && f == crate::tag::NNAM {
            FieldType::Byte
        } else if r == crate::tag::LEVI && f == crate::tag::NNAM {
            FieldType::Byte
        } else if f == crate::tag::NNAM {
            FieldType::StringZ
        } else if f == crate::tag::NPCO {
            FieldType::Item
        } else if r == crate::tag::CREA && f == crate::tag::NPDT {
            FieldType::Creature
        } else if r == crate::tag::NPC_ && f == crate::tag::NPDT {
            FieldType::Npc
        } else if r == crate::tag::NPCC && f == crate::tag::NPDT {
            FieldType::SavedNpc
        } else if f == crate::tag::NPCS {
            FieldType::FixedString(32)
        } else if f == crate::tag::ONAM {
            FieldType::StringZ
        } else if r == crate::tag::PCDT && f == crate::tag::PNAM {
            FieldType::Binary
        } else if f == crate::tag::PNAM {
            FieldType::StringZ
        } else if f == crate::tag::PTEX {
            FieldType::StringZ
        } else if f == crate::tag::RGNN {
            FieldType::StringZ
        } else if r == crate::tag::FACT && f == crate::tag::RNAM {
            FieldType::FixedString(32)
        } else if r == crate::tag::SCPT && f == crate::tag::RNAM {
            FieldType::Int
        } else if f == crate::tag::RNAM {
            FieldType::StringZ
        } else if r == crate::tag::SCPT && f == crate::tag::SCHD {
            FieldType::ScriptMetadata
        } else if f == crate::tag::SCRI {
            FieldType::StringZ
        } else if f == crate::tag::SCTX {
            FieldType::Multiline(Newline::Dos)
        } else if r == crate::tag::SCPT && f == crate::tag::SCVR {
            FieldType::StringZList
        } else if f == crate::tag::SCVR {
            FieldType::VarString
        } else if r == crate::tag::PCDT && f == crate::tag::SNAM {
            FieldType::Binary
        } else if r == crate::tag::REGN && f == crate::tag::SNAM {
            FieldType::Binary
        } else if f == crate::tag::SNAM {
            FieldType::StringZ
        } else if r == crate::tag::SPEL && f == crate::tag::SPDT {
            FieldType::SpellMetadata
        } else if f == crate::tag::STRV {
            FieldType::VarString
        } else if r == crate::tag::BOOK && f == crate::tag::TEXT {
            FieldType::Multiline(Newline::Dos)
        } else if f == crate::tag::TEXT {
            FieldType::StringZ
        } else if f == crate::tag::TNAM {
            FieldType::StringZ
        } else if f == crate::tag::VCLR {
            FieldType::Compressed
        } else if f == crate::tag::VHGT {
            FieldType::Compressed
        } else if f == crate::tag::VNML {
            FieldType::Compressed
        } else if f == crate::tag::VTEX {
            FieldType::Compressed
        } else if f == crate::tag::WHGT {
            FieldType::Int
        } else if f == crate::tag::WIDX {
            FieldType::Long
        } else if f == crate::tag::WNAM {
            FieldType::Compressed
        } else if r == crate::tag::WEAP && f == crate::tag::WPDT {
            FieldType::Weapon
        } else if f == crate::tag::XCHG {
            FieldType::Int
        } else if f == crate::tag::XHLT {
            FieldType::Int
        } else if f == crate::tag::XIDX {
            FieldType::Int
        } else if f == crate::tag::XSOL {
            FieldType::StringZ
        } else if r == crate::tag::SPLM && f == crate::tag::XNAM {
            FieldType::Byte
        } else if r == crate::tag::CELL && f == crate::tag::XSCL {
            FieldType::Int
        } else if r == crate::tag::CELL && f == crate::tag::ZNAM {
            FieldType::Byte
        } else {
            FieldType::Binary
        }
    }
}

} // verus!
