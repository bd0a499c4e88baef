use vstd::prelude::*;

verus! {

/// Wire values: ESP is 0, ESM is 1, ESS is 32.
#[derive(PartialEq, Eq, Structural, Copy, Clone, Hash, PartialOrd, Ord, Debug)]
pub enum FileType {
    ESP,
    ESM,
    ESS,
}

impl FileType {
    /// The variant a wire value names, if any.
    pub open spec fn spec_from_u32(v: u32) -> Option<FileType> {
        if v == 0 {
            Some(FileType::ESP)
        } else if v == 1 {
            Some(FileType::ESM)
        } else if v == 32 {
            Some(FileType::ESS)
        } else {
            None
        }
    }

    /// The wire value of a variant.
    pub open spec fn spec_to_u32(self) -> u32 {
        match self {
            FileType::ESP => 0,
            FileType::ESM => 1,
            FileType::ESS => 32,
        }
    }

    /// The variant a wire value names, if any.
    pub fn from_u32(v: u32) -> (r: Option<FileType>)
        ensures
            r == FileType::spec_from_u32(v),
    {
        if v == 0 {
            Some(FileType::ESP)
        } else if v == 1 {
            Some(FileType::ESM)
        } else if v == 32 {
            Some(FileType::ESS)
        } else {
            None
        }
    }

    /// The wire value of the variant.
    pub fn to_u32(self) -> (r: u32)
        ensures
            r == self.spec_to_u32(),
    {
        match self {
            FileType::ESP => 0,
            FileType::ESM => 1,
            FileType::ESS => 32,
        }
    }
}

/// A wire value that names a variant is exactly that variant's wire value.
pub proof fn lemma_file_type_round_trip(v: u32)
    ensures
        FileType::spec_from_u32(v) matches Some(e) ==> e.spec_to_u32() == v,
{
}

/// Wire values: Topic is 0, Voice is 1, Greeting is 2, Persuasion is 3, Journal is 4.
#[derive(PartialEq, Eq, Structural, Copy, Clone, Hash, PartialOrd, Ord, Debug)]
pub enum DialogType {
    Topic,
    Voice,
    Greeting,
    Persuasion,
    Journal,
}

impl DialogType {
    /// The variant a wire value names, if any.
    pub open spec fn spec_from_u8(v: u8) -> Option<DialogType> {
        if v == 0 {
            Some(DialogType::Topic)
        } else if v == 1 {
            Some(DialogType::Voice)
        } else if v == 2 {
            Some(DialogType::Greeting)
        } else if v == 3 {
            Some(DialogType::Persuasion)
        } else if v == 4 {
            Some(DialogType::Journal)
        } else {
            None
        }
    }

    /// The wire value of a variant.
    pub open spec fn spec_to_u8(self) -> u8 {
        match self {
            DialogType::Topic => 0,
            DialogType::Voice => 1,
            DialogType::Greeting => 2,
            DialogType::Persuasion => 3,
            DialogType::Journal => 4,
        }
    }

    /// The variant a wire value names, if any.
    pub fn from_u8(v: u8) -> (r: Option<DialogType>)
        ensures
            r == DialogType::spec_from_u8(v),
    {
        if v == 0 {
            Some(DialogType::Topic)
        } else if v == 1 {
            Some(DialogType::Voice)
        } else if v == 2 {
            Some(DialogType::Greeting)
        } else if v == 3 {
            Some(DialogType::Persuasion)
        } else if v == 4 {
            Some(DialogType::Journal)
        } else {
            None
        }
    }

    /// The wire value of the variant.
    pub fn to_u8(self) -> (r: u8)
        ensures
            r == self.spec_to_u8(),
    {
        match self {
            DialogType::Topic => 0,
            DialogType::Voice => 1,
            DialogType::Greeting => 2,
            DialogType::Persuasion => 3,
            DialogType::Journal => 4,
        }
    }
}

/// A wire value that names a variant is exactly that variant's wire value.
pub proof fn lemma_dialog_type_round_trip(v: u8)
    ensures
        DialogType::spec_from_u8(v) matches Some(e) ==> e.spec_to_u8() == v,
{
}

/// Wire values: Self_ is 0, Touch is 1, Target is 2.
#[derive(PartialEq, Eq, Structural, Copy, Clone, Hash, PartialOrd, Ord, Debug)]
pub enum EffectRange {
    Self_,
    Touch,
    Target,
}

impl EffectRange {
    /// The variant a wire value names, if any.
    pub open spec fn spec_from_i32(v: i32) -> Option<EffectRange> {
        if v == 0 {
            Some(EffectRange::Self_)
        } else if v == 1 {
            Some(EffectRange::Touch)
        } else if v == 2 {
            Some(EffectRange::Target)
        } else {
            None
        }
    }

    /// The wire value of a variant.
    pub open spec fn spec_to_i32(self) -> i32 {
        match self {
            EffectRange::Self_ => 0,
            EffectRange::Touch => 1,
            EffectRange::Target => 2,
        }
    }

    /// The variant a wire value names, if any.
    pub fn from_i32(v: i32) -> (r: Option<EffectRange>)
        ensures
            r == EffectRange::spec_from_i32(v),
    {
        if v == 0 {
            Some(EffectRange::Self_)
        } else if v == 1 {
            Some(EffectRange::Touch)
        } else if v == 2 {
            Some(EffectRange::Target)
        } else {
            None
        }
    }

    /// The wire value of the variant.
    pub fn to_i32(self) -> (r: i32)
        ensures
            r == self.spec_to_i32(),
    {
        match self {
            EffectRange::Self_ => 0,
            EffectRange::Touch => 1,
            EffectRange::Target => 2,
        }
    }
}

/// A wire value that names a variant is exactly that variant's wire value.
pub proof fn lemma_effect_range_round_trip(v: i32)
    ensures
        EffectRange::spec_from_i32(v) matches Some(e) ==> e.spec_to_i32() == v,
{
}

/// Wire values: Spell is 0, Ability is 1, Blight is 2, Disease is 3, Curse is 4, Power is 5.
#[derive(PartialEq, Eq, Structural, Copy, Clone, Hash, PartialOrd, Ord, Debug)]
pub enum SpellType {
    Spell,
    Ability,
    Blight,
    Disease,
    Curse,
    Power,
}

impl SpellType {
    /// The variant a wire value names, if any.
    pub open spec fn spec_from_u32(v: u32) -> Option<SpellType> {
        if v == 0 {
            Some(SpellType::Spell)
        } else if v == 1 {
            Some(SpellType::Ability)
        } else if v == 2 {
            Some(SpellType::Blight)
        } else if v == 3 {
            Some(SpellType::Disease)
        } else if v == 4 {
            Some(SpellType::Curse)
        } else if v == 5 {
            Some(SpellType::Power)
        } else {
            None
        }
    }

    /// The wire value of a variant.
    pub open spec fn spec_to_u32(self) -> u32 {
        match self {
            SpellType::Spell => 0,
            SpellType::Ability => 1,
            SpellType::Blight => 2,
            SpellType::Disease => 3,
            SpellType::Curse => 4,
            SpellType::Power => 5,
        }
    }

    /// The variant a wire value names, if any.
    pub fn from_u32(v: u32) -> (r: Option<SpellType>)
        ensures
            r == SpellType::spec_from_u32(v),
    {
        if v == 0 {
            Some(SpellType::Spell)
        } else if v == 1 {
            Some(SpellType::Ability)
        } else if v == 2 {
            Some(SpellType::Blight)
        } else if v == 3 {
            Some(SpellType::Disease)
        } else if v == 4 {
            Some(SpellType::Curse)
        } else if v == 5 {
            Some(SpellType::Power)
        } else {
            None
        }
    }

    /// The wire value of the variant.
    pub fn to_u32(self) -> (r: u32)
        ensures
            r == self.spec_to_u32(),
    {
        match self {
            SpellType::Spell => 0,
            SpellType::Ability => 1,
            SpellType::Blight => 2,
            SpellType::Disease => 3,
            SpellType::Curse => 4,
            SpellType::Power => 5,
        }
    }
}

/// A wire value that names a variant is exactly that variant's wire value.
pub proof fn lemma_spell_type_round_trip(v: u32)
    ensures
        SpellType::spec_from_u32(v) matches Some(e) ==> e.spec_to_u32() == v,
{
}

/// Wire values: Default is 0, Skeleton is 4, MetalSparks is 8.
#[derive(PartialEq, Eq, Structural, Copy, Clone, Hash, PartialOrd, Ord, Debug)]
pub enum BloodTexture {
    Default,
    Skeleton,
    MetalSparks,
}

impl BloodTexture {
    /// The variant a wire value names, if any.
    pub open spec fn spec_from_u8(v: u8) -> Option<BloodTexture> {
        if v == 0 {
            Some(BloodTexture::Default)
        } else if v == 4 {
            Some(BloodTexture::Skeleton)
        } else if v == 8 {
            Some(BloodTexture::MetalSparks)
        } else {
            None
        }
    }

    /// The wire value of a variant.
    pub open spec fn spec_to_u8(self) -> u8 {
        match self {
            BloodTexture::Default => 0,
            BloodTexture::Skeleton => 4,
            BloodTexture::MetalSparks => 8,
        }
    }

    /// The variant a wire value names, if any.
    pub fn from_u8(v: u8) -> (r: Option<BloodTexture>)
        ensures
            r == BloodTexture::spec_from_u8(v),
    {
        if v == 0 {
            Some(BloodTexture::Default)
        } else if v == 4 {
            Some(BloodTexture::Skeleton)
        } else if v == 8 {
            Some(BloodTexture::MetalSparks)
        } else {
            None
        }
    }

    /// The wire value of the variant.
    pub fn to_u8(self) -> (r: u8)
        ensures
            r == self.spec_to_u8(),
    {
        match self {
            BloodTexture::Default => 0,
            BloodTexture::Skeleton => 4,
            BloodTexture::MetalSparks => 8,
        }
    }
}

/// A wire value that names a variant is exactly that variant's wire value.
pub proof fn lemma_blood_texture_round_trip(v: u8)
    ensures
        BloodTexture::spec_from_u8(v) matches Some(e) ==> e.spec_to_u8() == v,
{
}

/// Wire values: Creature is 0, Daedra is 1, Undead is 2, Humanoid is 3.
#[derive(PartialEq, Eq, Structural, Copy, Clone, Hash, PartialOrd, Ord, Debug)]
pub enum CreatureType {
    Creature,
    Daedra,
    Undead,
    Humanoid,
}

impl CreatureType {
    /// The variant a wire value names, if any.
    pub open spec fn spec_from_u32(v: u32) -> Option<CreatureType> {
        if v == 0 {
            Some(CreatureType::Creature)
        } else if v == 1 {
            Some(CreatureType::Daedra)
        } else if v == 2 {
            Some(CreatureType::Undead)
        } else if v == 3 {
            Some(CreatureType::Humanoid)
        } else {
            None
        }
    }

    /// The wire value of a variant.
    pub open spec fn spec_to_u32(self) -> u32 {
        match self {
            CreatureType::Creature => 0,
            CreatureType::Daedra => 1,
            CreatureType::Undead => 2,
            CreatureType::Humanoid => 3,
        }
    }

    /// The variant a wire value names, if any.
    pub fn from_u32(v: u32) -> (r: Option<CreatureType>)
        ensures
            r == CreatureType::spec_from_u32(v),
    {
        if v == 0 {
            Some(CreatureType::Creature)
        } else if v == 1 {
            Some(CreatureType::Daedra)
        } else if v == 2 {
            Some(CreatureType::Undead)
        } else if v == 3 {
            Some(CreatureType::Humanoid)
        } else {
            None
        }
    }

    /// The wire value of the variant.
    pub fn to_u32(self) -> (r: u32)
        ensures
            r == self.spec_to_u32(),
    {
        match self {
            CreatureType::Creature => 0,
            CreatureType::Daedra => 1,
            CreatureType::Undead => 2,
            CreatureType::Humanoid => 3,
        }
    }
}

/// A wire value that names a variant is exactly that variant's wire value.
pub proof fn lemma_creature_type_round_trip(v: u32)
    ensures
        CreatureType::spec_from_u32(v) matches Some(e) ==> e.spec_to_u32() == v,
{
}

/// Wire values: MortarPestle is 0, Alembic is 1, Calcinator is 2, Retort is 3.
#[derive(PartialEq, Eq, Structural, Copy, Clone, Hash, PartialOrd, Ord, Debug)]
pub enum ApparatusType {
    MortarPestle,
    Alembic,
    Calcinator,
    Retort,
}

impl ApparatusType {
    /// The variant a wire value names, if any.
    pub open spec fn spec_from_u32(v: u32) -> Option<ApparatusType> {
        if v == 0 {
            Some(ApparatusType::MortarPestle)
        } else if v == 1 {
            Some(ApparatusType::Alembic)
        } else if v == 2 {
            Some(ApparatusType::Calcinator)
        } else if v == 3 {
            Some(ApparatusType::Retort)
        } else {
            None
        }
    }

    /// The wire value of a variant.
    pub open spec fn spec_to_u32(self) -> u32 {
        match self {
            ApparatusType::MortarPestle => 0,
            ApparatusType::Alembic => 1,
            ApparatusType::Calcinator => 2,
            ApparatusType::Retort => 3,
        }
    }

    /// The variant a wire value names, if any.
    pub fn from_u32(v: u32) -> (r: Option<ApparatusType>)
        ensures
            r == ApparatusType::spec_from_u32(v),
    {
        if v == 0 {
            Some(ApparatusType::MortarPestle)
        } else if v == 1 {
            Some(ApparatusType::Alembic)
        } else if v == 2 {
            Some(ApparatusType::Calcinator)
        } else if v == 3 {
            Some(ApparatusType::Retort)
        } else {
            None
        }
    }

    /// The wire value of the variant.
    pub fn to_u32(self) -> (r: u32)
        ensures
            r == self.spec_to_u32(),
    {
        match self {
            ApparatusType::MortarPestle => 0,
            ApparatusType::Alembic => 1,
            ApparatusType::Calcinator => 2,
            ApparatusType::Retort => 3,
        }
    }
}

/// A wire value that names a variant is exactly that variant's wire value.
pub proof fn lemma_apparatus_type_round_trip(v: u32)
    ensures
        ApparatusType::spec_from_u32(v) matches Some(e) ==> e.spec_to_u32() == v,
{
}

/// Wire values: Helmet is 0, Cuirass is 1, LeftPauldron is 2, RightPauldron is 3, Greaves is 4, Boots is 5, LeftGauntlet is 6, RightGauntlet is 7, Shield is 8, LeftBracer is 9, RightBracer is 10.
#[derive(PartialEq, Eq, Structural, Copy, Clone, Hash, PartialOrd, Ord, Debug)]
pub enum ArmorType {
    Helmet,
    Cuirass,
    LeftPauldron,
    RightPauldron,
    Greaves,
    Boots,
    LeftGauntlet,
    RightGauntlet,
    Shield,
    LeftBracer,
    RightBracer,
}

impl ArmorType {
    /// The variant a wire value names, if any.
    pub open spec fn spec_from_u32(v: u32) -> Option<ArmorType> {
        if v == 0 {
            Some(ArmorType::Helmet)
        } else if v == 1 {
            Some(ArmorType::Cuirass)
        } else if v == 2 {
            Some(ArmorType::LeftPauldron)
        } else if v == 3 {
            Some(ArmorType::RightPauldron)
        } else if v == 4 {
            Some(ArmorType::Greaves)
        } else if v == 5 {
            Some(ArmorType::Boots)
        } else if v == 6 {
            Some(ArmorType::LeftGauntlet)
        } else if v == 7 {
            Some(ArmorType::RightGauntlet)
        } else if v == 8 {
            Some(ArmorType::Shield)
        } else if v == 9 {
            Some(ArmorType::LeftBracer)
        } else if v == 10 {
            Some(ArmorType::RightBracer)
        } else {
            None
        }
    }

    /// The wire value of a variant.
    pub open spec fn spec_to_u32(self) -> u32 {
        match self {
            ArmorType::Helmet => 0,
            ArmorType::Cuirass => 1,
            ArmorType::LeftPauldron => 2,
            ArmorType::RightPauldron => 3,
            ArmorType::Greaves => 4,
            ArmorType::Boots => 5,
            ArmorType::LeftGauntlet => 6,
            ArmorType::RightGauntlet => 7,
            ArmorType::Shield => 8,
            ArmorType::LeftBracer => 9,
            ArmorType::RightBracer => 10,
        }
    }

    /// The variant a wire value names, if any.
    pub fn from_u32(v: u32) -> (r: Option<ArmorType>)
        ensures
            r == ArmorType::spec_from_u32(v),
    {
        if v == 0 {
            Some(ArmorType::Helmet)
        } else if v == 1 {
            Some(ArmorType::Cuirass)
        } else if v == 2 {
            Some(ArmorType::LeftPauldron)
        } else if v == 3 {
            Some(ArmorType::RightPauldron)
        } else if v == 4 {
            Some(ArmorType::Greaves)
        } else if v == 5 {
            Some(ArmorType::Boots)
        } else if v == 6 {
            Some(ArmorType::LeftGauntlet)
        } else if v == 7 {
            Some(ArmorType::RightGauntlet)
        } else if v == 8 {
            Some(ArmorType::Shield)
        } else if v == 9 {
            Some(ArmorType::LeftBracer)
        } else if v == 10 {
            Some(ArmorType::RightBracer)
        } else {
            None
        }
    }

    /// The wire value of the variant.
    pub fn to_u32(self) -> (r: u32)
        ensures
            r == self.spec_to_u32(),
    {
        match self {
            ArmorType::Helmet => 0,
            ArmorType::Cuirass => 1,
            ArmorType::LeftPauldron => 2,
            ArmorType::RightPauldron => 3,
            ArmorType::Greaves => 4,
            ArmorType::Boots => 5,
            ArmorType::LeftGauntlet => 6,
            ArmorType::RightGauntlet => 7,
            ArmorType::Shield => 8,
            ArmorType::LeftBracer => 9,
            ArmorType::RightBracer => 10,
        }
    }
}

/// A wire value that names a variant is exactly that variant's wire value.
pub proof fn lemma_armor_type_round_trip(v: u32)
    ensures
        ArmorType::spec_from_u32(v) matches Some(e) ==> e.spec_to_u32() == v,
{
}

/// Wire values: ShortBladeOneHand is 0, LongBladeOneHand is 1, LongBladeTwoClose is 2, BluntOneHand is 3, BluntTwoClose is 4, BluntTwoWide is 5, SpearTwoWide is 6, AxeOneHand is 7, AxeTwoClose is 8, MarksmanBow is 9, MarksmanCrossbow is 10, MarksmanThrown is 11, Arrow is 12, Bolt is 13.
#[derive(PartialEq, Eq, Structural, Copy, Clone, Hash, PartialOrd, Ord, Debug)]
pub enum WeaponType {
    ShortBladeOneHand,
    LongBladeOneHand,
    LongBladeTwoClose,
    BluntOneHand,
    BluntTwoClose,
    BluntTwoWide,
    SpearTwoWide,
    AxeOneHand,
    AxeTwoClose,
    MarksmanBow,
    MarksmanCrossbow,
    MarksmanThrown,
    Arrow,
    Bolt,
}

impl WeaponType {
    /// The variant a wire value names, if any.
    pub open spec fn spec_from_u16(v: u16) -> Option<WeaponType> {
        if v == 0 {
            Some(WeaponType::ShortBladeOneHand)
        } else if v == 1 {
            Some(WeaponType::LongBladeOneHand)
        } else if v == 2 {
            Some(WeaponType::LongBladeTwoClose)
        } else if v == 3 {
            Some(WeaponType::BluntOneHand)
        } else if v == 4 {
            Some(WeaponType::BluntTwoClose)
        } else if v == 5 {
            Some(WeaponType::BluntTwoWide)
        } else if v == 6 {
            Some(WeaponType::SpearTwoWide)
        } else if v == 7 {
            Some(WeaponType::AxeOneHand)
        } else if v == 8 {
            Some(WeaponType::AxeTwoClose)
        } else if v == 9 {
            Some(WeaponType::MarksmanBow)
        } else if v == 10 {
            Some(WeaponType::MarksmanCrossbow)
        } else if v == 11 {
            Some(WeaponType::MarksmanThrown)
        } else if v == 12 {
            Some(WeaponType::Arrow)
        } else if v == 13 {
            Some(WeaponType::Bolt)
        } else {
            None
        }
    }

    /// The wire value of a variant.
    pub open spec fn spec_to_u16(self) -> u16 {
        match self {
            WeaponType::ShortBladeOneHand => 0,
            WeaponType::LongBladeOneHand => 1,
            WeaponType::LongBladeTwoClose => 2,
            WeaponType::BluntOneHand => 3,
            WeaponType::BluntTwoClose => 4,
            WeaponType::BluntTwoWide => 5,
            WeaponType::SpearTwoWide => 6,
            WeaponType::AxeOneHand => 7,
            WeaponType::AxeTwoClose => 8,
            WeaponType::MarksmanBow => 9,
            WeaponType::MarksmanCrossbow => 10,
            WeaponType::MarksmanThrown => 11,
            WeaponType::Arrow => 12,
            WeaponType::Bolt => 13,
        }
    }

    /// The variant a wire value names, if any.
    pub fn from_u16(v: u16) -> (r: Option<WeaponType>)
        ensures
            r == WeaponType::spec_from_u16(v),
    {
        if v == 0 {
            Some(WeaponType::ShortBladeOneHand)
        } else if v == 1 {
            Some(WeaponType::LongBladeOneHand)
        } else if v == 2 {
            Some(WeaponType::LongBladeTwoClose)
        } else if v == 3 {
            Some(WeaponType::BluntOneHand)
        } else if v == 4 {
            Some(WeaponType::BluntTwoClose)
        } else if v == 5 {
            Some(WeaponType::BluntTwoWide)
        } else if v == 6 {
            Some(WeaponType::SpearTwoWide)
        } else if v == 7 {
            Some(WeaponType::AxeOneHand)
        } else if v == 8 {
            Some(WeaponType::AxeTwoClose)
        } else if v == 9 {
            Some(WeaponType::MarksmanBow)
        } else if v == 10 {
            Some(WeaponType::MarksmanCrossbow)
        } else if v == 11 {
            Some(WeaponType::MarksmanThrown)
        } else if v == 12 {
            Some(WeaponType::Arrow)
        } else if v == 13 {
            Some(WeaponType::Bolt)
        } else {
            None
        }
    }

    /// The wire value of the variant.
    pub fn to_u16(self) -> (r: u16)
        ensures
            r == self.spec_to_u16(),
    {
        match self {
            WeaponType::ShortBladeOneHand => 0,
            WeaponType::LongBladeOneHand => 1,
            WeaponType::LongBladeTwoClose => 2,
            WeaponType::BluntOneHand => 3,
            WeaponType::BluntTwoClose => 4,
            WeaponType::BluntTwoWide => 5,
            WeaponType::SpearTwoWide => 6,
            WeaponType::AxeOneHand => 7,
            WeaponType::AxeTwoClose => 8,
            WeaponType::MarksmanBow => 9,
            WeaponType::MarksmanCrossbow => 10,
            WeaponType::MarksmanThrown => 11,
            WeaponType::Arrow => 12,
            WeaponType::Bolt => 13,
        }
    }
}

/// A wire value that names a variant is exactly that variant's wire value.
pub proof fn lemma_weapon_type_round_trip(v: u16)
    ensures
        WeaponType::spec_from_u16(v) matches Some(e) ==> e.spec_to_u16() == v,
{
}

/// Wire values: Head is 0, Hair is 1, Neck is 2, Chest is 3, Groin is 4, Hand is 5, Wrist is 6, Forearm is 7, UpperArm is 8, Foot is 9, Ankle is 10, Knee is 11, UpperLeg is 12, Clavicle is 13, Tail is 14.
#[derive(PartialEq, Eq, Structural, Copy, Clone, Hash, PartialOrd, Ord, Debug)]
pub enum MeshType {
    Head,
    Hair,
    Neck,
    Chest,
    Groin,
    Hand,
    Wrist,
    Forearm,
    UpperArm,
    Foot,
    Ankle,
    Knee,
    UpperLeg,
    Clavicle,
    Tail,
}

impl MeshType {
    /// The variant a wire value names, if any.
    pub open spec fn spec_from_u8(v: u8) -> Option<MeshType> {
        if v == 0 {
            Some(MeshType::Head)
        } else if v == 1 {
            Some(MeshType::Hair)
        } else if v == 2 {
            Some(MeshType::Neck)
        } else if v == 3 {
            Some(MeshType::Chest)
        } else if v == 4 {
            Some(MeshType::Groin)
        } else if v == 5 {
            Some(MeshType::Hand)
        } else if v == 6 {
            Some(MeshType::Wrist)
        } else if v == 7 {
            Some(MeshType::Forearm)
        } else if v == 8 {
            Some(MeshType::UpperArm)
        } else if v == 9 {
            Some(MeshType::Foot)
        } else if v == 10 {
            Some(MeshType::Ankle)
        } else if v == 11 {
            Some(MeshType::Knee)
        } else if v == 12 {
            Some(MeshType::UpperLeg)
        } else if v == 13 {
            Some(MeshType::Clavicle)
        } else if v == 14 {
            Some(MeshType::Tail)
        } else {
            None
        }
    }

    /// The wire value of a variant.
    pub open spec fn spec_to_u8(self) -> u8 {
        match self {
            MeshType::Head => 0,
            MeshType::Hair => 1,
            MeshType::Neck => 2,
            MeshType::Chest => 3,
            MeshType::Groin => 4,
            MeshType::Hand => 5,
            MeshType::Wrist => 6,
            MeshType::Forearm => 7,
            MeshType::UpperArm => 8,
            MeshType::Foot => 9,
            MeshType::Ankle => 10,
            MeshType::Knee => 11,
            MeshType::UpperLeg => 12,
            MeshType::Clavicle => 13,
            MeshType::Tail => 14,
        }
    }

    /// The variant a wire value names, if any.
    pub fn from_u8(v: u8) -> (r: Option<MeshType>)
        ensures
            r == MeshType::spec_from_u8(v),
    {
        if v == 0 {
            Some(MeshType::Head)
        } else if v == 1 {
            Some(MeshType::Hair)
        } else if v == 2 {
            Some(MeshType::Neck)
        } else if v == 3 {
            Some(MeshType::Chest)
        } else if v == 4 {
            Some(MeshType::Groin)
        } else if v == 5 {
            Some(MeshType::Hand)
        } else if v == 6 {
            Some(MeshType::Wrist)
        } else if v == 7 {
            Some(MeshType::Forearm)
        } else if v == 8 {
            Some(MeshType::UpperArm)
        } else if v == 9 {
            Some(MeshType::Foot)
        } else if v == 10 {
            Some(MeshType::Ankle)
        } else if v == 11 {
            Some(MeshType::Knee)
        } else if v == 12 {
            Some(MeshType::UpperLeg)
        } else if v == 13 {
            Some(MeshType::Clavicle)
        } else if v == 14 {
            Some(MeshType::Tail)
        } else {
            None
        }
    }

    /// The wire value of the variant.
    pub fn to_u8(self) -> (r: u8)
        ensures
            r == self.spec_to_u8(),
    {
        match self {
            MeshType::Head => 0,
            MeshType::Hair => 1,
            MeshType::Neck => 2,
            MeshType::Chest => 3,
            MeshType::Groin => 4,
            MeshType::Hand => 5,
            MeshType::Wrist => 6,
            MeshType::Forearm => 7,
            MeshType::UpperArm => 8,
            MeshType::Foot => 9,
            MeshType::Ankle => 10,
            MeshType::Knee => 11,
            MeshType::UpperLeg => 12,
            MeshType::Clavicle => 13,
            MeshType::Tail => 14,
        }
    }
}

/// A wire value that names a variant is exactly that variant's wire value.
pub proof fn lemma_mesh_type_round_trip(v: u8)
    ensures
        MeshType::spec_from_u8(v) matches Some(e) ==> e.spec_to_u8() == v,
{
}

/// Wire values: Skin is 0, Clothing is 1, Armor is 2.
#[derive(PartialEq, Eq, Structural, Copy, Clone, Hash, PartialOrd, Ord, Debug)]
pub enum BodyPartType {
    Skin,
    Clothing,
    Armor,
}

impl BodyPartType {
    /// The variant a wire value names, if any.
    pub open spec fn spec_from_u8(v: u8) -> Option<BodyPartType> {
        if v == 0 {
            Some(BodyPartType::Skin)
        } else if v == 1 {
            Some(BodyPartType::Clothing)
        } else if v == 2 {
            Some(BodyPartType::Armor)
        } else {
            None
        }
    }

    /// The wire value of a variant.
    pub open spec fn spec_to_u8(self) -> u8 {
        match self {
            BodyPartType::Skin => 0,
            BodyPartType::Clothing => 1,
            BodyPartType::Armor => 2,
        }
    }

    /// The variant a wire value names, if any.
    pub fn from_u8(v: u8) -> (r: Option<BodyPartType>)
        ensures
            r == BodyPartType::spec_from_u8(v),
    {
        if v == 0 {
            Some(BodyPartType::Skin)
        } else if v == 1 {
            Some(BodyPartType::Clothing)
        } else if v == 2 {
            Some(BodyPartType::Armor)
        } else {
            None
        }
    }

    /// The wire value of the variant.
    pub fn to_u8(self) -> (r: u8)
        ensures
            r == self.spec_to_u8(),
    {
        match self {
            BodyPartType::Skin => 0,
            BodyPartType::Clothing => 1,
            BodyPartType::Armor => 2,
        }
    }
}

/// A wire value that names a variant is exactly that variant's wire value.
pub proof fn lemma_body_part_type_round_trip(v: u8)
    ensures
        BodyPartType::spec_from_u8(v) matches Some(e) ==> e.spec_to_u8() == v,
{
}

/// Wire values: Head is 0, Hair is 1, Neck is 2, Cuirass is 3, Groin is 4, Skirt is 5, RightHand is 6, LeftHand is 7, RightWrist is 8, LeftWrist is 9, Shield is 10, RightForearm is 11, LeftForearm is 12, RightUpperArm is 13, LeftUpperArm is 14, RightFoot is 15, LeftFoot is 16, RightAnkle is 17, LeftAnkle is 18, RightKnee is 19, LeftKnee is 20, RightUpperLeg is 21, LeftUpperLeg is 22, RightPauldron is 23, LeftPauldron is 24, Weapon is 25, Tail is 26.
#[derive(PartialEq, Eq, Structural, Copy, Clone, Hash, PartialOrd, Ord, Debug)]
pub enum BipedObject {
    Head,
    Hair,
    Neck,
    Cuirass,
    Groin,
    Skirt,
    RightHand,
    LeftHand,
    RightWrist,
    LeftWrist,
    Shield,
    RightForearm,
    LeftForearm,
    RightUpperArm,
    LeftUpperArm,
    RightFoot,
    LeftFoot,
    RightAnkle,
    LeftAnkle,
    RightKnee,
    LeftKnee,
    RightUpperLeg,
    LeftUpperLeg,
    RightPauldron,
    LeftPauldron,
    Weapon,
    Tail,
}

impl BipedObject {
    /// The variant a wire value names, if any.
    pub open spec fn spec_from_u8(v: u8) -> Option<BipedObject> {
        if v == 0 {
            Some(BipedObject::Head)
        } else if v == 1 {
            Some(BipedObject::Hair)
        } else if v == 2 {
            Some(BipedObject::Neck)
        } else if v == 3 {
            Some(BipedObject::Cuirass)
        } else if v == 4 {
            Some(BipedObject::Groin)
        } else if v == 5 {
            Some(BipedObject::Skirt)
        } else if v == 6 {
            Some(BipedObject::RightHand)
        } else if v == 7 {
            Some(BipedObject::LeftHand)
        } else if v == 8 {
            Some(BipedObject::RightWrist)
        } else if v == 9 {
            Some(BipedObject::LeftWrist)
        } else if v == 10 {
            Some(BipedObject::Shield)
        } else if v == 11 {
            Some(BipedObject::RightForearm)
        } else if v == 12 {
            Some(BipedObject::LeftForearm)
        } else if v == 13 {
            Some(BipedObject::RightUpperArm)
        } else if v == 14 {
            Some(BipedObject::LeftUpperArm)
        } else if v == 15 {
            Some(BipedObject::RightFoot)
        } else if v == 16 {
            Some(BipedObject::LeftFoot)
        } else if v == 17 {
            Some(BipedObject::RightAnkle)
        } else if v == 18 {
            Some(BipedObject::LeftAnkle)
        } else if v == 19 {
            Some(BipedObject::RightKnee)
        } else if v == 20 {
            Some(BipedObject::LeftKnee)
        } else if v == 21 {
            Some(BipedObject::RightUpperLeg)
        } else if v == 22 {
            Some(BipedObject::LeftUpperLeg)
        } else if v == 23 {
            Some(BipedObject::RightPauldron)
        } else if v == 24 {
            Some(BipedObject::LeftPauldron)
        } else if v == 25 {
            Some(BipedObject::Weapon)
        } else if v == 26 {
            Some(BipedObject::Tail)
        } else {
            None
        }
    }

    /// The wire value of a variant.
    pub open spec fn spec_to_u8(self) -> u8 {
        match self {
            BipedObject::Head => 0,
            BipedObject::Hair => 1,
            BipedObject::Neck => 2,
            BipedObject::Cuirass => 3,
            BipedObject::Groin => 4,
            BipedObject::Skirt => 5,
            BipedObject::RightHand => 6,
            BipedObject::LeftHand => 7,
            BipedObject::RightWrist => 8,
            BipedObject::LeftWrist => 9,
            BipedObject::Shield => 10,
            BipedObject::RightForearm => 11,
            BipedObject::LeftForearm => 12,
            BipedObject::RightUpperArm => 13,
            BipedObject::LeftUpperArm => 14,
            BipedObject::RightFoot => 15,
            BipedObject::LeftFoot => 16,
            BipedObject::RightAnkle => 17,
            BipedObject::LeftAnkle => 18,
            BipedObject::RightKnee => 19,
            BipedObject::LeftKnee => 20,
            BipedObject::RightUpperLeg => 21,
            BipedObject::LeftUpperLeg => 22,
            BipedObject::RightPauldron => 23,
            BipedObject::LeftPauldron => 24,
            BipedObject::Weapon => 25,
            BipedObject::Tail => 26,
        }
    }

    /// The variant a wire value names, if any.
    pub fn from_u8(v: u8) -> (r: Option<BipedObject>)
        ensures
            r == BipedObject::spec_from_u8(v),
    {
        if v == 0 {
            Some(BipedObject::Head)
        } else if v == 1 {
            Some(BipedObject::Hair)
        } else if v == 2 {
            Some(BipedObject::Neck)
        } else if v == 3 {
            Some(BipedObject::Cuirass)
        } else if v == 4 {
            Some(BipedObject::Groin)
        } else if v == 5 {
            Some(BipedObject::Skirt)
        } else if v == 6 {
            Some(BipedObject::RightHand)
        } else if v == 7 {
            Some(BipedObject::LeftHand)
        } else if v == 8 {
            Some(BipedObject::RightWrist)
        } else if v == 9 {
            Some(BipedObject::LeftWrist)
        } else if v == 10 {
            Some(BipedObject::Shield)
        } else if v == 11 {
            Some(BipedObject::RightForearm)
        } else if v == 12 {
            Some(BipedObject::LeftForearm)
        } else if v == 13 {
            Some(BipedObject::RightUpperArm)
        } else if v == 14 {
            Some(BipedObject::LeftUpperArm)
        } else if v == 15 {
            Some(BipedObject::RightFoot)
        } else if v == 16 {
            Some(BipedObject::LeftFoot)
        } else if v == 17 {
            Some(BipedObject::RightAnkle)
        } else if v == 18 {
            Some(BipedObject::LeftAnkle)
        } else if v == 19 {
            Some(BipedObject::RightKnee)
        } else if v == 20 {
            Some(BipedObject::LeftKnee)
        } else if v == 21 {
            Some(BipedObject::RightUpperLeg)
        } else if v == 22 {
            Some(BipedObject::LeftUpperLeg)
        } else if v == 23 {
            Some(BipedObject::RightPauldron)
        } else if v == 24 {
            Some(BipedObject::LeftPauldron)
        } else if v == 25 {
            Some(BipedObject::Weapon)
        } else if v == 26 {
            Some(BipedObject::Tail)
        } else {
            None
        }
    }

    /// The wire value of the variant.
    pub fn to_u8(self) -> (r: u8)
        ensures
            r == self.spec_to_u8(),
    {
        match self {
            BipedObject::Head => 0,
            BipedObject::Hair => 1,
            BipedObject::Neck => 2,
            BipedObject::Cuirass => 3,
            BipedObject::Groin => 4,
            BipedObject::Skirt => 5,
            BipedObject::RightHand => 6,
            BipedObject::LeftHand => 7,
            BipedObject::RightWrist => 8,
            BipedObject::LeftWrist => 9,
            BipedObject::Shield => 10,
            BipedObject::RightForearm => 11,
            BipedObject::LeftForearm => 12,
            BipedObject::RightUpperArm => 13,
            BipedObject::LeftUpperArm => 14,
            BipedObject::RightFoot => 15,
            BipedObject::LeftFoot => 16,
            BipedObject::RightAnkle => 17,
            BipedObject::LeftAnkle => 18,
            BipedObject::RightKnee => 19,
            BipedObject::LeftKnee => 20,
            BipedObject::RightUpperLeg => 21,
            BipedObject::LeftUpperLeg => 22,
            BipedObject::RightPauldron => 23,
            BipedObject::LeftPauldron => 24,
            BipedObject::Weapon => 25,
            BipedObject::Tail => 26,
        }
    }
}

/// A wire value that names a variant is exactly that variant's wire value.
pub proof fn lemma_biped_object_round_trip(v: u8)
    ensures
        BipedObject::spec_from_u8(v) matches Some(e) ==> e.spec_to_u8() == v,
{
}

/// Wire values: Pants is 0, Shoes is 1, Shirt is 2, Belt is 3, Robe is 4, RightGlove is 5, LeftGlove is 6, Skirt is 7, Ring is 8, Amulet is 9.
#[derive(PartialEq, Eq, Structural, Copy, Clone, Hash, PartialOrd, Ord, Debug)]
pub enum ClothingType {
    Pants,
    Shoes,
    Shirt,
    Belt,
    Robe,
    RightGlove,
    LeftGlove,
    Skirt,
    Ring,
    Amulet,
}

impl ClothingType {
    /// The variant a wire value names, if any.
    pub open spec fn spec_from_u32(v: u32) -> Option<ClothingType> {
        if v == 0 {
            Some(ClothingType::Pants)
        } else if v == 1 {
            Some(ClothingType::Shoes)
        } else if v == 2 {
            Some(ClothingType::Shirt)
        } else if v == 3 {
            Some(ClothingType::Belt)
        } else if v == 4 {
            Some(ClothingType::Robe)
        } else if v == 5 {
            Some(ClothingType::RightGlove)
        } else if v == 6 {
            Some(ClothingType::LeftGlove)
        } else if v == 7 {
            Some(ClothingType::Skirt)
        } else if v == 8 {
            Some(ClothingType::Ring)
        } else if v == 9 {
            Some(ClothingType::Amulet)
        } else {
            None
        }
    }

    /// The wire value of a variant.
    pub open spec fn spec_to_u32(self) -> u32 {
        match self {
            ClothingType::Pants => 0,
            ClothingType::Shoes => 1,
            ClothingType::Shirt => 2,
            ClothingType::Belt => 3,
            ClothingType::Robe => 4,
            ClothingType::RightGlove => 5,
            ClothingType::LeftGlove => 6,
            ClothingType::Skirt => 7,
            ClothingType::Ring => 8,
            ClothingType::Amulet => 9,
        }
    }

    /// The variant a wire value names, if any.
    pub fn from_u32(v: u32) -> (r: Option<ClothingType>)
        ensures
            r == ClothingType::spec_from_u32(v),
    {
        if v == 0 {
            Some(ClothingType::Pants)
        } else if v == 1 {
            Some(ClothingType::Shoes)
        } else if v == 2 {
            Some(ClothingType::Shirt)
        } else if v == 3 {
            Some(ClothingType::Belt)
        } else if v == 4 {
            Some(ClothingType::Robe)
        } else if v == 5 {
            Some(ClothingType::RightGlove)
        } else if v == 6 {
            Some(ClothingType::LeftGlove)
        } else if v == 7 {
            Some(ClothingType::Skirt)
        } else if v == 8 {
            Some(ClothingType::Ring)
        } else if v == 9 {
            Some(ClothingType::Amulet)
        } else {
            None
        }
    }

    /// The wire value of the variant.
    pub fn to_u32(self) -> (r: u32)
        ensures
            r == self.spec_to_u32(),
    {
        match self {
            ClothingType::Pants => 0,
            ClothingType::Shoes => 1,
            ClothingType::Shirt => 2,
            ClothingType::Belt => 3,
            ClothingType::Robe => 4,
            ClothingType::RightGlove => 5,
            ClothingType::LeftGlove => 6,
            ClothingType::Skirt => 7,
            ClothingType::Ring => 8,
            ClothingType::Amulet => 9,
        }
    }
}

/// A wire value that names a variant is exactly that variant's wire value.
pub proof fn lemma_clothing_type_round_trip(v: u32)
    ensures
        ClothingType::spec_from_u32(v) matches Some(e) ==> e.spec_to_u32() == v,
{
}


/// The variant a file-type name denotes, if any.
pub open spec fn spec_file_type_from_name(s: Seq<char>) -> Option<FileType> {
    if s == "ESP"@ {
        Some(FileType::ESP)
    } else if s == "ESM"@ {
        Some(FileType::ESM)
    } else if s == "ESS"@ {
        Some(FileType::ESS)
    } else {
        None
    }
}

impl FileType {
    /// The variant's name.
    pub fn display_string(self) -> (r: String)
        ensures
            self is ESP ==> r@ == "ESP"@,
            self is ESM ==> r@ == "ESM"@,
            self is ESS ==> r@ == "ESS"@,
    {
        match self {
            FileType::ESP => "ESP".to_owned(),
            FileType::ESM => "ESM".to_owned(),
            FileType::ESS => "ESS".to_owned(),
        }
    }

    /// The variant a name denotes, if any.
    pub fn parse(s: &str) -> (r: Result<FileType, ()>)
        ensures
            r matches Ok(v) ==> spec_file_type_from_name(s@) == Some(v),
            r is Err <==> spec_file_type_from_name(s@) is None,
    {
        if crate::text::str_eq(s, "ESP") {
            Ok(FileType::ESP)
        } else if crate::text::str_eq(s, "ESM") {
            Ok(FileType::ESM)
        } else if crate::text::str_eq(s, "ESS") {
            Ok(FileType::ESS)
        } else {
            Err(())
        }
    }
}

impl core::str::FromStr for FileType {
    type Err = ();

    fn from_str(s: &str) -> Result<FileType, ()> {
        FileType::parse(s)
    }
}

/// The variant an effect-range name denotes, if any; the first variant
/// is written "Self".
pub open spec fn spec_effect_range_from_name(s: Seq<char>) -> Option<EffectRange> {
    if s == "Self"@ {
        Some(EffectRange::Self_)
    } else if s == "Touch"@ {
        Some(EffectRange::Touch)
    } else if s == "Target"@ {
        Some(EffectRange::Target)
    } else {
        None
    }
}

impl EffectRange {
    /// The variant's name; the first variant is written "Self".
    pub fn display_string(self) -> (r: String)
        ensures
            self is Self_ ==> r@ == "Self"@,
            self is Touch ==> r@ == "Touch"@,
            self is Target ==> r@ == "Target"@,
    {
        match self {
            EffectRange::Self_ => "Self".to_owned(),
            EffectRange::Touch => "Touch".to_owned(),
            EffectRange::Target => "Target".to_owned(),
        }
    }

    /// The variant a name denotes, if any.
    pub fn parse(s: &str) -> (r: Result<EffectRange, ()>)
        ensures
            r matches Ok(v) ==> spec_effect_range_from_name(s@) == Some(v),
            r is Err <==> spec_effect_range_from_name(s@) is None,
    {
        if crate::text::str_eq(s, "Self") {
            Ok(EffectRange::Self_)
        } else if crate::text::str_eq(s, "Touch") {
            Ok(EffectRange::Touch)
        } else if crate::text::str_eq(s, "Target") {
            Ok(EffectRange::Target)
        } else {
            Err(())
        }
    }
}

impl core::str::FromStr for EffectRange {
    type Err = ();

    fn from_str(s: &str) -> Result<EffectRange, ()> {
        EffectRange::parse(s)
    }
}

} // verus!
