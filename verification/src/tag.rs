use vstd::prelude::*;

verus! {

/// A four-character identifier stored as a little-endian 32-bit value:
/// the characters `A,B,C,D` give the integer `A | B<<8 | C<<16 | D<<24`.
#[derive(PartialEq, Eq, Structural, Copy, Clone, Hash, PartialOrd, Ord, Debug)]
pub struct Tag {
    pub dword: u32,
}

/// The four characters of a tag value, lowest byte first.
pub open spec fn spec_tag_chars(dword: u32) -> Seq<char> {
    seq![
        (dword & 0xFF) as char,
        ((dword >> 8) & 0xFF) as char,
        ((dword >> 16) & 0xFF) as char,
        ((dword >> 24) & 0xFF) as char,
    ]
}

/// The tag value built from four characters, lowest byte first.
pub open spec fn spec_tag_dword(c0: char, c1: char, c2: char, c3: char) -> u32 {
    (c0 as u32) | ((c1 as u32) << 8) | ((c2 as u32) << 16) | ((c3 as u32) << 24)
}

impl Tag {
    /// Builds a tag from a four-character ASCII string.
    pub fn from_chars(s: &str) -> (t: Tag)
        requires
            s@.len() == 4,
            forall|i: int| #![trigger s@[i]] 0 <= i < 4 ==> (s@[i] as u32) < 128,
        ensures
            t.dword == spec_tag_dword(s@[0], s@[1], s@[2], s@[3]),
    {
        let c0 = s.get_char(0);
        let c1 = s.get_char(1);
        let c2 = s.get_char(2);
        let c3 = s.get_char(3);
        Tag { dword: (c0 as u32) | ((c1 as u32) << 8) | ((c2 as u32) << 16) | ((c3 as u32) << 24) }
    }

    /// Parses a tag from a string; fails unless the string is exactly
    /// four ASCII characters.
    pub fn parse(s: &str) -> (r: Result<Tag, ()>)
        ensures
            r is Ok <==> (s@.len() == 4 && forall|i: int| #![trigger s@[i]] 0 <= i < 4 ==> (s@[i] as u32) < 128),
            r is Ok ==> r->Ok_0.dword == spec_tag_dword(s@[0], s@[1], s@[2], s@[3]),
    {
        let len = s.unicode_len();
        if len != 4 {
            return Err(());
        }
        let c0 = s.get_char(0);
        let c1 = s.get_char(1);
        let c2 = s.get_char(2);
        let c3 = s.get_char(3);
        if (c0 as u32) < 128 && (c1 as u32) < 128 && (c2 as u32) < 128 && (c3 as u32) < 128 {
            Ok(Tag { dword: (c0 as u32) | ((c1 as u32) << 8) | ((c2 as u32) << 16) | ((c3 as u32) << 24) })
        } else {
            Err(())
        }
    }

    /// The four characters of the tag as a string, lowest byte first.
    pub fn display_string(&self) -> (r: String)
        ensures
            r@ == spec_tag_chars(self.dword),
    {
        let d = self.dword;
        let b0 = d & 0xFF;
        let b1 = (d >> 8) & 0xFF;
        let b2 = (d >> 16) & 0xFF;
        let b3 = (d >> 24) & 0xFF;
        proof {
            assert(b0 < 256 && b1 < 256 && b2 < 256 && b3 < 256) by (bit_vector)
                requires
                    b0 == d & 0xFF,
                    b1 == (d >> 8) & 0xFF,
                    b2 == (d >> 16) & 0xFF,
                    b3 == (d >> 24) & 0xFF,
            ;
        }
        let mut r = String::new();
        crate::text::push_char(&mut r, (b0 as u8) as char);
        crate::text::push_char(&mut r, (b1 as u8) as char);
        crate::text::push_char(&mut r, (b2 as u8) as char);
        crate::text::push_char(&mut r, (b3 as u8) as char);
        proof {
            assert(r@ =~= spec_tag_chars(self.dword));
        }
        r
    }
}

impl core::str::FromStr for Tag {
    type Err = ();

    fn from_str(s: &str) -> Result<Tag, ()> {
        Tag::parse(s)
    }
}

// The tag values of the records and fields that the dispatch table names,
// as little-endian 32-bit words.

pub const APPA: u32 = 0x41505041;
pub const AADT: u32 = 0x54444141;
pub const INFO: u32 = 0x4F464E49;
pub const ACDT: u32 = 0x54444341;
pub const CELL: u32 = 0x4C4C4543;
pub const ACTN: u32 = 0x4E544341;
pub const AI_T: u32 = 0x545F4941;
pub const AI_W: u32 = 0x575F4941;
pub const AIDT: u32 = 0x54444941;
pub const FACT: u32 = 0x54434146;
pub const ANAM: u32 = 0x4D414E41;
pub const ARMO: u32 = 0x4F4D5241;
pub const AODT: u32 = 0x54444F41;
pub const ASND: u32 = 0x444E5341;
pub const AVFX: u32 = 0x58465641;
pub const BOOK: u32 = 0x4B4F4F42;
pub const BKDT: u32 = 0x54444B42;
pub const BNAM: u32 = 0x4D414E42;
pub const BODY: u32 = 0x59444F42;
pub const CLOT: u32 = 0x544F4C43;
pub const PCDT: u32 = 0x54444350;
pub const BSND: u32 = 0x444E5342;
pub const BVFX: u32 = 0x58465642;
pub const BYDT: u32 = 0x54445942;
pub const CNAM: u32 = 0x4D414E43;
pub const KLST: u32 = 0x54534C4B;
pub const REGN: u32 = 0x4E474552;
pub const CONT: u32 = 0x544E4F43;
pub const CNDT: u32 = 0x54444E43;
pub const CSND: u32 = 0x444E5343;
pub const CTDT: u32 = 0x54445443;
pub const CVFX: u32 = 0x58465643;
pub const DIAL: u32 = 0x4C414944;
pub const DATA: u32 = 0x41544144;
pub const LAND: u32 = 0x444E414C;
pub const LEVC: u32 = 0x4356454C;
pub const LEVI: u32 = 0x4956454C;
pub const LTEX: u32 = 0x5845544C;
pub const SSCR: u32 = 0x52435353;
pub const TES3: u32 = 0x33534554;
pub const QUES: u32 = 0x53455551;
pub const DELE: u32 = 0x454C4544;
pub const BSGN: u32 = 0x4E475342;
pub const DESC: u32 = 0x43534544;
pub const DNAM: u32 = 0x4D414E44;
pub const ALCH: u32 = 0x48434C41;
pub const ENAM: u32 = 0x4D414E45;
pub const ENCH: u32 = 0x48434E45;
pub const SPEL: u32 = 0x4C455053;
pub const FGTN: u32 = 0x4E544746;
pub const CREA: u32 = 0x41455243;
pub const NPC_: u32 = 0x5F43504E;
pub const FLAG: u32 = 0x47414C46;
pub const FLTV: u32 = 0x56544C46;
pub const GLOB: u32 = 0x424F4C47;
pub const FNAM: u32 = 0x4D414E46;
pub const FRMR: u32 = 0x524D5246;
pub const HEDR: u32 = 0x52444548;
pub const HSND: u32 = 0x444E5348;
pub const HVFX: u32 = 0x58465648;
pub const INAM: u32 = 0x4D414E49;
pub const INDX: u32 = 0x58444E49;
pub const INTV: u32 = 0x56544E49;
pub const INGR: u32 = 0x52474E49;
pub const IRDT: u32 = 0x54445249;
pub const ITEX: u32 = 0x58455449;
pub const KNAM: u32 = 0x4D414E4B;
pub const LIGH: u32 = 0x4847494C;
pub const LHDT: u32 = 0x5444484C;
pub const LNAM: u32 = 0x4D414E4C;
pub const LSHN: u32 = 0x4E48534C;
pub const LSTN: u32 = 0x4E54534C;
pub const LVCR: u32 = 0x5243564C;
pub const FMAP: u32 = 0x50414D46;
pub const MAPD: u32 = 0x4450414D;
pub const MAPH: u32 = 0x4850414D;
pub const MAST: u32 = 0x5453414D;
pub const MISC: u32 = 0x4353494D;
pub const MCDT: u32 = 0x5444434D;
pub const MNAM: u32 = 0x4D414E4D;
pub const MODL: u32 = 0x4C444F4D;
pub const NAM0: u32 = 0x304D414E;
pub const SPLM: u32 = 0x4D4C5053;
pub const NAM5: u32 = 0x354D414E;
pub const NAM9: u32 = 0x394D414E;
pub const GMST: u32 = 0x54534D47;
pub const NAME: u32 = 0x454D414E;
pub const JOUR: u32 = 0x52554F4A;
pub const ND3D: u32 = 0x4433444E;
pub const NNAM: u32 = 0x4D414E4E;
pub const NPCO: u32 = 0x4F43504E;
pub const NPDT: u32 = 0x5444504E;
pub const NPCC: u32 = 0x4343504E;
pub const NPCS: u32 = 0x5343504E;
pub const ONAM: u32 = 0x4D414E4F;
pub const PNAM: u32 = 0x4D414E50;
pub const PTEX: u32 = 0x58455450;
pub const RGNN: u32 = 0x4E4E4752;
pub const RNAM: u32 = 0x4D414E52;
pub const SCPT: u32 = 0x54504353;
pub const SCHD: u32 = 0x44484353;
pub const SCRI: u32 = 0x49524353;
pub const SCTX: u32 = 0x58544353;
pub const SCVR: u32 = 0x52564353;
pub const SNAM: u32 = 0x4D414E53;
pub const SPDT: u32 = 0x54445053;
pub const STRV: u32 = 0x56525453;
pub const TEXT: u32 = 0x54584554;
pub const TNAM: u32 = 0x4D414E54;
pub const VCLR: u32 = 0x524C4356;
pub const VHGT: u32 = 0x54474856;
pub const VNML: u32 = 0x4C4D4E56;
pub const VTEX: u32 = 0x58455456;
pub const WHGT: u32 = 0x54474857;
pub const WIDX: u32 = 0x58444957;
pub const WNAM: u32 = 0x4D414E57;
pub const WEAP: u32 = 0x50414557;
pub const WPDT: u32 = 0x54445057;
pub const XCHG: u32 = 0x47484358;
pub const XHLT: u32 = 0x544C4858;
pub const XIDX: u32 = 0x58444958;
pub const XSOL: u32 = 0x4C4F5358;
pub const XNAM: u32 = 0x4D414E58;
pub const XSCL: u32 = 0x4C435358;
pub const ZNAM: u32 = 0x4D414E5A;

} // verus!
