use vstd::prelude::*;

verus! {

/// The PERSISTENT bit of a record's flag word.
pub const RECORD_FLAGS_PERSISTENT: u64 = 0x40000000000;

/// The BLOCKED bit of a record's flag word.
pub const RECORD_FLAGS_BLOCKED: u64 = 0x200000000000;

/// The DELETED bit of a record's flag word.
pub const RECORD_FLAGS_DELETED: u64 = 0x2000000000;

/// All named bits of a record's flag word.
pub const RECORD_FLAGS_KNOWN: u64 = 0x242000000000;

/// The flag word carried by a whole record: PERSISTENT is 0x40000000000,
/// BLOCKED is 0x200000000000, DELETED is 0x2000000000.
#[derive(PartialEq, Eq, Structural, Copy, Clone, Hash, PartialOrd, Ord, Debug)]
pub struct RecordFlags {
    pub bits: u64,
}

impl RecordFlags {
    /// No flags set.
    pub fn empty() -> (r: RecordFlags)
        ensures
            r.bits == 0,
    {
        RecordFlags { bits: 0 }
    }

    /// The PERSISTENT flag alone.
    pub fn persistent() -> (r: RecordFlags)
        ensures
            r.bits == RECORD_FLAGS_PERSISTENT,
    {
        RecordFlags { bits: RECORD_FLAGS_PERSISTENT }
    }

    /// The BLOCKED flag alone.
    pub fn blocked() -> (r: RecordFlags)
        ensures
            r.bits == RECORD_FLAGS_BLOCKED,
    {
        RecordFlags { bits: RECORD_FLAGS_BLOCKED }
    }

    /// The DELETED flag alone.
    pub fn deleted() -> (r: RecordFlags)
        ensures
            r.bits == RECORD_FLAGS_DELETED,
    {
        RecordFlags { bits: RECORD_FLAGS_DELETED }
    }

    /// Both flag sets combined.
    pub fn union(self, other: RecordFlags) -> (r: RecordFlags)
        ensures
            r.bits == self.bits | other.bits,
    {
        RecordFlags { bits: self.bits | other.bits }
    }

    /// Whether a wire value sets only named bits.
    pub open spec fn spec_valid_bits(v: u64) -> bool {
        v & !RECORD_FLAGS_KNOWN == 0
    }

    /// The flag set a wire value names, if it sets only named bits.
    pub open spec fn spec_from_bits(v: u64) -> Option<RecordFlags> {
        if RecordFlags::spec_valid_bits(v) {
            Some(RecordFlags { bits: v })
        } else {
            None
        }
    }

    /// The flag set a wire value names, if it sets only named bits.
    pub fn from_bits(v: u64) -> (r: Option<RecordFlags>)
        ensures
            r == RecordFlags::spec_from_bits(v),
    {
        if v & !RECORD_FLAGS_KNOWN == 0 {
            Some(RecordFlags { bits: v })
        } else {
            None
        }
    }

    /// The wire value of the flag set.
    pub fn bits(self) -> (r: u64)
        ensures
            r == self.bits,
    {
        self.bits
    }

    /// The set flag names joined by " | ", in the order PERSISTENT,
    /// BLOCKED, DELETED; "(empty)" when none is set.
    pub open spec fn spec_display(bits: u64) -> Seq<char> {
        if bits & RECORD_FLAGS_PERSISTENT == 0 && bits & RECORD_FLAGS_BLOCKED == 0 && bits
            & RECORD_FLAGS_DELETED == 0 {
            "(empty)"@
        } else {
            let s1 = if bits & RECORD_FLAGS_PERSISTENT != 0 {
                "PERSISTENT"@
            } else {
                Seq::<char>::empty()
            };
            let s2 = if bits & RECORD_FLAGS_BLOCKED != 0 {
                spec_display_join(s1, "BLOCKED"@)
            } else {
                s1
            };
            if bits & RECORD_FLAGS_DELETED != 0 {
                spec_display_join(s2, "DELETED"@)
            } else {
                s2
            }
        }
    }

    /// The set flag names joined by " | "; "(empty)" when none is set.
    pub fn display_string(&self) -> (r: String)
        ensures
            r@ == RecordFlags::spec_display(self.bits),
    {
        proof {
            reveal_strlit("PERSISTENT");
            reveal_strlit("BLOCKED");
            reveal_strlit("DELETED");
            reveal_strlit(" | ");
            reveal_strlit("");
        }
        let p = self.bits & RECORD_FLAGS_PERSISTENT != 0;
        let b = self.bits & RECORD_FLAGS_BLOCKED != 0;
        let d = self.bits & RECORD_FLAGS_DELETED != 0;
        if !p && !b && !d {
            return "(empty)".to_owned();
        }
        let mut out = "".to_owned();
        if p {
            out.append("PERSISTENT");
        }
        if b {
            if p {
                out.append(" | ");
            }
            out.append("BLOCKED");
        }
        if d {
            if p || b {
                out.append(" | ");
            }
            out.append("DELETED");
        }
        out
    }
}

/// Two display parts joined by " | "; an empty left part disappears.
pub open spec fn spec_display_join(a: Seq<char>, b: Seq<char>) -> Seq<char> {
    if a.len() == 0 {
        b
    } else {
        a + " | "@ + b
    }
}

/// Whether the flag grammar skips this character around a separator.
pub open spec fn spec_is_blank(c: char) -> bool {
    c == ' ' || c == '\t' || c == '\r' || c == '\n'
}

/// The first position at or after `i` holding no blank.
pub open spec fn spec_skip_blanks(s: Seq<char>, i: int) -> int
    decreases s.len() - i,
        when 0 <= i <= s.len()
{
    if i < s.len() && spec_is_blank(s[i]) {
        spec_skip_blanks(s, i + 1)
    } else {
        i
    }
}

/// Where blank skipping ends: between `i` and the end of the text.
pub proof fn lemma_skip_blanks_bounds(s: Seq<char>, i: int)
    requires
        0 <= i <= s.len(),
    ensures
        i <= spec_skip_blanks(s, i) <= s.len(),
    decreases s.len() - i,
{
    if i < s.len() && spec_is_blank(s[i]) {
        lemma_skip_blanks_bounds(s, i + 1);
    }
}

/// The flag keyword standing at position `i`, with its bit and its length.
pub open spec fn spec_flag_at(s: Seq<char>, i: int) -> Option<(u64, int)> {
    if i + 10 <= s.len() && s.subrange(i, i + 10) == "PERSISTENT"@ {
        Some((RECORD_FLAGS_PERSISTENT, 10))
    } else if i + 7 <= s.len() && s.subrange(i, i + 7) == "BLOCKED"@ {
        Some((RECORD_FLAGS_BLOCKED, 7))
    } else if i + 7 <= s.len() && s.subrange(i, i + 7) == "DELETED"@ {
        Some((RECORD_FLAGS_DELETED, 7))
    } else {
        None
    }
}

/// A recognized keyword lies inside the text.
pub proof fn lemma_flag_at_bounds(s: Seq<char>, i: int)
    ensures
        spec_flag_at(s, i) matches Some(p) ==> 1 <= p.1 && i + p.1 <= s.len(),
{
}

/// The flags named by zero or more "blanks, '|', blanks, keyword" groups
/// running from `i` to the end of the text.
pub open spec fn spec_parse_rest(s: Seq<char>, i: int) -> Option<u64>
    decreases s.len() - i,
        when 0 <= i <= s.len()
        via spec_parse_rest_decreases
{
    if i >= s.len() {
        Some(0)
    } else {
        let j = spec_skip_blanks(s, i);
        if j < s.len() && s[j] == '|' {
            let k = spec_skip_blanks(s, j + 1);
            match spec_flag_at(s, k) {
                Option::None => None,
                Option::Some(p) => match spec_parse_rest(s, k + p.1) {
                    Option::None => None,
                    Option::Some(m) => Some(p.0 | m),
                },
            }
        } else {
            None
        }
    }
}

#[via_fn]
proof fn spec_parse_rest_decreases(s: Seq<char>, i: int) {
    if 0 <= i < s.len() {
        lemma_skip_blanks_bounds(s, i);
        let j = spec_skip_blanks(s, i);
        if j < s.len() && s[j] == '|' {
            lemma_skip_blanks_bounds(s, j + 1);
            let k = spec_skip_blanks(s, j + 1);
            lemma_flag_at_bounds(s, k);
        }
    }
}

/// The flag word a whole text names: empty text names no flags; otherwise
/// a keyword followed by zero or more "blanks, '|', blanks, keyword"
/// groups, with nothing left over.
pub open spec fn spec_parse_flags(s: Seq<char>) -> Option<u64> {
    if s.len() == 0 {
        Some(0)
    } else {
        match spec_flag_at(s, 0) {
            Option::None => None,
            Option::Some(p) => match spec_parse_rest(s, p.1) {
                Option::None => None,
                Option::Some(m) => Some(p.0 | m),
            },
        }
    }
}

proof fn lemma_or_zero(a: u64)
    ensures
        a | 0 == a,
{
    assert(a | 0 == a) by (bit_vector);
}

proof fn lemma_or_assoc(a: u64, b: u64, c: u64)
    ensures
        a | (b | c) == (a | b) | c,
{
    assert(a | (b | c) == (a | b) | c) by (bit_vector);
}

/// Whether the pattern's characters stand in `s` starting at `at`.
fn match_at_str(s: &str, at: usize, pat: &str) -> (r: bool)
    requires
        at <= s@.len(),
    ensures
        r <==> (at + pat@.len() <= s@.len() && s@.subrange(
            at as int,
            at as int + pat@.len() as int,
        ) == pat@),
{
    let pl = pat.unicode_len();
    let sl = s.unicode_len();
    if sl - at < pl {
        return false;
    }
    let mut q: usize = 0;
    while q < pl
        invariant
            pl == pat@.len(),
            sl == s@.len(),
            at + pl <= sl,
            q <= pl,
            forall|t: int| 0 <= t < q ==> s@[at + t] == pat@[t],
        decreases pl - q,
    {
        if s.get_char(at + q) != pat.get_char(q) {
            proof {
                assert(s@.subrange(at as int, at as int + pat@.len() as int)[q as int]
                    != pat@[q as int]);
            }
            return false;
        }
        q = q + 1;
    }
    proof {
        assert(s@.subrange(at as int, at as int + pat@.len() as int) =~= pat@);
    }
    true
}

/// The flag keyword standing at `at`, with its bit and its length.
fn flag_at(s: &str, at: usize) -> (r: Option<(u64, usize)>)
    requires
        at <= s@.len(),
    ensures
        match r {
            Some(p) => spec_flag_at(s@, at as int) == Some((p.0, p.1 as int)),
            None => spec_flag_at(s@, at as int) is None,
        },
{
    proof {
        reveal_strlit("PERSISTENT");
        reveal_strlit("BLOCKED");
        reveal_strlit("DELETED");
    }
    if match_at_str(s, at, "PERSISTENT") {
        Some((RECORD_FLAGS_PERSISTENT, 10))
    } else if match_at_str(s, at, "BLOCKED") {
        Some((RECORD_FLAGS_BLOCKED, 7))
    } else if match_at_str(s, at, "DELETED") {
        Some((RECORD_FLAGS_DELETED, 7))
    } else {
        None
    }
}

/// Whether the character is a blank of the flag grammar.
fn is_blank(c: char) -> (r: bool)
    ensures
        r == spec_is_blank(c),
{
    c == ' ' || c == '\t' || c == '\r' || c == '\n'
}

/// The first position at or after `i` holding no blank.
fn skip_blanks(s: &str, i: usize) -> (r: usize)
    requires
        i <= s@.len(),
    ensures
        r == spec_skip_blanks(s@, i as int),
        i <= r <= s@.len(),
{
    let len = s.unicode_len();
    let mut j = i;
    while j < len && is_blank(s.get_char(j))
        invariant
            len == s@.len(),
            i <= j <= len,
            spec_skip_blanks(s@, i as int) == spec_skip_blanks(s@, j as int),
        decreases len - j,
    {
        j = j + 1;
    }
    j
}

impl RecordFlags {
    /// Parses a flag word written as keywords joined by '|', with blanks
    /// allowed around each '|'; the empty text names no flags.
    pub fn parse(s: &str) -> (r: Result<RecordFlags, ()>)
        ensures
            r matches Ok(f) ==> Some(f.bits) == spec_parse_flags(s@),
            r is Err <==> spec_parse_flags(s@) is None,
    {
        let len = s.unicode_len();
        if len == 0 {
            return Ok(RecordFlags { bits: 0 });
        }
        let first = flag_at(s, 0);
        let (v0, n0) = match first {
            Option::None => {
                return Err(());
            },
            Option::Some(p) => p,
        };
        let mut acc: u64 = v0;
        let mut i: usize = n0;
        proof {
            lemma_flag_at_bounds(s@, 0);
        }
        loop
            invariant
                len == s@.len(),
                i <= len,
                spec_parse_flags(s@) == match spec_parse_rest(s@, i as int) {
                    Option::None => None::<u64>,
                    Option::Some(m) => Some(acc | m),
                },
            decreases len - i,
        {
            if i == len {
                proof {
                    lemma_or_zero(acc);
                }
                return Ok(RecordFlags { bits: acc });
            }
            let j = skip_blanks(s, i);
            if j == len {
                return Err(());
            }
            if s.get_char(j) != '|' {
                return Err(());
            }
            let k = skip_blanks(s, j + 1);
            match flag_at(s, k) {
                Option::None => {
                    return Err(());
                },
                Option::Some((v, n)) => {
                    proof {
                        lemma_flag_at_bounds(s@, k as int);
                        lemma_or_assoc(acc, v, 0);
                        assert forall|m: u64| acc | (v | m) == (acc | v) | m by {
                            lemma_or_assoc(acc, v, m);
                        }
                    }
                    acc = acc | v;
                    i = k + n;
                },
            }
        }
    }
}

impl core::str::FromStr for RecordFlags {
    type Err = ();

    fn from_str(s: &str) -> Result<RecordFlags, ()> {
        RecordFlags::parse(s)
    }
}

} // verus!
