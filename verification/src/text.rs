use vstd::prelude::*;
use vstd::slice::slice_subrange;
use vstd::slice::slice_to_vec;
use crate::code_page::CodePage;
use crate::code_page::decode_byte;
use crate::code_page::encode_char;
use crate::code_page::lemma_code_page_round_trip;
use crate::code_page::spec_decode_byte;
use crate::code_page::spec_encode_char;

verus! {

/// Relies on String::push: appends one character at the end.
#[verifier::external_body]
pub fn push_char(s: &mut String, c: char)
    ensures
        final(s)@ == old(s)@.push(c),
{
    s.push(c);
}

/// The characters that a byte sequence denotes under a code page.
pub open spec fn spec_decode_text(cp: CodePage, bs: Seq<u8>) -> Seq<char> {
    bs.map_values(|b: u8| spec_decode_byte(cp, b))
}

/// The bytes that encode a character sequence under a code page, if every
/// character has an encoding.
pub open spec fn spec_encode_text(cp: CodePage, cs: Seq<char>) -> Option<Seq<u8>>
    decreases cs.len(),
{
    if cs.len() == 0 {
        Some(Seq::empty())
    } else {
        match spec_encode_text(cp, cs.drop_last()) {
            Option::None => None,
            Option::Some(rest) => match spec_encode_char(cp, cs.last()) {
                Option::None => None,
                Option::Some(b) => Some(rest.push(b)),
            },
        }
    }
}

/// Text decoded from bytes always re-encodes to exactly those bytes.
pub proof fn lemma_text_round_trip(cp: CodePage, bs: Seq<u8>)
    ensures
        spec_encode_text(cp, spec_decode_text(cp, bs)) == Some(bs),
    decreases bs.len(),
{
    let cs = spec_decode_text(cp, bs);
    if bs.len() == 0 {
        assert(cs.len() == 0);
        assert(Seq::<u8>::empty() =~= bs);
    } else {
        let front = bs.drop_last();
        lemma_text_round_trip(cp, front);
        assert(cs.drop_last() =~= spec_decode_text(cp, front));
        assert(cs.last() == spec_decode_byte(cp, bs.last()));
        lemma_code_page_round_trip(cp, bs.last());
        assert(front.push(bs.last()) =~= bs);
    }
}

/// If any character of the sequence has no encoding, the whole sequence
/// has none.
pub proof fn lemma_encode_text_none(cp: CodePage, cs: Seq<char>, i: int)
    requires
        0 <= i < cs.len(),
        spec_encode_char(cp, cs[i]) is None,
    ensures
        spec_encode_text(cp, cs) is None,
    decreases cs.len(),
{
    if i == cs.len() - 1 {
    } else {
        lemma_encode_text_none(cp, cs.drop_last(), i);
    }
}

/// The string that a byte sequence denotes under a code page.
pub fn decode_text(cp: CodePage, bs: &[u8]) -> (s: String)
    ensures
        s@ == spec_decode_text(cp, bs@),
{
    let mut s = String::new();
    let mut i: usize = 0;
    while i < bs.len()
        invariant
            i <= bs@.len(),
            s@ == spec_decode_text(cp, bs@.take(i as int)),
        decreases bs@.len() - i,
    {
        let c = decode_byte(cp, bs[i]);
        push_char(&mut s, c);
        proof {
            assert(s@ =~= spec_decode_text(cp, bs@.take(i as int + 1)));
        }
        i = i + 1;
    }
    proof {
        assert(bs@.take(bs@.len() as int) =~= bs@);
    }
    s
}

/// The bytes that encode a string under a code page, or `None` if some
/// character has no single-byte encoding there.
pub fn encode_text(cp: CodePage, s: &str) -> (r: Option<Vec<u8>>)
    ensures
        r is Some <==> spec_encode_text(cp, s@) is Some,
        r matches Some(v) ==> Some(v@) == spec_encode_text(cp, s@),
{
    let len = s.unicode_len();
    let mut out: Vec<u8> = Vec::new();
    let mut i: usize = 0;
    while i < len
        invariant
            len == s@.len(),
            i <= len,
            Some(out@) == spec_encode_text(cp, s@.take(i as int)),
        decreases len - i,
    {
        let c = s.get_char(i);
        match encode_char(cp, c) {
            Option::None => {
                proof {
                    lemma_encode_text_none(cp, s@, i as int);
                }
                return None;
            },
            Option::Some(b) => {
                out.push(b);
                proof {
                    assert(s@.take(i as int + 1).drop_last() =~= s@.take(i as int));
                    assert(s@.take(i as int + 1).last() == s@[i as int]);
                }
            },
        }
        i = i + 1;
    }
    proof {
        assert(s@.take(len as int) =~= s@);
    }
    Some(out)
}


/// The position of the first occurrence of `sep` in `bs`, if any.
pub open spec fn spec_find_sep(bs: Seq<u8>, sep: Seq<u8>) -> Option<int>
    decreases bs.len(),
        when sep.len() >= 1
{
    if bs.len() < sep.len() {
        None
    } else if bs.take(sep.len() as int) == sep {
        Some(0)
    } else {
        match spec_find_sep(bs.drop_first(), sep) {
            Option::None => None,
            Option::Some(i) => Some(i + 1),
        }
    }
}

/// What `spec_find_sep` finds: the first occurrence of the separator.
pub proof fn lemma_find_sep_props(bs: Seq<u8>, sep: Seq<u8>)
    requires
        sep.len() >= 1,
    ensures
        match spec_find_sep(bs, sep) {
            Option::Some(i) => 0 <= i && i + sep.len() <= bs.len()
                && bs.subrange(i, i + sep.len() as int) == sep
                && (forall|j: int| 0 <= j < i ==> #[trigger] bs.subrange(j, j + sep.len() as int) != sep),
            Option::None => forall|j: int|
                0 <= j && j + sep.len() <= bs.len() ==> #[trigger] bs.subrange(j, j + sep.len() as int) != sep,
        },
    decreases bs.len(),
{
    let l = sep.len() as int;
    if bs.len() < sep.len() {
    } else if bs.take(l) == sep {
        assert(bs.subrange(0, l) =~= bs.take(l));
    } else {
        lemma_find_sep_props(bs.drop_first(), sep);
        assert forall|j: int| 0 <= j && j + l <= bs.len() - 1 implies
            #[trigger] bs.drop_first().subrange(j, j + l) =~= bs.subrange(j + 1, j + 1 + l) by {
        }
        assert(bs.subrange(0, l) =~= bs.take(l));
        match spec_find_sep(bs.drop_first(), sep) {
            Option::None => {
                assert forall|j: int| 0 <= j && j + l <= bs.len() implies
                    #[trigger] bs.subrange(j, j + l) != sep by {
                    if j == 0 {
                        assert(bs.subrange(0, l) != sep);
                    } else {
                        assert(bs.drop_first().subrange(j - 1, j - 1 + l) != sep);
                        assert(bs.drop_first().subrange(j - 1, j - 1 + l) =~= bs.subrange(j, j + l));
                    }
                }
            },
            Option::Some(i) => {
                assert(bs.drop_first().subrange(i, i + l) =~= bs.subrange(i + 1, i + 1 + l));
                assert forall|j: int| 0 <= j < i + 1 implies
                    #[trigger] bs.subrange(j, j + l) != sep by {
                    if j == 0 {
                        assert(bs.subrange(0, l) != sep);
                    } else {
                        assert(bs.drop_first().subrange(j - 1, j - 1 + l) != sep);
                        assert(bs.drop_first().subrange(j - 1, j - 1 + l) =~= bs.subrange(j, j + l));
                    }
                }
            },
        }
    }
}

/// The pieces of `bs` between occurrences of `sep`, in order; one more
/// piece than there are occurrences.
pub open spec fn spec_split(bs: Seq<u8>, sep: Seq<u8>) -> Seq<Seq<u8>>
    decreases bs.len(),
        when sep.len() >= 1
        via spec_split_decreases
{
    match spec_find_sep(bs, sep) {
        Option::None => seq![bs],
        Option::Some(i) => seq![bs.take(i)] + spec_split(bs.skip(i + sep.len() as int), sep),
    }
}

#[via_fn]
proof fn spec_split_decreases(bs: Seq<u8>, sep: Seq<u8>) {
    lemma_find_sep_props(bs, sep);
}

/// Splitting yields at least one piece.
pub proof fn lemma_split_nonempty(bs: Seq<u8>, sep: Seq<u8>)
    requires
        sep.len() >= 1,
    ensures
        spec_split(bs, sep).len() >= 1,
{
}


/// Whether `sep` occurs in `hay` starting at `at`.
fn matches_at(hay: &[u8], sep: &[u8], at: usize) -> (r: bool)
    requires
        at + sep@.len() <= hay@.len(),
    ensures
        r <==> hay@.subrange(at as int, at as int + sep@.len() as int) == sep@,
{
    let hl = hay.len();
    let mut k: usize = 0;
    while k < sep.len()
        invariant
            hl == hay@.len(),
            at + sep@.len() <= hay@.len(),
            k <= sep@.len(),
            forall|q: int| 0 <= q < k ==> hay@[at + q] == sep@[q],
        decreases sep@.len() - k,
    {
        if hay[at + k] != sep[k] {
            proof {
                assert(hay@.subrange(at as int, at as int + sep@.len() as int)[k as int]
                    != sep@[k as int]);
            }
            return false;
        }
        k = k + 1;
    }
    proof {
        assert(hay@.subrange(at as int, at as int + sep@.len() as int) =~= sep@);
    }
    true
}

/// The position of the first occurrence of `sep` in `hay`, if any.
fn find_sep(hay: &[u8], sep: &[u8]) -> (r: Option<usize>)
    requires
        sep@.len() >= 1,
    ensures
        match r {
            Some(p) => Some(p as int) == spec_find_sep(hay@, sep@),
            None => spec_find_sep(hay@, sep@) is None,
        },
{
    proof {
        lemma_find_sep_props(hay@, sep@);
    }
    if hay.len() < sep.len() {
        return None;
    }
    let hl = hay.len();
    let last = hl - sep.len();
    let mut j: usize = 0;
    loop
        invariant
            sep@.len() >= 1,
            hl == hay@.len(),
            last == hay@.len() - sep@.len(),
            j <= last + 1,
            forall|q: int| 0 <= q < j ==> #[trigger] hay@.subrange(q, q + sep@.len() as int) != sep@,
        decreases last + 1 - j,
    {
        if j > last {
            proof {
                lemma_find_sep_props(hay@, sep@);
            }
            return None;
        }
        if matches_at(hay, sep, j) {
            proof {
                lemma_find_sep_props(hay@, sep@);
            }
            return Some(j);
        }
        j = j + 1;
    }
}

/// The pieces of `bs` between occurrences of `sep`, as fresh vectors.
pub fn split_bytes(bs: &[u8], sep: &[u8]) -> (r: Vec<Vec<u8>>)
    requires
        sep@.len() >= 1,
    ensures
        r@.map_values(|v: Vec<u8>| v@) == spec_split(bs@, sep@),
{
    let mut out: Vec<Vec<u8>> = Vec::new();
    let mut start: usize = 0;
    proof {
        assert(bs@.skip(0) =~= bs@);
        assert(out@.map_values(|v: Vec<u8>| v@) + spec_split(bs@, sep@) =~= spec_split(
            bs@, sep@));
    }
    loop
        invariant
            sep@.len() >= 1,
            start <= bs@.len(),
            spec_split(bs@, sep@) == out@.map_values(|v: Vec<u8>| v@) + spec_split(
                bs@.skip(start as int),
                sep@,
            ),
        decreases bs@.len() - start,
    {
        let rem = slice_subrange(bs, start, bs.len());
        match find_sep(rem, sep) {
            Option::None => {
                let piece = slice_to_vec(rem);
                let ghost prev = out@.map_values(|v: Vec<u8>| v@);
                out.push(piece);
                proof {
                    assert(spec_split(bs@.skip(start as int), sep@) =~= seq![bs@.skip(
                        start as int)]);
                    assert(out@.map_values(|v: Vec<u8>| v@) =~= prev.push(bs@.skip(
                        start as int)));
                    assert(spec_split(bs@, sep@) =~= out@.map_values(|v: Vec<u8>| v@));
                }
                return out;
            },
            Option::Some(p) => {
                proof {
                    lemma_find_sep_props(bs@.skip(start as int), sep@);
                }
                let piece = slice_to_vec(slice_subrange(rem, 0, p));
                let ghost prev = out@.map_values(|v: Vec<u8>| v@);
                out.push(piece);
                proof {
                    assert(rem@.subrange(0, p as int) =~= bs@.skip(start as int).take(p as int));
                    assert(bs@.skip(start as int).skip(p as int + sep@.len() as int) =~= bs@.skip(
                        start as int + p as int + sep@.len() as int));
                    assert(out@.map_values(|v: Vec<u8>| v@) =~= prev.push(bs@.skip(
                        start as int).take(p as int)));
                    assert(spec_split(bs@, sep@) =~= out@.map_values(|v: Vec<u8>| v@)
                        + spec_split(bs@.skip(start as int + p as int + sep@.len() as int), sep@));
                }
                start = start + p + sep.len();
            },
        }
    }
}


/// The bytes that encode a list of lines joined by `sep`, if every
/// character of every line has an encoding.
pub open spec fn spec_encode_lines(cp: CodePage, lines: Seq<Seq<char>>, sep: Seq<u8>) -> Option<
    Seq<u8>,
>
    decreases lines.len(),
{
    if lines.len() == 0 {
        Some(Seq::empty())
    } else if lines.len() == 1 {
        spec_encode_text(cp, lines[0])
    } else {
        match spec_encode_text(cp, lines[0]) {
            Option::None => None,
            Option::Some(first) => match spec_encode_lines(cp, lines.drop_first(), sep) {
                Option::None => None,
                Option::Some(rest) => Some(first + sep + rest),
            },
        }
    }
}

/// Lines split out of a byte sequence always re-encode to exactly those
/// bytes.
pub proof fn lemma_lines_round_trip(cp: CodePage, bs: Seq<u8>, sep: Seq<u8>)
    requires
        sep.len() >= 1,
    ensures
        spec_encode_lines(
            cp,
            spec_split(bs, sep).map_values(|p: Seq<u8>| spec_decode_text(cp, p)),
            sep,
        ) == Some(bs),
    decreases bs.len(),
{
    let l = sep.len() as int;
    lemma_find_sep_props(bs, sep);
    let lines = spec_split(bs, sep).map_values(|p: Seq<u8>| spec_decode_text(cp, p));
    match spec_find_sep(bs, sep) {
        Option::None => {
            assert(spec_split(bs, sep) =~= seq![bs]);
            assert(lines =~= seq![spec_decode_text(cp, bs)]);
            lemma_text_round_trip(cp, bs);
        },
        Option::Some(i) => {
            let rest = bs.skip(i + l);
            lemma_lines_round_trip(cp, rest, sep);
            lemma_split_nonempty(rest, sep);
            lemma_text_round_trip(cp, bs.take(i));
            assert(lines.len() >= 2);
            assert(lines[0] == spec_decode_text(cp, bs.take(i)));
            assert(lines.drop_first() =~= spec_split(rest, sep).map_values(
                |p: Seq<u8>| spec_decode_text(cp, p)));
            assert(bs.take(i) + sep + rest =~= bs);
        },
    }
}

/// If any line has a character with no encoding, the whole list has none.
pub proof fn lemma_encode_lines_none(cp: CodePage, lines: Seq<Seq<char>>, sep: Seq<u8>, i: int)
    requires
        0 <= i < lines.len(),
        spec_encode_text(cp, lines[i]) is None,
    ensures
        spec_encode_lines(cp, lines, sep) is None,
    decreases lines.len(),
{
    if lines.len() == 1 {
    } else if i == 0 {
    } else {
        lemma_encode_lines_none(cp, lines.drop_first(), sep, i - 1);
    }
}

/// An encoded line list taken apart at line `k`: the first `k` lines
/// encoded, the separator, then the rest.
pub proof fn lemma_encode_lines_take(cp: CodePage, lines: Seq<Seq<char>>, sep: Seq<u8>, k: int)
    requires
        1 <= k < lines.len(),
    ensures
        spec_encode_lines(cp, lines, sep) == match (
            spec_encode_lines(cp, lines.take(k), sep),
            spec_encode_lines(cp, lines.skip(k), sep),
        ) {
            (Option::Some(a), Option::Some(b)) => Some(a + sep + b),
            _ => None::<Seq<u8>>,
        },
    decreases k,
{
    if k == 1 {
        assert(lines.take(1) =~= seq![lines[0]]);
        assert(lines.skip(1) =~= lines.drop_first());
        assert(spec_encode_lines(cp, lines.take(1), sep) == spec_encode_text(cp, lines[0]));
    } else {
        lemma_encode_lines_take(cp, lines.drop_first(), sep, k - 1);
        assert(lines.drop_first().take(k - 1) =~= lines.take(k).drop_first());
        assert(lines.drop_first().skip(k - 1) =~= lines.skip(k));
        assert(lines.take(k).len() == k);
        assert(lines.take(k)[0] == lines[0]);
        match (spec_encode_text(cp, lines[0]), spec_encode_lines(cp, lines.drop_first().take(k - 1),
            sep), spec_encode_lines(cp, lines.drop_first().skip(k - 1), sep)) {
            (Option::Some(f), Option::Some(a), Option::Some(b)) => {
                assert(f + sep + (a + sep + b) =~= (f + sep + a) + sep + b);
            },
            _ => {
            },
        }
    }
}

/// The lines that a byte sequence denotes: the pieces between separators,
/// each decoded under the code page.
pub fn decode_lines(cp: CodePage, bs: &[u8], sep: &[u8]) -> (r: Vec<String>)
    requires
        sep@.len() >= 1,
    ensures
        r@.map_values(|s: String| s@) == spec_split(bs@, sep@).map_values(
            |p: Seq<u8>| spec_decode_text(cp, p),
        ),
{
    let pieces = split_bytes(bs, sep);
    let mut out: Vec<String> = Vec::new();
    let mut i: usize = 0;
    while i < pieces.len()
        invariant
            sep@.len() >= 1,
            i <= pieces@.len(),
            pieces@.map_values(|v: Vec<u8>| v@) == spec_split(bs@, sep@),
            out@.map_values(|s: String| s@) =~= spec_split(bs@, sep@).map_values(
                |p: Seq<u8>| spec_decode_text(cp, p),
            ).take(i as int),
        decreases pieces@.len() - i,
    {
        let line = decode_text(cp, pieces[i].as_slice());
        let ghost prevm = out@.map_values(|s: String| s@);
        out.push(line);
        proof {
            assert(out@.map_values(|s: String| s@) =~= prevm.push(line@));
            assert(pieces@.map_values(|v: Vec<u8>| v@)[i as int] == pieces@[i as int]@);
            assert(spec_split(bs@, sep@)[i as int] == pieces@[i as int]@);
            assert(line@ == spec_split(bs@, sep@).map_values(
                |p: Seq<u8>| spec_decode_text(cp, p))[i as int]);
            assert(out@.map_values(|s: String| s@) =~= spec_split(bs@, sep@).map_values(
                |p: Seq<u8>| spec_decode_text(cp, p)).take(i as int + 1));
        }
        i = i + 1;
    }
    proof {
        let full = spec_split(bs@, sep@).map_values(|p: Seq<u8>| spec_decode_text(cp, p));
        assert(full.take(full.len() as int) =~= full);
    }
    out
}

/// The bytes that encode a list of lines joined by `sep`, or `None` if some
/// character has no encoding.
pub fn encode_lines(cp: CodePage, lines: &Vec<String>, sep: &[u8]) -> (r: Option<Vec<u8>>)
    requires
        sep@.len() >= 1,
    ensures
        r is Some <==> spec_encode_lines(cp, lines@.map_values(|s: String| s@), sep@) is Some,
        r matches Some(v) ==> Some(v@) == spec_encode_lines(
            cp,
            lines@.map_values(|s: String| s@),
            sep@,
        ),
{
    let ghost specs = lines@.map_values(|s: String| s@);
    let mut out: Vec<u8> = Vec::new();
    if lines.len() == 0 {
        proof {
            assert(specs.len() == 0);
        }
        return Some(out);
    }
    let mut i: usize = 0;
    while i < lines.len()
        invariant
            specs == lines@.map_values(|s: String| s@),
            i <= lines@.len(),
            lines@.len() >= 1,
            i >= 1 ==> Some(out@) == spec_encode_lines(cp, specs.take(i as int), sep@),
            i == 0 ==> out@ == Seq::<u8>::empty(),
        decreases lines@.len() - i,
    {
        if i > 0 {
            let mut sep_bytes = slice_to_vec(sep);
            out.append(&mut sep_bytes);
        }
        match encode_text(cp, lines[i].as_str()) {
            Option::None => {
                proof {
                    assert(specs[i as int] == lines@[i as int]@);
                    lemma_encode_lines_none(cp, specs, sep@, i as int);
                }
                return None;
            },
            Option::Some(mut eb) => {
                proof {
                    assert(specs[i as int] == lines@[i as int]@);
                }
                out.append(&mut eb);
            },
        }
        proof {
            if i == 0 {
                assert(specs.take(1) =~= seq![specs[0]]);
                assert(spec_encode_lines(cp, specs.take(1), sep@) == spec_encode_text(
                    cp, specs[0]));
            } else {
                lemma_encode_lines_take(cp, specs.take(i as int + 1), sep@, i as int);
                assert(specs.take(i as int + 1).take(i as int) =~= specs.take(i as int));
                assert(specs.take(i as int + 1).skip(i as int) =~= seq![specs[i as int]]);
                assert(spec_encode_lines(cp, seq![specs[i as int]], sep@) == spec_encode_text(
                    cp, specs[i as int]));
            }
        }
        i = i + 1;
    }
    proof {
        assert(specs.take(lines@.len() as int) =~= specs);
    }
    Some(out)
}


/// Whether two strings hold the same characters.
pub fn str_eq(a: &str, b: &str) -> (r: bool)
    ensures
        r == (a@ == b@),
{
    let la = a.unicode_len();
    let lb = b.unicode_len();
    if la != lb {
        return false;
    }
    let mut i: usize = 0;
    while i < la
        invariant
            la == a@.len(),
            la == b@.len(),
            i <= la,
            forall|j: int| 0 <= j < i ==> a@[j] == b@[j],
        decreases la - i,
    {
        if a.get_char(i) != b.get_char(i) {
            return false;
        }
        i = i + 1;
    }
    proof {
        assert(a@ =~= b@);
    }
    true
}

} // verus!
