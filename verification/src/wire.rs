use vstd::prelude::*;
use vstd::bytes::spec_u16_from_le_bytes;
use vstd::bytes::spec_u16_to_le_bytes;
use vstd::bytes::spec_u32_from_le_bytes;
use vstd::bytes::spec_u32_to_le_bytes;
use vstd::bytes::spec_u64_from_le_bytes;
use vstd::bytes::spec_u64_to_le_bytes;
use vstd::bytes::lemma_auto_spec_u16_to_from_le_bytes;
use vstd::bytes::lemma_auto_spec_u32_to_from_le_bytes;
use vstd::bytes::lemma_auto_spec_u64_to_from_le_bytes;
use vstd::bytes::u16_from_le_bytes;
use vstd::bytes::u16_to_le_bytes;
use vstd::bytes::u32_from_le_bytes;
use vstd::bytes::u32_to_le_bytes;
use vstd::bytes::u64_from_le_bytes;
use vstd::bytes::u64_to_le_bytes;
use vstd::slice::slice_subrange;

verus! {

/// The signed reading of two little-endian bytes.
pub open spec fn spec_i16_from_le(s: Seq<u8>) -> i16 {
    spec_u16_from_le_bytes(s) as i16
}

/// The two little-endian bytes of a signed value.
pub open spec fn spec_i16_to_le(x: i16) -> Seq<u8> {
    spec_u16_to_le_bytes(x as u16)
}

/// The signed reading of four little-endian bytes.
pub open spec fn spec_i32_from_le(s: Seq<u8>) -> i32 {
    spec_u32_from_le_bytes(s) as i32
}

/// The four little-endian bytes of a signed value.
pub open spec fn spec_i32_to_le(x: i32) -> Seq<u8> {
    spec_u32_to_le_bytes(x as u32)
}

/// The signed reading of eight little-endian bytes.
pub open spec fn spec_i64_from_le(s: Seq<u8>) -> i64 {
    spec_u64_from_le_bytes(s) as i64
}

/// The eight little-endian bytes of a signed value.
pub open spec fn spec_i64_to_le(x: i64) -> Seq<u8> {
    spec_u64_to_le_bytes(x as u64)
}

/// Casting an unsigned word to signed and back returns it; so the signed
/// byte conversions invert each other just as the unsigned ones do.
pub proof fn lemma_signed_casts()
    ensures
        forall|u: u8| #[trigger] ((u as i8) as u8) == u,
        forall|u: u16| #[trigger] ((u as i16) as u16) == u,
        forall|u: u32| #[trigger] ((u as i32) as u32) == u,
        forall|u: u64| #[trigger] ((u as i64) as u64) == u,
        forall|x: i8| #[trigger] ((x as u8) as i8) == x,
        forall|x: i16| #[trigger] ((x as u16) as i16) == x,
        forall|x: i32| #[trigger] ((x as u32) as i32) == x,
        forall|x: i64| #[trigger] ((x as u64) as i64) == x,
{
    assert forall|u: u8| #[trigger] ((u as i8) as u8) == u by {
        assert((u as i8) as u8 == u) by (bit_vector);
    }
    assert forall|u: u16| #[trigger] ((u as i16) as u16) == u by {
        assert((u as i16) as u16 == u) by (bit_vector);
    }
    assert forall|u: u32| #[trigger] ((u as i32) as u32) == u by {
        assert((u as i32) as u32 == u) by (bit_vector);
    }
    assert forall|u: u64| #[trigger] ((u as i64) as u64) == u by {
        assert((u as i64) as u64 == u) by (bit_vector);
    }
    assert forall|x: i8| #[trigger] ((x as u8) as i8) == x by {
        assert((x as u8) as i8 == x) by (bit_vector);
    }
    assert forall|x: i16| #[trigger] ((x as u16) as i16) == x by {
        assert((x as u16) as i16 == x) by (bit_vector);
    }
    assert forall|x: i32| #[trigger] ((x as u32) as i32) == x by {
        assert((x as u32) as i32 == x) by (bit_vector);
    }
    assert forall|x: i64| #[trigger] ((x as u64) as i64) == x by {
        assert((x as u64) as i64 == x) by (bit_vector);
    }
}

/// The little-endian conversions of every width invert each other, both
/// ways around.
pub proof fn lemma_le_round_trips()
    ensures
        forall|x: u16|
            {
                &&& #[trigger] spec_u16_to_le_bytes(x).len() == 2
                &&& spec_u16_from_le_bytes(spec_u16_to_le_bytes(x)) == x
            },
        forall|s: Seq<u8>| s.len() == 2 ==> #[trigger] spec_u16_to_le_bytes(
            spec_u16_from_le_bytes(s),
        ) == s,
        forall|x: u32|
            {
                &&& #[trigger] spec_u32_to_le_bytes(x).len() == 4
                &&& spec_u32_from_le_bytes(spec_u32_to_le_bytes(x)) == x
            },
        forall|s: Seq<u8>| s.len() == 4 ==> #[trigger] spec_u32_to_le_bytes(
            spec_u32_from_le_bytes(s),
        ) == s,
        forall|x: u64|
            {
                &&& #[trigger] spec_u64_to_le_bytes(x).len() == 8
                &&& spec_u64_from_le_bytes(spec_u64_to_le_bytes(x)) == x
            },
        forall|s: Seq<u8>| s.len() == 8 ==> #[trigger] spec_u64_to_le_bytes(
            spec_u64_from_le_bytes(s),
        ) == s,
        forall|x: i16|
            {
                &&& #[trigger] spec_i16_to_le(x).len() == 2
                &&& spec_i16_from_le(spec_i16_to_le(x)) == x
            },
        forall|s: Seq<u8>| s.len() == 2 ==> #[trigger] spec_i16_to_le(spec_i16_from_le(s)) == s,
        forall|x: i32|
            {
                &&& #[trigger] spec_i32_to_le(x).len() == 4
                &&& spec_i32_from_le(spec_i32_to_le(x)) == x
            },
        forall|s: Seq<u8>| s.len() == 4 ==> #[trigger] spec_i32_to_le(spec_i32_from_le(s)) == s,
        forall|x: i64|
            {
                &&& #[trigger] spec_i64_to_le(x).len() == 8
                &&& spec_i64_from_le(spec_i64_to_le(x)) == x
            },
        forall|s: Seq<u8>| s.len() == 8 ==> #[trigger] spec_i64_to_le(spec_i64_from_le(s)) == s,
{
    lemma_auto_spec_u16_to_from_le_bytes();
    lemma_auto_spec_u32_to_from_le_bytes();
    lemma_auto_spec_u64_to_from_le_bytes();
    lemma_signed_casts();
}

/// The unsigned byte at `at`.
pub fn read_u8_at(bs: &[u8], at: usize) -> (x: u8)
    requires
        at < bs@.len(),
    ensures
        x == bs@[at as int],
{
    bs[at]
}

/// The signed byte at `at`.
pub fn read_i8_at(bs: &[u8], at: usize) -> (x: i8)
    requires
        at < bs@.len(),
    ensures
        x == bs@[at as int] as i8,
{
    bs[at] as i8
}

/// The unsigned little-endian word at `at`.
pub fn read_u16_at(bs: &[u8], at: usize) -> (x: u16)
    requires
        at + 2 <= bs@.len(),
    ensures
        x == spec_u16_from_le_bytes(bs@.subrange(at as int, at as int + 2)),
{
    let hl = bs.len();
    u16_from_le_bytes(slice_subrange(bs, at, at + 2))
}

/// The signed little-endian word at `at`.
pub fn read_i16_at(bs: &[u8], at: usize) -> (x: i16)
    requires
        at + 2 <= bs@.len(),
    ensures
        x == spec_i16_from_le(bs@.subrange(at as int, at as int + 2)),
{
    read_u16_at(bs, at) as i16
}

/// The unsigned little-endian dword at `at`.
pub fn read_u32_at(bs: &[u8], at: usize) -> (x: u32)
    requires
        at + 4 <= bs@.len(),
    ensures
        x == spec_u32_from_le_bytes(bs@.subrange(at as int, at as int + 4)),
{
    let hl = bs.len();
    u32_from_le_bytes(slice_subrange(bs, at, at + 4))
}

/// The signed little-endian dword at `at`.
pub fn read_i32_at(bs: &[u8], at: usize) -> (x: i32)
    requires
        at + 4 <= bs@.len(),
    ensures
        x == spec_i32_from_le(bs@.subrange(at as int, at as int + 4)),
{
    read_u32_at(bs, at) as i32
}

/// The unsigned little-endian qword at `at`.
pub fn read_u64_at(bs: &[u8], at: usize) -> (x: u64)
    requires
        at + 8 <= bs@.len(),
    ensures
        x == spec_u64_from_le_bytes(bs@.subrange(at as int, at as int + 8)),
{
    let hl = bs.len();
    u64_from_le_bytes(slice_subrange(bs, at, at + 8))
}

/// The signed little-endian qword at `at`.
pub fn read_i64_at(bs: &[u8], at: usize) -> (x: i64)
    requires
        at + 8 <= bs@.len(),
    ensures
        x == spec_i64_from_le(bs@.subrange(at as int, at as int + 8)),
{
    read_u64_at(bs, at) as i64
}

/// Appends one byte.
pub fn push_u8(out: &mut Vec<u8>, x: u8)
    ensures
        final(out)@ == old(out)@.push(x),
{
    out.push(x);
}

/// Appends one signed byte.
pub fn push_i8(out: &mut Vec<u8>, x: i8)
    ensures
        final(out)@ == old(out)@.push(x as u8),
{
    out.push(x as u8);
}

/// Appends a word, little-endian.
pub fn push_u16(out: &mut Vec<u8>, x: u16)
    ensures
        final(out)@ == old(out)@ + spec_u16_to_le_bytes(x),
{
    let mut b = u16_to_le_bytes(x);
    out.append(&mut b);
}

/// Appends a signed word, little-endian.
pub fn push_i16(out: &mut Vec<u8>, x: i16)
    ensures
        final(out)@ == old(out)@ + spec_i16_to_le(x),
{
    push_u16(out, x as u16);
}

/// Appends a dword, little-endian.
pub fn push_u32(out: &mut Vec<u8>, x: u32)
    ensures
        final(out)@ == old(out)@ + spec_u32_to_le_bytes(x),
{
    let mut b = u32_to_le_bytes(x);
    out.append(&mut b);
}

/// Appends a signed dword, little-endian.
pub fn push_i32(out: &mut Vec<u8>, x: i32)
    ensures
        final(out)@ == old(out)@ + spec_i32_to_le(x),
{
    push_u32(out, x as u32);
}

/// Appends a qword, little-endian.
pub fn push_u64(out: &mut Vec<u8>, x: u64)
    ensures
        final(out)@ == old(out)@ + spec_u64_to_le_bytes(x),
{
    let mut b = u64_to_le_bytes(x);
    out.append(&mut b);
}

/// Appends a signed qword, little-endian.
pub fn push_i64(out: &mut Vec<u8>, x: i64)
    ensures
        final(out)@ == old(out)@ + spec_i64_to_le(x),
{
    push_u64(out, x as u64);
}

/// A run of NUL bytes used to pad fixed-width text.
pub open spec fn spec_zeros(n: int) -> Seq<u8> {
    Seq::new(n as nat, |i: int| 0u8)
}

/// Appends `n` NUL bytes.
pub fn push_zeros(out: &mut Vec<u8>, n: usize)
    ensures
        final(out)@ == old(out)@ + spec_zeros(n as int),
{
    let mut i: usize = 0;
    while i < n
        invariant
            i <= n,
            out@ == old(out)@ + spec_zeros(i as int),
        decreases n - i,
    {
        out.push(0);
        proof {
            assert(out@ =~= old(out)@ + spec_zeros(i as int + 1));
        }
        i = i + 1;
    }
    proof {
        assert(out@ =~= old(out)@ + spec_zeros(n as int));
    }
}

} // verus!
