//! Little-endian fixed-width integers inside byte buffers.
use vstd::bytes::{
    lemma_auto_spec_u64_to_from_le_bytes, spec_u64_from_le_bytes, spec_u64_to_le_bytes,
    u64_from_le_bytes, u64_to_le_bytes,
};
use vstd::prelude::*;

verus! {

/// The unsigned 64-bit integer stored little-endian in `d[o..o + 8]`.
pub open spec fn u64_at(d: Seq<u8>, o: int) -> u64 {
    spec_u64_from_le_bytes(d.subrange(o, o + 8))
}

/// Two's complement: the signed value of a 64-bit pattern.
pub open spec fn signed_of(u: u64) -> i64 {
    if u < 0x8000_0000_0000_0000 {
        u as i64
    } else {
        (u - 0x1_0000_0000_0000_0000) as i64
    }
}

/// Two's complement: the 64-bit pattern of a signed value.
pub open spec fn unsigned_of(v: i64) -> u64 {
    if v >= 0 {
        v as u64
    } else {
        (v + 0x1_0000_0000_0000_0000) as u64
    }
}

/// The signed 64-bit integer stored little-endian in `d[o..o + 8]`.
pub open spec fn i64_at(d: Seq<u8>, o: int) -> i64 {
    signed_of(u64_at(d, o))
}

/// The eight little-endian bytes of `v`.
pub open spec fn u64_bytes(v: u64) -> Seq<u8> {
    spec_u64_to_le_bytes(v)
}

/// The eight little-endian bytes of `v` in two's complement.
pub open spec fn i64_bytes(v: i64) -> Seq<u8> {
    spec_u64_to_le_bytes(unsigned_of(v))
}

/// `d` with the eight bytes at `o` replaced by `b`.
pub open spec fn put8(d: Seq<u8>, o: int, b: Seq<u8>) -> Seq<u8> {
    d.subrange(0, o) + b + d.subrange(o + 8, d.len() as int)
}

pub proof fn lemma_signed_round_trip(v: i64)
    ensures
        signed_of(unsigned_of(v)) == v,
{
}

pub proof fn lemma_u64_bytes(v: u64)
    ensures
        u64_bytes(v).len() == 8,
        spec_u64_from_le_bytes(u64_bytes(v)) == v,
{
    lemma_auto_spec_u64_to_from_le_bytes();
}

/// Reads the little-endian `u64` at `offset`.
pub fn read_u64(data: &[u8], offset: usize) -> (r: u64)
    requires
        offset + 8 <= data.len(),
    ensures
        r == u64_at(data@, offset as int),
{
    let s = &data[offset..offset + 8];
    u64_from_le_bytes(s)
}

fn to_signed(u: u64) -> (r: i64)
    ensures
        r == signed_of(u),
{
    if u < 0x8000_0000_0000_0000 {
        u as i64
    } else {
        let below: u64 = u64::MAX - u;
        -(below as i64) - 1
    }
}

fn to_unsigned(v: i64) -> (r: u64)
    ensures
        r == unsigned_of(v),
{
    if v >= 0 {
        v as u64
    } else {
        let m: i64 = -(v + 1);
        u64::MAX - (m as u64)
    }
}

/// Reads the little-endian `i64` at `offset`.
pub fn read_i64(data: &[u8], offset: usize) -> (r: i64)
    requires
        offset + 8 <= data.len(),
    ensures
        r == i64_at(data@, offset as int),
{
    to_signed(read_u64(data, offset))
}

fn write8(data: &mut [u8], offset: usize, b: &Vec<u8>)
    requires
        offset + 8 <= old(data).len(),
        b@.len() == 8,
    ensures
        final(data)@ == put8(old(data)@, offset as int, b@),
{
    let ghost d0 = data@;
    let mut i: usize = 0;
    while i < 8
        invariant
            0 <= i <= 8,
            b@.len() == 8,
            d0.len() == data@.len(),
            offset + 8 <= data.len(),
            forall|j: int|
                0 <= j < d0.len() ==> #[trigger] data@[j] == if offset <= j < offset + i {
                    b@[j - offset]
                } else {
                    d0[j]
                },
        decreases 8 - i,
    {
        data[offset + i] = b[i];
        i += 1;
    }
    assert(data@ =~= put8(d0, offset as int, b@));
}

/// Writes `value` little-endian at `offset`.
pub fn write_u64(data: &mut [u8], offset: usize, value: u64)
    requires
        offset + 8 <= old(data).len(),
    ensures
        final(data)@ == put8(old(data)@, offset as int, u64_bytes(value)),
{
    let b = u64_to_le_bytes(value);
    write8(data, offset, &b);
}

/// The eight little-endian bytes of `value` in two's complement.
pub fn i64_le_bytes(value: i64) -> (r: Vec<u8>)
    ensures
        r@ == i64_bytes(value),
{
    u64_to_le_bytes(to_unsigned(value))
}

/// Writes `value` little-endian, in two's complement, at `offset`.
pub fn write_i64(data: &mut [u8], offset: usize, value: i64)
    requires
        offset + 8 <= old(data).len(),
    ensures
        final(data)@ == put8(old(data)@, offset as int, i64_bytes(value)),
{
    let b = u64_to_le_bytes(to_unsigned(value));
    write8(data, offset, &b);
}


/// `d1` and `d2` hold the same bytes everywhere outside `[lo, hi)`.
pub open spec fn same_outside(d1: Seq<u8>, d2: Seq<u8>, lo: int, hi: int) -> bool {
    &&& d1.len() == d2.len()
    &&& forall|j: int| 0 <= j < d1.len() && !(lo <= j < hi) ==> #[trigger] d1[j] == d2[j]
}

/// A range that lies clear of `[lo, hi)` reads the same in both buffers.
pub proof fn lemma_same_outside(d1: Seq<u8>, d2: Seq<u8>, lo: int, hi: int)
    requires
        same_outside(d1, d2, lo, hi),
    ensures
        forall|p: int, q: int|
            0 <= p <= q <= d1.len() && (q <= lo || hi <= p) ==> #[trigger] d1.subrange(p, q)
                == d2.subrange(p, q),
{
    assert forall|p: int, q: int|
        0 <= p <= q <= d1.len() && (q <= lo || hi <= p) implies #[trigger] d1.subrange(p, q)
        == d2.subrange(p, q) by {
        assert(d1.subrange(p, q) =~= d2.subrange(p, q));
    }
}

pub proof fn lemma_put8(d: Seq<u8>, o: int, b: Seq<u8>)
    requires
        0 <= o,
        o + 8 <= d.len(),
        b.len() == 8,
    ensures
        same_outside(d, put8(d, o, b), o, o + 8),
        put8(d, o, b).subrange(o, o + 8) == b,
        put8(d, o, b).len() == d.len(),
{
    assert(put8(d, o, b).subrange(o, o + 8) =~= b);
}

/// Reading back the `u64` just written.
pub proof fn lemma_read_written_u64(d: Seq<u8>, o: int, v: u64)
    requires
        0 <= o,
        o + 8 <= d.len(),
    ensures
        u64_at(put8(d, o, u64_bytes(v)), o) == v,
        same_outside(d, put8(d, o, u64_bytes(v)), o, o + 8),
{
    lemma_u64_bytes(v);
    lemma_put8(d, o, u64_bytes(v));
}

/// Reading back the `i64` just written.
pub proof fn lemma_read_written_i64(d: Seq<u8>, o: int, v: i64)
    requires
        0 <= o,
        o + 8 <= d.len(),
    ensures
        i64_at(put8(d, o, i64_bytes(v)), o) == v,
        same_outside(d, put8(d, o, i64_bytes(v)), o, o + 8),
{
    lemma_u64_bytes(unsigned_of(v));
    lemma_put8(d, o, i64_bytes(v));
    lemma_signed_round_trip(v);
}

/// Whether two byte strings are equal.
pub fn bytes_equal(a: &[u8], b: &[u8]) -> (r: bool)
    ensures
        r == (a@ == b@),
{
    if a.len() != b.len() {
        return false;
    }
    let mut i: usize = 0;
    while i < a.len()
        invariant
            0 <= i <= a@.len(),
            a@.len() == b@.len(),
            forall|j: int| 0 <= j < i ==> a@[j] == b@[j],
        decreases a@.len() - i,
    {
        if a[i] != b[i] {
            return false;
        }
        i += 1;
    }
    assert(a@ =~= b@);
    true
}

/// Copies `src` into `data` at `offset`.
pub fn write_bytes(data: &mut [u8], offset: usize, src: &[u8])
    requires
        offset + src@.len() <= old(data).len(),
    ensures
        same_outside(old(data)@, final(data)@, offset as int, offset + src@.len()),
        final(data)@.subrange(offset as int, offset + src@.len()) == src@,
{
    let ghost d0 = data@;
    let mut i: usize = 0;
    while i < src.len()
        invariant
            0 <= i <= src@.len(),
            d0.len() == data@.len(),
            offset + src@.len() <= data.len(),
            forall|j: int|
                0 <= j < d0.len() ==> #[trigger] data@[j] == if offset <= j < offset + i {
                    src@[j - offset]
                } else {
                    d0[j]
                },
        decreases src@.len() - i,
    {
        data[offset + i] = src[i];
        i += 1;
    }
    assert(data@.subrange(offset as int, offset + src@.len()) =~= src@);
}

} // verus!
