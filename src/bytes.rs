use vstd::prelude::*;

verus! {

/// The unsigned integer held little-endian in eight bytes.
pub open spec fn u64_of_le(b: Seq<u8>) -> u64
    recommends
        b.len() == 8,
{
    (b[0] as u64) | ((b[1] as u64) << 8u64) | ((b[2] as u64) << 16u64) | ((b[3] as u64) << 24u64)
        | ((b[4] as u64) << 32u64) | ((b[5] as u64) << 40u64) | ((b[6] as u64) << 48u64) | ((
    b[7] as u64) << 56u64)
}

/// The eight little-endian bytes of an unsigned integer.
pub open spec fn le_of_u64(x: u64) -> Seq<u8> {
    seq![
        (x & 0xff) as u8,
        ((x >> 8u64) & 0xff) as u8,
        ((x >> 16u64) & 0xff) as u8,
        ((x >> 24u64) & 0xff) as u8,
        ((x >> 32u64) & 0xff) as u8,
        ((x >> 40u64) & 0xff) as u8,
        ((x >> 48u64) & 0xff) as u8,
        ((x >> 56u64) & 0xff) as u8,
    ]
}

/// Two's complement reading of a 64-bit pattern as a signed integer.
pub open spec fn i64_of_bits(u: u64) -> i64 {
    if u < 0x8000_0000_0000_0000u64 {
        u as i64
    } else {
        (u as int - 0x1_0000_0000_0000_0000int) as i64
    }
}

/// Two's complement bit pattern of a signed integer.
pub open spec fn bits_of_i64(x: i64) -> u64 {
    if x >= 0 {
        x as u64
    } else {
        (x as int + 0x1_0000_0000_0000_0000int) as u64
    }
}

pub proof fn lemma_u64_le_round_trip(x: u64)
    ensures
        u64_of_le(le_of_u64(x)) == x,
{
    let b = le_of_u64(x);
    assert(b.len() == 8);
    let (b0, b1, b2, b3, b4, b5, b6, b7) = (b[0], b[1], b[2], b[3], b[4], b[5], b[6], b[7]);
    assert(b0 == (x & 0xff) as u8 && b1 == ((x >> 8u64) & 0xff) as u8 && b2 == ((x >> 16u64)
        & 0xff) as u8 && b3 == ((x >> 24u64) & 0xff) as u8 && b4 == ((x >> 32u64) & 0xff) as u8
        && b5 == ((x >> 40u64) & 0xff) as u8 && b6 == ((x >> 48u64) & 0xff) as u8 && b7 == ((x
        >> 56u64) & 0xff) as u8);
    assert(b0 == (x & 0xff) as u8 && b1 == ((x >> 8u64) & 0xff) as u8 && b2 == ((x >> 16u64)
        & 0xff) as u8 && b3 == ((x >> 24u64) & 0xff) as u8 && b4 == ((x >> 32u64) & 0xff) as u8
        && b5 == ((x >> 40u64) & 0xff) as u8 && b6 == ((x >> 48u64) & 0xff) as u8 && b7 == ((x
        >> 56u64) & 0xff) as u8 ==> (b0 as u64) | ((b1 as u64) << 8u64) | ((b2 as u64) << 16u64)
        | ((b3 as u64) << 24u64) | ((b4 as u64) << 32u64) | ((b5 as u64) << 40u64) | ((
    b6 as u64) << 48u64) | ((b7 as u64) << 56u64) == x) by (bit_vector);
}

pub proof fn lemma_i64_bits_round_trip(x: i64)
    ensures
        i64_of_bits(bits_of_i64(x)) == x,
{
}

/// Reads eight little-endian bytes at `at` as an unsigned integer.
pub fn read_u64_le(data: &[u8], at: usize) -> (r: u64)
    requires
        at + 8 <= data@.len(),
    ensures
        r == u64_of_le(data@.subrange(at as int, at + 8)),
{
    let ghost b = data@.subrange(at as int, at + 8);
    let r = (data[at] as u64) | ((data[at + 1] as u64) << 8u64) | ((data[at + 2] as u64) << 16u64)
        | ((data[at + 3] as u64) << 24u64) | ((data[at + 4] as u64) << 32u64) | ((data[at
        + 5] as u64) << 40u64) | ((data[at + 6] as u64) << 48u64) | ((data[at + 7] as u64)
        << 56u64);
    assert(b[0] == data@[at as int] && b[1] == data@[at + 1] && b[2] == data@[at + 2] && b[3]
        == data@[at + 3] && b[4] == data@[at + 4] && b[5] == data@[at + 5] && b[6] == data@[at
        + 6] && b[7] == data@[at + 7]);
    r
}

/// Reads eight little-endian bytes at `at` as a two's complement signed integer.
pub fn read_i64_le(data: &[u8], at: usize) -> (r: i64)
    requires
        at + 8 <= data@.len(),
    ensures
        r == i64_of_bits(u64_of_le(data@.subrange(at as int, at + 8))),
{
    let u = read_u64_le(data, at);
    if u < 0x8000_0000_0000_0000u64 {
        u as i64
    } else {
        let low = (u - 0x8000_0000_0000_0000u64) as i64;
        low + i64::MIN
    }
}

/// Appends the eight little-endian bytes of `x`.
pub fn push_u64_le(out: &mut Vec<u8>, x: u64)
    ensures
        final(out)@ == old(out)@ + le_of_u64(x),
{
    out.push((x & 0xff) as u8);
    out.push(((x >> 8u64) & 0xff) as u8);
    out.push(((x >> 16u64) & 0xff) as u8);
    out.push(((x >> 24u64) & 0xff) as u8);
    out.push(((x >> 32u64) & 0xff) as u8);
    out.push(((x >> 40u64) & 0xff) as u8);
    out.push(((x >> 48u64) & 0xff) as u8);
    out.push(((x >> 56u64) & 0xff) as u8);
    assert(final(out)@ =~= old(out)@ + le_of_u64(x));
}

/// Appends the eight little-endian bytes of the two's complement pattern of `x`.
pub fn push_i64_le(out: &mut Vec<u8>, x: i64)
    ensures
        final(out)@ == old(out)@ + le_of_u64(bits_of_i64(x)),
{
    let u: u64 = if x >= 0 {
        x as u64
    } else {
        ((x - i64::MIN) as u64) + 0x8000_0000_0000_0000u64
    };
    push_u64_le(out, u);
}

/// Whether two 32-byte addresses are the same.
pub fn same_key(a: &[u8; 32], b: &[u8; 32]) -> (r: bool)
    ensures
        r == (a@ == b@),
{
    let mut i: usize = 0;
    while i < 32
        invariant
            i <= 32,
            a@.len() == 32,
            b@.len() == 32,
            forall|j: int| 0 <= j < i ==> a@[j] == b@[j],
        decreases 32 - i,
    {
        if a[i] != b[i] {
            return false;
        }
        i = i + 1;
    }
    assert(a@ =~= b@);
    true
}

/// Whether the 32 bytes of `data` at `at` are the address `key`.
pub fn key_at(data: &[u8], at: usize, key: &[u8; 32]) -> (r: bool)
    requires
        at + 32 <= data@.len(),
    ensures
        r == (data@.subrange(at as int, at + 32) == key@),
{
    let n = data.len();
    let mut i: usize = 0;
    while i < 32
        invariant
            i <= 32,
            n == data@.len(),
            at + 32 <= n,
            key@.len() == 32,
            forall|j: int| 0 <= j < i ==> data@[at + j] == key@[j],
        decreases 32 - i,
    {
        if data[at + i] != key[i] {
            assert(data@.subrange(at as int, at + 32)[i as int] != key@[i as int]);
            return false;
        }
        i = i + 1;
    }
    assert(data@.subrange(at as int, at + 32) =~= key@);
    true
}

/// Copies the 32 bytes of `data` at `at` into an address.
pub fn key_from(data: &[u8], at: usize) -> (r: [u8; 32])
    requires
        at + 32 <= data@.len(),
    ensures
        r@ == data@.subrange(at as int, at + 32),
{
    let mut r = [0u8; 32];
    let n = data.len();
    let mut i: usize = 0;
    while i < 32
        invariant
            i <= 32,
            n == data@.len(),
            at + 32 <= n,
            r@.len() == 32,
            forall|j: int| 0 <= j < i ==> r@[j] == data@[at + j],
        decreases 32 - i,
    {
        r[i] = data[at + i];
        i = i + 1;
    }
    assert(r@ =~= data@.subrange(at as int, at + 32));
    r
}

/// Appends the 32 bytes of an address.
pub fn push_key(out: &mut Vec<u8>, key: &[u8; 32])
    ensures
        final(out)@ == old(out)@ + key@,
{
    let mut i: usize = 0;
    while i < 32
        invariant
            i <= 32,
            key@.len() == 32,
            out@ == old(out)@ + key@.subrange(0, i as int),
        decreases 32 - i,
    {
        out.push(key[i]);
        i = i + 1;
        assert(out@ =~= old(out)@ + key@.subrange(0, i as int));
    }
    assert(key@.subrange(0, 32) =~= key@);
}

} // verus!
