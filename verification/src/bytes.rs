use vstd::prelude::*;

verus! {

/// The value of two bytes read most significant first.
pub open spec fn be_value(hi: u8, lo: u8) -> int {
    hi * 256 + lo
}

/// The unsigned 16-bit pattern that stores a signed value in two's complement.
pub open spec fn twos_complement(v: i16) -> int {
    if v < 0 {
        v + 0x10000
    } else {
        v as int
    }
}

/// The signed value that a 16-bit two's complement pattern stores.
pub open spec fn from_twos_complement(u: int) -> int {
    if u >= 0x8000 {
        u - 0x10000
    } else {
        u
    }
}

/// The two bytes of a word, most significant first.
pub fn u16_to_be_bytes(w: u16) -> (r: [u8; 2])
    ensures
        r@ == seq![(w / 256) as u8, (w % 256) as u8],
        be_value(r[0], r[1]) == w,
{
    let hi = (w / 256) as u8;
    let lo = (w % 256) as u8;
    [hi, lo]
}

/// The word that two bytes, most significant first, hold.
pub fn u16_from_be_bytes(b: [u8; 2]) -> (r: u16)
    ensures
        r == be_value(b[0], b[1]),
{
    b[0] as u16 * 256 + b[1] as u16
}

/// The two bytes of a signed value in two's complement, most significant first.
pub fn i16_to_be_bytes(v: i16) -> (r: [u8; 2])
    ensures
        be_value(r[0], r[1]) == twos_complement(v),
        0 <= be_value(r[0], r[1]) < 0x10000,
        (be_value(r[0], r[1]) - v) % 0x10000 == 0,
{
    let u: u16 = if v < 0 {
        (v as i32 + 0x10000) as u16
    } else {
        v as u16
    };
    u16_to_be_bytes(u)
}

/// The signed value that two bytes, most significant first, hold in two's complement.
pub fn i16_from_be_bytes(b: [u8; 2]) -> (r: i16)
    ensures
        r == from_twos_complement(be_value(b[0], b[1])),
        (r - be_value(b[0], b[1])) % 0x10000 == 0,
{
    let u = u16_from_be_bytes(b);
    if u >= 0x8000 {
        (u as i32 - 0x10000) as i16
    } else {
        u as i16
    }
}

/// Splitting a word into bytes and joining them again gives back the word,
/// joining two bytes and splitting the word gives back the bytes, and a signed
/// value stored in two's complement reads back as itself.
pub proof fn lemma_be_round_trip(w: u16, hi: u8, lo: u8, v: i16)
    ensures
        be_value((w / 256) as u8, (w % 256) as u8) == w,
        0 <= be_value(hi, lo) < 0x10000,
        be_value(hi, lo) / 256 == hi,
        be_value(hi, lo) % 256 == lo,
        0 <= twos_complement(v) < 0x10000,
        from_twos_complement(twos_complement(v)) == v,
{
}

/// Two's complement in terms of its inputs alone: the pattern that stores a
/// signed value is the one unsigned 16-bit number congruent to it modulo
/// 0x10000, and the value that two bytes store is the one signed 16-bit number
/// congruent to their big-endian value modulo 0x10000.
pub proof fn lemma_twos_complement(v: i16, hi: u8, lo: u8)
    ensures
        0 <= twos_complement(v) < 0x10000,
        (twos_complement(v) - v) % 0x10000 == 0,
        -0x8000 <= from_twos_complement(be_value(hi, lo)) < 0x8000,
        (from_twos_complement(be_value(hi, lo)) - be_value(hi, lo)) % 0x10000 == 0,
        be_value(hi, lo) < 0x8000 ==> from_twos_complement(be_value(hi, lo)) == be_value(hi, lo),
        be_value(hi, lo) >= 0x8000 ==> from_twos_complement(be_value(hi, lo)) == be_value(hi, lo)
            - 0x10000,
{
}

} // verus!
