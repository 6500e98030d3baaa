//! Native values to and from the four-byte operand field.
//!
//! The operand travels most significant byte first: `operand[0]` is the
//! highest byte and `operand[3]` the lowest.
use vstd::prelude::*;

verus! {

/// The four bytes of `v`, most significant first.
pub open spec fn spec_u32_bytes(v: u32) -> Seq<u8> {
    seq![(v >> 24u32) as u8, (v >> 16u32) as u8, (v >> 8u32) as u8, v as u8]
}

/// The value of four bytes read most significant first.
pub open spec fn spec_bytes_u32(b: Seq<u8>) -> u32
    recommends
        b.len() == 4,
{
    ((b[0] as u32) << 24u32) | ((b[1] as u32) << 16u32) | ((b[2] as u32) << 8u32) | (b[3] as u32)
}

/// Read as numbers, the four bytes are the base-256 digits of the value.
pub proof fn lemma_bytes_u32_value(b: Seq<u8>)
    requires
        b.len() == 4,
    ensures
        spec_bytes_u32(b) as int == b[0] as int * 0x1000000 + b[1] as int * 0x10000 + b[2] as int * 0x100 + b[3] as int,
{
    let (b0, b1, b2, b3) = (b[0], b[1], b[2], b[3]);
    assert(((b0 as u32) << 24u32) | ((b1 as u32) << 16u32) | ((b2 as u32) << 8u32) | (b3 as u32)
        == (b0 as u32) * 0x1000000u32 + (b1 as u32) * 0x10000u32 + (b2 as u32) * 0x100u32 + (b3 as u32)) by (bit_vector);
    assert((b0 as u32) * 0x1000000u32 + (b1 as u32) * 0x10000u32 + (b2 as u32) * 0x100u32 + (b3 as u32) < 0x1_0000_0000) by (nonlinear_arith)
        requires
            b0 < 256 && b1 < 256 && b2 < 256 && b3 < 256,
    ;
}

/// The bytes of `v`, most significant first.
pub fn encode_u32(v: u32) -> (r: [u8; 4])
    ensures
        r@ == spec_u32_bytes(v),
{
    let r = [(v >> 24u32) as u8, (v >> 16u32) as u8, (v >> 8u32) as u8, v as u8];
    assert(r@ =~= spec_u32_bytes(v));
    r
}

/// The value of four bytes, most significant first.
pub fn decode_u32(b: [u8; 4]) -> (r: u32)
    ensures
        r == spec_bytes_u32(b@),
{
    ((b[0] as u32) << 24u32) | ((b[1] as u32) << 16u32) | ((b[2] as u32) << 8u32) | (b[3] as u32)
}

/// Four bytes read back as the value they were made from.
pub proof fn lemma_u32_round_trip(v: u32)
    ensures
        spec_bytes_u32(spec_u32_bytes(v)) == v,
{
    let b = spec_u32_bytes(v);
    let (b0, b1, b2, b3) = (b[0], b[1], b[2], b[3]);
    assert(b0 == (v >> 24u32) as u8 && b1 == (v >> 16u32) as u8 && b2 == (v >> 8u32) as u8 && b3 == v as u8);
    assert(((b0 as u32) << 24u32) | ((b1 as u32) << 16u32) | ((b2 as u32) << 8u32) | (b3 as u32) == v) by (bit_vector)
        requires
            b0 == (v >> 24u32) as u8,
            b1 == (v >> 16u32) as u8,
            b2 == (v >> 8u32) as u8,
            b3 == v as u8,
    ;
}


/// `u8`: the value in the lowest byte, the others zero.
pub open spec fn spec_encode_u8(v: u8) -> Seq<u8> {
    spec_u32_bytes(v as u32)
}

/// The lowest byte; the others are not read.
pub open spec fn spec_decode_u8(b: Seq<u8>) -> u8 {
    spec_bytes_u32(b) as u8
}

/// `i8`: sign-extended to 32 bits.
pub open spec fn spec_encode_i8(v: i8) -> Seq<u8> {
    spec_u32_bytes(#[verifier::truncate] (v as i32 as u32))
}

/// The lowest byte, as two's complement.
pub open spec fn spec_decode_i8(b: Seq<u8>) -> i8 {
    #[verifier::truncate] (spec_bytes_u32(b) as u8 as i8)
}

/// `u16`: the value in the two lowest bytes, the others zero.
pub open spec fn spec_encode_u16(v: u16) -> Seq<u8> {
    spec_u32_bytes(v as u32)
}

/// The two lowest bytes; the others are not read.
pub open spec fn spec_decode_u16(b: Seq<u8>) -> u16 {
    spec_bytes_u32(b) as u16
}

/// `i16`: sign-extended to 32 bits.
pub open spec fn spec_encode_i16(v: i16) -> Seq<u8> {
    spec_u32_bytes(#[verifier::truncate] (v as i32 as u32))
}

/// The two lowest bytes, as two's complement.
pub open spec fn spec_decode_i16(b: Seq<u8>) -> i16 {
    #[verifier::truncate] (spec_bytes_u32(b) as u16 as i16)
}

/// `i32`: two's complement.
pub open spec fn spec_encode_i32(v: i32) -> Seq<u8> {
    spec_u32_bytes(#[verifier::truncate] (v as u32))
}

/// All four bytes, as two's complement.
pub open spec fn spec_decode_i32(b: Seq<u8>) -> i32 {
    #[verifier::truncate] (spec_bytes_u32(b) as i32)
}

/// `bool`: one or zero in the lowest byte.
pub open spec fn spec_encode_bool(v: bool) -> Seq<u8> {
    spec_u32_bytes(if v { 1 } else { 0 })
}

/// Any non-zero lowest byte reads as `true`.
pub open spec fn spec_decode_bool(b: Seq<u8>) -> bool {
    b[3] != 0
}

/// A single byte `v` in the lowest position, the others zero.
pub open spec fn spec_low_byte(v: u8) -> Seq<u8> {
    seq![0u8, 0u8, 0u8, v]
}

/// The operand that carries a `u8`.
pub fn encode_u8(v: u8) -> (r: [u8; 4])
    ensures
        r@ == spec_encode_u8(v),
{
    encode_u32(v as u32)
}

/// The `u8` that an operand carries.
pub fn decode_u8(b: [u8; 4]) -> (r: u8)
    ensures
        r == spec_decode_u8(b@),
{
    decode_u32(b) as u8
}

/// The operand that carries an `i8`.
pub fn encode_i8(v: i8) -> (r: [u8; 4])
    ensures
        r@ == spec_encode_i8(v),
{
    encode_u32(v as i32 as u32)
}

/// The `i8` that an operand carries.
pub fn decode_i8(b: [u8; 4]) -> (r: i8)
    ensures
        r == spec_decode_i8(b@),
{
    decode_u32(b) as u8 as i8
}

/// The operand that carries a `u16`.
pub fn encode_u16(v: u16) -> (r: [u8; 4])
    ensures
        r@ == spec_encode_u16(v),
{
    encode_u32(v as u32)
}

/// The `u16` that an operand carries.
pub fn decode_u16(b: [u8; 4]) -> (r: u16)
    ensures
        r == spec_decode_u16(b@),
{
    decode_u32(b) as u16
}

/// The operand that carries an `i16`.
pub fn encode_i16(v: i16) -> (r: [u8; 4])
    ensures
        r@ == spec_encode_i16(v),
{
    encode_u32(v as i32 as u32)
}

/// The `i16` that an operand carries.
pub fn decode_i16(b: [u8; 4]) -> (r: i16)
    ensures
        r == spec_decode_i16(b@),
{
    decode_u32(b) as u16 as i16
}

/// The operand that carries an `i32`.
pub fn encode_i32(v: i32) -> (r: [u8; 4])
    ensures
        r@ == spec_encode_i32(v),
{
    encode_u32(v as u32)
}

/// The `i32` that an operand carries.
pub fn decode_i32(b: [u8; 4]) -> (r: i32)
    ensures
        r == spec_decode_i32(b@),
{
    decode_u32(b) as i32
}

/// The operand that carries a `bool`.
pub fn encode_bool(v: bool) -> (r: [u8; 4])
    ensures
        r@ == spec_encode_bool(v),
{
    encode_u32(if v { 1 } else { 0 })
}

/// The `bool` that an operand carries.
pub fn decode_bool(b: [u8; 4]) -> (r: bool)
    ensures
        r == spec_decode_bool(b@),
{
    b[3] != 0
}

/// The operand that carries `v` in its lowest byte.
pub fn encode_low_byte(v: u8) -> (r: [u8; 4])
    ensures
        r@ == spec_low_byte(v),
{
    let r = [0u8, 0u8, 0u8, v];
    assert(r@ =~= spec_low_byte(v));
    r
}

/// Every native value reads back as itself from its own encoding.
pub proof fn lemma_native_round_trip(a: u8, b: i8, c: u16, d: i16, e: i32, f: u32, g: bool)
    ensures
        spec_decode_u8(spec_encode_u8(a)) == a,
        spec_decode_i8(spec_encode_i8(b)) == b,
        spec_decode_u16(spec_encode_u16(c)) == c,
        spec_decode_i16(spec_encode_i16(d)) == d,
        spec_decode_i32(spec_encode_i32(e)) == e,
        spec_bytes_u32(spec_u32_bytes(f)) == f,
        spec_decode_bool(spec_encode_bool(g)) == g,
{
    lemma_u32_round_trip(a as u32);
    lemma_u32_round_trip(#[verifier::truncate] (b as i32 as u32));
    assert(#[verifier::truncate] ((#[verifier::truncate] (b as i32 as u32)) as u8 as i8) == b) by (bit_vector);
    lemma_u32_round_trip(c as u32);
    lemma_u32_round_trip(#[verifier::truncate] (d as i32 as u32));
    assert(#[verifier::truncate] ((#[verifier::truncate] (d as i32 as u32)) as u16 as i16) == d) by (bit_vector);
    lemma_u32_round_trip(#[verifier::truncate] (e as u32));
    assert(#[verifier::truncate] ((#[verifier::truncate] (e as u32)) as i32) == e) by (bit_vector);
    lemma_u32_round_trip(f);
    let x: u32 = if g { 1 } else { 0 };
    assert(x as u8 == (x as u32) as u8);
    assert(spec_u32_bytes(x)[3] == x as u8);
}

} // verus!
