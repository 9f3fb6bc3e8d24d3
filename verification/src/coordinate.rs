//! The signed fixed-point coordinates of user areas.
//!
//! A coordinate travels as two bytes: its integer part and its hundredths.
//! Each byte is a signed value whose top bit marks a negative number; the
//! magnitude of a negative number is the complement of the byte plus one.

use vstd::prelude::*;

verus! {

/// The byte that the sign-correction rule turns `b` into: complement plus one.
pub open spec fn spec_negate(b: u8) -> u8 {
    (((b ^ 0xFF) as int + 1) % 256) as u8
}

/// Whether the top bit of `b` is set.
pub open spec fn spec_top_bit(b: u8) -> bool {
    b & 0x80 != 0
}

/// The signed value of one coordinate byte.
pub open spec fn spec_signed(b: u8) -> int {
    if spec_top_bit(b) {
        -(((b ^ 0xFF) as int) + 1)
    } else {
        b as int
    }
}

/// The byte that carries the signed value `v`.
pub open spec fn spec_unsigned(v: i8) -> u8 {
    if v < 0 {
        (v as int + 256) as u8
    } else {
        v as u8
    }
}

/// One coordinate of a user-area point: `integer + hundredths * 0.01`.
#[derive(Debug, Clone, Copy, PartialEq, Eq, Hash, Structural)]
pub struct Coordinate {
    pub integer: i8,
    pub hundredths: i8,
}

impl Coordinate {
    /// The coordinate carried by the two bytes.
    pub open spec fn spec_decode(hi: u8, lo: u8) -> Coordinate {
        Coordinate { integer: spec_signed(hi) as i8, hundredths: spec_signed(lo) as i8 }
    }

    /// The coordinate in hundredths.
    pub open spec fn spec_scaled(self) -> int {
        self.integer as int * 100 + self.hundredths as int
    }

    /// The two bytes that carry the coordinate.
    pub open spec fn spec_encode(self) -> Seq<u8> {
        seq![spec_unsigned(self.integer), spec_unsigned(self.hundredths)]
    }

    /// Decodes the two bytes of a coordinate.
    pub fn decode(hi: u8, lo: u8) -> (c: Coordinate)
        ensures
            c == Self::spec_decode(hi, lo),
            c.integer == spec_signed(hi),
            c.hundredths == spec_signed(lo),
    {
        Coordinate { integer: signed_byte(hi), hundredths: signed_byte(lo) }
    }

    /// Encodes the coordinate into its two bytes.
    pub fn encode(&self) -> (bytes: [u8; 2])
        ensures
            bytes@ == self.spec_encode(),
    {
        let bytes = [unsigned_byte(self.integer), unsigned_byte(self.hundredths)];
        assert(bytes@ =~= self.spec_encode());
        bytes
    }

    /// The coordinate in hundredths: what `integer + hundredths * 0.01` is, times 100.
    pub fn scaled(&self) -> (v: i32)
        ensures
            v == self.spec_scaled(),
    {
        self.integer as i32 * 100 + self.hundredths as i32
    }
}

/// The signed value of one coordinate byte.
pub fn signed_byte(b: u8) -> (v: i8)
    ensures
        v == spec_signed(b),
{
    proof {
        lemma_signed(b);
    }
    if b & 0x80 != 0 {
        let magnitude: i16 = (b ^ 0xFF) as i16 + 1;
        (-magnitude) as i8
    } else {
        b as i8
    }
}

/// The byte that carries a signed value.
pub fn unsigned_byte(v: i8) -> (b: u8)
    ensures
        b == spec_unsigned(v),
{
    if v < 0 {
        (v as i16 + 256) as u8
    } else {
        v as u8
    }
}

/// The sign-correction rule gives the two's-complement value of the byte,
/// which always fits in eight signed bits.
pub proof fn lemma_signed(b: u8)
    ensures
        spec_top_bit(b) <==> b >= 128,
        spec_top_bit(b) ==> (b ^ 0xFF) as int == 255 - b,
        spec_signed(b) == (if b >= 128 { b as int - 256 } else { b as int }),
        -128 <= spec_signed(b) <= 127,
{
    assert((b & 0x80 != 0) <==> b >= 128) by (bit_vector);
    assert((b ^ 0xFF) == 255 - b) by (bit_vector);
}

/// Correcting the sign twice gives the byte back, and so does encoding the
/// decoded value: decoding loses nothing, whatever the two bytes are.
pub proof fn lemma_coordinate_decode(hi: u8, lo: u8)
    ensures
        spec_negate(spec_negate(hi)) == hi,
        spec_negate(spec_negate(lo)) == lo,
        Coordinate::spec_decode(hi, lo).spec_encode() == seq![hi, lo],
        -128 <= Coordinate::spec_decode(hi, lo).integer <= 127,
        -128 <= Coordinate::spec_decode(hi, lo).hundredths <= 127,
        -12928 <= Coordinate::spec_decode(hi, lo).spec_scaled() <= 12827,
{
    lemma_signed(hi);
    lemma_signed(lo);
    assert(((((((hi ^ 0xFF) as int + 1) % 256) as u8) ^ 0xFF) as int + 1) % 256 == hi) by {
        lemma_negate_twice(hi);
    }
    assert(((((((lo ^ 0xFF) as int + 1) % 256) as u8) ^ 0xFF) as int + 1) % 256 == lo) by {
        lemma_negate_twice(lo);
    }
    assert(Coordinate::spec_decode(hi, lo).spec_encode() =~= seq![hi, lo]);
}

proof fn lemma_negate_twice(b: u8)
    ensures
        spec_negate(spec_negate(b)) == b,
{
    let n = spec_negate(b);
    assert((b ^ 0xFF) == 255 - b) by (bit_vector);
    assert((n ^ 0xFF) == 255 - n) by (bit_vector);
}

} // verus!
