//! Bit and byte helpers: single bits of a byte, the two's-complement sign, and
//! little-endian packing of 16-bit words.

use vstd::prelude::*;

verus! {

/// The mask that selects bit `n` of a byte.
pub open spec fn bit_mask(n: u8) -> u8 {
    1u8 << n
}

/// Bit `n` of `b`, left in place: either zero or the mask of bit `n`.
pub open spec fn bit(b: u8, n: u8) -> u8 {
    b & bit_mask(n)
}

/// Reading single bits of a value.
pub trait BitRead: Sized {
    /// The value of `read_bit`.
    spec fn spec_read_bit(&self, n: u8) -> u8;

    /// Bit `n`, left in place.
    fn read_bit(&self, n: u8) -> (r: u8)
        requires
            n < 8,
        ensures
            r == self.spec_read_bit(n),
            r == 0 || r == bit_mask(n),
    ;

    /// Whether bit `n` is one.
    fn is_bit_set(&self, n: u8) -> (r: bool)
        requires
            n < 8,
        ensures
            r == (self.spec_read_bit(n) != 0),
    ;

    /// Whether bit `n` is zero.
    fn is_bit_clear(&self, n: u8) -> (r: bool)
        requires
            n < 8,
        ensures
            r == (self.spec_read_bit(n) == 0),
    ;
}

impl BitRead for u8 {
    open spec fn spec_read_bit(&self, n: u8) -> u8 {
        bit(*self, n)
    }

    fn read_bit(&self, n: u8) -> (r: u8) {
        let b: u8 = *self;
        proof {
            lemma_bit_values(b, n);
        }
        b & (1u8 << n)
    }

    fn is_bit_set(&self, n: u8) -> (r: bool) {
        self.read_bit(n) != 0
    }

    fn is_bit_clear(&self, n: u8) -> (r: bool) {
        self.read_bit(n) == 0
    }
}

/// A single bit of a byte is either zero or the mask of that bit, and the mask
/// is never zero.
pub proof fn lemma_bit_values(b: u8, n: u8)
    requires
        n < 8,
    ensures
        bit(b, n) == 0 || bit(b, n) == bit_mask(n),
        bit_mask(n) != 0,
        b.spec_read_bit(n) != 0 <==> bit(b, n) == bit_mask(n),
{
    assert(b & (1u8 << n) == 0 || b & (1u8 << n) == (1u8 << n)) by (bit_vector)
        requires
            n < 8,
    ;
    assert((1u8 << n) != 0) by (bit_vector)
        requires
            n < 8,
    ;
}

/// The 16-bit word whose low byte is `lo` and whose high byte is `hi`.
pub open spec fn word(lo: u8, hi: u8) -> u16 {
    (lo + 256 * hi) as u16
}

/// The low byte of a word.
pub open spec fn low_byte(w: u16) -> u8 {
    (w % 256) as u8
}

/// The high byte of a word.
pub open spec fn high_byte(w: u16) -> u8 {
    (w / 256) as u8
}

/// The value of a byte read as a two's-complement number.
pub open spec fn signed(b: u8) -> int {
    if b < 128 {
        b as int
    } else {
        b - 256
    }
}

/// Packs two bytes, low byte first, into a word.
pub fn u16_le(lo: u8, hi: u8) -> (w: u16)
    ensures
        w == word(lo, hi),
        low_byte(w) == lo,
        high_byte(w) == hi,
{
    let h: u16 = hi as u16;
    let l: u16 = lo as u16;
    h * 256 + l
}

/// Splits a word into its low and its high byte.
pub fn u16_bytes(w: u16) -> (bytes: (u8, u8))
    ensures
        bytes.0 == low_byte(w),
        bytes.1 == high_byte(w),
        word(bytes.0, bytes.1) == w,
{
    ((w % 256) as u8, (w / 256) as u8)
}

/// Whether a byte is negative as a two's-complement number: whether its bit 7
/// is set.
pub fn is_negative(value: u8) -> (r: bool)
    ensures
        r == (value >= 0x80),
        r == (bit(value, 7) != 0),
        r == (signed(value) < 0),
{
    proof {
        lemma_sign_bit(value);
    }
    value.is_bit_set(7)
}

/// Bit 7 of a byte is set exactly when the byte is at least 128.
pub proof fn lemma_sign_bit(b: u8)
    ensures
        (bit(b, 7) != 0) == (b >= 0x80),
        bit(b, 7) == (b & 0x80),
{
    assert((b & (1u8 << 7u8) != 0) == (b >= 0x80)) by (bit_vector);
    assert((1u8 << 7u8) == 0x80u8) by (bit_vector);
}

} // verus!
