//! Single-bit get/set/clear on 8- and 16-bit values, signed and unsigned.
//!
//! The status register and the carry detection in the processor core are
//! built on these operations. Signed operands are handled through their
//! two's-complement bit pattern, so sign never influences bit extraction.

use vstd::prelude::*;

verus! {

// ---------------------------------------------------------------------------
// Bit patterns of signed values
// ---------------------------------------------------------------------------

/// Two's-complement bit pattern of an `i8`, as an unsigned byte.
pub open spec fn u8_of_i8(v: i8) -> u8 {
    if v < 0 {
        (v + 0x100) as u8
    } else {
        v as u8
    }
}

/// The `i8` whose two's-complement bit pattern is the given byte.
pub open spec fn i8_of_u8(b: u8) -> i8 {
    if b >= 0x80 {
        (b - 0x100) as i8
    } else {
        b as i8
    }
}

/// Two's-complement bit pattern of an `i16`, as an unsigned word.
pub open spec fn u16_of_i16(v: i16) -> u16 {
    if v < 0 {
        (v + 0x10000) as u16
    } else {
        v as u16
    }
}

/// The `i16` whose two's-complement bit pattern is the given word.
pub open spec fn i16_of_u16(w: u16) -> i16 {
    if w >= 0x8000 {
        (w - 0x10000) as i16
    } else {
        w as i16
    }
}

/// The two signed/unsigned byte conversions invert each other.
pub proof fn lemma_i8_u8_round_trip(v: i8, b: u8)
    ensures
        i8_of_u8(u8_of_i8(v)) == v,
        u8_of_i8(i8_of_u8(b)) == b,
{
}

/// The two signed/unsigned word conversions invert each other.
pub proof fn lemma_i16_u16_round_trip(v: i16, w: u16)
    ensures
        i16_of_u16(u16_of_i16(v)) == v,
        u16_of_i16(i16_of_u16(w)) == w,
{
}

/// Bit pattern of an `i8`, computed executably.
pub(crate) fn i8_to_bits(v: i8) -> (b: u8)
    ensures
        b == u8_of_i8(v),
{
    if v < 0 {
        ((v as i16) + 0x100) as u8
    } else {
        v as u8
    }
}

/// Signed value of a byte's bit pattern, computed executably.
pub(crate) fn bits_to_i8(b: u8) -> (v: i8)
    ensures
        v == i8_of_u8(b),
{
    if b >= 0x80 {
        ((b as i16) - 0x100) as i8
    } else {
        b as i8
    }
}

/// Bit pattern of an `i16`, computed executably.
pub(crate) fn i16_to_bits(v: i16) -> (w: u16)
    ensures
        w == u16_of_i16(v),
{
    if v < 0 {
        ((v as i32) + 0x10000) as u16
    } else {
        v as u16
    }
}

/// Signed value of a word's bit pattern, computed executably.
pub(crate) fn bits_to_i16(w: u16) -> (v: i16)
    ensures
        v == i16_of_u16(w),
{
    if w >= 0x8000 {
        ((w as i32) - 0x10000) as i16
    } else {
        w as i16
    }
}

// ---------------------------------------------------------------------------
// Bit operations on unsigned patterns
// ---------------------------------------------------------------------------

/// True iff bit `n` (0 = least significant) of `v` is set.
pub open spec fn u8_get_bit(v: u8, n: u8) -> bool {
    (v >> n) & 1 != 0
}

/// `v` with bit `n` forced to 1.
pub open spec fn u8_set_bit(v: u8, n: u8) -> u8 {
    v | (1u8 << n)
}

/// `v` with bit `n` forced to 0.
pub open spec fn u8_clear_bit(v: u8, n: u8) -> u8 {
    v & !(1u8 << n)
}

/// True iff bit `n` (0 = least significant) of `v` is set.
pub open spec fn u16_get_bit(v: u16, n: u8) -> bool {
    (v >> n) & 1 != 0
}

/// `v` with bit `n` forced to 1.
pub open spec fn u16_set_bit(v: u16, n: u8) -> u16 {
    v | (1u16 << n)
}

/// `v` with bit `n` forced to 0.
pub open spec fn u16_clear_bit(v: u16, n: u8) -> u16 {
    v & !(1u16 << n)
}

// ---------------------------------------------------------------------------
// Laws: setting or clearing a bit fixes that bit and leaves the rest alone
// ---------------------------------------------------------------------------

/// For every byte `v` and bit position `n` below 8: after `u8_set_bit` the
/// bit reads back as 1, after `u8_clear_bit` it reads back as 0, and every
/// other bit position is unaffected by either.
pub proof fn lemma_u8_bit_ops(v: u8, n: u8, m: u8)
    by (bit_vector)
    requires
        n < 8,
        m < 8,
    ensures
        u8_get_bit(u8_set_bit(v, n), n),
        !u8_get_bit(u8_clear_bit(v, n), n),
        m != n ==> u8_get_bit(u8_set_bit(v, n), m) == u8_get_bit(v, m),
        m != n ==> u8_get_bit(u8_clear_bit(v, n), m) == u8_get_bit(v, m),
{
}

/// The same laws for 16-bit values, with bit positions below 16.
pub proof fn lemma_u16_bit_ops(v: u16, n: u8, m: u8)
    by (bit_vector)
    requires
        n < 16,
        m < 16,
    ensures
        u16_get_bit(u16_set_bit(v, n), n),
        !u16_get_bit(u16_clear_bit(v, n), n),
        m != n ==> u16_get_bit(u16_set_bit(v, n), m) == u16_get_bit(v, m),
        m != n ==> u16_get_bit(u16_clear_bit(v, n), m) == u16_get_bit(v, m),
{
}

// ---------------------------------------------------------------------------
// The Bit trait
// ---------------------------------------------------------------------------

/// Uniform single-bit access on 8- and 16-bit operands.
///
/// `set_bit` and `unset_bit` return the new value and leave the receiver
/// untouched; callers must reassign. Signed implementations operate on the
/// two's-complement bit pattern, so a negative sign never changes which
/// bits are read or written.
pub trait Bit: Sized {
    /// Which bit positions exist for this width.
    spec fn valid_bit(n: u8) -> bool;

    /// What `get_bit` returns.
    spec fn spec_get_bit(self, n: u8) -> bool;

    /// What `set_bit` returns.
    spec fn spec_set_bit(self, n: u8) -> Self;

    /// What `unset_bit` returns.
    spec fn spec_unset_bit(self, n: u8) -> Self;

    /// True iff bit `bit` (0 = least significant) is set.
    fn get_bit(&self, bit: u8) -> (r: bool)
        requires
            Self::valid_bit(bit),
        ensures
            r == self.spec_get_bit(bit),
    ;

    /// This value with bit `bit` forced to 1.
    fn set_bit(&self, bit: u8) -> (r: Self)
        requires
            Self::valid_bit(bit),
        ensures
            r == self.spec_set_bit(bit),
    ;

    /// This value with bit `bit` forced to 0.
    fn unset_bit(&self, bit: u8) -> (r: Self)
        requires
            Self::valid_bit(bit),
        ensures
            r == self.spec_unset_bit(bit),
    ;
}

impl Bit for u8 {
    open spec fn valid_bit(n: u8) -> bool {
        n < 8
    }

    open spec fn spec_get_bit(self, n: u8) -> bool {
        u8_get_bit(self, n)
    }

    open spec fn spec_set_bit(self, n: u8) -> u8 {
        u8_set_bit(self, n)
    }

    open spec fn spec_unset_bit(self, n: u8) -> u8 {
        u8_clear_bit(self, n)
    }

    fn get_bit(&self, bit: u8) -> bool {
        ((*self >> bit) & 1) != 0
    }

    fn set_bit(&self, bit: u8) -> u8 {
        *self | (1u8 << bit)
    }

    fn unset_bit(&self, bit: u8) -> u8 {
        *self & !(1u8 << bit)
    }
}

impl Bit for i8 {
    open spec fn valid_bit(n: u8) -> bool {
        n < 8
    }

    open spec fn spec_get_bit(self, n: u8) -> bool {
        u8_get_bit(u8_of_i8(self), n)
    }

    open spec fn spec_set_bit(self, n: u8) -> i8 {
        i8_of_u8(u8_set_bit(u8_of_i8(self), n))
    }

    open spec fn spec_unset_bit(self, n: u8) -> i8 {
        i8_of_u8(u8_clear_bit(u8_of_i8(self), n))
    }

    fn get_bit(&self, bit: u8) -> bool {
        let p = i8_to_bits(*self);
        ((p >> bit) & 1) != 0
    }

    fn set_bit(&self, bit: u8) -> i8 {
        let p = i8_to_bits(*self);
        bits_to_i8(p | (1u8 << bit))
    }

    fn unset_bit(&self, bit: u8) -> i8 {
        let p = i8_to_bits(*self);
        bits_to_i8(p & !(1u8 << bit))
    }
}

impl Bit for u16 {
    open spec fn valid_bit(n: u8) -> bool {
        n < 16
    }

    open spec fn spec_get_bit(self, n: u8) -> bool {
        u16_get_bit(self, n)
    }

    open spec fn spec_set_bit(self, n: u8) -> u16 {
        u16_set_bit(self, n)
    }

    open spec fn spec_unset_bit(self, n: u8) -> u16 {
        u16_clear_bit(self, n)
    }

    fn get_bit(&self, bit: u8) -> bool {
        ((*self >> bit) & 1) != 0
    }

    fn set_bit(&self, bit: u8) -> u16 {
        *self | (1u16 << bit)
    }

    fn unset_bit(&self, bit: u8) -> u16 {
        *self & !(1u16 << bit)
    }
}

impl Bit for i16 {
    open spec fn valid_bit(n: u8) -> bool {
        n < 16
    }

    open spec fn spec_get_bit(self, n: u8) -> bool {
        u16_get_bit(u16_of_i16(self), n)
    }

    open spec fn spec_set_bit(self, n: u8) -> i16 {
        i16_of_u16(u16_set_bit(u16_of_i16(self), n))
    }

    open spec fn spec_unset_bit(self, n: u8) -> i16 {
        i16_of_u16(u16_clear_bit(u16_of_i16(self), n))
    }

    fn get_bit(&self, bit: u8) -> bool {
        let p = i16_to_bits(*self);
        ((p >> bit) & 1) != 0
    }

    fn set_bit(&self, bit: u8) -> i16 {
        let p = i16_to_bits(*self);
        bits_to_i16(p | (1u16 << bit))
    }

    fn unset_bit(&self, bit: u8) -> i16 {
        let p = i16_to_bits(*self);
        bits_to_i16(p & !(1u16 << bit))
    }
}

/// The bit-access laws carry over to signed bytes through the bit pattern:
/// a set bit reads back as 1, a cleared bit as 0, and other positions keep
/// their value.
pub proof fn lemma_i8_bit_ops(v: i8, n: u8, m: u8)
    requires
        n < 8,
        m < 8,
    ensures
        v.spec_set_bit(n).spec_get_bit(n),
        !v.spec_unset_bit(n).spec_get_bit(n),
        m != n ==> v.spec_set_bit(n).spec_get_bit(m) == v.spec_get_bit(m),
        m != n ==> v.spec_unset_bit(n).spec_get_bit(m) == v.spec_get_bit(m),
{
    let p = u8_of_i8(v);
    lemma_i8_u8_round_trip(v, u8_set_bit(p, n));
    lemma_i8_u8_round_trip(v, u8_clear_bit(p, n));
    lemma_u8_bit_ops(p, n, m);
}

/// The bit-access laws carry over to signed words in the same way.
pub proof fn lemma_i16_bit_ops(v: i16, n: u8, m: u8)
    requires
        n < 16,
        m < 16,
    ensures
        v.spec_set_bit(n).spec_get_bit(n),
        !v.spec_unset_bit(n).spec_get_bit(n),
        m != n ==> v.spec_set_bit(n).spec_get_bit(m) == v.spec_get_bit(m),
        m != n ==> v.spec_unset_bit(n).spec_get_bit(m) == v.spec_get_bit(m),
{
    let p = u16_of_i16(v);
    lemma_i16_u16_round_trip(v, u16_set_bit(p, n));
    lemma_i16_u16_round_trip(v, u16_clear_bit(p, n));
    lemma_u16_bit_ops(p, n, m);
}

} // verus!
