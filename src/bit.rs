//! Single-bit and bit-field access on unsigned integers.
//!
//! All indices count from `0`, the least significant bit.

use vstd::prelude::*;

verus! {

/// Bit access on a fixed-width unsigned integer.
pub trait BitIndex: Copy + Sized {
    /// The number of bits in the type.
    spec fn nbits() -> nat;

    /// Whether bit `i` is set.
    spec fn spec_bit(self, i: u32) -> bool;

    /// `self` with bit `i` set to `state`, every other bit kept.
    spec fn spec_set_bit(self, i: u32, state: bool) -> Self;

    /// The bits `start..end`, moved down to bit `0`; the rest are zero.
    spec fn spec_bits(self, start: u32, end: u32) -> Self;

    /// Whether `self` holds no set bit at or above index `n`.
    spec fn fits_in(self, n: u32) -> bool;

    /// `self` with the bits `start..end` replaced by the low bits of `value`.
    spec fn spec_set_bits(self, start: u32, end: u32, value: Self) -> Self;

    /// Checks if a bit is set.
    fn bit(self, i: u32) -> (r: bool)
        requires
            (i as nat) < Self::nbits(),
        ensures
            r == self.spec_bit(i),
    ;

    /// Sets a bit to `state`.
    fn set_bit(self, i: u32, state: bool) -> (r: Self)
        requires
            (i as nat) < Self::nbits(),
        ensures
            r == self.spec_set_bit(i, state),
            r.spec_bit(i) == state,
    ;

    /// Returns the bits in the range `start..end`.
    fn bits(self, start: u32, end: u32) -> (r: Self)
        requires
            start < end,
            (end as nat) <= Self::nbits(),
        ensures
            r == self.spec_bits(start, end),
            r.fits_in((end - start) as u32),
    ;

    /// Sets the value of the bits in the range `start..end`.
    fn set_bits(self, start: u32, end: u32, value: Self) -> (r: Self)
        requires
            start < end,
            (end as nat) <= Self::nbits(),
            value.fits_in((end - start) as u32),
        ensures
            r == self.spec_set_bits(start, end, value),
            r.spec_bits(start, end) == value,
    ;

    /// Writing back the field that was read from a value leaves the value
    /// unchanged.
    proof fn lemma_set_bits_of_bits(self, start: u32, end: u32)
        requires
            start < end,
            (end as nat) <= Self::nbits(),
        ensures
            self.spec_set_bits(start, end, self.spec_bits(start, end)) == self,
    ;
}

/// A `u32` whose low `n` bits are set (all of them for `n >= 32`).
pub open spec fn low_mask_u32(n: u32) -> u32 {
    if n >= 32 { 0xffff_ffffu32 } else { ((1u32 << n) - 1) as u32 }
}

impl BitIndex for u32 {
    open spec fn nbits() -> nat {
        32
    }

    open spec fn spec_bit(self, i: u32) -> bool {
        (self >> i) & 1u32 == 1u32
    }

    open spec fn spec_set_bit(self, i: u32, state: bool) -> u32 {
        if state { self | (1u32 << i) } else { self & !(1u32 << i) }
    }

    open spec fn spec_bits(self, start: u32, end: u32) -> u32 {
        (self >> start) & low_mask_u32((end - start) as u32)
    }

    open spec fn fits_in(self, n: u32) -> bool {
        self & !low_mask_u32(n) == 0u32
    }

    open spec fn spec_set_bits(self, start: u32, end: u32, value: u32) -> u32 {
        (self & !(low_mask_u32((end - start) as u32) << start)) | (value << start)
    }

    fn bit(self, i: u32) -> (r: bool) {
        assert((self & (1u32 << i) != 0u32) == ((self >> i) & 1u32 == 1u32)) by (bit_vector)
            requires
                i < 32,
        ;
        self & (1u32 << i) != 0
    }

    fn set_bit(self, i: u32, state: bool) -> (r: u32) {
        let mask: u32 = 1u32 << i;
        assert(((self | mask) >> i) & 1u32 == 1u32 && ((self & !mask) >> i) & 1u32 == 0u32)
            by (bit_vector)
            requires
                i < 32,
                mask == 1u32 << i,
        ;
        if state {
            self | mask
        } else {
            self & !mask
        }
    }

    fn bits(self, start: u32, end: u32) -> (r: u32) {
        let lsh: u32 = 32 - end;
        let rsh: u32 = lsh + start;
        let r: u32 = (self << lsh) >> rsh;
        assert(r == (self >> start) & low_mask_u32((end - start) as u32)
            && r & !low_mask_u32((end - start) as u32) == 0u32) by (bit_vector)
            requires
                start < end,
                end <= 32,
                lsh == 32 - end,
                rsh == lsh + start,
                r == (self << lsh) >> rsh,
        ;
        r
    }

    fn set_bits(self, start: u32, end: u32, value: u32) -> (r: u32) {
        let mask: u32 = u32::MAX.bits(start, end) << start;
        let r: u32 = (self & !mask) | (value << start);
        assert(mask == low_mask_u32((end - start) as u32) << start
            && (r >> start) & low_mask_u32((end - start) as u32) == value) by (bit_vector)
            requires
                start < end,
                end <= 32,
                mask == ((0xffff_ffffu32 >> start) & low_mask_u32((end - start) as u32)) << start,
                value & !low_mask_u32((end - start) as u32) == 0u32,
                r == (self & !mask) | (value << start),
        ;
        r
    }

    proof fn lemma_set_bits_of_bits(self, start: u32, end: u32) {
        assert((self & !(low_mask_u32((end - start) as u32) << start)) | (((self >> start)
            & low_mask_u32((end - start) as u32)) << start) == self) by (bit_vector)
            requires
                start < end,
                end <= 32,
        ;
    }
}

/// A `u8` whose low `n` bits are set (all of them for `n >= 8`).
pub open spec fn low_mask_u8(n: u32) -> u8 {
    if n >= 8 { 0xffu8 } else { ((1u8 << n) - 1) as u8 }
}

impl BitIndex for u8 {
    open spec fn nbits() -> nat {
        8
    }

    open spec fn spec_bit(self, i: u32) -> bool {
        (self >> i) & 1u8 == 1u8
    }

    open spec fn spec_set_bit(self, i: u32, state: bool) -> u8 {
        if state { self | (1u8 << i) } else { self & !(1u8 << i) }
    }

    open spec fn spec_bits(self, start: u32, end: u32) -> u8 {
        (self >> start) & low_mask_u8((end - start) as u32)
    }

    open spec fn fits_in(self, n: u32) -> bool {
        self & !low_mask_u8(n) == 0u8
    }

    open spec fn spec_set_bits(self, start: u32, end: u32, value: u8) -> u8 {
        (self & !(low_mask_u8((end - start) as u32) << start)) | (value << start)
    }

    fn bit(self, i: u32) -> (r: bool) {
        assert((self & (1u8 << i) != 0u8) == ((self >> i) & 1u8 == 1u8)) by (bit_vector)
            requires
                i < 8,
        ;
        self & (1u8 << i) != 0
    }

    fn set_bit(self, i: u32, state: bool) -> (r: u8) {
        let mask: u8 = 1u8 << i;
        assert(((self | mask) >> i) & 1u8 == 1u8 && ((self & !mask) >> i) & 1u8 == 0u8)
            by (bit_vector)
            requires
                i < 8,
                mask == 1u8 << i,
        ;
        if state {
            self | mask
        } else {
            self & !mask
        }
    }

    fn bits(self, start: u32, end: u32) -> (r: u8) {
        let lsh: u32 = 8 - end;
        let rsh: u32 = lsh + start;
        let r: u8 = (self << lsh) >> rsh;
        assert(r == (self >> start) & low_mask_u8((end - start) as u32)
            && r & !low_mask_u8((end - start) as u32) == 0u8) by (bit_vector)
            requires
                start < end,
                end <= 8,
                lsh == 8 - end,
                rsh == lsh + start,
                r == (self << lsh) >> rsh,
        ;
        r
    }

    fn set_bits(self, start: u32, end: u32, value: u8) -> (r: u8) {
        let mask: u8 = u8::MAX.bits(start, end) << start;
        let r: u8 = (self & !mask) | (value << start);
        assert(mask == low_mask_u8((end - start) as u32) << start
            && (r >> start) & low_mask_u8((end - start) as u32) == value) by (bit_vector)
            requires
                start < end,
                end <= 8,
                mask == ((0xffu8 >> start) & low_mask_u8((end - start) as u32)) << start,
                value & !low_mask_u8((end - start) as u32) == 0u8,
                r == (self & !mask) | (value << start),
        ;
        r
    }

    proof fn lemma_set_bits_of_bits(self, start: u32, end: u32) {
        assert((self & !(low_mask_u8((end - start) as u32) << start)) | (((self >> start)
            & low_mask_u8((end - start) as u32)) << start) == self) by (bit_vector)
            requires
                start < end,
                end <= 8,
        ;
    }
}

/// A `u16` whose low `n` bits are set (all of them for `n >= 16`).
pub open spec fn low_mask_u16(n: u32) -> u16 {
    if n >= 16 { 0xffffu16 } else { ((1u16 << n) - 1) as u16 }
}

impl BitIndex for u16 {
    open spec fn nbits() -> nat {
        16
    }

    open spec fn spec_bit(self, i: u32) -> bool {
        (self >> i) & 1u16 == 1u16
    }

    open spec fn spec_set_bit(self, i: u32, state: bool) -> u16 {
        if state { self | (1u16 << i) } else { self & !(1u16 << i) }
    }

    open spec fn spec_bits(self, start: u32, end: u32) -> u16 {
        (self >> start) & low_mask_u16((end - start) as u32)
    }

    open spec fn fits_in(self, n: u32) -> bool {
        self & !low_mask_u16(n) == 0u16
    }

    open spec fn spec_set_bits(self, start: u32, end: u32, value: u16) -> u16 {
        (self & !(low_mask_u16((end - start) as u32) << start)) | (value << start)
    }

    fn bit(self, i: u32) -> (r: bool) {
        assert((self & (1u16 << i) != 0u16) == ((self >> i) & 1u16 == 1u16)) by (bit_vector)
            requires
                i < 16,
        ;
        self & (1u16 << i) != 0
    }

    fn set_bit(self, i: u32, state: bool) -> (r: u16) {
        let mask: u16 = 1u16 << i;
        assert(((self | mask) >> i) & 1u16 == 1u16 && ((self & !mask) >> i) & 1u16 == 0u16)
            by (bit_vector)
            requires
                i < 16,
                mask == 1u16 << i,
        ;
        if state {
            self | mask
        } else {
            self & !mask
        }
    }

    fn bits(self, start: u32, end: u32) -> (r: u16) {
        let lsh: u32 = 16 - end;
        let rsh: u32 = lsh + start;
        let r: u16 = (self << lsh) >> rsh;
        assert(r == (self >> start) & low_mask_u16((end - start) as u32)
            && r & !low_mask_u16((end - start) as u32) == 0u16) by (bit_vector)
            requires
                start < end,
                end <= 16,
                lsh == 16 - end,
                rsh == lsh + start,
                r == (self << lsh) >> rsh,
        ;
        r
    }

    fn set_bits(self, start: u32, end: u32, value: u16) -> (r: u16) {
        let mask: u16 = u16::MAX.bits(start, end) << start;
        let r: u16 = (self & !mask) | (value << start);
        assert(mask == low_mask_u16((end - start) as u32) << start
            && (r >> start) & low_mask_u16((end - start) as u32) == value) by (bit_vector)
            requires
                start < end,
                end <= 16,
                mask == ((0xffffu16 >> start) & low_mask_u16((end - start) as u32)) << start,
                value & !low_mask_u16((end - start) as u32) == 0u16,
                r == (self & !mask) | (value << start),
        ;
        r
    }

    proof fn lemma_set_bits_of_bits(self, start: u32, end: u32) {
        assert((self & !(low_mask_u16((end - start) as u32) << start)) | (((self >> start)
            & low_mask_u16((end - start) as u32)) << start) == self) by (bit_vector)
            requires
                start < end,
                end <= 16,
        ;
    }
}

/// A `u64` whose low `n` bits are set (all of them for `n >= 64`).
pub open spec fn low_mask_u64(n: u32) -> u64 {
    if n >= 64 { 0xffff_ffff_ffff_ffffu64 } else { ((1u64 << n) - 1) as u64 }
}

impl BitIndex for u64 {
    open spec fn nbits() -> nat {
        64
    }

    open spec fn spec_bit(self, i: u32) -> bool {
        (self >> i) & 1u64 == 1u64
    }

    open spec fn spec_set_bit(self, i: u32, state: bool) -> u64 {
        if state { self | (1u64 << i) } else { self & !(1u64 << i) }
    }

    open spec fn spec_bits(self, start: u32, end: u32) -> u64 {
        (self >> start) & low_mask_u64((end - start) as u32)
    }

    open spec fn fits_in(self, n: u32) -> bool {
        self & !low_mask_u64(n) == 0u64
    }

    open spec fn spec_set_bits(self, start: u32, end: u32, value: u64) -> u64 {
        (self & !(low_mask_u64((end - start) as u32) << start)) | (value << start)
    }

    fn bit(self, i: u32) -> (r: bool) {
        assert((self & (1u64 << i) != 0u64) == ((self >> i) & 1u64 == 1u64)) by (bit_vector)
            requires
                i < 64,
        ;
        self & (1u64 << i) != 0
    }

    fn set_bit(self, i: u32, state: bool) -> (r: u64) {
        let mask: u64 = 1u64 << i;
        assert(((self | mask) >> i) & 1u64 == 1u64 && ((self & !mask) >> i) & 1u64 == 0u64)
            by (bit_vector)
            requires
                i < 64,
                mask == 1u64 << i,
        ;
        if state {
            self | mask
        } else {
            self & !mask
        }
    }

    #[verifier::rlimit(100)]
    fn bits(self, start: u32, end: u32) -> (r: u64) {
        let lsh: u64 = 64 - end as u64;
        let rsh: u64 = lsh + start as u64;
        let r: u64 = (self << lsh) >> rsh;
        let s: u64 = start as u64;
        let width: u64 = (end - start) as u64;
        assert(r == (self >> s) & low_mask_u64(width as u32)) by (bit_vector)
            requires
                s < 64,
                1 <= width <= 64 - s,
                lsh == 64 - (s + width),
                rsh == lsh + s,
                r == (self << lsh) >> rsh,
        ;
        assert(((self >> s) & low_mask_u64(width as u32)) & !low_mask_u64(width as u32) == 0u64)
            by (bit_vector);
        r
    }

    fn set_bits(self, start: u32, end: u32, value: u64) -> (r: u64) {
        let mask: u64 = u64::MAX.bits(start, end) << start;
        let r: u64 = (self & !mask) | (value << start);
        assert(mask == low_mask_u64((end - start) as u32) << start
            && (r >> start) & low_mask_u64((end - start) as u32) == value) by (bit_vector)
            requires
                start < end,
                end <= 64,
                mask == ((0xffff_ffff_ffff_ffffu64 >> start) & low_mask_u64((end - start) as u32)) << start,
                value & !low_mask_u64((end - start) as u32) == 0u64,
                r == (self & !mask) | (value << start),
        ;
        r
    }

    proof fn lemma_set_bits_of_bits(self, start: u32, end: u32) {
        assert((self & !(low_mask_u64((end - start) as u32) << start)) | (((self >> start)
            & low_mask_u64((end - start) as u32)) << start) == self) by (bit_vector)
            requires
                start < end,
                end <= 64,
        ;
    }
}

} // verus!
