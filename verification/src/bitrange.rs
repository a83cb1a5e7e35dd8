use vstd::prelude::*;

use vstd::arithmetic::power2::{lemma_pow2_pos, pow2};
use vstd::bits::{
    lemma_u16_low_bits_mask_is_mod, lemma_u16_pow2_no_overflow, lemma_u16_shl_is_mul,
    lemma_u16_shr_is_div, lemma_u32_low_bits_mask_is_mod, lemma_u32_pow2_no_overflow,
    lemma_u32_shl_is_mul, lemma_u32_shr_is_div, lemma_u8_low_bits_mask_is_mod,
    lemma_u8_pow2_no_overflow, lemma_u8_shl_is_mul, lemma_u8_shr_is_div,
};
use std::ops::Range;

verus! {

/// Extraction of a contiguous run of bits from an unsigned integer.
///
/// `v.range_u8(a..b)` yields bits `a` (least significant) through `b`
/// (inclusive) of `v`, right-aligned; `range_u16` does the same with a
/// 16-bit result. Mathematically the extracted run is
/// `v / 2^a % 2^(b - a + 1)`, truncated to the result width.
pub trait BitRange {
    /// Bit width of the implementing integer type.
    spec fn bit_width() -> nat;

    /// The integer's mathematical value.
    spec fn as_nat(&self) -> nat;

    fn range_u8(&self, range: Range<usize>) -> (r: u8)
        requires
            range.start <= range.end,
            range.end < Self::bit_width(),
            range.end - range.start + 1 < Self::bit_width(),
        ensures
            r == self.as_nat() / pow2(range.start as nat) % pow2(
                (range.end - range.start + 1) as nat,
            ) % 0x100,
    ;

    fn range_u16(&self, range: Range<usize>) -> (r: u16)
        requires
            range.start <= range.end,
            range.end < Self::bit_width(),
            range.end - range.start + 1 < Self::bit_width(),
        ensures
            r == self.as_nat() / pow2(range.start as nat) % pow2(
                (range.end - range.start + 1) as nat,
            ) % 0x10000,
    ;
}

impl BitRange for u32 {
    open spec fn bit_width() -> nat {
        32
    }

    open spec fn as_nat(&self) -> nat {
        *self as nat
    }

    fn range_u8(&self, range: Range<usize>) -> (r: u8) {
        let num_bits: usize = (range.end - range.start) + 1;
        proof {
            lemma_pow2_pos(num_bits as nat);
            lemma_u32_pow2_no_overflow(num_bits as nat);
            lemma_u32_shl_is_mul(1u32, num_bits as u32);
        }
        let mask: u32 = (1u32 << (num_bits as u32)) - 1;
        let extracted: u32 = (*self >> (range.start as u32)) & mask;
        proof {
            lemma_u32_shr_is_div(*self, range.start as u32);
            lemma_u32_low_bits_mask_is_mod(*self >> (range.start as u32), num_bits as nat);
            assert(extracted as u8 == extracted % 0x100) by (bit_vector);
        }
        extracted as u8
    }

    fn range_u16(&self, range: Range<usize>) -> (r: u16) {
        let num_bits: usize = (range.end - range.start) + 1;
        proof {
            lemma_pow2_pos(num_bits as nat);
            lemma_u32_pow2_no_overflow(num_bits as nat);
            lemma_u32_shl_is_mul(1u32, num_bits as u32);
        }
        let mask: u32 = (1u32 << (num_bits as u32)) - 1;
        let extracted: u32 = (*self >> (range.start as u32)) & mask;
        proof {
            lemma_u32_shr_is_div(*self, range.start as u32);
            lemma_u32_low_bits_mask_is_mod(*self >> (range.start as u32), num_bits as nat);
            assert(extracted as u16 == extracted % 0x10000) by (bit_vector);
        }
        extracted as u16
    }
}

impl BitRange for u16 {
    open spec fn bit_width() -> nat {
        16
    }

    open spec fn as_nat(&self) -> nat {
        *self as nat
    }

    fn range_u8(&self, range: Range<usize>) -> (r: u8) {
        let num_bits: usize = (range.end - range.start) + 1;
        proof {
            lemma_pow2_pos(num_bits as nat);
            lemma_u16_pow2_no_overflow(num_bits as nat);
            lemma_u16_shl_is_mul(1u16, num_bits as u16);
        }
        let mask: u16 = (1u16 << (num_bits as u16)) - 1;
        let extracted: u16 = (*self >> (range.start as u16)) & mask;
        proof {
            lemma_u16_shr_is_div(*self, range.start as u16);
            lemma_u16_low_bits_mask_is_mod(*self >> (range.start as u16), num_bits as nat);
            assert(extracted as u8 == extracted % 0x100) by (bit_vector);
        }
        extracted as u8
    }

    fn range_u16(&self, range: Range<usize>) -> (r: u16) {
        let num_bits: usize = (range.end - range.start) + 1;
        proof {
            lemma_pow2_pos(num_bits as nat);
            lemma_u16_pow2_no_overflow(num_bits as nat);
            lemma_u16_shl_is_mul(1u16, num_bits as u16);
        }
        let mask: u16 = (1u16 << (num_bits as u16)) - 1;
        let extracted: u16 = (*self >> (range.start as u16)) & mask;
        proof {
            lemma_u16_shr_is_div(*self, range.start as u16);
            lemma_u16_low_bits_mask_is_mod(*self >> (range.start as u16), num_bits as nat);
        }
        extracted
    }
}

impl BitRange for u8 {
    open spec fn bit_width() -> nat {
        8
    }

    open spec fn as_nat(&self) -> nat {
        *self as nat
    }

    fn range_u8(&self, range: Range<usize>) -> (r: u8) {
        let num_bits: usize = (range.end - range.start) + 1;
        proof {
            lemma_pow2_pos(num_bits as nat);
            lemma_u8_pow2_no_overflow(num_bits as nat);
            lemma_u8_shl_is_mul(1u8, num_bits as u8);
        }
        let mask: u8 = (1u8 << (num_bits as u8)) - 1;
        let extracted: u8 = (*self >> (range.start as u8)) & mask;
        proof {
            lemma_u8_shr_is_div(*self, range.start as u8);
            lemma_u8_low_bits_mask_is_mod(*self >> (range.start as u8), num_bits as nat);
        }
        extracted
    }

    fn range_u16(&self, range: Range<usize>) -> (r: u16) {
        let num_bits: usize = (range.end - range.start) + 1;
        proof {
            lemma_pow2_pos(num_bits as nat);
            lemma_u8_pow2_no_overflow(num_bits as nat);
            lemma_u8_shl_is_mul(1u8, num_bits as u8);
        }
        let mask: u8 = (1u8 << (num_bits as u8)) - 1;
        let extracted: u8 = (*self >> (range.start as u8)) & mask;
        proof {
            lemma_u8_shr_is_div(*self, range.start as u8);
            lemma_u8_low_bits_mask_is_mod(*self >> (range.start as u8), num_bits as nat);
        }
        extracted as u16
    }
}

} // verus!
