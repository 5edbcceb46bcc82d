//! Classification of IEEE 754 double-precision bit patterns.
//!
//! A `u64` stands for the bit pattern of a double: one sign bit, eleven
//! exponent bits, fifty-two fraction bits. The spec functions below define,
//! directly on the bits, the predicates the series evaluator needs: whether
//! a pattern encodes a NaN or an infinity, and whether the magnitude it
//! encodes lies strictly below a given non-negative threshold. For patterns
//! other than NaNs, the usual ordering of non-negative doubles by value
//! agrees with the ordering of their bit patterns as unsigned integers, so
//! the magnitude comparison is an integer comparison of the patterns with
//! the sign bit cleared.

use vstd::prelude::*;

verus! {

/// The sign bit of a double-precision bit pattern.
pub const SIGN_MASK: u64 = 0x8000_0000_0000_0000;

/// The eleven exponent bits of a double-precision bit pattern.
pub const EXPONENT_MASK: u64 = 0x7FF0_0000_0000_0000;

/// The fifty-two fraction bits of a double-precision bit pattern.
pub const FRACTION_MASK: u64 = 0x000F_FFFF_FFFF_FFFF;

/// Everything but the sign bit: the bits that encode the magnitude.
pub const MAGNITUDE_MASK: u64 = 0x7FFF_FFFF_FFFF_FFFF;

/// A pattern encodes a NaN exactly when all exponent bits are set and the
/// fraction is non-zero.
pub open spec fn spec_is_nan(bits: u64) -> bool {
    (bits & EXPONENT_MASK) == EXPONENT_MASK && (bits & FRACTION_MASK) != 0
}

/// A pattern encodes +∞ or −∞ exactly when all exponent bits are set and the
/// fraction is zero.
pub open spec fn spec_is_infinite(bits: u64) -> bool {
    (bits & MAGNITUDE_MASK) == EXPONENT_MASK
}

/// The bits that encode the magnitude of the value: the pattern with the
/// sign bit cleared. For non-NaN patterns, unsigned order of these bits is
/// magnitude order of the encoded values.
pub open spec fn spec_magnitude(bits: u64) -> u64 {
    bits & MAGNITUDE_MASK
}

/// A usable truncation threshold: not a NaN, and non-negative, so that its
/// own bit pattern is its magnitude.
pub open spec fn spec_valid_eps(eps: u64) -> bool {
    !spec_is_nan(eps) && (eps & SIGN_MASK) == 0
}

/// The magnitude encoded by `term` lies strictly below the value encoded by
/// `eps`. A NaN term compares below nothing, a NaN or negative `eps` admits
/// nothing, mirroring how a comparison of the encoded doubles behaves.
pub open spec fn spec_below_threshold(term: u64, eps: u64) -> bool {
    !spec_is_nan(term) && spec_valid_eps(eps) && spec_magnitude(term) < eps
}

/// Decides whether `bits` encodes a NaN.
pub fn is_nan_bits(bits: u64) -> (r: bool)
    ensures
        r == spec_is_nan(bits),
{
    (bits & EXPONENT_MASK) == EXPONENT_MASK && (bits & FRACTION_MASK) != 0
}

/// Decides whether `bits` encodes +∞ or −∞.
pub fn is_infinite_bits(bits: u64) -> (r: bool)
    ensures
        r == spec_is_infinite(bits),
{
    (bits & MAGNITUDE_MASK) == EXPONENT_MASK
}

/// Decides whether `eps` is a usable truncation threshold.
pub fn is_valid_eps(eps: u64) -> (r: bool)
    ensures
        r == spec_valid_eps(eps),
{
    !is_nan_bits(eps) && (eps & SIGN_MASK) == 0
}

/// Decides whether the magnitude encoded by `term` lies strictly below the
/// value encoded by `eps`.
pub fn below_threshold(term: u64, eps: u64) -> (r: bool)
    ensures
        r == spec_below_threshold(term, eps),
{
    !is_nan_bits(term) && is_valid_eps(eps) && (term & MAGNITUDE_MASK) < eps
}

} // verus!
