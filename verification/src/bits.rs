use vstd::prelude::*;

verus! {

/// Numeric classification of IEEE 754 double-precision values, decided on
/// their raw 64-bit patterns.
///
/// The pipeline carries every plane coordinate and every configuration
/// value as the raw bit pattern of the double that produced it: vertex
/// identity is defined as exact bit-pattern equality, and configuration
/// validation only needs the sign, the exponent field and the zero test,
/// all of which are fixed by the IEEE 754 binary64 layout (1 sign bit,
/// 11 exponent bits, 52 significand bits).

/// The value is finite: its exponent field is not all ones (all ones
/// encodes an infinity or a NaN).
pub open spec fn f64_bits_finite(b: u64) -> bool {
    (b >> 52) & 0x7ff != 0x7ff
}

/// The value is a real number strictly greater than zero: finite, sign
/// bit clear, and not a zero.
pub open spec fn f64_bits_positive(b: u64) -> bool {
    f64_bits_finite(b) && (b >> 63) == 0 && b != 0
}

/// The value is a real number greater than or equal to zero: finite and
/// either its sign bit is clear or it is the negative zero, which
/// compares equal to zero.
pub open spec fn f64_bits_nonnegative(b: u64) -> bool {
    f64_bits_finite(b) && ((b >> 63) == 0 || b == 0x8000_0000_0000_0000)
}

/// Decides `f64_bits_finite` on a raw bit pattern.
pub fn is_finite_bits(b: u64) -> (r: bool)
    ensures
        r == f64_bits_finite(b),
{
    (b >> 52) & 0x7ff != 0x7ff
}

/// Decides `f64_bits_positive` on a raw bit pattern.
pub fn is_positive_bits(b: u64) -> (r: bool)
    ensures
        r == f64_bits_positive(b),
{
    is_finite_bits(b) && (b >> 63) == 0 && b != 0
}

/// Decides `f64_bits_nonnegative` on a raw bit pattern.
pub fn is_nonnegative_bits(b: u64) -> (r: bool)
    ensures
        r == f64_bits_nonnegative(b),
{
    is_finite_bits(b) && ((b >> 63) == 0 || b == 0x8000_0000_0000_0000)
}

} // verus!
