use vstd::prelude::*;

verus! {

// The value table stores IEEE 754 double-precision numbers.  The engine
// never does arithmetic on them; all it ever needs is the strict `>`
// comparison used by the greedy selector.  That comparison is a pure
// function of the two 64-bit patterns, so the table is held as raw `u64`
// patterns and the order is defined here on those patterns directly:
// a pattern splits into a sign (the top bit) and a 63-bit magnitude, a
// pattern is a NaN exactly when its magnitude exceeds that of infinity,
// and on everything else `>` compares the signed magnitudes, which makes
// the two zero patterns equal.

/// The sign bit of a 64-bit float pattern.
pub const F64_SIGN_BIT: u64 = 0x8000_0000_0000_0000;

/// The magnitude of the two infinity patterns: exponent bits all set,
/// fraction bits all clear.
pub const F64_INF_MAGNITUDE: u64 = 0x7FF0_0000_0000_0000;

/// The pattern of negative infinity, the greedy selector's initial best.
pub const F64_NEG_INFINITY_BITS: u64 = 0xFFF0_0000_0000_0000;

/// The 63-bit magnitude of a float pattern: everything but the sign bit.
pub open spec fn f64_magnitude(a: u64) -> int {
    if a >= F64_SIGN_BIT {
        a - F64_SIGN_BIT
    } else {
        a as int
    }
}

/// Whether a pattern denotes a NaN: its magnitude lies strictly above the
/// magnitude of infinity.
pub open spec fn f64_is_nan(a: u64) -> bool {
    f64_magnitude(a) > F64_INF_MAGNITUDE
}

/// The numeric rank of a non-NaN pattern: the magnitude, negated for
/// negative numbers.  Ranks order patterns exactly as the denoted numbers
/// order, with the two zeros sharing rank 0.
pub open spec fn f64_rank(a: u64) -> int {
    if a >= F64_SIGN_BIT {
        -f64_magnitude(a)
    } else {
        f64_magnitude(a)
    }
}

/// The IEEE 754 strict `>` on two 64-bit float patterns: false whenever
/// either side is a NaN, and the rank order otherwise.
pub open spec fn f64_gt(a: u64, b: u64) -> bool {
    &&& !f64_is_nan(a)
    &&& !f64_is_nan(b)
    &&& f64_rank(a) > f64_rank(b)
}

/// Decides `f64_gt` on two patterns.
pub fn f64_bits_gt(a: u64, b: u64) -> (r: bool)
    ensures
        r == f64_gt(a, b),
{
    let neg_a = a >= F64_SIGN_BIT;
    let neg_b = b >= F64_SIGN_BIT;
    let mag_a: u64 = if neg_a { a - F64_SIGN_BIT } else { a };
    let mag_b: u64 = if neg_b { b - F64_SIGN_BIT } else { b };
    if mag_a > F64_INF_MAGNITUDE || mag_b > F64_INF_MAGNITUDE {
        false
    } else if neg_a && neg_b {
        mag_a < mag_b
    } else if neg_a && !neg_b {
        false
    } else if !neg_a && neg_b {
        !(mag_a == 0 && mag_b == 0)
    } else {
        mag_a > mag_b
    }
}

} // verus!
