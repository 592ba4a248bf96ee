//! Conversion of an integer to the bits of the nearest IEEE-754 binary64
//! number (ties to even), in plain integer arithmetic. The double literals
//! of the language hold exactly these bits.
use vstd::prelude::*;

verus! {

/// The least normalized mantissa, two to the fifty-second power.
pub const MANTISSA_LOW: u64 = 0x10000000000000;

/// One past the greatest mantissa, two to the fifty-third power.
pub const MANTISSA_HIGH: u64 = 0x20000000000000;

/// Doubles the mantissa until it is normalized, lowering the exponent;
/// `k` bounds the steps, and far exceeds the steps a nonzero word needs.
pub open spec fn s_scale_up(m: u64, e: i64, k: u64) -> (u64, i64)
    decreases k,
{
    if k == 0 || m >= MANTISSA_LOW || m == 0 || e == i64::MIN {
        (m, e)
    } else {
        s_scale_up((m * 2) as u64, (e - 1) as i64, (k - 1) as u64)
    }
}

/// Halves the mantissa until it fits, raising the exponent and keeping the
/// bit shifted out (`round`) and whether any earlier bit was lost
/// (`sticky`); `k` bounds the steps.
pub open spec fn s_scale_down(m: u64, e: i64, round: bool, sticky: bool, k: u64) -> (
    u64,
    i64,
    bool,
    bool,
)
    decreases k,
{
    if k == 0 || m < MANTISSA_HIGH || e == i64::MAX {
        (m, e, round, sticky)
    } else {
        s_scale_down(m / 2, (e + 1) as i64, m % 2 == 1, sticky || round, (k - 1) as u64)
    }
}

/// Rounds to nearest, ties to even, carrying into the exponent when the
/// mantissa overflows.
pub open spec fn s_round_even(m: u64, e: i64, round: bool, sticky: bool) -> (u64, i64) {
    if round && (sticky || m % 2 == 1) && m < MANTISSA_HIGH && e < i64::MAX {
        if m + 1 == MANTISSA_HIGH {
            (MANTISSA_LOW, (e + 1) as i64)
        } else {
            ((m + 1) as u64, e)
        }
    } else {
        (m, e)
    }
}

/// The bits of `sign * m * 2^e`, for a normalized mantissa and an exponent
/// in the finite range.
pub open spec fn s_pack(negative: bool, m: u64, e: i64) -> u64 {
    if MANTISSA_LOW <= m < MANTISSA_HIGH && -1074 <= e <= 971 {
        (((if negative {
            0x8000000000000000u64
        } else {
            0u64
        }) as int) + ((e + 1075) as int) * (MANTISSA_LOW as int) + ((m - MANTISSA_LOW) as int)) as u64
    } else {
        0
    }
}

/// The IEEE-754 binary64 bits nearest to an integer, ties to even. Zero is
/// the positive zero.
pub open spec fn s_int_to_double_bits(n: i64) -> u64 {
    if n == 0 {
        0
    } else {
        let negative = n < 0;
        let m = (0u64).wrapping_sub(n as u64);
        let mag: u64 = if negative {
            m
        } else {
            n as u64
        };
        if mag >= MANTISSA_HIGH {
            let scaled = s_scale_down(mag, 0, false, false, 16);
            let rounded = s_round_even(scaled.0, scaled.1, scaled.2, scaled.3);
            s_pack(negative, rounded.0, rounded.1)
        } else {
            let scaled = s_scale_up(mag, 0, 64);
            s_pack(negative, scaled.0, scaled.1)
        }
    }
}

fn scale_up(m: u64, e: i64, k: u64) -> (r: (u64, i64))
    ensures
        r == s_scale_up(m, e, k),
    decreases k,
{
    if k == 0 || m >= MANTISSA_LOW || m == 0 || e == i64::MIN {
        (m, e)
    } else {
        scale_up(m * 2, e - 1, k - 1)
    }
}

fn scale_down(m: u64, e: i64, round: bool, sticky: bool, k: u64) -> (r: (u64, i64, bool, bool))
    ensures
        r == s_scale_down(m, e, round, sticky, k),
    decreases k,
{
    if k == 0 || m < MANTISSA_HIGH || e == i64::MAX {
        (m, e, round, sticky)
    } else {
        scale_down(m / 2, e + 1, m % 2 == 1, sticky || round, k - 1)
    }
}

fn round_even(m: u64, e: i64, round: bool, sticky: bool) -> (r: (u64, i64))
    ensures
        r == s_round_even(m, e, round, sticky),
{
    if round && (sticky || m % 2 == 1) && m < MANTISSA_HIGH && e < i64::MAX {
        if m + 1 == MANTISSA_HIGH {
            (MANTISSA_LOW, e + 1)
        } else {
            (m + 1, e)
        }
    } else {
        (m, e)
    }
}

fn pack(negative: bool, m: u64, e: i64) -> (r: u64)
    ensures
        r == s_pack(negative, m, e),
{
    if MANTISSA_LOW <= m && m < MANTISSA_HIGH && -1074 <= e && e <= 971 {
        let sign: u64 = if negative {
            0x8000000000000000u64
        } else {
            0u64
        };
        sign + ((e + 1075) as u64) * MANTISSA_LOW + (m - MANTISSA_LOW)
    } else {
        0
    }
}

/// The IEEE-754 binary64 bits nearest to an integer, ties to even.
pub fn int_to_double_bits(n: i64) -> (r: u64)
    ensures
        r == s_int_to_double_bits(n),
{
    if n == 0 {
        0
    } else {
        let negative = n < 0;
        let m = (0u64).wrapping_sub(n as u64);
        let mag: u64 = if negative {
            m
        } else {
            n as u64
        };
        if mag >= MANTISSA_HIGH {
            let scaled = scale_down(mag, 0, false, false, 16);
            let rounded = round_even(scaled.0, scaled.1, scaled.2, scaled.3);
            pack(negative, rounded.0, rounded.1)
        } else {
            let scaled = scale_up(mag, 0, 64);
            pack(negative, scaled.0, scaled.1)
        }
    }
}

} // verus!
