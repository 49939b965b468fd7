//! IEEE 754 binary interchange formats, handled as bit patterns.
//!
//! Coordinates and scroll distances reach the adapter as binary64 and
//! binary32 numbers. The adapter needs three operations on them: cutting a
//! coordinate down to a whole pixel, narrowing a coordinate to binary32, and
//! multiplying a scroll distance by a small whole factor. Each is defined here
//! on the encoding itself, with integer arithmetic only.
use vstd::prelude::*;
use vstd::arithmetic::power2::*;
use vstd::arithmetic::div_mod::*;
use vstd::arithmetic::mul::*;
use vstd::bits::*;

verus! {

/// A binary64 number, held by its bit pattern (`f64::to_bits`).
#[derive(Clone, Copy, Debug, PartialEq, Eq)]
pub struct Binary64(pub u64);

/// A binary32 number, held by its bit pattern (`f32::to_bits`).
#[derive(Clone, Copy, Debug, PartialEq, Eq)]
pub struct Binary32(pub u32);

/// `n * 2^s` rounded down to a whole number, for `n >= 0`.
pub open spec fn floor_scaled(n: nat, s: int) -> nat {
    if s >= 0 {
        n * pow2(s as nat)
    } else {
        n / pow2((-s) as nat)
    }
}

impl Binary64 {
    /// The sign bit.
    pub open spec fn negative(self) -> bool {
        self.0 >= 0x8000_0000_0000_0000
    }

    /// The biased exponent field, 11 bits.
    pub open spec fn exponent(self) -> nat {
        (self.0 as nat / 0x10_0000_0000_0000) % 0x800
    }

    /// The fraction field, 52 bits.
    pub open spec fn fraction(self) -> nat {
        self.0 as nat % 0x10_0000_0000_0000
    }

    /// Whether the encoding is that of a NaN.
    pub open spec fn is_nan(self) -> bool {
        self.exponent() == 0x7ff && self.fraction() != 0
    }

    /// Whether the encoding is that of an infinity.
    pub open spec fn is_infinite(self) -> bool {
        self.exponent() == 0x7ff && self.fraction() == 0
    }

    /// The magnitude of a finite value is `significand() * 2^scale()`.
    pub open spec fn significand(self) -> nat {
        if self.exponent() == 0 {
            self.fraction()
        } else {
            self.fraction() + 0x10_0000_0000_0000
        }
    }

    /// See [`Binary64::significand`].
    pub open spec fn scale(self) -> int {
        if self.exponent() == 0 {
            -1074
        } else {
            self.exponent() - 1075
        }
    }

    /// The whole part of the magnitude of a finite value.
    pub open spec fn whole(self) -> nat {
        floor_scaled(self.significand(), self.scale())
    }

    /// The value cut down to a whole number toward zero and held to the range
    /// of `i32`; zero for a NaN. This is what `as i32` gives for an `f64`.
    pub open spec fn truncated(self) -> int {
        if self.is_nan() {
            0
        } else if self.is_infinite() || self.whole() > i32::MAX {
            if self.negative() {
                i32::MIN as int
            } else {
                i32::MAX as int
            }
        } else if self.negative() {
            -(self.whole() as int)
        } else {
            self.whole() as int
        }
    }

    /// Cuts the value down to a whole pixel, toward zero.
    pub fn truncate(self) -> (pixel: i32)
        ensures
            pixel == self.truncated(),
    {
        let negative = self.0 >= 0x8000_0000_0000_0000;
        let exponent: u64 = (self.0 / 0x10_0000_0000_0000) % 0x800;
        let fraction: u64 = self.0 % 0x10_0000_0000_0000;
        if exponent == 0x7ff && fraction != 0 {
            0
        } else if exponent < 1023 {
            proof {
                lemma_whole_below_one(self);
            }
            0
        } else if exponent >= 1054 {
            proof {
                if exponent < 0x7ff {
                    lemma_whole_out_of_range(self);
                }
            }
            if negative {
                i32::MIN
            } else {
                i32::MAX
            }
        } else {
            let significand: u64 = fraction + 0x10_0000_0000_0000;
            let shift: u32 = (1075 - exponent) as u32;
            let divisor = power_of_two(shift);
            let whole: u64 = significand / divisor;
            proof {
                lemma_pow2_increases(22, shift as nat);
                lemma2_to64();
                lemma_div_is_ordered_by_denominator(significand as int, 0x40_0000, divisor as int);
            }
            if negative {
                0 - (whole as i32)
            } else {
                whole as i32
            }
        }
    }
}

/// The number of binary digits of `n`.
pub open spec fn bit_length(n: nat) -> nat
    decreases n,
{
    if n == 0 {
        0
    } else {
        1 + bit_length(n / 2)
    }
}

/// The exponent of the last place of the binary32 numbers around `n * 2^s`:
/// 24 digits below the leading one, but never below the subnormal spacing.
pub open spec fn unit_exponent(n: nat, s: int) -> int {
    let e = bit_length(n) - 24 + s;
    if e < -149 {
        -149
    } else {
        e
    }
}

/// `n / 2^k` rounded to the nearest whole number, a tie going to the even one.
pub open spec fn round_half_even(n: nat, k: int) -> nat {
    if k <= 0 {
        n * pow2((-k) as nat)
    } else {
        let d = pow2(k as nat);
        let q = n / d;
        let r = n % d;
        if 2 * r > d || (2 * r == d && q % 2 == 1) {
            q + 1
        } else {
            q
        }
    }
}

/// The encoding, without the sign, of the binary32 number nearest to
/// `n * 2^s`, a tie going to the even significand and an overflow to
/// infinity.
pub open spec fn rounded_magnitude(n: nat, s: int) -> nat {
    if n == 0 {
        0
    } else {
        let u = unit_exponent(n, s);
        let q = round_half_even(n, u - s);
        let bits = (u + 149) * 0x80_0000 + q;
        if bits >= 0x7f80_0000 {
            0x7f80_0000
        } else {
            bits as nat
        }
    }
}

impl Binary32 {
    /// The sign bit.
    pub open spec fn negative(self) -> bool {
        self.0 >= 0x8000_0000
    }

    /// The biased exponent field, 8 bits.
    pub open spec fn exponent(self) -> nat {
        (self.0 as nat / 0x80_0000) % 0x100
    }

    /// The fraction field, 23 bits.
    pub open spec fn fraction(self) -> nat {
        self.0 as nat % 0x80_0000
    }

    /// Whether the encoding is that of a NaN.
    pub open spec fn is_nan(self) -> bool {
        self.exponent() == 0xff && self.fraction() != 0
    }

    /// Whether the encoding is that of an infinity.
    pub open spec fn is_infinite(self) -> bool {
        self.exponent() == 0xff && self.fraction() == 0
    }

    /// The magnitude of a finite value is `significand() * 2^scale()`.
    pub open spec fn significand(self) -> nat {
        if self.exponent() == 0 {
            self.fraction()
        } else {
            self.fraction() + 0x80_0000
        }
    }

    /// See [`Binary32::significand`].
    pub open spec fn scale(self) -> int {
        if self.exponent() == 0 {
            -149
        } else {
            self.exponent() - 150
        }
    }

    /// The number with the given sign and the given encoding of its magnitude.
    pub open spec fn compose(negative: bool, magnitude: nat) -> Binary32 {
        if negative {
            Binary32((magnitude + 0x8000_0000) as u32)
        } else {
            Binary32(magnitude as u32)
        }
    }

    /// The number itself, with the quiet bit set.
    pub open spec fn quieted(self) -> Binary32 {
        if self.fraction() < 0x40_0000 {
            Binary32((self.0 + 0x40_0000) as u32)
        } else {
            self
        }
    }

    /// The product with a whole factor, correctly rounded. A NaN stays that
    /// NaN, made quiet. An infinity stays as it is, but for the factor zero,
    /// which gives the positive quiet NaN without payload.
    pub open spec fn times(self, factor: nat) -> Binary32 {
        if self.is_nan() {
            self.quieted()
        } else if self.is_infinite() {
            if factor == 0 {
                Binary32(0x7fc0_0000)
            } else {
                self
            }
        } else {
            Binary32::compose(
                self.negative(),
                rounded_magnitude(factor * self.significand(), self.scale()),
            )
        }
    }

    /// Multiplies by a whole factor, rounding as binary32 multiplication does.
    pub fn multiply(self, factor: u16) -> (product: Binary32)
        ensures
            product == self.times(factor as nat),
    {
        let negative = self.0 >= 0x8000_0000;
        let exponent: u32 = (self.0 / 0x80_0000) % 0x100;
        let fraction: u32 = self.0 % 0x80_0000;
        if exponent == 0xff {
            if fraction == 0 {
                if factor == 0 {
                    Binary32(0x7fc0_0000)
                } else {
                    self
                }
            } else if fraction < 0x40_0000 {
                Binary32(self.0 + 0x40_0000)
            } else {
                self
            }
        } else {
            let significand: u64 = if exponent == 0 {
                fraction as u64
            } else {
                fraction as u64 + 0x80_0000
            };
            let scale: i32 = if exponent == 0 {
                -149
            } else {
                exponent as i32 - 150
            };
            assert(factor * significand < 0x40_0000_0000_0000) by (nonlinear_arith)
                requires
                    factor <= 0xffff,
                    significand < 0x100_0000,
            ;
            let magnitude = round_magnitude(factor as u64 * significand, scale);
            if negative {
                Binary32(magnitude + 0x8000_0000)
            } else {
                Binary32(magnitude)
            }
        }
    }
}

impl Binary64 {
    /// The nearest binary32 number, a tie going to the even significand. A
    /// NaN keeps its sign and the leading 23 bits of its payload, made quiet.
    /// This is what `as f32` gives for an `f64`.
    pub open spec fn narrowed(self) -> Binary32 {
        if self.is_nan() {
            let payload = self.fraction() / 0x2000_0000;
            Binary32::compose(
                self.negative(),
                0x7f80_0000 + if payload < 0x40_0000 {
                    payload + 0x40_0000
                } else {
                    payload
                },
            )
        } else if self.is_infinite() {
            Binary32::compose(self.negative(), 0x7f80_0000)
        } else {
            Binary32::compose(self.negative(), rounded_magnitude(self.significand(), self.scale()))
        }
    }

    /// Narrows the value to binary32.
    pub fn narrow(self) -> (narrow: Binary32)
        ensures
            narrow == self.narrowed(),
    {
        let negative = self.0 >= 0x8000_0000_0000_0000;
        let exponent: u64 = (self.0 / 0x10_0000_0000_0000) % 0x800;
        let fraction: u64 = self.0 % 0x10_0000_0000_0000;
        let magnitude: u32 = if exponent == 0x7ff {
            if fraction == 0 {
                0x7f80_0000
            } else {
                let payload: u32 = (fraction / 0x2000_0000) as u32;
                if payload < 0x40_0000 {
                    0x7fc0_0000 + payload
                } else {
                    0x7f80_0000 + payload
                }
            }
        } else if exponent == 0 {
            round_magnitude(fraction, -1074)
        } else {
            round_magnitude(fraction + 0x10_0000_0000_0000, exponent as i32 - 1075)
        };
        if negative {
            Binary32(magnitude + 0x8000_0000)
        } else {
            Binary32(magnitude)
        }
    }
}

/// Counts the binary digits of `n`.
fn bit_len(n: u64) -> (len: u32)
    ensures
        len == bit_length(n as nat),
        len <= 64,
{
    let mut rest: u64 = n;
    let mut len: u32 = 0;
    proof {
        lemma_bit_length_of_word(n);
    }
    while rest != 0
        invariant
            bit_length(n as nat) == len + bit_length(rest as nat),
            bit_length(n as nat) <= 64,
        decreases rest,
    {
        rest = rest / 2;
        len = len + 1;
    }
    len
}

/// Rounds `n * 2^s` to the nearest binary32 magnitude.
fn round_magnitude(n: u64, s: i32) -> (bits: u32)
    requires
        n < 0x40_0000_0000_0000,
        -1200 <= s <= 1200,
    ensures
        bits == rounded_magnitude(n as nat, s as int),
        bits <= 0x7f80_0000,
{
    if n == 0 {
        return 0;
    }
    let len = bit_len(n);
    proof {
        lemma_bit_length_bounds(n as nat);
        lemma2_to64_rest();
        if len >= 55 {
            lemma_pow2_increases(54, (len - 1) as nat);
        }
    }
    let top: i32 = len as i32 - 24 + s;
    let u: i32 = if top < -149 {
        -149
    } else {
        top
    };
    let k: i32 = u - s;
    let q: u64 = if k <= 0 {
        let shift: u32 = (0 - k) as u32;
        let factor = power_of_two(shift);
        proof {
            lemma_pow2_pos(shift as nat);
            lemma_mul_strict_inequality(n as int, pow2(len as nat) as int, factor as int);
            lemma_pow2_adds(len as nat, shift as nat);
            lemma_pow2_increases((len + shift) as nat, 24);
            lemma2_to64();
        }
        n * factor
    } else if k >= 64 {
        proof {
            let d = pow2(k as nat);
            lemma_pow2_increases(64, k as nat);
            lemma2_to64();
            lemma_basic_div(n as int, d as int);
            lemma_small_mod(n as nat, d);
        }
        0
    } else {
        let d = power_of_two(k as u32);
        let quotient = n / d;
        let remainder = n % d;
        proof {
            lemma_pow2_unfold(k as nat);
        }
        if remainder > d / 2 || (remainder == d / 2 && quotient % 2 == 1) {
            quotient + 1
        } else {
            quotient
        }
    };
    let bits: u64 = ((u + 149) as u64) * 0x80_0000 + q;
    if bits >= 0x7f80_0000 {
        0x7f80_0000
    } else {
        bits as u32
    }
}

/// A positive number lies between the two powers of two that its digit count
/// names.
proof fn lemma_bit_length_bounds(n: nat)
    requires
        n > 0,
    ensures
        bit_length(n) >= 1,
        pow2((bit_length(n) - 1) as nat) <= n < pow2(bit_length(n)),
    decreases n,
{
    lemma2_to64();
    if n == 1 {
        assert(bit_length(0) == 0);
        assert(bit_length(1) == 1);
    } else {
        lemma_bit_length_bounds(n / 2);
        let digits = bit_length(n / 2);
        lemma_pow2_unfold(digits);
        lemma_pow2_unfold(digits + 1);
    }
}

/// A 64-bit word has at most 64 binary digits.
proof fn lemma_bit_length_of_word(n: u64)
    ensures
        bit_length(n as nat) <= 64,
{
    if n > 0 {
        lemma_bit_length_bounds(n as nat);
        lemma2_to64();
        if bit_length(n as nat) > 64 {
            lemma_pow2_increases(64, (bit_length(n as nat) - 1) as nat);
        }
    }
}

/// `2^exponent` as a machine word.
fn power_of_two(exponent: u32) -> (power: u64)
    requires
        exponent < 64,
    ensures
        power == pow2(exponent as nat),
        power > 0,
{
    proof {
        lemma_u64_pow2_no_overflow(exponent as nat);
        lemma_u64_shl_is_mul(1, exponent as u64);
    }
    1u64 << exponent
}

/// Powers of two grow with the exponent.
proof fn lemma_pow2_increases(low: nat, high: nat)
    requires
        low <= high,
    ensures
        pow2(low) <= pow2(high),
{
    if low < high {
        lemma_pow2_strictly_increases(low, high);
    }
}

/// A finite binary64 below one in magnitude has no whole part.
proof fn lemma_whole_below_one(value: Binary64)
    requires
        value.exponent() < 1023,
    ensures
        value.whole() == 0,
{
    let shift = (-value.scale()) as nat;
    lemma_pow2_increases(53, shift);
    lemma2_to64_rest();
    lemma_basic_div(value.significand() as int, pow2(shift) as int);
}

/// A binary64 of magnitude `2^31` or more has a whole part beyond `i32`.
proof fn lemma_whole_out_of_range(value: Binary64)
    requires
        1054 <= value.exponent() < 0x7ff,
    ensures
        value.whole() > i32::MAX,
{
    lemma2_to64();
    lemma2_to64_rest();
    let n = value.significand();
    if value.scale() >= 0 {
        let p = pow2(value.scale() as nat);
        lemma_pow2_pos(value.scale() as nat);
        assert(n * p >= n) by (nonlinear_arith)
            requires
                p >= 1,
        ;
    } else {
        let shift = (-value.scale()) as nat;
        lemma_pow2_pos(shift);
        lemma_pow2_increases(shift, 21);
        let d = pow2(shift);
        lemma_div_is_ordered_by_denominator(n as int, d as int, 0x20_0000);
        lemma_div_is_ordered(0x10_0000_0000_0000, n as int, 0x20_0000);
    }
}

/// Truncation is toward zero: the whole part of a finite binary64 is the
/// largest whole number that is not above the magnitude
/// `significand() * 2^scale()`.
pub proof fn law_whole_is_magnitude_rounded_down(value: Binary64)
    ensures
        value.scale() >= 0 ==> value.whole() == value.significand() * pow2(value.scale() as nat),
        value.scale() < 0 ==> value.whole() * pow2((-value.scale()) as nat) <= value.significand()
            < (value.whole() + 1) * pow2((-value.scale()) as nat),
{
    if value.scale() < 0 {
        let n = value.significand() as int;
        let d = pow2((-value.scale()) as nat) as int;
        lemma_pow2_pos((-value.scale()) as nat);
        lemma_fundamental_div_mod(n, d);
        lemma_mod_bound(n, d);
        assert((n / d + 1) * d == d * (n / d) + d && (n / d) * d == d * (n / d))
            by (nonlinear_arith);
    }
}

/// Rounding is to the nearest: `round_half_even(n, k)` differs from `n / 2^k`
/// by half a unit at most, and by exactly half a unit only where it is even.
/// Where nothing is cut off (`k <= 0`) it is exact.
pub proof fn law_round_half_even_is_nearest(n: nat, k: int)
    ensures
        k <= 0 ==> round_half_even(n, k) == n * pow2((-k) as nat),
        k > 0 ==> {
            let q = round_half_even(n, k);
            let d = pow2(k as nat);
            &&& 2 * (q * d - n) <= d
            &&& 2 * (n - q * d) <= d
            &&& (2 * (q * d - n) == d || 2 * (n - q * d) == d) ==> q % 2 == 0
        },
{
    if k > 0 {
        let d = pow2(k as nat) as int;
        let low = n as int / d;
        lemma_pow2_pos(k as nat);
        lemma_fundamental_div_mod(n as int, d);
        lemma_mod_bound(n as int, d);
        assert((low + 1) * d == d * low + d && low * d == d * low) by (nonlinear_arith);
    }
}

/// The rounded significand has its leading digit in place: it has at most 24
/// digits, the 25-digit value `2^24` of a carry included, and at least 24
/// unless the result is subnormal.
pub proof fn law_rounded_significand_is_normalized(n: nat, s: int)
    requires
        n > 0,
    ensures
        unit_exponent(n, s) >= -149,
        round_half_even(n, unit_exponent(n, s) - s) <= 0x100_0000,
        unit_exponent(n, s) > -149 ==> round_half_even(n, unit_exponent(n, s) - s) >= 0x80_0000,
{
    let len = bit_length(n);
    let u = unit_exponent(n, s);
    let k = u - s;
    lemma_bit_length_bounds(n);
    lemma2_to64();
    // `reach` digits of `n` stand at or above the last place; 24 unless subnormal.
    let reach: nat = if len >= k {
        (len - k) as nat
    } else {
        0
    };
    assert(reach <= 24);
    assert(u > -149 ==> reach == 24);
    lemma_pow2_increases(reach, 24);
    if k <= 0 {
        let shift = (-k) as nat;
        let f = pow2(shift) as int;
        lemma_pow2_pos(shift);
        lemma_pow2_adds(len, shift);
        lemma_pow2_adds((len - 1) as nat, shift);
        lemma_mul_strict_inequality(n as int, pow2(len) as int, f);
        lemma_mul_inequality(pow2((len - 1) as nat) as int, n as int, f);
    } else {
        let whole = n as int;
        let d = pow2(k as nat) as int;
        let low = whole / d;
        let rest = whole % d;
        lemma_pow2_pos(k as nat);
        lemma_fundamental_div_mod(whole, d);
        lemma_mod_bound(whole, d);
        if len >= k {
            // n < 2^reach * d, so the quotient is below 2^reach
            lemma_pow2_adds(reach, k as nat);
            let top = pow2(reach) as int;
            assert(low < top) by (nonlinear_arith)
                requires
                    whole < top * d,
                    whole == d * low + rest,
                    0 <= rest,
                    d > 0,
            ;
            if reach >= 1 {
                // 2^(reach-1) * d <= n, so the quotient is at least 2^(reach-1)
                lemma_pow2_adds((reach - 1) as nat, k as nat);
                let bottom = pow2((reach - 1) as nat) as int;
                assert(low >= bottom) by (nonlinear_arith)
                    requires
                        bottom * d <= whole,
                        whole == d * low + rest,
                        rest < d,
                        d > 0,
                ;
            }
        } else {
            lemma_pow2_increases(len, k as nat);
            lemma_basic_div(whole, d);
        }
    }
}

/// The encoding that `rounded_magnitude` gives, where it is finite, is that
/// of the number `q * 2^u`, with `u` the unit exponent and `q` the rounded
/// significand. Both sides are scaled by `2^149` here, which makes every
/// exponent a natural number.
pub proof fn law_rounded_magnitude_encodes_the_rounding(n: nat, s: int)
    requires
        n > 0,
        rounded_magnitude(n, s) < 0x7f80_0000,
    ensures
        ({
            let u = unit_exponent(n, s);
            let q = round_half_even(n, u - s);
            let r = Binary32(rounded_magnitude(n, s) as u32);
            &&& !r.negative()
            &&& !r.is_nan()
            &&& !r.is_infinite()
            &&& r.significand() * pow2((r.scale() + 149) as nat) == q * pow2((u + 149) as nat)
        }),
{
    let u = unit_exponent(n, s);
    let q = round_half_even(n, u - s);
    let bits = rounded_magnitude(n, s);
    let r = Binary32(bits as u32);
    law_rounded_significand_is_normalized(n, s);
    assert(bits == (u + 149) * 0x80_0000 + q);
    if q < 0x80_0000 {
        assert(u == -149);
        assert(r.exponent() == 0);
        assert(r.fraction() == q);
    } else if q < 0x100_0000 {
        assert(bits == (u + 150) * 0x80_0000 + (q - 0x80_0000));
        assert(r.exponent() == u + 150);
        assert(r.fraction() == q - 0x80_0000);
    } else {
        assert(bits == (u + 151) * 0x80_0000);
        assert(r.exponent() == u + 151);
        assert(r.fraction() == 0);
        lemma_pow2_unfold((u + 150) as nat);
        let unit = pow2((u + 149) as nat) as int;
        assert(0x80_0000 * (2 * unit) == 0x100_0000 * unit) by (nonlinear_arith);
    }
}

} // verus!
