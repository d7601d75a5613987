//! Samples and levels as IEEE 754 single-precision numbers, held by their bits.
//!
//! Only what needs no rounding is done here: comparing magnitudes and changing
//! signs.
use vstd::arithmetic::power2::*;
use vstd::prelude::*;

verus! {

/// A single-precision number.
#[derive(Debug, Clone, Copy, PartialEq, Eq, Structural)]
pub struct Single {
    pub bits: u32,
}

pub const SIGN_BIT: u32 = 0x8000_0000;

/// The magnitude of infinity; greater magnitudes are not numbers.
pub const INFINITE: u32 = 0x7F80_0000;

/// The size of the fraction field.
pub const FRACTION: u32 = 0x0080_0000;

/// The value of a finite magnitude, in units of the least positive number
/// (2 to the power of -149).
pub open spec fn units(m: int) -> int {
    let e = m / FRACTION as int;
    let f = m % FRACTION as int;
    if e == 0 {
        f
    } else {
        (FRACTION as int + f) * pow2((e - 1) as nat)
    }
}

impl Single {
    /// Whether the sign is minus; zero has a sign too.
    pub open spec fn negative(self) -> bool {
        self.bits >= SIGN_BIT
    }

    /// The bits without the sign.
    pub open spec fn magnitude(self) -> u32 {
        (self.bits % SIGN_BIT) as u32
    }

    pub open spec fn is_nan(self) -> bool {
        self.magnitude() > INFINITE
    }

    pub open spec fn is_infinite(self) -> bool {
        self.magnitude() == INFINITE
    }

    /// Whether the absolute value of `self` is less than that of `other`, both
    /// being numbers.
    pub open spec fn smaller(self, other: Single) -> bool {
        if other.is_infinite() {
            !self.is_infinite()
        } else {
            !self.is_infinite() && units(self.magnitude() as int) < units(
                other.magnitude() as int,
            )
        }
    }

    /// `|self| < level`; false where one of the two is not a number.
    pub open spec fn abs_below(self, level: Single) -> bool {
        !self.is_nan() && !level.is_nan() && !level.negative() && self.smaller(level)
    }

    /// `|self| > level`; false where one of the two is not a number.
    pub open spec fn abs_above(self, level: Single) -> bool {
        &&& !self.is_nan()
        &&& !level.is_nan()
        &&& level.smaller(self) || (level.negative() && level.magnitude() != 0)
    }

    /// The same magnitude with the other sign.
    pub open spec fn negated(self) -> Single {
        Single {
            bits: if self.negative() {
                (self.bits - SIGN_BIT) as u32
            } else {
                (self.bits + SIGN_BIT) as u32
            },
        }
    }

    /// The number with these bits.
    pub fn from_bits(bits: u32) -> (s: Single)
        ensures
            s == (Single { bits }),
    {
        Single { bits }
    }

    /// `|self| < level`.
    pub fn is_abs_below(self, level: Single) -> (b: bool)
        ensures
            b == self.abs_below(level),
    {
        let m: u32 = self.bits % SIGN_BIT;
        let l: u32 = level.bits % SIGN_BIT;
        proof {
            lemma_smaller(self, level);
        }
        m <= INFINITE && l <= INFINITE && level.bits < SIGN_BIT && m < l
    }

    /// `|self| > level`.
    pub fn is_abs_above(self, level: Single) -> (b: bool)
        ensures
            b == self.abs_above(level),
    {
        let m: u32 = self.bits % SIGN_BIT;
        let l: u32 = level.bits % SIGN_BIT;
        proof {
            lemma_smaller(level, self);
        }
        m <= INFINITE && l <= INFINITE && (l < m || (level.bits >= SIGN_BIT && l != 0))
    }

    /// The same magnitude with the other sign.
    pub fn negate(self) -> (s: Single)
        ensures
            s == self.negated(),
    {
        if self.bits >= SIGN_BIT {
            Single { bits: self.bits - SIGN_BIT }
        } else {
            Single { bits: self.bits + SIGN_BIT }
        }
    }
}

/// The next greater magnitude has the greater value.
proof fn lemma_units_step(m: int)
    requires
        0 <= m,
    ensures
        units(m) < units(m + 1),
{
    let e = m / FRACTION as int;
    let f = m % FRACTION as int;
    let k = FRACTION as int;
    if f + 1 < k {
        assert((m + 1) / k == e && (m + 1) % k == f + 1) by (nonlinear_arith)
            requires
                m == k * e + f,
                0 <= f,
                f + 1 < k,
                k > 0,
        ;
        if e > 0 {
            lemma_pow2_pos((e - 1) as nat);
            let p = pow2((e - 1) as nat) as int;
            assert((k + f) * p < (k + (f + 1)) * p) by (nonlinear_arith)
                requires
                    p > 0,
            ;
        }
    } else {
        assert((m + 1) / k == e + 1 && (m + 1) % k == 0) by (nonlinear_arith)
            requires
                m == k * e + f,
                f == k - 1,
                k > 0,
        ;
        if e == 0 {
            lemma2_to64();
            assert(units(m + 1) == (k + 0) * pow2(0));
        } else {
            lemma_pow2_pos((e - 1) as nat);
            lemma_pow2_unfold(e as nat);
            let p = pow2((e - 1) as nat) as int;
            assert(pow2(e as nat) == 2 * p);
            assert((k + f) * p < k * (2 * p)) by (nonlinear_arith)
                requires
                    p > 0,
                    f == k - 1,
            ;
        }
    }
}

proof fn lemma_units_increase(a: int, b: int)
    requires
        0 <= a < b,
    ensures
        units(a) < units(b),
    decreases b - a,
{
    lemma_units_step(b - 1);
    if a < b - 1 {
        lemma_units_increase(a, b - 1);
    }
}

/// Numbers are ordered by value as their magnitudes are ordered as integers.
pub proof fn lemma_smaller(a: Single, b: Single)
    ensures
        !a.is_nan() && !b.is_nan() ==> (a.smaller(b) <==> a.magnitude() < b.magnitude()),
{
    let m = a.magnitude() as int;
    let n = b.magnitude() as int;
    if m < n {
        lemma_units_increase(m, n);
    } else if n < m {
        lemma_units_increase(n, m);
    }
}

/// `|x| < level` by the bits: magnitudes up to infinity are numbers, and numbers
/// are ordered as their bits without the sign.
pub proof fn law_below_by_bits(x: Single, level: Single)
    ensures
        x.abs_below(level) <==> x.bits % 0x8000_0000 <= 0x7F80_0000 && level.bits <= 0x7F80_0000
            && x.bits % 0x8000_0000 < level.bits,
{
    lemma_smaller(x, level);
}

/// `|x| > level` by the bits; a negative level other than zero is below every
/// number.
pub proof fn law_above_by_bits(x: Single, level: Single)
    ensures
        x.abs_above(level) <==> x.bits % 0x8000_0000 <= 0x7F80_0000 && level.bits % 0x8000_0000
            <= 0x7F80_0000 && (level.bits % 0x8000_0000 < x.bits % 0x8000_0000 || level.bits
            > 0x8000_0000),
{
    lemma_smaller(level, x);
}

/// Changing the sign changes the highest bit only, and twice gives the number
/// back.
pub proof fn law_negation(x: Single)
    ensures
        x.negated().bits % 0x8000_0000 == x.bits % 0x8000_0000,
        x.negated().bits >= 0x8000_0000 <==> x.bits < 0x8000_0000,
        x.negated().negated() == x,
{
}

} // verus!
