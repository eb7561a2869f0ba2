//! Unsigned 256-bit token quantities, held as two 128-bit halves.

use vstd::prelude::*;
use vstd::arithmetic::div_mod::lemma_fundamental_div_mod_converse;

verus! {

/// 2^64, the weight of the second 64-bit word.
pub open spec fn word_base() -> nat {
    u64::MAX as nat + 1
}

/// 2^128, the weight of the high half.
pub open spec fn half_base() -> nat {
    u128::MAX as nat + 1
}

/// Value of four little-endian 64-bit words.
pub open spec fn words_value(w: [u64; 4]) -> nat {
    w@[0] as nat + w@[1] as nat * word_base() + (w@[2] as nat + w@[3] as nat * word_base())
        * half_base()
}

/// 2^64 as a machine integer.
pub const WORD: u128 = 0x1_0000_0000_0000_0000;

/// One whole token: amounts carry 18 decimals.
pub const TOKEN_UNIT: u128 = 1_000_000_000_000_000_000;

/// The largest value an amount can hold, plus one.
pub open spec fn amount_bound() -> nat {
    half_base() * half_base()
}

/// A token quantity in its base unit (18 decimals), as on chain.
#[derive(Clone, Copy, Debug, PartialEq, Eq, Structural)]
pub struct Amount {
    pub hi: u128,
    pub lo: u128,
}

impl View for Amount {
    type V = nat;

    open spec fn view(&self) -> nat {
        self.hi as nat * half_base() + self.lo as nat
    }
}

/// One step of long division by `d` in base `b`: a prefix `x` with quotient `qq`
/// and remainder `r`, extended by the digit `w`.
proof fn lemma_long_division_step(x: int, qq: int, r: int, w: int, q: int, r2: int, b: int, d: int)
    requires
        x == qq * d + r,
        r * b + w == q * d + r2,
    ensures
        x * b + w == (qq * b + q) * d + r2,
{
    assert(x * b + w == (qq * b + q) * d + r2) by (nonlinear_arith)
        requires
            x == qq * d + r,
            r * b + w == q * d + r2,
    ;
}

/// A digit of long division by `TOKEN_UNIT` in base 2^64: the remainder times the
/// base plus a word stays below 2^128, and its quotient is one word.
proof fn lemma_digit_bounds(r: int, w: int)
    requires
        0 <= r < TOKEN_UNIT,
        0 <= w < WORD,
    ensures
        r * WORD + w <= u128::MAX,
        (r * WORD + w) / (TOKEN_UNIT as int) < WORD,
{
    assert(r * WORD + w < TOKEN_UNIT * WORD) by (nonlinear_arith)
        requires 0 <= r < TOKEN_UNIT, 0 <= w < WORD;
    let c = r * WORD + w;
    assert(c / (TOKEN_UNIT as int) < WORD) by (nonlinear_arith)
        requires 0 <= c < TOKEN_UNIT * WORD;
}

/// Ordering and equality of amounts follow their halves.
pub proof fn lemma_amount_order(a: Amount, b: Amount)
    ensures
        a@ <= b@ <==> (a.hi < b.hi || (a.hi == b.hi && a.lo <= b.lo)),
        a@ == b@ <==> a == b,
{
    let base = half_base() as int;
    let (ah, al, bh, bl) = (a.hi as int, a.lo as int, b.hi as int, b.lo as int);
    if ah < bh {
        assert(ah * base + base <= bh * base) by (nonlinear_arith)
            requires ah < bh, base > 0;
    } else if bh < ah {
        assert(bh * base + base <= ah * base) by (nonlinear_arith)
            requires bh < ah, base > 0;
    }
}

impl Amount {
    pub fn zero() -> (r: Amount)
        ensures
            r@ == 0,
    {
        Amount { hi: 0, lo: 0 }
    }

    pub fn from_u64(v: u64) -> (r: Amount)
        ensures
            r@ == v as nat,
    {
        Amount { hi: 0, lo: v as u128 }
    }

    pub fn from_u128(v: u128) -> (r: Amount)
        ensures
            r@ == v as nat,
    {
        Amount { hi: 0, lo: v }
    }

    /// Builds an amount from four little-endian 64-bit words.
    pub fn from_words(w: [u64; 4]) -> (r: Amount)
        ensures
            r@ == words_value(w),
    {
        let w0 = w[0] as u128;
        let w1 = w[1] as u128;
        let w2 = w[2] as u128;
        let w3 = w[3] as u128;
        assert(w1 * WORD + w0 <= u128::MAX) by (nonlinear_arith)
            requires w1 <= u64::MAX, w0 <= u64::MAX, WORD == u64::MAX + 1;
        assert(w3 * WORD + w2 <= u128::MAX) by (nonlinear_arith)
            requires w3 <= u64::MAX, w2 <= u64::MAX, WORD == u64::MAX + 1;
        Amount { hi: w3 * WORD + w2, lo: w1 * WORD + w0 }
    }

    /// The four little-endian 64-bit words of this amount.
    pub fn to_words(&self) -> (r: [u64; 4])
        ensures
            words_value(r) == self@,
    {
        let w0 = (self.lo % WORD) as u64;
        let w1 = (self.lo / WORD) as u64;
        let w2 = (self.hi % WORD) as u64;
        let w3 = (self.hi / WORD) as u64;
        let r = [w0, w1, w2, w3];
        assert(self.lo == (self.lo / WORD) * WORD + self.lo % WORD) by (nonlinear_arith)
            requires WORD > 0;
        assert(self.hi == (self.hi / WORD) * WORD + self.hi % WORD) by (nonlinear_arith)
            requires WORD > 0;
        r
    }

    pub fn is_zero(&self) -> (r: bool)
        ensures
            r == (self@ == 0),
    {
        proof {
            lemma_amount_order(*self, Amount { hi: 0, lo: 0 });
        }
        self.hi == 0 && self.lo == 0
    }

    /// `self <= other` by value.
    pub fn le(&self, other: &Amount) -> (r: bool)
        ensures
            r == (self@ <= other@),
    {
        proof {
            lemma_amount_order(*self, *other);
        }
        self.hi < other.hi || (self.hi == other.hi && self.lo <= other.lo)
    }

    /// `self < other` by value.
    pub fn lt(&self, other: &Amount) -> (r: bool)
        ensures
            r == (self@ < other@),
    {
        !other.le(self)
    }

    /// `self - other` where `self` is the larger, else zero.
    pub fn saturating_sub(&self, other: &Amount) -> (r: Amount)
        ensures
            r@ == if other@ <= self@ { self@ - other@ } else { 0 },
    {
        if !other.le(self) {
            return Amount::zero();
        }
        proof {
            lemma_amount_order(*other, *self);
        }
        let base = Ghost(half_base() as int);
        if other.lo <= self.lo {
            let r = Amount { hi: self.hi - other.hi, lo: self.lo - other.lo };
            assert(r@ == self@ - other@) by (nonlinear_arith)
                requires
                    r.hi == self.hi - other.hi,
                    r.lo == self.lo - other.lo,
                    r@ == r.hi * base@ + r.lo,
                    self@ == self.hi * base@ + self.lo,
                    other@ == other.hi * base@ + other.lo;
            r
        } else {
            let lo = self.lo + (u128::MAX - other.lo) + 1;
            let r = Amount { hi: self.hi - other.hi - 1, lo };
            assert(base@ == u128::MAX + 1);
            assert(r@ == self@ - other@) by (nonlinear_arith)
                requires
                    r.hi == self.hi - other.hi - 1,
                    r.lo == self.lo - other.lo + base@,
                    r@ == r.hi * base@ + r.lo,
                    self@ == self.hi * base@ + self.lo,
                    other@ == other.hi * base@ + other.lo;
            r
        }
    }

    /// The sum, where it stays below 2^256.
    pub fn checked_add(&self, other: &Amount) -> (r: Option<Amount>)
        ensures
            r matches Some(s) ==> s@ == self@ + other@,
            r is None <==> self@ + other@ >= amount_bound(),
    {
        let base = Ghost(half_base() as int);
        let (lo, carry) = if self.lo <= u128::MAX - other.lo {
            (self.lo + other.lo, 0u128)
        } else {
            (self.lo - (u128::MAX - other.lo) - 1, 1u128)
        };
        assert(lo + carry * base@ == self.lo + other.lo);
        if self.hi > u128::MAX - other.hi || (carry == 1 && self.hi + other.hi == u128::MAX) {
            assert(self@ + other@ >= amount_bound()) by (nonlinear_arith)
                requires
                    self@ == self.hi * base@ + self.lo,
                    other@ == other.hi * base@ + other.lo,
                    self.hi + other.hi + carry >= base@,
                    lo + carry * base@ == self.lo + other.lo,
                    0 <= lo,
                    amount_bound() == base@ * base@,
                    base@ > 0;
            return None;
        }
        let r = Amount { hi: self.hi + other.hi + carry, lo };
        assert(r@ == self@ + other@) by (nonlinear_arith)
            requires
                r@ == r.hi * base@ + r.lo,
                r.hi == self.hi + other.hi + carry,
                r.lo == lo,
                self@ == self.hi * base@ + self.lo,
                other@ == other.hi * base@ + other.lo,
                lo + carry * base@ == self.lo + other.lo;
        assert(r@ < amount_bound()) by (nonlinear_arith)
            requires
                r@ == r.hi * base@ + r.lo,
                r.hi < base@,
                r.lo < base@,
                amount_bound() == base@ * base@;
        Some(r)
    }

    /// Whole tokens and the fraction in its base unit (eighteen decimals), for
    /// display: `self == whole * TOKEN_UNIT + fraction`.
    pub fn to_display(&self) -> (r: (Amount, u64))
        ensures
            r.0@ == self@ / (TOKEN_UNIT as nat),
            r.1 as nat == self@ % (TOKEN_UNIT as nat),
    {
        let w = self.to_words();
        let c3 = w[3] as u128;
        let q3 = c3 / TOKEN_UNIT;
        let r3 = c3 % TOKEN_UNIT;
        proof {
            lemma_digit_bounds(r3 as int, w[2] as int);
        }
        let c2 = r3 * WORD + w[2] as u128;
        let q2 = c2 / TOKEN_UNIT;
        let r2 = c2 % TOKEN_UNIT;
        proof {
            lemma_digit_bounds(r2 as int, w[1] as int);
        }
        let c1 = r2 * WORD + w[1] as u128;
        let q1 = c1 / TOKEN_UNIT;
        let r1 = c1 % TOKEN_UNIT;
        proof {
            lemma_digit_bounds(r1 as int, w[0] as int);
        }
        let c0 = r1 * WORD + w[0] as u128;
        let q0 = c0 / TOKEN_UNIT;
        let r0 = c0 % TOKEN_UNIT;
        proof {
            lemma_digit_bounds(0, w[3] as int);
        }
        let whole = Amount::from_words([q0 as u64, q1 as u64, q2 as u64, q3 as u64]);
        proof {
            let (b, d) = (WORD as int, TOKEN_UNIT as int);
            let x3 = w[3] as int;
            let x2 = x3 * b + w[2];
            let x1 = x2 * b + w[1];
            let x0 = x1 * b + w[0];
            assert(c3 == q3 * d + r3);
            assert(c2 == q2 * d + r2);
            assert(c1 == q1 * d + r1);
            assert(c0 == q0 * d + r0);
            lemma_long_division_step(x3, q3 as int, r3 as int, w[2] as int, q2 as int, r2 as int, b, d);
            lemma_long_division_step(x2, q3 * b + q2, r2 as int, w[1] as int, q1 as int, r1 as int, b, d);
            lemma_long_division_step(
                x1,
                (q3 * b + q2) * b + q1,
                r1 as int,
                w[0] as int,
                q0 as int,
                r0 as int,
                b,
                d,
            );
            let wq = ((q3 * b + q2) * b + q1) * b + q0;
            assert(half_base() == b * b);
            assert(x0 == self@) by (nonlinear_arith)
                requires
                    x0 == ((w[3] * b + w[2]) * b + w[1]) * b + w[0],
                    self@ == words_value(w),
                    words_value(w) == w[0] + w[1] * b + (w[2] + w[3] * b) * half_base(),
                    half_base() == b * b;
            assert(whole@ == wq) by (nonlinear_arith)
                requires
                    wq == ((q3 * b + q2) * b + q1) * b + q0,
                    whole@ == q0 + q1 * b + (q2 + q3 * b) * half_base(),
                    half_base() == b * b;
            lemma_fundamental_div_mod_converse(self@ as int, d, wq, r0 as int);
        }
        (whole, r0 as u64)
    }

    /// The amount as a `u64`, where it fits.
    pub fn to_u64(&self) -> (r: Option<u64>)
        ensures
            r matches Some(v) ==> v as nat == self@,
            r is None <==> self@ > u64::MAX,
    {
        proof {
            lemma_amount_order(*self, Amount { hi: 0, lo: u64::MAX as u128 });
        }
        if self.hi == 0 && self.lo <= u64::MAX as u128 {
            Some(self.lo as u64)
        } else {
            None
        }
    }
}

} // verus!
