//! Unbounded non-negative amounts of asset units.
//!
//! An [`Amount`] is a natural number held as little-endian base-256 digits
//! without a leading zero digit, so that two amounts are equal exactly when
//! their digits are.

use crate::bytes::same_bytes;
use vstd::prelude::*;

verus! {

/// The weight of the digit at position `n`: 256 to the power `n`.
pub open spec fn weight(n: nat) -> nat
    decreases n,
{
    if n == 0 {
        1
    } else {
        256 * weight((n - 1) as nat)
    }
}

/// The number that the little-endian base-256 digits `s` denote.
pub open spec fn digits_value(s: Seq<u8>) -> nat
    decreases s.len(),
{
    if s.len() == 0 {
        0
    } else {
        s[0] as nat + 256 * digits_value(s.drop_first())
    }
}

/// The digit of `s` at position `i`, zero beyond its end.
spec fn digit_at(s: Seq<u8>, i: int) -> nat {
    if 0 <= i < s.len() {
        s[i] as nat
    } else {
        0
    }
}

/// The number denoted by the `i` least significant digits of `s`.
spec fn low_value(s: Seq<u8>, i: int) -> nat {
    if i <= 0 {
        0
    } else if i >= s.len() {
        digits_value(s)
    } else {
        digits_value(s.take(i))
    }
}

/// No leading zero: the most significant digit, if any, is not zero.
pub open spec fn canonical(s: Seq<u8>) -> bool {
    s.len() == 0 || s.last() != 0
}

proof fn lemma_weight_positive(n: nat)
    ensures
        weight(n) >= 1,
    decreases n,
{
    if n > 0 {
        lemma_weight_positive((n - 1) as nat);
    }
}

proof fn lemma_weight_monotonic(m: nat, n: nat)
    requires
        m <= n,
    ensures
        weight(m) <= weight(n),
    decreases n,
{
    if m < n {
        lemma_weight_monotonic(m, (n - 1) as nat);
        lemma_weight_positive((n - 1) as nat);
    }
}

/// Appending a most significant digit adds it at the weight of its position.
proof fn lemma_value_push(s: Seq<u8>, d: u8)
    ensures
        digits_value(s.push(d)) == digits_value(s) + d * weight(s.len()),
    decreases s.len(),
{
    let sp = s.push(d);
    if s.len() == 0 {
        assert(digits_value(sp.drop_first()) == 0);
        assert(d * weight(0) == d) by (nonlinear_arith)
            requires
                weight(0) == 1,
        ;
    } else {
        let t = s.drop_first();
        lemma_value_push(t, d);
        assert(sp.drop_first() =~= t.push(d));
        assert(256 * (d * weight(t.len())) == d * weight(s.len())) by (nonlinear_arith)
            requires
                weight(s.len()) == 256 * weight(t.len()),
        ;
    }
}

/// A number of `n` digits is below the weight of position `n`.
proof fn lemma_value_bound(s: Seq<u8>)
    ensures
        digits_value(s) < weight(s.len()),
    decreases s.len(),
{
    if s.len() > 0 {
        lemma_value_bound(s.drop_first());
    }
}

/// A number splits at any position into its low digits and its high digits.
proof fn lemma_value_split(s: Seq<u8>, i: int)
    requires
        0 <= i <= s.len(),
    ensures
        digits_value(s) == digits_value(s.take(i)) + weight(i as nat) * digits_value(s.skip(i)),
    decreases i,
{
    if i == 0 {
        assert(s.skip(0) =~= s);
        let v = digits_value(s);
        assert(weight(0) * v == v) by (nonlinear_arith)
            requires
                weight(0) == 1,
        ;
    } else {
        let t = s.drop_first();
        lemma_value_split(t, i - 1);
        let lo = s.take(i);
        assert(lo.drop_first() =~= t.take(i - 1));
        assert(s.skip(i) =~= t.skip(i - 1));
        let hi = digits_value(s.skip(i));
        assert(256 * (weight((i - 1) as nat) * hi) == weight(i as nat) * hi) by (nonlinear_arith)
            requires
                weight(i as nat) == 256 * weight((i - 1) as nat),
        ;
    }
}

/// Taking one more low digit adds that digit at the weight of its position.
proof fn lemma_low_value_step(s: Seq<u8>, i: int)
    requires
        0 <= i,
    ensures
        low_value(s, i + 1) == low_value(s, i) + digit_at(s, i) * weight(i as nat),
{
    if i < s.len() {
        assert(s.take(i + 1) =~= s.take(i).push(s[i]));
        lemma_value_push(s.take(i), s[i]);
        if i + 1 == s.len() {
            assert(s.take(i + 1) =~= s);
        }
    }
}

/// A number whose most significant digit is not zero reaches that digit's weight.
proof fn lemma_canonical_lower_bound(s: Seq<u8>)
    requires
        s.len() > 0,
        s.last() != 0,
    ensures
        digits_value(s) >= weight((s.len() - 1) as nat),
{
    let t = s.drop_last();
    assert(s =~= t.push(s.last()));
    lemma_value_push(t, s.last());
    let w = weight(t.len());
    let d = s.last();
    assert(d * w >= w) by (nonlinear_arith)
        requires
            d >= 1,
    ;
}

/// Numbers without leading zeros are equal only where their digits are.
pub proof fn lemma_canonical_unique(a: Seq<u8>, b: Seq<u8>)
    requires
        canonical(a),
        canonical(b),
        digits_value(a) == digits_value(b),
    ensures
        a == b,
    decreases a.len(),
{
    if a.len() == 0 || b.len() == 0 {
        if a.len() > 0 {
            lemma_canonical_lower_bound(a);
            lemma_weight_positive((a.len() - 1) as nat);
        }
        if b.len() > 0 {
            lemma_canonical_lower_bound(b);
            lemma_weight_positive((b.len() - 1) as nat);
        }
    } else {
        let ta = a.drop_first();
        let tb = b.drop_first();
        assert(a[0] == b[0] && digits_value(ta) == digits_value(tb));
        lemma_canonical_unique(ta, tb);
        assert(a =~= seq![a[0]] + ta);
        assert(b =~= seq![b[0]] + tb);
    }
}

/// A non-negative quantity of asset units, of any size.
#[derive(Debug, PartialEq, Eq)]
pub struct Amount {
    digits: Vec<u8>,
}

impl View for Amount {
    type V = nat;

    closed spec fn view(&self) -> nat {
        digits_value(self.digits@)
    }
}

impl Clone for Amount {
    fn clone(&self) -> (r: Self)
        ensures
            r@ == self@,
    {
        proof {
            use_type_invariant(self);
        }
        let digits = self.digits.clone();
        Amount { digits }
    }
}

impl Amount {
    #[verifier::type_invariant]
    spec fn well_formed(&self) -> bool {
        canonical(self.digits@)
    }

    /// The amount that the little-endian base-256 digits `digits` denote;
    /// leading zero digits are dropped.
    pub fn from_le_bytes(digits: Vec<u8>) -> (r: Amount)
        ensures
            r@ == digits_value(digits@),
    {
        let mut digits = digits;
        let ghost given = digits@;
        while digits.len() > 0 && digits[digits.len() - 1] == 0
            invariant
                digits_value(digits@) == digits_value(given),
            decreases digits@.len(),
        {
            proof {
                let shorter = digits@.drop_last();
                assert(digits@ =~= shorter.push(0u8));
                lemma_value_push(shorter, 0u8);
            }
            digits.pop();
        }
        Amount { digits }
    }

    /// The little-endian base-256 digits of this amount, without a leading
    /// zero digit.
    pub fn to_le_bytes(&self) -> (r: Vec<u8>)
        ensures
            digits_value(r@) == self@,
            canonical(r@),
    {
        proof {
            use_type_invariant(self);
        }
        let digits = self.digits.clone();
        digits
    }

    /// The amount of no units.
    pub fn zero() -> (r: Amount)
        ensures
            r@ == 0,
    {
        Amount { digits: Vec::new() }
    }

    /// The amount of `x` units.
    pub fn from_u128(x: u128) -> (r: Amount)
        ensures
            r@ == x,
    {
        let mut digits: Vec<u8> = Vec::new();
        let mut rest: u128 = x;
        proof {
            assert(rest * weight(0) == rest) by (nonlinear_arith)
                requires
                    weight(0) == 1,
            ;
        }
        while rest > 0
            invariant
                digits_value(digits@) + rest * weight(digits@.len()) == x,
                rest == 0 ==> canonical(digits@),
            decreases rest,
        {
            let d: u8 = (rest % 256) as u8;
            let next: u128 = rest / 256;
            proof {
                lemma_value_push(digits@, d);
                let w = weight(digits@.len());
                assert(d * w + next * (256 * w) == rest * w) by (nonlinear_arith)
                    requires
                        rest == d + 256 * next,
                ;
            }
            digits.push(d);
            rest = next;
        }
        Amount { digits }
    }

    /// The amount of `x` units.
    pub fn from_u64(x: u64) -> (r: Amount)
        ensures
            r@ == x,
    {
        Amount::from_u128(x as u128)
    }

    /// Whether this is the amount of no units.
    pub fn is_zero(&self) -> (r: bool)
        ensures
            r == (self@ == 0),
    {
        proof {
            use_type_invariant(self);
            if self.digits@.len() > 0 {
                lemma_canonical_lower_bound(self.digits@);
                lemma_weight_positive((self.digits@.len() - 1) as nat);
            }
        }
        self.digits.len() == 0
    }

    /// Whether this amount is strictly smaller than `other`.
    pub fn less_than(&self, other: &Amount) -> (r: bool)
        ensures
            r == (self@ < other@),
    {
        proof {
            use_type_invariant(self);
            use_type_invariant(other);
        }
        let n = self.digits.len();
        let m = other.digits.len();
        if n != m {
            proof {
                let (short, long) = if n < m {
                    (self.digits@, other.digits@)
                } else {
                    (other.digits@, self.digits@)
                };
                lemma_value_bound(short);
                lemma_canonical_lower_bound(long);
                lemma_weight_monotonic(short.len(), (long.len() - 1) as nat);
            }
            return n < m;
        }
        let mut i: usize = n;
        while i > 0
            invariant
                i <= n,
                n == self.digits@.len(),
                n == other.digits@.len(),
                self.digits@.skip(i as int) == other.digits@.skip(i as int),
            decreases i,
        {
            let a = self.digits[i - 1];
            let b = other.digits[i - 1];
            proof {
                let sa = self.digits@;
                let sb = other.digits@;
                assert(sa.skip(i - 1).drop_first() =~= sa.skip(i as int));
                assert(sb.skip(i - 1).drop_first() =~= sb.skip(i as int));
                if a != b {
                    lemma_value_split(sa, i - 1);
                    lemma_value_split(sb, i - 1);
                    lemma_value_bound(sa.take(i - 1));
                    lemma_value_bound(sb.take(i - 1));
                    let w = weight((i - 1) as nat);
                    let ha = digits_value(sa.skip(i - 1));
                    let hb = digits_value(sb.skip(i - 1));
                    let la = digits_value(sa.take(i - 1));
                    let lb = digits_value(sb.take(i - 1));
                    if a < b {
                        assert(la + w * ha < lb + w * hb) by (nonlinear_arith)
                            requires
                                ha + 1 <= hb,
                                la < w,
                        ;
                    } else {
                        assert(lb + w * hb < la + w * ha) by (nonlinear_arith)
                            requires
                                hb + 1 <= ha,
                                lb < w,
                        ;
                    }
                } else {
                    let ua = sa.skip(i - 1);
                    let ub = sb.skip(i - 1);
                    assert forall|j: int| 0 <= j < ua.len() implies #[trigger] ua[j] == ub[j] by {
                        if j > 0 {
                            assert(sa.skip(i as int)[j - 1] == sb.skip(i as int)[j - 1]);
                        }
                    }
                }
            }
            if a != b {
                return a < b;
            }
            i -= 1;
        }
        proof {
            assert(self.digits@.skip(0) =~= self.digits@);
            assert(other.digits@.skip(0) =~= other.digits@);
        }
        false
    }

    /// Whether this amount is no larger than `other`.
    pub fn at_most(&self, other: &Amount) -> (r: bool)
        ensures
            r == (self@ <= other@),
    {
        !other.less_than(self)
    }

    /// The sum of the two amounts.
    pub fn plus(&self, other: &Amount) -> (r: Amount)
        ensures
            r@ == self@ + other@,
    {
        let n = self.digits.len();
        let m = other.digits.len();
        let len = if n > m {
            n
        } else {
            m
        };
        let mut digits: Vec<u8> = Vec::new();
        let mut carry: u16 = 0;
        let mut i: usize = 0;
        proof {
            assert(carry * weight(0) == 0) by (nonlinear_arith)
                requires
                    carry == 0,
            ;
        }
        while i < len
            invariant
                i <= len,
                n == self.digits@.len(),
                m == other.digits@.len(),
                n <= len,
                m <= len,
                digits@.len() == i,
                carry <= 1,
                digits_value(digits@) + carry * weight(i as nat) == low_value(self.digits@, i as int)
                    + low_value(other.digits@, i as int),
            decreases len - i,
        {
            let a: u16 = if i < n {
                self.digits[i] as u16
            } else {
                0
            };
            let b: u16 = if i < m {
                other.digits[i] as u16
            } else {
                0
            };
            let t: u16 = a + b + carry;
            let d: u8 = (t % 256) as u8;
            let c: u16 = t / 256;
            proof {
                lemma_low_value_step(self.digits@, i as int);
                lemma_low_value_step(other.digits@, i as int);
                lemma_value_push(digits@, d);
                let w = weight(i as nat);
                assert(d * w + c * (256 * w) == carry * w + a * w + b * w) by (nonlinear_arith)
                    requires
                        a + b + carry == d + 256 * c,
                ;
            }
            digits.push(d);
            carry = c;
            i += 1;
        }
        proof {
            lemma_value_push(digits@, carry as u8);
        }
        digits.push(carry as u8);
        Amount::from_le_bytes(digits)
    }

    /// The difference of the two amounts where `other` is no larger than
    /// this one, and `None` where it is larger.
    pub fn checked_sub(&self, other: &Amount) -> (r: Option<Amount>)
        ensures
            match r {
                Some(rest) => other@ <= self@ && rest@ == self@ - other@,
                None => other@ > self@,
            },
    {
        if self.less_than(other) {
            None
        } else {
            Some(self.minus(other))
        }
    }

    /// The difference of the two amounts, of which `other` is no larger than
    /// this one.
    pub(crate) fn minus(&self, other: &Amount) -> (r: Amount)
        requires
            other@ <= self@,
        ensures
            r@ == self@ - other@,
    {
        let n = self.digits.len();
        let m = other.digits.len();
        let len = if n > m {
            n
        } else {
            m
        };
        let mut digits: Vec<u8> = Vec::new();
        let mut borrow: u16 = 0;
        let mut i: usize = 0;
        proof {
            assert(borrow * weight(0) == 0) by (nonlinear_arith)
                requires
                    borrow == 0,
            ;
        }
        while i < len
            invariant
                i <= len,
                n == self.digits@.len(),
                m == other.digits@.len(),
                n <= len,
                m <= len,
                digits@.len() == i,
                borrow <= 1,
                digits_value(digits@) + low_value(other.digits@, i as int) == low_value(
                    self.digits@,
                    i as int,
                ) + borrow * weight(i as nat),
            decreases len - i,
        {
            let a: u16 = if i < n {
                self.digits[i] as u16
            } else {
                0
            };
            let b: u16 = if i < m {
                other.digits[i] as u16
            } else {
                0
            };
            let lend: u16 = if a < b + borrow {
                1
            } else {
                0
            };
            let d: u8 = (a + 256 * lend - b - borrow) as u8;
            proof {
                lemma_low_value_step(self.digits@, i as int);
                lemma_low_value_step(other.digits@, i as int);
                lemma_value_push(digits@, d);
                let w = weight(i as nat);
                assert(d * w + b * w + borrow * w == a * w + lend * (256 * w)) by (nonlinear_arith)
                    requires
                        d + b + borrow == a + 256 * lend,
                ;
            }
            digits.push(d);
            borrow = lend;
            i += 1;
        }
        proof {
            lemma_value_bound(digits@);
            let w = weight(len as nat);
            assert(borrow * w >= w || borrow == 0) by (nonlinear_arith)
                requires
                    borrow <= 1,
                    w >= 0,
            ;
        }
        Amount::from_le_bytes(digits)
    }

    /// This amount taken `factor` times.
    fn scaled(&self, factor: u8) -> (r: Amount)
        ensures
            r@ == self@ * factor,
    {
        let n = self.digits.len();
        let mut digits: Vec<u8> = Vec::new();
        let mut carry: u32 = 0;
        let mut i: usize = 0;
        proof {
            assert(carry * weight(0) == 0) by (nonlinear_arith)
                requires
                    carry == 0,
            ;
            assert(low_value(self.digits@, 0) * factor == 0) by (nonlinear_arith)
                requires
                    low_value(self.digits@, 0) == 0,
            ;
        }
        while i < n
            invariant
                i <= n,
                n == self.digits@.len(),
                digits@.len() == i,
                carry <= 255,
                digits_value(digits@) + carry * weight(i as nat) == low_value(self.digits@, i as int)
                    * factor,
            decreases n - i,
        {
            let a: u32 = self.digits[i] as u32;
            let f: u32 = factor as u32;
            assert(a * f <= 255 * 255) by (nonlinear_arith)
                requires
                    a <= 255,
                    f <= 255,
            ;
            let t: u32 = a * f + carry;
            let d: u8 = (t % 256) as u8;
            let c: u32 = t / 256;
            proof {
                lemma_low_value_step(self.digits@, i as int);
                lemma_value_push(digits@, d);
                let w = weight(i as nat);
                let low = low_value(self.digits@, i as int);
                assert(d * w + c * (256 * w) + low * factor == carry * w + (low + a * w) * factor)
                    by (nonlinear_arith)
                    requires
                        a * f + carry == d + 256 * c,
                        f == factor,
                ;
            }
            digits.push(d);
            carry = c;
            i += 1;
        }
        proof {
            lemma_value_push(digits@, carry as u8);
        }
        digits.push(carry as u8);
        Amount::from_le_bytes(digits)
    }

    /// This amount taken 256 times, plus `digit`.
    fn shifted_in(&self, digit: u8) -> (r: Amount)
        ensures
            r@ == 256 * self@ + digit,
    {
        proof {
            use_type_invariant(self);
        }
        let mut digits = self.digits.clone();
        if digits.len() > 0 || digit != 0 {
            digits.insert(0, digit);
            assert(digits@.drop_first() =~= self.digits@);
        }
        Amount { digits }
    }

    /// The product of the two amounts.
    pub fn times(&self, other: &Amount) -> (r: Amount)
        ensures
            r@ == self@ * other@,
    {
        let m = other.digits.len();
        let mut product = Amount::zero();
        let mut i: usize = m;
        proof {
            assert(self@ * 0 == 0) by (nonlinear_arith);
        }
        while i > 0
            invariant
                i <= m,
                m == other.digits@.len(),
                product@ == self@ * digits_value(other.digits@.skip(i as int)),
            decreases i,
        {
            let d = other.digits[i - 1];
            let partial = self.scaled(d);
            let shifted = product.shifted_in(0);
            proof {
                let high = other.digits@.skip(i as int);
                let with_d = other.digits@.skip(i - 1);
                assert(with_d.drop_first() =~= high);
                let x = self@;
                let h = digits_value(high);
                assert(256 * (x * h) + x * d == x * (d + 256 * h)) by (nonlinear_arith);
            }
            product = shifted.plus(&partial);
            i -= 1;
        }
        proof {
            assert(other.digits@.skip(0) =~= other.digits@);
        }
        product
    }

    /// The quotient and the remainder of this amount divided by `divisor`,
    /// and `None` where `divisor` is zero.
    pub fn checked_div_rem(&self, divisor: &Amount) -> (r: Option<(Amount, Amount)>)
        ensures
            match r {
                Some((quotient, remainder)) => divisor@ > 0 && quotient@ == self@ / divisor@
                    && remainder@ == self@ % divisor@,
                None => divisor@ == 0,
            },
    {
        if divisor.is_zero() {
            None
        } else {
            Some(self.div_rem(divisor))
        }
    }

    /// The quotient and the remainder of this amount divided by `divisor`,
    /// which is not zero.
    pub(crate) fn div_rem(&self, divisor: &Amount) -> (r: (Amount, Amount))
        requires
            divisor@ > 0,
        ensures
            r.0@ == self@ / divisor@,
            r.1@ == self@ % divisor@,
    {
        let n = self.digits.len();
        let mut quotient = Amount::zero();
        let mut remainder = Amount::zero();
        let mut i: usize = n;
        while i > 0
            invariant
                i <= n,
                n == self.digits@.len(),
                divisor@ > 0,
                remainder@ < divisor@,
                digits_value(self.digits@.skip(i as int)) == quotient@ * divisor@ + remainder@,
            decreases i,
        {
            let d = self.digits[i - 1];
            let mut rest = remainder.shifted_in(d);
            let mut count: u8 = 0;
            let ghost start = rest@;
            proof {
                assert(start < 256 * divisor@) by (nonlinear_arith)
                    requires
                        start == 256 * remainder@ + d,
                        remainder@ + 1 <= divisor@,
                        d <= 255,
                ;
            }
            loop
                invariant
                    divisor@ > 0,
                    start < 256 * divisor@,
                    start == count * divisor@ + rest@,
                ensures
                    rest@ < divisor@,
                decreases rest@,
            {
                if rest.less_than(divisor) {
                    break ;
                }
                let less = rest.minus(divisor);
                proof {
                    assert(count < 255) by (nonlinear_arith)
                        requires
                            start < 256 * divisor@,
                            start == count * divisor@ + rest@,
                            rest@ >= divisor@,
                            divisor@ > 0,
                    ;
                    assert((count + 1) * divisor@ == count * divisor@ + divisor@)
                        by (nonlinear_arith);
                }
                count += 1;
                rest = less;
            }
            let raised = quotient.shifted_in(count);
            proof {
                let high = self.digits@.skip(i as int);
                let with_d = self.digits@.skip(i - 1);
                assert(with_d.drop_first() =~= high);
                let q = quotient@;
                let v = divisor@;
                assert((256 * q + count) * v == 256 * (q * v) + count * v) by (nonlinear_arith);
            }
            quotient = raised;
            remainder = rest;
            i -= 1;
        }
        proof {
            assert(self.digits@.skip(0) =~= self.digits@);
            vstd::arithmetic::div_mod::lemma_fundamental_div_mod_converse(
                self@ as int,
                divisor@ as int,
                quotient@ as int,
                remainder@ as int,
            );
        }
        (quotient, remainder)
    }

    /// Whether the two amounts are the same number of units.
    pub fn equals(&self, other: &Amount) -> (r: bool)
        ensures
            r == (self@ == other@),
    {
        proof {
            use_type_invariant(self);
            use_type_invariant(other);
            if self@ == other@ {
                lemma_canonical_unique(self.digits@, other.digits@);
            }
        }
        same_bytes(&self.digits, &other.digits)
    }
}

} // verus!
