//! Amounts of money: natural numbers of any size.

use vstd::prelude::*;

verus! {

/// The weight of the digit at position `i`: the base, which is 2^32, to
/// the power `i`.
pub open spec fn weight(i: nat) -> nat
    decreases i,
{
    if i == 0 {
        1
    } else {
        0x1_0000_0000 * weight((i - 1) as nat)
    }
}

/// The digit at position `i`, which is zero beyond the last digit.
pub open spec fn digit(digits: Seq<u32>, i: int) -> nat {
    if 0 <= i < digits.len() {
        digits[i] as nat
    } else {
        0
    }
}

/// The number that the first `n` digits stand for, lowest digit first.
pub open spec fn value_upto(digits: Seq<u32>, n: nat) -> nat
    decreases n,
{
    if n == 0 {
        0
    } else {
        value_upto(digits, (n - 1) as nat) + digit(digits, n - 1) * weight((n - 1) as nat)
    }
}

/// The number that the digits stand for, lowest digit first.
pub open spec fn value_of(digits: Seq<u32>) -> nat {
    value_upto(digits, digits.len())
}

/// Whether the digits have no zero in the highest place, so that every
/// number is written in one way only.
pub open spec fn canonical(digits: Seq<u32>) -> bool {
    digits.len() > 0 ==> digits.last() != 0
}

proof fn lemma_weight_positive(i: nat)
    ensures
        weight(i) >= 1,
    decreases i,
{
    if i > 0 {
        lemma_weight_positive((i - 1) as nat);
    }
}

/// Digits that agree in the first `n` places stand for the same number
/// there.
proof fn lemma_same_digits(a: Seq<u32>, b: Seq<u32>, n: nat)
    requires
        forall|i: int| 0 <= i < n ==> digit(a, i) == digit(b, i),
    ensures
        value_upto(a, n) == value_upto(b, n),
    decreases n,
{
    if n > 0 {
        lemma_same_digits(a, b, (n - 1) as nat);
    }
}

/// Places beyond the last digit add nothing.
proof fn lemma_beyond(digits: Seq<u32>, n: nat)
    requires
        n >= digits.len(),
    ensures
        value_upto(digits, n) == value_of(digits),
    decreases n,
{
    if n > digits.len() {
        lemma_beyond(digits, (n - 1) as nat);
        assert(digit(digits, n - 1) * weight((n - 1) as nat) == 0) by (nonlinear_arith)
            requires
                digit(digits, n - 1) == 0,
        ;
    }
}

/// `n` digits stand for a number below the weight of place `n`.
proof fn lemma_below_weight(digits: Seq<u32>, n: nat)
    ensures
        value_upto(digits, n) < weight(n),
    decreases n,
{
    lemma_weight_positive(n);
    if n > 0 {
        lemma_below_weight(digits, (n - 1) as nat);
        let d = digit(digits, n - 1);
        let w = weight((n - 1) as nat);
        assert(d * w + w <= 0x1_0000_0000 * w) by (nonlinear_arith)
            requires
                d + 1 <= 0x1_0000_0000,
        ;
    }
}

/// A highest digit that is not zero makes the number at least the weight
/// of its place.
proof fn lemma_at_least_weight(digits: Seq<u32>)
    requires
        digits.len() > 0,
        digits.last() != 0,
    ensures
        value_of(digits) >= weight((digits.len() - 1) as nat),
{
    let d = digit(digits, digits.len() - 1);
    let w = weight((digits.len() - 1) as nat);
    assert(d * w >= w) by (nonlinear_arith)
        requires
            d >= 1,
    ;
}

/// An amount of money: a natural number, as large as it needs to be.
#[derive(Debug, PartialEq, Eq)]
pub struct Amount {
    /// The digits to the base 2^32, lowest first, none of them a zero in
    /// the highest place.
    digits: Vec<u32>,
}

impl View for Amount {
    type V = nat;

    closed spec fn view(&self) -> nat {
        value_of(self.digits@)
    }
}

impl Amount {
    #[verifier::type_invariant]
    spec fn well_formed(&self) -> bool {
        canonical(self.digits@)
    }

    /// Nothing.
    pub fn zero() -> (r: Self)
        ensures
            r@ == 0,
    {
        Amount { digits: Vec::new() }
    }

    /// The amount that a machine integer stands for.
    pub fn from_u128(number: u128) -> (r: Self)
        ensures
            r@ == number,
    {
        let mut digits: Vec<u32> = Vec::new();
        let mut rest = number;
        proof {
            assert(rest * weight(0) == rest) by (nonlinear_arith)
                requires
                    weight(0) == 1,
            ;
        }
        while rest > 0
            invariant
                value_of(digits@) + rest * weight(digits@.len()) == number,
                canonical(digits@) || rest > 0,
                rest == 0 ==> canonical(digits@),
            decreases rest,
        {
            let low = (rest % 0x1_0000_0000) as u32;
            let high = rest / 0x1_0000_0000;
            proof {
                let before = digits@;
                let after = before.push(low);
                lemma_same_digits(before, after, before.len());
                let w = weight(before.len());
                assert(rest * w == low * w + high * (0x1_0000_0000 * w)) by (nonlinear_arith)
                    requires
                        rest == high * 0x1_0000_0000 + low,
                ;
            }
            digits.push(low);
            rest = high;
        }
        proof {
            assert(rest * weight(digits@.len()) == 0) by (nonlinear_arith)
                requires
                    rest == 0,
            ;
        }
        Amount { digits }
    }

    /// The amount as a machine integer, if it fits one.
    pub fn to_u128(&self) -> (r: Option<u128>)
        ensures
            r == (if self@ <= u128::MAX {
                Some(self@ as u128)
            } else {
                None
            }),
    {
        proof {
            use_type_invariant(self);
            lemma_weight_4();
        }
        let n = self.digits.len();
        if n > 4 {
            proof {
                lemma_at_least_weight(self.digits@);
                lemma_weight_grows(4, (n - 1) as nat);
            }
            return None;
        }
        let mut total: u128 = 0;
        let mut i: usize = n;
        while i > 0
            invariant
                i <= n,
                n == self.digits@.len(),
                n <= 4,
                total * weight(i as nat) + value_upto(self.digits@, i as nat) == value_of(
                    self.digits@,
                ),
                total < weight((n - i) as nat),
            decreases i,
        {
            i -= 1;
            let d = self.digits[i] as u128;
            proof {
                let w = weight(i as nat);
                lemma_weight_4();
                lemma_weight_grows((n - i) as nat, 4);
                assert(total * (0x1_0000_0000 * w) + d * w == (total * 0x1_0000_0000 + d) * w)
                    by (nonlinear_arith);
            }
            total = total * 0x1_0000_0000 + d;
        }
        proof {
            assert(total * weight(0) == total) by (nonlinear_arith)
                requires
                    weight(0) == 1,
            ;
        }
        Some(total)
    }

    /// The amount that the given digits stand for: base 2^32, lowest digit
    /// first. Zeros in the highest places are of no account.
    pub fn from_digits(digits: Vec<u32>) -> (r: Self)
        ensures
            r@ == value_of(digits@),
    {
        let mut digits = digits;
        let ghost given = digits@;
        while digits.len() > 0 && digits[digits.len() - 1] == 0
            invariant
                value_of(digits@) == value_of(given),
            decreases digits@.len(),
        {
            proof {
                let before = digits@;
                lemma_same_digits(before.drop_last(), before, (before.len() - 1) as nat);
                assert(digit(before, before.len() - 1) * weight((before.len() - 1) as nat) == 0)
                    by (nonlinear_arith)
                    requires
                        digit(before, before.len() - 1) == 0,
                ;
            }
            digits.pop();
        }
        Amount { digits }
    }

    /// The digits of the amount: base 2^32, lowest digit first, without a
    /// zero in the highest place.
    pub fn to_digits(&self) -> (r: Vec<u32>)
        ensures
            value_of(r@) == self@,
            canonical(r@),
    {
        let copy = self.copy();
        proof {
            use_type_invariant(&copy);
        }
        copy.digits
    }

    /// The sum of two amounts.
    pub fn plus(&self, other: &Amount) -> (r: Self)
        ensures
            r@ == self@ + other@,
    {
        proof {
            use_type_invariant(self);
            use_type_invariant(other);
        }
        let la = self.digits.len();
        let lb = other.digits.len();
        let n = if la > lb {
            la
        } else {
            lb
        };
        let mut digits: Vec<u32> = Vec::new();
        let mut carry: u64 = 0;
        let mut i: usize = 0;
        while i < n
            invariant
                i <= n,
                la == self.digits@.len(),
                lb == other.digits@.len(),
                digits@.len() == i,
                carry <= 1,
                value_upto(digits@, i as nat) + carry * weight(i as nat) == value_upto(
                    self.digits@,
                    i as nat,
                ) + value_upto(other.digits@, i as nat),
            decreases n - i,
        {
            let x: u64 = if i < la {
                self.digits[i] as u64
            } else {
                0
            };
            let y: u64 = if i < lb {
                other.digits[i] as u64
            } else {
                0
            };
            let sum: u64 = x + y + carry;
            let low = (sum % 0x1_0000_0000) as u32;
            let high: u64 = sum / 0x1_0000_0000;
            proof {
                let before = digits@;
                let after = before.push(low);
                lemma_same_digits(before, after, i as nat);
                let w = weight(i as nat);
                assert(low * w + high * (0x1_0000_0000 * w) == x * w + y * w + carry * w)
                    by (nonlinear_arith)
                    requires
                        x + y + carry == high * 0x1_0000_0000 + low,
                ;
            }
            digits.push(low);
            carry = high;
            i += 1;
        }
        proof {
            lemma_beyond(self.digits@, n as nat);
            lemma_beyond(other.digits@, n as nat);
        }
        if carry > 0 {
            proof {
                let before = digits@;
                let after = before.push(1u32);
                lemma_same_digits(before, after, n as nat);
                assert(carry * weight(n as nat) == 1 * weight(n as nat)) by (nonlinear_arith)
                    requires
                        carry == 1,
                ;
            }
            digits.push(1);
        } else {
            proof {
                assert(carry * weight(n as nat) == 0) by (nonlinear_arith)
                    requires
                        carry == 0,
                ;
                if n > 0 {
                    if la == n {
                        lemma_at_least_weight(self.digits@);
                    } else {
                        lemma_at_least_weight(other.digits@);
                    }
                    lemma_below_weight(digits@, (n - 1) as nat);
                    if digits@.last() == 0 {
                        assert(digit(digits@, n - 1) * weight((n - 1) as nat) == 0)
                            by (nonlinear_arith)
                            requires
                                digit(digits@, n - 1) == 0,
                        ;
                    }
                }
            }
        }
        Amount { digits }
    }

    /// The difference of two amounts, where the first covers the second.
    pub fn checked_minus(&self, other: &Amount) -> (r: Option<Self>)
        ensures
            match r {
                Some(difference) => self@ >= other@ && difference@ == self@ - other@,
                None => self@ < other@,
            },
    {
        let la = self.digits.len();
        let lb = other.digits.len();
        let n = if la > lb {
            la
        } else {
            lb
        };
        let mut digits: Vec<u32> = Vec::new();
        let mut borrow: i64 = 0;
        let mut i: usize = 0;
        while i < n
            invariant
                i <= n,
                la == self.digits@.len(),
                lb == other.digits@.len(),
                digits@.len() == i,
                0 <= borrow <= 1,
                value_upto(digits@, i as nat) + value_upto(other.digits@, i as nat) == value_upto(
                    self.digits@,
                    i as nat,
                ) + borrow * weight(i as nat),
            decreases n - i,
        {
            let x: i64 = if i < la {
                self.digits[i] as i64
            } else {
                0
            };
            let y: i64 = if i < lb {
                other.digits[i] as i64
            } else {
                0
            };
            let difference: i64 = x - y - borrow;
            let lent: i64 = if difference < 0 {
                1
            } else {
                0
            };
            let low = (difference + lent * 0x1_0000_0000) as u32;
            proof {
                let before = digits@;
                let after = before.push(low);
                lemma_same_digits(before, after, i as nat);
                let w = weight(i as nat);
                assert(low * w + y * w + borrow * w == x * w + lent * (0x1_0000_0000 * w))
                    by (nonlinear_arith)
                    requires
                        low + y + borrow == x + lent * 0x1_0000_0000,
                ;
            }
            digits.push(low);
            borrow = lent;
            i += 1;
        }
        proof {
            lemma_beyond(self.digits@, n as nat);
            lemma_beyond(other.digits@, n as nat);
            lemma_below_weight(digits@, n as nat);
        }
        if borrow > 0 {
            proof {
                assert(borrow * weight(n as nat) == weight(n as nat)) by (nonlinear_arith)
                    requires
                        borrow == 1,
                ;
            }
            return None;
        }
        proof {
            assert(borrow * weight(n as nat) == 0) by (nonlinear_arith)
                requires
                    borrow == 0,
            ;
        }
        while digits.len() > 0 && digits[digits.len() - 1] == 0
            invariant
                value_of(digits@) + value_of(other.digits@) == value_of(self.digits@),
            decreases digits@.len(),
        {
            proof {
                let before = digits@;
                lemma_same_digits(before.drop_last(), before, (before.len() - 1) as nat);
                assert(digit(before, before.len() - 1) * weight((before.len() - 1) as nat) == 0)
                    by (nonlinear_arith)
                    requires
                        digit(before, before.len() - 1) == 0,
                ;
            }
            digits.pop();
        }
        Some(Amount { digits })
    }

    /// Whether the amount covers another.
    pub fn covers(&self, other: &Amount) -> (r: bool)
        ensures
            r == (self@ >= other@),
    {
        self.checked_minus(other).is_some()
    }

    /// A copy of the amount.
    pub fn copy(&self) -> (r: Self)
        ensures
            r@ == self@,
    {
        proof {
            use_type_invariant(self);
        }
        let mut digits: Vec<u32> = Vec::new();
        let mut i: usize = 0;
        while i < self.digits.len()
            invariant
                i <= self.digits@.len(),
                digits@ == self.digits@.take(i as int),
            decreases self.digits.len() - i,
        {
            digits.push(self.digits[i]);
            proof {
                assert(self.digits@.take(i as int).push(self.digits@[i as int])
                    =~= self.digits@.take(i + 1));
            }
            i += 1;
        }
        proof {
            assert(self.digits@.take(i as int) =~= self.digits@);
        }
        Amount { digits }
    }
}

impl Clone for Amount {
    fn clone(&self) -> (r: Self)
        ensures
            r@ == self@,
    {
        self.copy()
    }
}

/// The weights of the first places, by number.
proof fn lemma_weight_4()
    ensures
        weight(0) == 1,
        weight(1) == 0x1_0000_0000,
        weight(2) == 0x1_0000_0000_0000_0000,
        weight(3) == 0x1_0000_0000_0000_0000_0000_0000,
        weight(4) == 0x1_0000_0000_0000_0000_0000_0000_0000_0000,
{
    reveal_with_fuel(weight, 5);
}

/// Higher places weigh more.
proof fn lemma_weight_grows(i: nat, j: nat)
    requires
        i <= j,
    ensures
        weight(i) <= weight(j),
    decreases j,
{
    if i < j {
        lemma_weight_grows(i, (j - 1) as nat);
        lemma_weight_positive((j - 1) as nat);
    }
}

} // verus!
