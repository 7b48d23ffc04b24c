use vstd::prelude::*;

verus! {

/// Division rounded toward zero, as integer division on a machine does it.
pub open spec fn trunc_div(a: int, b: int) -> int
    recommends
        b > 0,
{
    if a >= 0 {
        a / b
    } else {
        -((-a) / b)
    }
}

/// The quarter-grid value that `round_up_quarter` gives for `num / den`
/// quarters: the remainder of the division by a quarter is dropped (toward
/// zero) and one full quarter is added.
pub open spec fn round_up_spec(num: int, den: int) -> int {
    trunc_div(num, den) + 1
}

/// Whether an exact value fits the machine range used for fractions.
pub open spec fn fits(x: int) -> bool {
    -i128::MAX < x < i128::MAX
}

/// A rational number of quarters of a point: `num / den` quarters.
#[derive(Clone, Copy, Debug, PartialEq, Eq)]
pub struct Fraction {
    pub num: i128,
    pub den: i128,
}

impl Fraction {
    pub open spec fn wf(self) -> bool {
        self.den > 0 && fits(self.num as int) && fits(self.den as int)
    }

    /// A whole number of quarters.
    pub fn from_quarters(q: i64) -> (r: Fraction)
        ensures
            r.num == q,
            r.den == 1,
            r.wf(),
    {
        Fraction { num: q as i128, den: 1 }
    }
}

/// Dividing by at least `k` shrinks a value's size at least `k`-fold.
pub proof fn lemma_trunc_div_shrinks(n: int, d: int, k: int)
    requires
        1 <= k <= d,
    ensures
        n >= 0 ==> 0 <= trunc_div(n, d) <= n / k,
        n < 0 ==> -((-n) / k) <= trunc_div(n, d) <= 0,
{
    if n >= 0 {
        assert(0 <= n / d <= n / k) by (nonlinear_arith)
            requires n >= 0, 1 <= k <= d;
    } else {
        assert(0 <= (-n) / d <= (-n) / k) by (nonlinear_arith)
            requires -n > 0, 1 <= k <= d;
    }
}

/// Rounds `x` up onto the quarter grid by adding `0.25 - (x mod 0.25)`, where
/// `x` is `f.num / f.den` quarters and the remainder has the sign of `x`.
/// The result, in whole quarters, is always strictly greater than `x`: a value
/// already on the grid moves up by one full quarter.
pub fn round_up_quarter(f: Fraction) -> (r: i128)
    requires
        f.wf(),
    ensures
        r == round_up_spec(f.num as int, f.den as int),
{
    let t: i128 = if f.num >= 0 {
        f.num / f.den
    } else {
        -((-f.num) / f.den)
    };
    assert(t == trunc_div(f.num as int, f.den as int));
    proof {
        lemma_trunc_div_shrinks(f.num as int, f.den as int, 1);
    }
    t + 1
}

/// Rounding up never has a fixed point: the result, read as `r / 4` points,
/// is strictly greater than the input and lies on the quarter grid (it is a
/// whole number of quarters). For a non-negative input it is the least such
/// grid value.
pub proof fn lemma_round_up_exceeds(num: int, den: int)
    requires
        den > 0,
    ensures
        round_up_spec(num, den) * den > num,
        num >= 0 ==> (round_up_spec(num, den) - 1) * den <= num,
{
    let t = trunc_div(num, den);
    if num >= 0 {
        assert(t * den <= num && num < (t + 1) * den) by (nonlinear_arith)
            requires t == num / den, num >= 0, den > 0;
    } else {
        let q = (-num) / den;
        assert(q * den <= -num) by (nonlinear_arith)
            requires q == (-num) / den, -num > 0, den > 0;
        assert((-q + 1) * den > num) by (nonlinear_arith)
            requires q * den <= -num, den > 0;
    }
}

} // verus!
