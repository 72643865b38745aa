//! Exact fixed-point amounts and percentage derivation.
//!
//! Money and ingredient quantities are counts of hundredths (two decimal
//! places), so all arithmetic is exact integer arithmetic: no binary
//! floating point ever touches a stored amount. Percentages are derived as
//! hundredths of a percent, clamped to the closed interval [0, 100].

use vstd::prelude::*;

verus! {

/// Largest representable amount, in hundredths. The bound keeps every sum
/// of amounts (over at most `usize::MAX` rows) and every percentage
/// numerator inside `u128`.
pub const AMOUNT_MAX_HUNDREDTHS: u64 = 1000000000000000u64;

/// A non-negative exact decimal with two fractional digits, stored as a
/// count of hundredths (`12.34` is `1234`).
#[derive(Clone, Copy, Debug, PartialEq, Eq, Structural)]
pub struct Amount {
    pub hundredths: u64,
}

impl Amount {
    /// The amount as a mathematical integer count of hundredths.
    pub open spec fn value(self) -> int {
        self.hundredths as int
    }

    /// A representable amount: at most `AMOUNT_MAX_HUNDREDTHS`.
    pub open spec fn wf(self) -> bool {
        self.hundredths <= AMOUNT_MAX_HUNDREDTHS
    }

    /// Builds an amount from a count of hundredths; rejects values beyond
    /// the representable range.
    pub fn new(hundredths: u64) -> (r: Option<Amount>)
        ensures
            hundredths <= AMOUNT_MAX_HUNDREDTHS ==> r == Some(Amount { hundredths }),
            hundredths > AMOUNT_MAX_HUNDREDTHS ==> r is None,
    {
        if hundredths <= AMOUNT_MAX_HUNDREDTHS {
            Some(Amount { hundredths })
        } else {
            None
        }
    }

    /// The zero amount.
    pub fn zero() -> (r: Amount)
        ensures
            r.value() == 0,
            r.wf(),
    {
        Amount { hundredths: 0 }
    }

    /// Whether the amount is strictly positive.
    pub fn is_positive(&self) -> (r: bool)
        ensures
            r == (self.value() > 0),
    {
        self.hundredths > 0
    }
}

/// `num / den` as hundredths of a percent, clamped from above at 100%.
/// Meaningful for `num >= 0` and `den > 0`.
pub open spec fn ratio_percent_hundredths(num: int, den: int) -> int {
    if num >= den {
        10000
    } else {
        num * 10000 / den
    }
}

/// Financial progress toward a goal, in hundredths of a percent: zero when
/// no positive goal is set, else raised-to-goal clamped to [0, 100].
pub open spec fn progress_percent_spec(goal: Option<Amount>, raised: int) -> int {
    match goal {
        Some(g) => if g.value() > 0 {
            ratio_percent_hundredths(raised, g.value())
        } else {
            0
        },
        None => 0,
    }
}

/// Ingredient coverage, in hundredths of a percent: donated-to-needed
/// clamped to [0, 100], and vacuously 100% when nothing is needed.
pub open spec fn coverage_percent_spec(donated: int, needed: int) -> int {
    if needed > 0 {
        ratio_percent_hundredths(donated, needed)
    } else {
        10000
    }
}

/// Computes `ratio_percent_hundredths` on machine integers.
pub fn percent_of_ratio(num: u128, den: u128) -> (r: u32)
    requires
        den > 0,
        num < den ==> num * 10000 <= u128::MAX,
    ensures
        r == ratio_percent_hundredths(num as int, den as int),
        r <= 10000,
{
    if num >= den {
        10000
    } else {
        let q: u128 = (num * 10000) / den;
        proof {
            lemma_ratio_below_full(num as int, den as int);
        }
        q as u32
    }
}

/// A ratio strictly below one stays strictly below 100%.
proof fn lemma_ratio_below_full(num: int, den: int)
    requires
        0 <= num < den,
    ensures
        0 <= num * 10000 / den < 10000,
{
    assert(0 <= num * 10000 / den < 10000) by (nonlinear_arith)
        requires
            0 <= num < den,
    ;
}

/// Coverage stays inside [0, 100] whenever something is needed, and is
/// exactly 100% as soon as the donations meet the need.
pub proof fn lemma_coverage_percent_clamped(donated: int, needed: int)
    requires
        needed > 0,
        donated >= 0,
    ensures
        0 <= coverage_percent_spec(donated, needed) <= 10000,
        donated >= needed ==> coverage_percent_spec(donated, needed) == 10000,
{
    if donated < needed {
        lemma_ratio_below_full(donated, needed);
    }
}

/// Financial progress stays inside [0, 100] for every goal.
pub proof fn lemma_progress_percent_clamped(goal: Option<Amount>, raised: int)
    requires
        raised >= 0,
    ensures
        0 <= progress_percent_spec(goal, raised) <= 10000,
{
    if goal is Some && goal->Some_0.value() > 0 && raised < goal->Some_0.value() {
        lemma_ratio_below_full(raised, goal->Some_0.value());
    }
}

} // verus!
