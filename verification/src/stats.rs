//! The aggregation engine: dashboard statistics derived by scanning the
//! raw ledger rows of one kermesse. Nothing is cached; every figure is
//! recomputed from the current rows.

use vstd::prelude::*;
use crate::amount::{
    coverage_percent_spec, percent_of_ratio, progress_percent_spec, AMOUNT_MAX_HUNDREDTHS,
};
use crate::collab::organizer_gate;
use crate::donations::donated_total;
use crate::ledger::Ledger;
use crate::model::{DashboardStats, Donation, Ingredient, LedgerError, Sale, SaleStatus};

verus! {

/// The funds raised for one kermesse: the sum of the totals of its paid and
/// delivered sales, in hundredths. Pending sales are excluded.
pub open spec fn raised_total(sales: Seq<Sale>, kermesse_id: i32) -> int
    decreases sales.len(),
{
    if sales.len() == 0 {
        0
    } else {
        raised_total(sales.drop_last(), kermesse_id) + {
            let s = sales.last();
            if s.kermesse_id == kermesse_id && (s.status == SaleStatus::Paid || s.status
                == SaleStatus::Delivered) {
                s.total_amount.value()
            } else {
                0
            }
        }
    }
}

/// How many sales one kermesse has, in any status.
pub open spec fn count_orders(sales: Seq<Sale>, kermesse_id: i32) -> int
    decreases sales.len(),
{
    if sales.len() == 0 {
        0
    } else {
        count_orders(sales.drop_last(), kermesse_id) + if sales.last().kermesse_id
            == kermesse_id {
            1int
        } else {
            0int
        }
    }
}

/// How many sales one kermesse has in one status.
pub open spec fn count_with_status(sales: Seq<Sale>, kermesse_id: i32, status: SaleStatus) -> int
    decreases sales.len(),
{
    if sales.len() == 0 {
        0
    } else {
        count_with_status(sales.drop_last(), kermesse_id, status) + if sales.last().kermesse_id
            == kermesse_id && sales.last().status == status {
            1int
        } else {
            0int
        }
    }
}

/// The total stated ingredient need of one kermesse, in hundredths.
pub open spec fn needed_total(ings: Seq<Ingredient>, kermesse_id: i32) -> int
    decreases ings.len(),
{
    if ings.len() == 0 {
        0
    } else {
        needed_total(ings.drop_last(), kermesse_id) + if ings.last().kermesse_id == kermesse_id {
            ings.last().quantity_needed.value()
        } else {
            0
        }
    }
}

/// The total donated toward one kermesse: the sum over all logged donations
/// whose ingredient belongs to the kermesse, in hundredths.
pub open spec fn kermesse_donated_total(l: Ledger, ds: Seq<Donation>, kermesse_id: i32) -> int
    decreases ds.len(),
{
    if ds.len() == 0 {
        0
    } else {
        kermesse_donated_total(l, ds.drop_last(), kermesse_id) + {
            let d = ds.last();
            if l.has_ingredient(d.ingredient_id) && l.ingredient_at(d.ingredient_id).kermesse_id
                == kermesse_id {
                d.quantity.value()
            } else {
                0
            }
        }
    }
}

/// The sum, over a list of ingredients, of each listed ingredient of the
/// kermesse's own donated total over one donation log.
pub open spec fn per_ingredient_donated(
    ds: Seq<Donation>,
    ings: Seq<Ingredient>,
    kermesse_id: i32,
) -> int
    decreases ings.len(),
{
    if ings.len() == 0 {
        0
    } else {
        per_ingredient_donated(ds, ings.drop_last(), kermesse_id) + if ings.last().kermesse_id
            == kermesse_id {
            donated_total(ds, ings.last().id)
        } else {
            0
        }
    }
}

/// What one donation contributes to the per-ingredient sums: its quantity,
/// once for every listed ingredient it addresses within the kermesse.
spec fn ingredient_hit(ings: Seq<Ingredient>, d: Donation, kermesse_id: i32) -> int
    decreases ings.len(),
{
    if ings.len() == 0 {
        0
    } else {
        ingredient_hit(ings.drop_last(), d, kermesse_id) + if ings.last().id == d.ingredient_id
            && ings.last().kermesse_id == kermesse_id {
            d.quantity.value()
        } else {
            0
        }
    }
}

/// With no donations logged, every per-ingredient sum is zero.
proof fn lemma_per_ingredient_empty(ings: Seq<Ingredient>, kermesse_id: i32)
    ensures
        per_ingredient_donated(Seq::<Donation>::empty(), ings, kermesse_id) == 0,
    decreases ings.len(),
{
    if ings.len() > 0 {
        lemma_per_ingredient_empty(ings.drop_last(), kermesse_id);
    }
}

/// Appending one donation grows the per-ingredient sums by exactly that
/// donation's hit.
proof fn lemma_per_ingredient_push(
    ds: Seq<Donation>,
    d: Donation,
    ings: Seq<Ingredient>,
    kermesse_id: i32,
)
    ensures
        per_ingredient_donated(ds.push(d), ings, kermesse_id) == per_ingredient_donated(
            ds,
            ings,
            kermesse_id,
        ) + ingredient_hit(ings, d, kermesse_id),
    decreases ings.len(),
{
    assert(ds.push(d).drop_last() =~= ds);
    if ings.len() > 0 {
        lemma_per_ingredient_push(ds, d, ings.drop_last(), kermesse_id);
    }
}

/// Over a dense ingredient table, one donation hits exactly the ingredient
/// it names, and contributes only when that ingredient belongs to the
/// kermesse.
proof fn lemma_ingredient_hit_dense(ings: Seq<Ingredient>, d: Donation, kermesse_id: i32)
    requires
        forall|j: int| 0 <= j < ings.len() ==> (#[trigger] ings[j]).id == j + 1,
    ensures
        ingredient_hit(ings, d, kermesse_id) == if 1 <= d.ingredient_id <= ings.len() && ings[
            d.ingredient_id - 1
        ].kermesse_id == kermesse_id {
            d.quantity.value()
        } else {
            0
        },
    decreases ings.len(),
{
    if ings.len() > 0 {
        lemma_ingredient_hit_dense(ings.drop_last(), d, kermesse_id);
    }
}

/// Generalization of `lemma_donated_totals_agree` over any donation log.
proof fn lemma_donated_totals_agree_on(l: Ledger, ds: Seq<Donation>, kermesse_id: i32)
    requires
        forall|j: int|
            0 <= j < l.ingredients@.len() ==> (#[trigger] l.ingredients@[j]).id == j + 1,
    ensures
        kermesse_donated_total(l, ds, kermesse_id) == per_ingredient_donated(
            ds,
            l.ingredients@,
            kermesse_id,
        ),
    decreases ds.len(),
{
    if ds.len() == 0 {
        lemma_per_ingredient_empty(l.ingredients@, kermesse_id);
        assert(ds =~= Seq::<Donation>::empty());
    } else {
        let d = ds.last();
        lemma_donated_totals_agree_on(l, ds.drop_last(), kermesse_id);
        lemma_per_ingredient_push(ds.drop_last(), d, l.ingredients@, kermesse_id);
        assert(ds.drop_last().push(d) =~= ds);
        lemma_ingredient_hit_dense(l.ingredients@, d, kermesse_id);
    }
}

/// The two read paths agree: the dashboard's fold over the donation log
/// equals the sum, over the kermesse's ingredients, of the per-ingredient
/// donated totals that the progress report derives.
pub proof fn lemma_donated_totals_agree(l: Ledger, kermesse_id: i32)
    requires
        l.wf(),
    ensures
        kermesse_donated_total(l, l.donations@, kermesse_id) == per_ingredient_donated(
            l.donations@,
            l.ingredients@,
            kermesse_id,
        ),
{
    lemma_donated_totals_agree_on(l, l.donations@, kermesse_id);
}

/// An event with no ingredients, or whose ingredients all state a need of
/// zero, has a needed total of zero and hence vacuously full coverage,
/// whatever has been donated.
pub proof fn lemma_vacuous_coverage(ings: Seq<Ingredient>, kermesse_id: i32)
    requires
        forall|j: int|
            0 <= j < ings.len() && (#[trigger] ings[j]).kermesse_id == kermesse_id
                ==> ings[j].quantity_needed.value() == 0,
    ensures
        needed_total(ings, kermesse_id) == 0,
        forall|donated: int|
            #[trigger] coverage_percent_spec(donated, needed_total(ings, kermesse_id)) == 10000,
    decreases ings.len(),
{
    if ings.len() > 0 {
        lemma_vacuous_coverage(ings.drop_last(), kermesse_id);
    }
}

/// A sum of at most `n` representable amounts stays small enough that
/// taking it times 10000 fits a `u128`.
proof fn lemma_percent_numerator_safe(sum: int, n: int)
    requires
        0 <= sum,
        sum <= n * AMOUNT_MAX_HUNDREDTHS,
        0 <= n <= 0xFFFF_FFFF_FFFF_FFFF,
    ensures
        sum * 10000 <= u128::MAX,
{
    assert(sum * 10000 <= u128::MAX) by (nonlinear_arith)
        requires
            0 <= sum,
            sum <= n * AMOUNT_MAX_HUNDREDTHS,
            0 <= n <= 0xFFFF_FFFF_FFFF_FFFF,
    ;
}

impl Ledger {
    /// Derives the dashboard figures of one kermesse for its organizer:
    /// the funds raised by paid and delivered sales, the order counts by
    /// status, the progress toward the financial goal, and the ingredient
    /// coverage, both percentages exact and clamped to [0, 100].
    pub fn dashboard_stats(&self, kermesse_id: i32, caller_id: i32) -> (r: Result<
        DashboardStats,
        LedgerError,
    >)
        requires
            self.wf(),
        ensures
            match r {
                Ok(st) => {
                    &&& organizer_gate(*self, kermesse_id, caller_id) is None
                    &&& st.financial_goal == self.kermesse_at(kermesse_id).financial_goal
                    &&& st.total_raised == raised_total(self.sales@, kermesse_id)
                    &&& st.total_orders == count_orders(self.sales@, kermesse_id)
                    &&& st.pending_orders == count_with_status(
                        self.sales@,
                        kermesse_id,
                        SaleStatus::Pending,
                    )
                    &&& st.paid_orders == count_with_status(
                        self.sales@,
                        kermesse_id,
                        SaleStatus::Paid,
                    )
                    &&& st.delivered_orders == count_with_status(
                        self.sales@,
                        kermesse_id,
                        SaleStatus::Delivered,
                    )
                    &&& st.progress_percentage == progress_percent_spec(
                        st.financial_goal,
                        raised_total(self.sales@, kermesse_id),
                    )
                    &&& st.ingredient_coverage_percentage == coverage_percent_spec(
                        kermesse_donated_total(*self, self.donations@, kermesse_id),
                        needed_total(self.ingredients@, kermesse_id),
                    )
                    &&& st.progress_percentage <= 10000
                    &&& st.ingredient_coverage_percentage <= 10000
                },
                Err(e) => organizer_gate(*self, kermesse_id, caller_id) == Some(e),
            },
    {
        let k = match self.find_kermesse(kermesse_id) {
            Some(k) => k,
            None => {
                return Err(LedgerError::KermesseNotFound);
            },
        };
        if k.organizer_id != caller_id {
            return Err(LedgerError::Forbidden);
        }
        let financial_goal = k.financial_goal;

        // One pass over the sales: raised funds and the counts by status.
        let mut raised: u128 = 0;
        let mut total_orders: u64 = 0;
        let mut pending_orders: u64 = 0;
        let mut paid_orders: u64 = 0;
        let mut delivered_orders: u64 = 0;
        let n = self.sales.len();
        for i in 0..n
            invariant
                self.wf(),
                n == self.sales@.len(),
                raised == raised_total(self.sales@.take(i as int), kermesse_id),
                raised <= (i as int) * AMOUNT_MAX_HUNDREDTHS,
                total_orders == count_orders(self.sales@.take(i as int), kermesse_id),
                pending_orders == count_with_status(
                    self.sales@.take(i as int),
                    kermesse_id,
                    SaleStatus::Pending,
                ),
                paid_orders == count_with_status(
                    self.sales@.take(i as int),
                    kermesse_id,
                    SaleStatus::Paid,
                ),
                delivered_orders == count_with_status(
                    self.sales@.take(i as int),
                    kermesse_id,
                    SaleStatus::Delivered,
                ),
                total_orders <= i,
                pending_orders <= i,
                paid_orders <= i,
                delivered_orders <= i,
        {
            proof {
                assert(self.sales@.take(i as int + 1).drop_last() =~= self.sales@.take(i as int));
                assert(self.sales@.take(i as int + 1).last() == self.sales@[i as int]);
                assert(self.sale_wf(self.sales@[i as int]));
                assert((i as int) * (AMOUNT_MAX_HUNDREDTHS as int) + AMOUNT_MAX_HUNDREDTHS == (
                i as int + 1) * AMOUNT_MAX_HUNDREDTHS) by (nonlinear_arith);
                assert((i as int) * (AMOUNT_MAX_HUNDREDTHS as int) <= 0xFFFF_FFFF_FFFF_FFFF
                    * (AMOUNT_MAX_HUNDREDTHS as int)) by (nonlinear_arith)
                    requires
                        0 <= i <= 0xFFFF_FFFF_FFFF_FFFF,
                ;
            }
            let s = &self.sales[i];
            if s.kermesse_id == kermesse_id {
                total_orders = total_orders + 1;
                match s.status {
                    SaleStatus::Pending => {
                        pending_orders = pending_orders + 1;
                    },
                    SaleStatus::Paid => {
                        paid_orders = paid_orders + 1;
                        raised = raised + s.total_amount.hundredths as u128;
                    },
                    SaleStatus::Delivered => {
                        delivered_orders = delivered_orders + 1;
                        raised = raised + s.total_amount.hundredths as u128;
                    },
                }
            }
        }
        proof {
            assert(self.sales@.take(n as int) =~= self.sales@);
        }

        // One pass over the ingredients: the total stated need.
        let mut needed: u128 = 0;
        let m = self.ingredients.len();
        for i in 0..m
            invariant
                self.wf(),
                m == self.ingredients@.len(),
                needed == needed_total(self.ingredients@.take(i as int), kermesse_id),
                needed <= (i as int) * AMOUNT_MAX_HUNDREDTHS,
        {
            proof {
                assert(self.ingredients@.take(i as int + 1).drop_last() =~= self.ingredients@.take(
                    i as int,
                ));
                assert(self.ingredients@.take(i as int + 1).last() == self.ingredients@[i as int]);
                assert(self.ingredient_wf(self.ingredients@[i as int]));
                assert((i as int) * (AMOUNT_MAX_HUNDREDTHS as int) + AMOUNT_MAX_HUNDREDTHS == (
                i as int + 1) * AMOUNT_MAX_HUNDREDTHS) by (nonlinear_arith);
                assert((i as int) * (AMOUNT_MAX_HUNDREDTHS as int) <= 0xFFFF_FFFF_FFFF_FFFF
                    * (AMOUNT_MAX_HUNDREDTHS as int)) by (nonlinear_arith)
                    requires
                        0 <= i <= 0xFFFF_FFFF_FFFF_FFFF,
                ;
            }
            let ing = &self.ingredients[i];
            if ing.kermesse_id == kermesse_id {
                needed = needed + ing.quantity_needed.hundredths as u128;
            }
        }
        proof {
            assert(self.ingredients@.take(m as int) =~= self.ingredients@);
        }

        // One pass over the donation log: the total donated toward this
        // kermesse's ingredients.
        let mut donated: u128 = 0;
        let p = self.donations.len();
        for i in 0..p
            invariant
                self.wf(),
                p == self.donations@.len(),
                donated == kermesse_donated_total(
                    *self,
                    self.donations@.take(i as int),
                    kermesse_id,
                ),
                donated <= (i as int) * AMOUNT_MAX_HUNDREDTHS,
        {
            proof {
                assert(self.donations@.take(i as int + 1).drop_last() =~= self.donations@.take(
                    i as int,
                ));
                assert(self.donations@.take(i as int + 1).last() == self.donations@[i as int]);
                assert(self.donation_wf(self.donations@[i as int]));
                assert((i as int) * (AMOUNT_MAX_HUNDREDTHS as int) + AMOUNT_MAX_HUNDREDTHS == (
                i as int + 1) * AMOUNT_MAX_HUNDREDTHS) by (nonlinear_arith);
                assert((i as int) * (AMOUNT_MAX_HUNDREDTHS as int) <= 0xFFFF_FFFF_FFFF_FFFF
                    * (AMOUNT_MAX_HUNDREDTHS as int)) by (nonlinear_arith)
                    requires
                        0 <= i <= 0xFFFF_FFFF_FFFF_FFFF,
                ;
            }
            let d = &self.donations[i];
            let ing = &self.ingredients[(d.ingredient_id - 1) as usize];
            if ing.kermesse_id == kermesse_id {
                donated = donated + d.quantity.hundredths as u128;
            }
        }
        proof {
            assert(self.donations@.take(p as int) =~= self.donations@);
        }

        // Exact percentage derivation, clamped to [0, 100].
        let progress_percentage: u32 = match financial_goal {
            Some(g) => if g.hundredths > 0 {
                proof {
                    lemma_percent_numerator_safe(raised as int, n as int);
                }
                percent_of_ratio(raised, g.hundredths as u128)
            } else {
                0
            },
            None => 0,
        };
        let ingredient_coverage_percentage: u32 = if needed > 0 {
            proof {
                lemma_percent_numerator_safe(donated as int, p as int);
            }
            percent_of_ratio(donated, needed)
        } else {
            10000
        };

        Ok(
            DashboardStats {
                financial_goal,
                total_raised: raised,
                progress_percentage,
                total_orders,
                pending_orders,
                paid_orders,
                delivered_orders,
                ingredient_coverage_percentage,
            },
        )
    }
}

} // verus!
