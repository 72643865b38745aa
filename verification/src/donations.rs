//! The donation accumulator: appending immutable in-kind donations and the
//! read-side fold that derives each ingredient's donated total on demand.
//!
//! No running total is ever stored: a donated total is recomputed from the
//! append-only donation log at every read, so it is always consistent with
//! the log.

use vstd::prelude::*;
use crate::amount::{Amount, AMOUNT_MAX_HUNDREDTHS};
use crate::ledger::Ledger;
use crate::model::{Donation, Ingredient, IngredientWithProgress, LedgerError};

verus! {

/// The sum of all donated quantities for one ingredient, in hundredths.
pub open spec fn donated_total(ds: Seq<Donation>, ingredient_id: i32) -> int
    decreases ds.len(),
{
    if ds.len() == 0 {
        0
    } else {
        donated_total(ds.drop_last(), ingredient_id) + if ds.last().ingredient_id
            == ingredient_id {
            ds.last().quantity.value()
        } else {
            0
        }
    }
}

/// Why a donation is refused: a non-positive quantity first, then a missing
/// ingredient. `None` means the donation is appended.
pub open spec fn donation_error(l: Ledger, ingredient_id: i32, quantity: Amount) -> Option<
    LedgerError,
> {
    if quantity.value() <= 0 {
        Some(LedgerError::NonPositiveDonation)
    } else if !l.has_ingredient(ingredient_id) {
        Some(LedgerError::IngredientNotFound)
    } else {
        None
    }
}

/// One ingredient with its derived donated total.
pub open spec fn progress_row_of(l: Ledger, ing: Ingredient) -> IngredientWithProgress {
    IngredientWithProgress {
        id: ing.id,
        name: ing.name,
        quantity_needed: ing.quantity_needed,
        unit: ing.unit,
        quantity_donated: donated_total(l.donations@, ing.id) as u128,
    }
}

/// The progress rows of one kermesse's ingredients, in ledger order.
pub open spec fn ingredient_rows_of(l: Ledger, ings: Seq<Ingredient>, kermesse_id: i32) -> Seq<
    IngredientWithProgress,
>
    decreases ings.len(),
{
    if ings.len() == 0 {
        Seq::empty()
    } else {
        let rest = ingredient_rows_of(l, ings.drop_last(), kermesse_id);
        if ings.last().kermesse_id == kermesse_id {
            rest.push(progress_row_of(l, ings.last()))
        } else {
            rest
        }
    }
}

/// A donated total is non-negative and at most one maximal amount per
/// logged donation.
pub proof fn lemma_donated_total_bounds(ds: Seq<Donation>, ingredient_id: i32)
    requires
        forall|j: int| 0 <= j < ds.len() ==> (#[trigger] ds[j]).quantity.wf(),
    ensures
        0 <= donated_total(ds, ingredient_id),
        donated_total(ds, ingredient_id) <= ds.len() * AMOUNT_MAX_HUNDREDTHS,
    decreases ds.len(),
{
    if ds.len() > 0 {
        lemma_donated_total_bounds(ds.drop_last(), ingredient_id);
    }
}

impl Ledger {
    /// Sums the donation log for one ingredient, in hundredths.
    pub fn donated_for(&self, ingredient_id: i32) -> (r: u128)
        requires
            self.wf(),
        ensures
            r == donated_total(self.donations@, ingredient_id),
            r <= self.donations@.len() * AMOUNT_MAX_HUNDREDTHS,
    {
        let mut sum: u128 = 0;
        let n = self.donations.len();
        for i in 0..n
            invariant
                self.wf(),
                n == self.donations@.len(),
                sum == donated_total(self.donations@.take(i as int), ingredient_id),
                sum <= (i as int) * AMOUNT_MAX_HUNDREDTHS,
        {
            proof {
                assert(self.donations@.take(i as int + 1).drop_last() =~= self.donations@.take(
                    i as int,
                ));
                assert(self.donations@.take(i as int + 1).last() == self.donations@[i as int]);
                assert(self.donation_wf(self.donations@[i as int]));
                assert((i as int) * (AMOUNT_MAX_HUNDREDTHS as int) + AMOUNT_MAX_HUNDREDTHS == (
                i as int + 1) * AMOUNT_MAX_HUNDREDTHS) by (nonlinear_arith);
                assert((i as int) * (AMOUNT_MAX_HUNDREDTHS as int) <= 0xFFFF_FFFF_FFFF_FFFF
                    * (AMOUNT_MAX_HUNDREDTHS as int)) by (nonlinear_arith)
                    requires
                        0 <= i <= 0xFFFF_FFFF_FFFF_FFFF,
                ;
            }
            let d = &self.donations[i];
            if d.ingredient_id == ingredient_id {
                sum = sum + d.quantity.hundredths as u128;
            }
        }
        proof {
            assert(self.donations@.take(n as int) =~= self.donations@);
        }
        sum
    }

    /// Appends one immutable donation toward an ingredient. Donations are
    /// never merged: repeated donations from one user all count, and every
    /// ingredient's derived total grows by exactly this quantity.
    pub fn record_donation(&mut self, ingredient_id: i32, user_id: i32, quantity: Amount) -> (r:
        Result<i32, LedgerError>)
        requires
            old(self).wf(),
            old(self).donations@.len() < 0x7FFF_FFFF,
            quantity.wf(),
        ensures
            final(self).wf(),
            final(self).same_except_donations(*old(self)),
            match r {
                Ok(id) => {
                    &&& donation_error(*old(self), ingredient_id, quantity) is None
                    &&& id == old(self).donations@.len() + 1
                    &&& final(self).donations@ == old(self).donations@.push(
                        (Donation { id, ingredient_id, user_id, quantity }),
                    )
                    &&& donated_total(final(self).donations@, ingredient_id) == donated_total(
                        old(self).donations@,
                        ingredient_id,
                    ) + quantity.value()
                    &&& forall|other: i32|
                        other != ingredient_id ==> #[trigger] donated_total(
                            final(self).donations@,
                            other,
                        ) == donated_total(old(self).donations@, other)
                },
                Err(e) => {
                    &&& *final(self) == *old(self)
                    &&& donation_error(*old(self), ingredient_id, quantity) == Some(e)
                },
            },
    {
        if !quantity.is_positive() {
            return Err(LedgerError::NonPositiveDonation);
        }
        if self.find_ingredient(ingredient_id).is_none() {
            return Err(LedgerError::IngredientNotFound);
        }
        let id = (self.donations.len() as i32) + 1;
        self.donations.push(Donation { id, ingredient_id, user_id, quantity });
        proof {
            assert(self.donations@.drop_last() =~= old(self).donations@);
        }
        Ok(id)
    }

    /// Reports every ingredient of a kermesse with its donated total,
    /// recomputed from the donation log at call time.
    pub fn ingredient_progress(&self, kermesse_id: i32) -> (r: Vec<IngredientWithProgress>)
        requires
            self.wf(),
        ensures
            r@ == ingredient_rows_of(*self, self.ingredients@, kermesse_id),
    {
        let mut out: Vec<IngredientWithProgress> = Vec::new();
        let n = self.ingredients.len();
        for i in 0..n
            invariant
                self.wf(),
                n == self.ingredients@.len(),
                out@ == ingredient_rows_of(*self, self.ingredients@.take(i as int), kermesse_id),
        {
            proof {
                assert(self.ingredients@.take(i as int + 1).drop_last() =~= self.ingredients@.take(
                    i as int,
                ));
                assert(self.ingredients@.take(i as int + 1).last() == self.ingredients@[i as int]);
            }
            let ing = &self.ingredients[i];
            if ing.kermesse_id == kermesse_id {
                let donated = self.donated_for(ing.id);
                out.push(
                    IngredientWithProgress {
                        id: ing.id,
                        name: ing.name.clone(),
                        quantity_needed: ing.quantity_needed,
                        unit: ing.unit.clone(),
                        quantity_donated: donated,
                    },
                );
                proof {
                    lemma_donated_total_bounds(self.donations@, self.ingredients@[i as int].id);
                }
            }
        }
        proof {
            assert(self.ingredients@.take(n as int) =~= self.ingredients@);
        }
        out
    }
}

} // verus!
