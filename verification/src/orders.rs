//! The order processor: atomic commit of multi-line sales with exact
//! totals, and the read side listing committed sales.

use vstd::prelude::*;
use crate::amount::{Amount, AMOUNT_MAX_HUNDREDTHS};
use crate::ledger::{items_total, Ledger};
use crate::model::{
    CreateSaleRequest, LedgerError, Sale, SaleItem, SaleItemRequest, SaleReceipt, SaleResponse,
    SaleStatus,
};

verus! {

/// The error, if any, in one requested line: the quantity must be a
/// positive integer, the dish must exist, and the dish must belong to the
/// sale's kermesse.
pub open spec fn item_error(l: Ledger, kermesse_id: i32, it: SaleItemRequest) -> Option<
    LedgerError,
> {
    if it.quantity <= 0 {
        Some(LedgerError::InvalidQuantity { dish_id: it.dish_id })
    } else if !l.has_dish(it.dish_id) {
        Some(LedgerError::DishNotFound { dish_id: it.dish_id })
    } else if l.dish_at(it.dish_id).kermesse_id != kermesse_id {
        Some(LedgerError::DishKermesseMismatch { dish_id: it.dish_id })
    } else {
        None
    }
}

/// The first line error in request order, if any.
pub open spec fn items_error(l: Ledger, kermesse_id: i32, items: Seq<SaleItemRequest>) -> Option<
    LedgerError,
>
    decreases items.len(),
{
    if items.len() == 0 {
        None
    } else if item_error(l, kermesse_id, items[0]) is Some {
        item_error(l, kermesse_id, items[0])
    } else {
        items_error(l, kermesse_id, items.drop_first())
    }
}

/// The exact subtotal of one requested line: the dish's current price times
/// the requested quantity, in hundredths.
pub open spec fn line_subtotal(l: Ledger, it: SaleItemRequest) -> int {
    l.dish_at(it.dish_id).price.value() * it.quantity
}

/// The exact order total: the sum of the line subtotals, in hundredths.
pub open spec fn order_total(l: Ledger, items: Seq<SaleItemRequest>) -> int
    decreases items.len(),
{
    if items.len() == 0 {
        0
    } else {
        order_total(l, items.drop_last()) + line_subtotal(l, items.last())
    }
}

/// Why `create_sale` refuses a request: an empty order first, then the
/// first bad line in request order, then a total beyond the representable
/// range. `None` means the sale is committed.
pub open spec fn sale_error(l: Ledger, req: CreateSaleRequest) -> Option<LedgerError> {
    if req.items@.len() == 0 {
        Some(LedgerError::EmptyOrder)
    } else if items_error(l, req.kermesse_id, req.items@) is Some {
        items_error(l, req.kermesse_id, req.items@)
    } else if order_total(l, req.items@) > AMOUNT_MAX_HUNDREDTHS {
        Some(LedgerError::AmountOverflow)
    } else {
        None
    }
}

/// A sale header as shown to callers.
pub open spec fn sale_response_of(s: Sale) -> SaleResponse {
    SaleResponse {
        id: s.id,
        customer_name: s.customer_name,
        total_amount: s.total_amount,
        status: s.status,
    }
}

/// The headers of the sales of one kermesse, in ledger order.
pub open spec fn sales_of(sales: Seq<Sale>, kermesse_id: i32) -> Seq<SaleResponse>
    decreases sales.len(),
{
    if sales.len() == 0 {
        Seq::empty()
    } else {
        let rest = sales_of(sales.drop_last(), kermesse_id);
        if sales.last().kermesse_id == kermesse_id {
            rest.push(sale_response_of(sales.last()))
        } else {
            rest
        }
    }
}

/// Scanning a prefix that holds no bad line, the first error of the whole
/// list is the first error of the remainder.
proof fn lemma_items_error_skip(l: Ledger, kermesse_id: i32, items: Seq<SaleItemRequest>, i: int)
    requires
        0 <= i <= items.len(),
        forall|j: int| 0 <= j < i ==> item_error(l, kermesse_id, #[trigger] items[j]) is None,
    ensures
        items_error(l, kermesse_id, items) == items_error(l, kermesse_id, items.skip(i)),
    decreases i,
{
    if i == 0 {
        assert(items.skip(0) == items);
    } else {
        assert(item_error(l, kermesse_id, items[0]) is None);
        lemma_items_error_skip(l, kermesse_id, items.drop_first(), i - 1);
        assert(items.drop_first().skip(i - 1) == items.skip(i));
    }
}

/// With every line valid, each line's subtotal is non-negative.
proof fn lemma_line_subtotal_nonneg(l: Ledger, kermesse_id: i32, it: SaleItemRequest)
    requires
        item_error(l, kermesse_id, it) is None,
    ensures
        line_subtotal(l, it) >= 0,
{
    assert(l.dish_at(it.dish_id).price.value() >= 0);
    assert(it.quantity > 0);
    assert(l.dish_at(it.dish_id).price.value() * it.quantity >= 0) by (nonlinear_arith)
        requires
            l.dish_at(it.dish_id).price.value() >= 0,
            it.quantity > 0,
    ;
}

/// With every line valid, the total of a prefix never exceeds the total of
/// the whole order.
proof fn lemma_order_total_prefix_le(
    l: Ledger,
    kermesse_id: i32,
    items: Seq<SaleItemRequest>,
    k: int,
)
    requires
        0 <= k <= items.len(),
        forall|j: int| 0 <= j < items.len() ==> item_error(l, kermesse_id, #[trigger] items[j]) is None,
    ensures
        order_total(l, items.take(k)) <= order_total(l, items),
    decreases items.len(),
{
    if k == items.len() {
        assert(items.take(k) == items);
    } else {
        lemma_line_subtotal_nonneg(l, kermesse_id, items.last());
        lemma_order_total_prefix_le(l, kermesse_id, items.drop_last(), k);
        assert(items.drop_last().take(k) == items.take(k));
    }
}

/// With every line valid, each single line's subtotal is at most the total
/// of the whole order.
proof fn lemma_line_le_order_total(
    l: Ledger,
    kermesse_id: i32,
    items: Seq<SaleItemRequest>,
    k: int,
)
    requires
        0 <= k < items.len(),
        forall|j: int| 0 <= j < items.len() ==> item_error(l, kermesse_id, #[trigger] items[j]) is None,
    ensures
        line_subtotal(l, items[k]) >= 0,
        line_subtotal(l, items[k]) <= order_total(l, items),
    decreases items.len(),
{
    lemma_line_subtotal_nonneg(l, kermesse_id, items[k]);
    lemma_line_subtotal_nonneg(l, kermesse_id, items.last());
    if k == items.len() - 1 {
        lemma_order_total_prefix_le(l, kermesse_id, items, k);
        assert(order_total(l, items) == order_total(l, items.drop_last()) + line_subtotal(
            l,
            items.last(),
        ));
        assert(items.take(k) == items.drop_last());
        lemma_order_total_nonneg(l, kermesse_id, items.drop_last());
    } else {
        lemma_line_le_order_total(l, kermesse_id, items.drop_last(), k);
    }
}

/// With every line valid, the order total is non-negative.
proof fn lemma_order_total_nonneg(l: Ledger, kermesse_id: i32, items: Seq<SaleItemRequest>)
    requires
        forall|j: int| 0 <= j < items.len() ==> item_error(l, kermesse_id, #[trigger] items[j]) is None,
    ensures
        order_total(l, items) >= 0,
    decreases items.len(),
{
    if items.len() > 0 {
        lemma_line_subtotal_nonneg(l, kermesse_id, items.last());
        lemma_order_total_nonneg(l, kermesse_id, items.drop_last());
    }
}

/// Every committed sale owns at least one line; its total is exactly the
/// sum of its lines' frozen subtotals; and each line has a positive
/// quantity, references a dish of the sale's own kermesse, and carries a
/// subtotal of exactly the dish's price times the line's quantity.
pub proof fn lemma_sale_totals_exact(l: Ledger, i: int)
    requires
        l.wf(),
        0 <= i < l.sales@.len(),
    ensures
        l.sales@[i].total_amount.value() == items_total(l.sales@[i].items@),
        l.sales@[i].items@.len() > 0,
        forall|k: int|
            0 <= k < l.sales@[i].items@.len() ==> {
                let it = #[trigger] l.sales@[i].items@[k];
                &&& it.quantity > 0
                &&& l.has_dish(it.dish_id)
                &&& l.dish_at(it.dish_id).kermesse_id == l.sales@[i].kermesse_id
                &&& it.subtotal.value() == l.dish_at(it.dish_id).price.value() * it.quantity
            },
{
    assert(l.sale_wf(l.sales@[i]));
    let s = l.sales@[i];
    assert forall|k: int| 0 <= k < s.items@.len() implies {
        let it = #[trigger] s.items@[k];
        &&& it.quantity > 0
        &&& l.has_dish(it.dish_id)
        &&& l.dish_at(it.dish_id).kermesse_id == s.kermesse_id
        &&& it.subtotal.value() == l.dish_at(it.dish_id).price.value() * it.quantity
    } by {
        assert(l.sale_item_wf(s, s.items@[k]));
    }
}

impl Ledger {
    /// Validates and atomically commits a multi-line sale: either the
    /// header and every line are appended as one new sale, or the ledger is
    /// exactly unchanged and the first failure in request order is
    /// reported. The committed total is the exact sum of price times
    /// quantity over the lines, and the new sale starts `Pending`.
    ///
    /// Deliberate policy: the dishes' `quantity_available` is not
    /// decremented here. The ledger records orders; stock control stays
    /// with the seller, so overselling is possible by design.
    pub fn create_sale(&mut self, req: &CreateSaleRequest, seller_id: i32) -> (r: Result<
        SaleReceipt,
        LedgerError,
    >)
        requires
            old(self).wf(),
            old(self).sales@.len() < 0x7FFF_FFFF,
        ensures
            final(self).wf(),
            final(self).same_except_sales(*old(self)),
            match r {
                Ok(receipt) => {
                    &&& sale_error(*old(self), *req) is None
                    &&& receipt.id == old(self).sales@.len() + 1
                    &&& receipt.status == SaleStatus::Pending
                    &&& final(self).sales@.len() == old(self).sales@.len() + 1
                    &&& final(self).sales@.drop_last() == old(self).sales@
                    &&& ({
                        let s = final(self).sales@.last();
                        &&& s.id == receipt.id
                        &&& s.kermesse_id == req.kermesse_id
                        &&& s.seller_id == seller_id
                        &&& s.buyer_id == Some(seller_id)
                        &&& s.customer_name == req.customer_name
                        &&& s.delivery_method == req.delivery_method
                        &&& s.delivery_address == req.delivery_address
                        &&& s.contact_phone == req.contact_phone
                        &&& s.status == SaleStatus::Pending
                        &&& s.total_amount.value() == order_total(*old(self), req.items@)
                        &&& s.items@.len() == req.items@.len()
                        &&& forall|k: int|
                            0 <= k < req.items@.len() ==> {
                                let it = #[trigger] s.items@[k];
                                &&& it.sale_id == s.id
                                &&& it.dish_id == req.items@[k].dish_id
                                &&& it.quantity == req.items@[k].quantity
                                &&& it.subtotal.value() == line_subtotal(
                                    *old(self),
                                    req.items@[k],
                                )
                            }
                    })
                },
                Err(e) => {
                    &&& *final(self) == *old(self)
                    &&& sale_error(*old(self), *req) == Some(e)
                },
            },
    {
        if req.items.len() == 0 {
            return Err(LedgerError::EmptyOrder);
        }
        let n = req.items.len();

        // Validate every line in request order; nothing is written yet.
        for i in 0..n
            invariant
                old(self).wf(),
                *self == *old(self),
                n == req.items@.len(),
                n > 0,
                forall|j: int|
                    0 <= j < i ==> item_error(*old(self), req.kermesse_id, #[trigger] req.items@[j])
                        is None,
        {
            let it = req.items[i];
            let line_error: Option<LedgerError> = if it.quantity <= 0 {
                Some(LedgerError::InvalidQuantity { dish_id: it.dish_id })
            } else {
                match self.find_dish(it.dish_id) {
                    None => Some(LedgerError::DishNotFound { dish_id: it.dish_id }),
                    Some(d) => if d.kermesse_id != req.kermesse_id {
                        Some(LedgerError::DishKermesseMismatch { dish_id: it.dish_id })
                    } else {
                        None
                    },
                }
            };
            if let Some(e) = line_error {
                proof {
                    lemma_items_error_skip(*old(self), req.kermesse_id, req.items@, i as int);
                    assert(req.items@.skip(i as int)[0] == req.items@[i as int]);
                }
                return Err(e);
            }
        }
        proof {
            lemma_items_error_skip(*old(self), req.kermesse_id, req.items@, n as int);
            assert(req.items@.skip(n as int) =~= Seq::<SaleItemRequest>::empty());
        }

        // Compute the exact total, refusing an unrepresentable one.
        let mut total: u128 = 0;
        for i in 0..n
            invariant
                old(self).wf(),
                *self == *old(self),
                n == req.items@.len(),
                n > 0,
                forall|j: int|
                    0 <= j < n ==> item_error(*old(self), req.kermesse_id, #[trigger] req.items@[j])
                        is None,
                items_error(*old(self), req.kermesse_id, req.items@) is None,
                total == order_total(*old(self), req.items@.take(i as int)),
                total <= AMOUNT_MAX_HUNDREDTHS,
        {
            let it = req.items[i];
            proof {
                assert(item_error(*old(self), req.kermesse_id, req.items@[i as int]) is None);
            }
            let d = self.find_dish(it.dish_id).unwrap();
            proof {
                assert(self.dish_wf(self.dishes@[it.dish_id - 1]));
                assert((d.price.hundredths as int) * (it.quantity as int) <= (
                AMOUNT_MAX_HUNDREDTHS as int) * 0x7FFF_FFFF) by (nonlinear_arith)
                    requires
                        0 <= d.price.hundredths <= AMOUNT_MAX_HUNDREDTHS,
                        0 < it.quantity <= 0x7FFF_FFFF,
                ;
            }
            let sub: u128 = (d.price.hundredths as u128) * (it.quantity as u128);
            proof {
                assert(sub == line_subtotal(*old(self), req.items@[i as int]));
                assert(req.items@.take(i as int + 1).drop_last() =~= req.items@.take(i as int));
                assert(req.items@.take(i as int + 1).last() == req.items@[i as int]);
            }
            let new_total = total + sub;
            if new_total > AMOUNT_MAX_HUNDREDTHS as u128 {
                proof {
                    lemma_order_total_prefix_le(
                        *old(self),
                        req.kermesse_id,
                        req.items@,
                        i as int + 1,
                    );
                }
                return Err(LedgerError::AmountOverflow);
            }
            total = new_total;
        }
        proof {
            assert(req.items@.take(n as int) =~= req.items@);
        }

        // Commit: build every line at the frozen price, then append the
        // header owning them, as one unit.
        let sale_id = (self.sales.len() as i32) + 1;
        let mut items_vec: Vec<SaleItem> = Vec::new();
        for i in 0..n
            invariant
                old(self).wf(),
                *self == *old(self),
                n == req.items@.len(),
                n > 0,
                forall|j: int|
                    0 <= j < n ==> item_error(*old(self), req.kermesse_id, #[trigger] req.items@[j])
                        is None,
                items_error(*old(self), req.kermesse_id, req.items@) is None,
                total == order_total(*old(self), req.items@),
                total <= AMOUNT_MAX_HUNDREDTHS,
                sale_id == old(self).sales@.len() + 1,
                items_vec@.len() == i,
                items_total(items_vec@) == order_total(*old(self), req.items@.take(i as int)),
                forall|k: int|
                    0 <= k < i ==> {
                        let it = #[trigger] items_vec@[k];
                        &&& it.sale_id == sale_id
                        &&& it.dish_id == req.items@[k].dish_id
                        &&& it.quantity == req.items@[k].quantity
                        &&& it.subtotal.wf()
                        &&& it.subtotal.value() == line_subtotal(*old(self), req.items@[k])
                    },
        {
            let it = req.items[i];
            proof {
                assert(item_error(*old(self), req.kermesse_id, req.items@[i as int]) is None);
            }
            let d = self.find_dish(it.dish_id).unwrap();
            proof {
                assert(self.dish_wf(self.dishes@[it.dish_id - 1]));
                assert((d.price.hundredths as int) * (it.quantity as int) <= (
                AMOUNT_MAX_HUNDREDTHS as int) * 0x7FFF_FFFF) by (nonlinear_arith)
                    requires
                        0 <= d.price.hundredths <= AMOUNT_MAX_HUNDREDTHS,
                        0 < it.quantity <= 0x7FFF_FFFF,
                ;
            }
            let sub: u128 = (d.price.hundredths as u128) * (it.quantity as u128);
            proof {
                assert(sub == line_subtotal(*old(self), req.items@[i as int]));
                lemma_line_le_order_total(*old(self), req.kermesse_id, req.items@, i as int);
                assert(req.items@.take(i as int + 1).drop_last() =~= req.items@.take(i as int));
                assert(req.items@.take(i as int + 1).last() == req.items@[i as int]);
            }
            let line = SaleItem {
                sale_id,
                dish_id: it.dish_id,
                quantity: it.quantity,
                subtotal: Amount { hundredths: sub as u64 },
            };
            let ghost prev = items_vec@;
            items_vec.push(line);
            proof {
                assert(items_vec@.drop_last() =~= prev);
            }
        }
        proof {
            assert(req.items@.take(n as int) =~= req.items@);
        }
        let sale = Sale {
            id: sale_id,
            kermesse_id: req.kermesse_id,
            seller_id,
            buyer_id: Some(seller_id),
            customer_name: req.customer_name.clone(),
            total_amount: Amount { hundredths: total as u64 },
            status: SaleStatus::Pending,
            delivery_method: req.delivery_method,
            delivery_address: crate::ledger::clone_opt_string(&req.delivery_address),
            contact_phone: crate::ledger::clone_opt_string(&req.contact_phone),
            items: items_vec,
        };
        self.sales.push(sale);
        proof {
            assert(self.sales@.drop_last() =~= old(self).sales@);
            let s = self.sales@.last();
            assert forall|k: int| 0 <= k < s.items@.len() implies self.sale_item_wf(
                s,
                #[trigger] s.items@[k],
            ) by {
                assert(item_error(*old(self), req.kermesse_id, req.items@[k]) is None);
            }
            assert(self.sale_wf(s));
            assert forall|i: int| 0 <= i < self.sales@.len() implies self.sale_wf(
                #[trigger] self.sales@[i],
            ) by {
                if i < old(self).sales@.len() {
                    assert(old(self).sale_wf(old(self).sales@[i]));
                }
            }
        }
        Ok(SaleReceipt { id: sale_id, status: SaleStatus::Pending })
    }

    /// Lists the sale headers of one kermesse, in ledger order.
    pub fn list_sales(&self, kermesse_id: i32) -> (r: Vec<SaleResponse>)
        ensures
            r@ == sales_of(self.sales@, kermesse_id),
    {
        let mut out: Vec<SaleResponse> = Vec::new();
        let n = self.sales.len();
        for i in 0..n
            invariant
                n == self.sales@.len(),
                out@ == sales_of(self.sales@.take(i as int), kermesse_id),
        {
            proof {
                assert(self.sales@.take(i as int + 1).drop_last() =~= self.sales@.take(i as int));
                assert(self.sales@.take(i as int + 1).last() == self.sales@[i as int]);
            }
            let s = &self.sales[i];
            if s.kermesse_id == kermesse_id {
                out.push(
                    SaleResponse {
                        id: s.id,
                        customer_name: s.customer_name.clone(),
                        total_amount: s.total_amount,
                        status: s.status,
                    },
                );
            }
        }
        proof {
            assert(self.sales@.take(n as int) =~= self.sales@);
        }
        out
    }
}

} // verus!
