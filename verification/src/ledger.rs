//! The ledger store: every table of the system, its well-formedness
//! invariant, and the single-row operations on it.
//!
//! Rows are append-only and identified by dense ids: the row with id `n`
//! sits at index `n - 1` of its table, as an auto-incrementing store would
//! assign them. The invariant `wf` ties the tables together: foreign keys
//! resolve, every amount is representable, every committed sale owns at
//! least one line and carries the exact sum of its lines, and a pending
//! collaborator has no assigned role.

use vstd::prelude::*;
use crate::amount::Amount;
use crate::model::{
    CollabStatus, Collaborator, CreateKermesseRequest, Dish, Donation, Ingredient, Kermesse,
    KermesseStatus, LedgerError, Sale, SaleItem, SaleStatus, User,
};

verus! {

/// The sum of the line subtotals of a sale, in hundredths.
pub open spec fn items_total(items: Seq<SaleItem>) -> int
    decreases items.len(),
{
    if items.len() == 0 {
        0
    } else {
        items_total(items.drop_last()) + items.last().subtotal.value()
    }
}

/// What `str::to_lowercase` returns for a given character sequence.
pub uninterp spec fn lower_of(s: Seq<char>) -> Seq<char>;

/// A character of a slug: spaces become dashes, all else is kept.
pub open spec fn slug_char(c: char) -> char {
    if c == ' ' {
        '-'
    } else {
        c
    }
}

/// The URL slug derived from an event name: lowercased, spaces dashed.
pub open spec fn slug_of(name: Seq<char>) -> Seq<char> {
    lower_of(name).map_values(|c: char| slug_char(c))
}

/// Relies on str::to_lowercase: the result depends on the characters alone.
#[verifier::external_body]
fn lowercase(s: &str) -> (r: String)
    ensures
        r@ == lower_of(s@),
{
    s.to_lowercase()
}

/// Relies on str::replace: with a one-character pattern and a
/// one-character replacement, each occurrence is replaced independently and
/// every other character is kept.
#[verifier::external_body]
fn space_to_dash(s: &str) -> (r: String)
    ensures
        r@ == s@.map_values(|c: char| slug_char(c)),
{
    s.replace(' ', "-")
}

/// Copies an optional string by value.
pub fn clone_opt_string(o: &Option<String>) -> (r: Option<String>)
    ensures
        r == *o,
{
    match o {
        Some(s) => Some(s.clone()),
        None => None,
    }
}

/// The whole ledger of the system: one in-memory transactional store.
pub struct Ledger {
    pub users: Vec<User>,
    pub kermesses: Vec<Kermesse>,
    pub dishes: Vec<Dish>,
    pub ingredients: Vec<Ingredient>,
    pub donations: Vec<Donation>,
    pub collaborators: Vec<Collaborator>,
    pub sales: Vec<Sale>,
}

impl Ledger {
    // ===== Well-formedness =====

    /// Ids are dense: the row with id `n` sits at index `n - 1`.
    pub open spec fn ids_dense(self) -> bool {
        &&& forall|i: int| 0 <= i < self.users@.len() ==> (#[trigger] self.users@[i]).id == i + 1
        &&& forall|i: int|
            0 <= i < self.kermesses@.len() ==> (#[trigger] self.kermesses@[i]).id == i + 1
        &&& forall|i: int| 0 <= i < self.dishes@.len() ==> (#[trigger] self.dishes@[i]).id == i + 1
        &&& forall|i: int|
            0 <= i < self.ingredients@.len() ==> (#[trigger] self.ingredients@[i]).id == i + 1
        &&& forall|i: int|
            0 <= i < self.donations@.len() ==> (#[trigger] self.donations@[i]).id == i + 1
        &&& forall|i: int|
            0 <= i < self.collaborators@.len() ==> (#[trigger] self.collaborators@[i]).id == i + 1
        &&& forall|i: int| 0 <= i < self.sales@.len() ==> (#[trigger] self.sales@[i]).id == i + 1
    }

    /// A kermesse row: plausible date, representable goal.
    pub open spec fn kermesse_wf(self, k: Kermesse) -> bool {
        &&& k.event_date.wf()
        &&& match k.financial_goal {
            Some(g) => g.wf(),
            None => true,
        }
    }

    /// A dish row: belongs to an existing kermesse, representable price.
    pub open spec fn dish_wf(self, d: Dish) -> bool {
        &&& 1 <= d.kermesse_id <= self.kermesses@.len()
        &&& d.price.wf()
    }

    /// An ingredient row: belongs to an existing kermesse, representable
    /// need.
    pub open spec fn ingredient_wf(self, ing: Ingredient) -> bool {
        &&& 1 <= ing.kermesse_id <= self.kermesses@.len()
        &&& ing.quantity_needed.wf()
    }

    /// A donation row: references an existing ingredient, strictly positive
    /// and representable quantity.
    pub open spec fn donation_wf(self, d: Donation) -> bool {
        &&& 1 <= d.ingredient_id <= self.ingredients@.len()
        &&& d.quantity.wf()
        &&& d.quantity.value() > 0
    }

    /// A collaborator row: resolves to an existing kermesse and user; the
    /// role is unset while pending and set once accepted.
    pub open spec fn collaborator_wf(self, c: Collaborator) -> bool {
        &&& 1 <= c.kermesse_id <= self.kermesses@.len()
        &&& 1 <= c.user_id <= self.users@.len()
        &&& c.status == CollabStatus::Pending ==> c.role is None
        &&& c.status == CollabStatus::Accepted ==> c.role is Some
    }

    /// A sale line: positive quantity, a dish of the sale's own kermesse,
    /// and the exact frozen subtotal `price * quantity`.
    pub open spec fn sale_item_wf(self, s: Sale, it: SaleItem) -> bool {
        &&& it.sale_id == s.id
        &&& 1 <= it.dish_id <= self.dishes@.len()
        &&& self.dishes@[it.dish_id - 1].kermesse_id == s.kermesse_id
        &&& it.quantity > 0
        &&& it.subtotal.wf()
        &&& it.subtotal.value() == self.dishes@[it.dish_id - 1].price.value() * it.quantity
    }

    /// A sale row: at least one line, every line well formed, and a total
    /// that is exactly the sum of the line subtotals.
    pub open spec fn sale_wf(self, s: Sale) -> bool {
        &&& s.items@.len() > 0
        &&& forall|k: int| 0 <= k < s.items@.len() ==> self.sale_item_wf(s, #[trigger] s.items@[k])
        &&& s.total_amount.wf()
        &&& s.total_amount.value() == items_total(s.items@)
    }

    /// The ledger invariant, preserved by every operation.
    pub open spec fn wf(self) -> bool {
        &&& self.ids_dense()
        &&& forall|i: int|
            0 <= i < self.kermesses@.len() ==> self.kermesse_wf(#[trigger] self.kermesses@[i])
        &&& forall|i: int| 0 <= i < self.dishes@.len() ==> self.dish_wf(#[trigger] self.dishes@[i])
        &&& forall|i: int|
            0 <= i < self.ingredients@.len() ==> self.ingredient_wf(#[trigger] self.ingredients@[i])
        &&& forall|i: int|
            0 <= i < self.donations@.len() ==> self.donation_wf(#[trigger] self.donations@[i])
        &&& forall|i: int|
            0 <= i < self.collaborators@.len() ==> self.collaborator_wf(
                #[trigger] self.collaborators@[i],
            )
        &&& forall|i: int| 0 <= i < self.sales@.len() ==> self.sale_wf(#[trigger] self.sales@[i])
    }

    // ===== Spec-level lookups =====

    pub open spec fn has_kermesse(self, id: i32) -> bool {
        1 <= id <= self.kermesses@.len()
    }

    pub open spec fn kermesse_at(self, id: i32) -> Kermesse {
        self.kermesses@[id - 1]
    }

    pub open spec fn has_dish(self, id: i32) -> bool {
        1 <= id <= self.dishes@.len()
    }

    pub open spec fn dish_at(self, id: i32) -> Dish {
        self.dishes@[id - 1]
    }

    pub open spec fn has_ingredient(self, id: i32) -> bool {
        1 <= id <= self.ingredients@.len()
    }

    pub open spec fn ingredient_at(self, id: i32) -> Ingredient {
        self.ingredients@[id - 1]
    }

    pub open spec fn has_sale(self, id: i32) -> bool {
        1 <= id <= self.sales@.len()
    }

    pub open spec fn has_collaborator(self, id: i32) -> bool {
        1 <= id <= self.collaborators@.len()
    }

    pub open spec fn collaborator_at(self, id: i32) -> Collaborator {
        self.collaborators@[id - 1]
    }

    /// Whether `caller` is the organizer of kermesse `kid` (which must
    /// exist for this to be meaningful).
    pub open spec fn is_organizer(self, kid: i32, caller: i32) -> bool {
        self.kermesse_at(kid).organizer_id == caller
    }

    // ===== Construction =====

    /// A fresh, empty ledger.
    pub fn new() -> (r: Ledger)
        ensures
            r.wf(),
            r.users@.len() == 0,
            r.kermesses@.len() == 0,
            r.dishes@.len() == 0,
            r.ingredients@.len() == 0,
            r.donations@.len() == 0,
            r.collaborators@.len() == 0,
            r.sales@.len() == 0,
    {
        Ledger {
            users: Vec::new(),
            kermesses: Vec::new(),
            dishes: Vec::new(),
            ingredients: Vec::new(),
            donations: Vec::new(),
            collaborators: Vec::new(),
            sales: Vec::new(),
        }
    }

    // ===== Executable lookups =====

    /// Looks a kermesse up by id.
    pub fn find_kermesse(&self, id: i32) -> (r: Option<&Kermesse>)
        ensures
            match r {
                Some(k) => self.has_kermesse(id) && *k == self.kermesse_at(id),
                None => !self.has_kermesse(id),
            },
    {
        if id >= 1 && (id as usize) <= self.kermesses.len() {
            Some(&self.kermesses[(id - 1) as usize])
        } else {
            None
        }
    }

    /// Looks a dish up by id.
    pub fn find_dish(&self, id: i32) -> (r: Option<&Dish>)
        ensures
            match r {
                Some(d) => self.has_dish(id) && *d == self.dish_at(id),
                None => !self.has_dish(id),
            },
    {
        if id >= 1 && (id as usize) <= self.dishes.len() {
            Some(&self.dishes[(id - 1) as usize])
        } else {
            None
        }
    }

    /// Looks an ingredient up by id.
    pub fn find_ingredient(&self, id: i32) -> (r: Option<&Ingredient>)
        ensures
            match r {
                Some(ing) => self.has_ingredient(id) && *ing == self.ingredient_at(id),
                None => !self.has_ingredient(id),
            },
    {
        if id >= 1 && (id as usize) <= self.ingredients.len() {
            Some(&self.ingredients[(id - 1) as usize])
        } else {
            None
        }
    }

    /// Looks a collaborator row up by id, returning a copy.
    pub fn find_collaborator(&self, id: i32) -> (r: Option<Collaborator>)
        ensures
            match r {
                Some(c) => self.has_collaborator(id) && c == self.collaborator_at(id),
                None => !self.has_collaborator(id),
            },
    {
        if id >= 1 && (id as usize) <= self.collaborators.len() {
            Some(self.collaborators[(id - 1) as usize])
        } else {
            None
        }
    }

    // ===== Frame conditions =====

    /// Every table but `users` agrees with `other`.
    pub open spec fn same_except_users(self, other: Ledger) -> bool {
        &&& self.kermesses@ == other.kermesses@
        &&& self.dishes@ == other.dishes@
        &&& self.ingredients@ == other.ingredients@
        &&& self.donations@ == other.donations@
        &&& self.collaborators@ == other.collaborators@
        &&& self.sales@ == other.sales@
    }

    /// Every table but `kermesses` agrees with `other`.
    pub open spec fn same_except_kermesses(self, other: Ledger) -> bool {
        &&& self.users@ == other.users@
        &&& self.dishes@ == other.dishes@
        &&& self.ingredients@ == other.ingredients@
        &&& self.donations@ == other.donations@
        &&& self.collaborators@ == other.collaborators@
        &&& self.sales@ == other.sales@
    }

    /// Every table but `dishes` agrees with `other`.
    pub open spec fn same_except_dishes(self, other: Ledger) -> bool {
        &&& self.users@ == other.users@
        &&& self.kermesses@ == other.kermesses@
        &&& self.ingredients@ == other.ingredients@
        &&& self.donations@ == other.donations@
        &&& self.collaborators@ == other.collaborators@
        &&& self.sales@ == other.sales@
    }

    /// Every table but `ingredients` agrees with `other`.
    pub open spec fn same_except_ingredients(self, other: Ledger) -> bool {
        &&& self.users@ == other.users@
        &&& self.kermesses@ == other.kermesses@
        &&& self.dishes@ == other.dishes@
        &&& self.donations@ == other.donations@
        &&& self.collaborators@ == other.collaborators@
        &&& self.sales@ == other.sales@
    }

    /// Every table but `donations` agrees with `other`.
    pub open spec fn same_except_donations(self, other: Ledger) -> bool {
        &&& self.users@ == other.users@
        &&& self.kermesses@ == other.kermesses@
        &&& self.dishes@ == other.dishes@
        &&& self.ingredients@ == other.ingredients@
        &&& self.collaborators@ == other.collaborators@
        &&& self.sales@ == other.sales@
    }

    /// Every table but `collaborators` agrees with `other`.
    pub open spec fn same_except_collaborators(self, other: Ledger) -> bool {
        &&& self.users@ == other.users@
        &&& self.kermesses@ == other.kermesses@
        &&& self.dishes@ == other.dishes@
        &&& self.ingredients@ == other.ingredients@
        &&& self.donations@ == other.donations@
        &&& self.sales@ == other.sales@
    }

    /// Every table but `sales` agrees with `other`.
    pub open spec fn same_except_sales(self, other: Ledger) -> bool {
        &&& self.users@ == other.users@
        &&& self.kermesses@ == other.kermesses@
        &&& self.dishes@ == other.dishes@
        &&& self.ingredients@ == other.ingredients@
        &&& self.donations@ == other.donations@
        &&& self.collaborators@ == other.collaborators@
    }

    // ===== Users =====

    /// Whether some user already holds this username or email.
    pub open spec fn user_taken(self, username: Seq<char>, email: Seq<char>) -> bool {
        exists|i: int|
            0 <= i < self.users@.len() && ((#[trigger] self.users@[i]).username@ == username
                || self.users@[i].email@ == email)
    }

    /// Registers a user profile, refusing a username or email that is
    /// already taken. Credentials are handled outside the ledger.
    pub fn register_user(
        &mut self,
        username: String,
        email: String,
        full_name: String,
        phone: String,
    ) -> (r: Result<i32, LedgerError>)
        requires
            old(self).wf(),
            old(self).users@.len() < 0x7FFF_FFFF,
        ensures
            final(self).wf(),
            final(self).same_except_users(*old(self)),
            match r {
                Ok(id) => {
                    &&& !old(self).user_taken(username@, email@)
                    &&& id == old(self).users@.len() + 1
                    &&& final(self).users@ == old(self).users@.push(
                        (User { id, username, email, full_name, phone }),
                    )
                },
                Err(e) => {
                    &&& e == LedgerError::UserExists
                    &&& old(self).user_taken(username@, email@)
                    &&& final(self).users@ == old(self).users@
                },
            },
    {
        let n = self.users.len();
        for i in 0..n
            invariant
                old(self).wf(),
                *self == *old(self),
                n == self.users@.len(),
                forall|j: int|
                    0 <= j < i ==> (#[trigger] self.users@[j]).username@ != username@
                        && self.users@[j].email@ != email@,
        {
            if self.users[i].username == username || self.users[i].email == email {
                return Err(LedgerError::UserExists);
            }
        }
        let id = (n as i32) + 1;
        self.users.push(User { id, username, email, full_name, phone });
        Ok(id)
    }

    /// Whether a login name addresses this user: it may be either the
    /// username or the email.
    pub open spec fn login_matches(u: User, login: Seq<char>) -> bool {
        u.username@ == login || u.email@ == login
    }

    /// Finds a user by login name (username or email).
    pub fn find_user_by_login(&self, login: &String) -> (r: Option<&User>)
        ensures
            match r {
                Some(u) => Self::login_matches(*u, login@) && exists|i: int|
                    0 <= i < self.users@.len() && *u == #[trigger] self.users@[i],
                None => forall|i: int|
                    0 <= i < self.users@.len() ==> !Self::login_matches(
                        #[trigger] self.users@[i],
                        login@,
                    ),
            },
    {
        let n = self.users.len();
        for i in 0..n
            invariant
                n == self.users@.len(),
                forall|j: int|
                    0 <= j < i ==> !Self::login_matches(#[trigger] self.users@[j], login@),
        {
            let u = &self.users[i];
            if u.username == *login || u.email == *login {
                return Some(u);
            }
        }
        None
    }

    // ===== Kermesses =====

    /// Publishes a new kermesse owned by `organizer_id`. The slug is the
    /// lowercased name with spaces dashed; the event starts `Active` with
    /// no financial goal.
    pub fn create_kermesse(&mut self, req: &CreateKermesseRequest, organizer_id: i32) -> (r: i32)
        requires
            old(self).wf(),
            old(self).kermesses@.len() < 0x7FFF_FFFF,
            req.event_date.wf(),
        ensures
            final(self).wf(),
            final(self).same_except_kermesses(*old(self)),
            r == old(self).kermesses@.len() + 1,
            final(self).kermesses@.len() == old(self).kermesses@.len() + 1,
            final(self).kermesses@.drop_last() == old(self).kermesses@,
            ({
                let k = final(self).kermesses@.last();
                &&& k.id == r
                &&& k.organizer_id == organizer_id
                &&& k.name == req.name
                &&& k.slug@ == slug_of(req.name@)
                &&& k.description == req.description
                &&& k.event_date == req.event_date
                &&& k.beneficiary_name == req.beneficiary_name
                &&& k.beneficiary_reason == req.beneficiary_reason
                &&& k.beneficiary_image_url == req.beneficiary_image_url
                &&& k.start_time == req.start_time
                &&& k.end_time == req.end_time
                &&& k.status == KermesseStatus::Active
                &&& k.financial_goal is None
            }),
    {
        let lowered = lowercase(req.name.as_str());
        let slug = space_to_dash(lowered.as_str());
        let id = (self.kermesses.len() as i32) + 1;
        let row = Kermesse {
            id,
            organizer_id,
            name: req.name.clone(),
            slug,
            description: req.description.clone(),
            event_date: req.event_date,
            beneficiary_name: req.beneficiary_name.clone(),
            beneficiary_reason: req.beneficiary_reason.clone(),
            beneficiary_image_url: clone_opt_string(&req.beneficiary_image_url),
            start_time: clone_opt_string(&req.start_time),
            end_time: clone_opt_string(&req.end_time),
            status: KermesseStatus::Active,
            financial_goal: None,
        };
        self.kermesses.push(row);
        proof {
            assert(final(self).kermesses@.drop_last() =~= old(self).kermesses@);
        }
        id
    }

    /// Sets or clears the financial goal of a kermesse.
    pub fn set_financial_goal(&mut self, kermesse_id: i32, goal: Option<Amount>) -> (r: Result<
        (),
        LedgerError,
    >)
        requires
            old(self).wf(),
            match goal {
                Some(g) => g.wf(),
                None => true,
            },
        ensures
            final(self).wf(),
            final(self).same_except_kermesses(*old(self)),
            match r {
                Ok(()) => {
                    &&& old(self).has_kermesse(kermesse_id)
                    &&& final(self).kermesses@ == old(self).kermesses@.update(
                        kermesse_id - 1,
                        (Kermesse { financial_goal: goal, ..old(self).kermesse_at(kermesse_id) }),
                    )
                },
                Err(e) => {
                    &&& e == LedgerError::KermesseNotFound
                    &&& !old(self).has_kermesse(kermesse_id)
                    &&& final(self).kermesses@ == old(self).kermesses@
                },
            },
    {
        if kermesse_id >= 1 && (kermesse_id as usize) <= self.kermesses.len() {
            let idx = (kermesse_id - 1) as usize;
            let row = &mut self.kermesses[idx];
            row.financial_goal = goal;
            Ok(())
        } else {
            Err(LedgerError::KermesseNotFound)
        }
    }

    /// Moves a kermesse to a new lifecycle status.
    pub fn set_kermesse_status(&mut self, kermesse_id: i32, status: KermesseStatus) -> (r: Result<
        (),
        LedgerError,
    >)
        requires
            old(self).wf(),
        ensures
            final(self).wf(),
            final(self).same_except_kermesses(*old(self)),
            match r {
                Ok(()) => {
                    &&& old(self).has_kermesse(kermesse_id)
                    &&& final(self).kermesses@ == old(self).kermesses@.update(
                        kermesse_id - 1,
                        (Kermesse { status, ..old(self).kermesse_at(kermesse_id) }),
                    )
                },
                Err(e) => {
                    &&& e == LedgerError::KermesseNotFound
                    &&& !old(self).has_kermesse(kermesse_id)
                    &&& final(self).kermesses@ == old(self).kermesses@
                },
            },
    {
        if kermesse_id >= 1 && (kermesse_id as usize) <= self.kermesses.len() {
            let idx = (kermesse_id - 1) as usize;
            let row = &mut self.kermesses[idx];
            row.status = status;
            Ok(())
        } else {
            Err(LedgerError::KermesseNotFound)
        }
    }

    // ===== Sales (store-side status update) =====

    /// Moves a sale to a new lifecycle status (marking it paid or
    /// delivered). The header and its lines are otherwise untouched.
    pub fn mark_sale_status(&mut self, sale_id: i32, status: SaleStatus) -> (r: Result<
        (),
        LedgerError,
    >)
        requires
            old(self).wf(),
        ensures
            final(self).wf(),
            final(self).same_except_sales(*old(self)),
            match r {
                Ok(()) => {
                    &&& old(self).has_sale(sale_id)
                    &&& final(self).sales@.len() == old(self).sales@.len()
                    &&& forall|j: int|
                        0 <= j < old(self).sales@.len() && j != sale_id - 1 ==> final(self).sales@[j]
                            == old(self).sales@[j]
                    &&& final(self).sales@[sale_id - 1].status == status
                    &&& final(self).sales@[sale_id - 1].id == old(self).sales@[sale_id - 1].id
                    &&& final(self).sales@[sale_id - 1].kermesse_id == old(self).sales@[sale_id
                        - 1].kermesse_id
                    &&& final(self).sales@[sale_id - 1].total_amount == old(self).sales@[sale_id
                        - 1].total_amount
                    &&& final(self).sales@[sale_id - 1].items@ == old(self).sales@[sale_id
                        - 1].items@
                    &&& final(self).sales@[sale_id - 1].customer_name == old(self).sales@[sale_id
                        - 1].customer_name
                },
                Err(e) => {
                    &&& e == LedgerError::SaleNotFound
                    &&& !old(self).has_sale(sale_id)
                    &&& final(self).sales@ == old(self).sales@
                },
            },
    {
        if sale_id >= 1 && (sale_id as usize) <= self.sales.len() {
            let idx = (sale_id - 1) as usize;
            let row = &mut self.sales[idx];
            row.status = status;
            Ok(())
        } else {
            Err(LedgerError::SaleNotFound)
        }
    }
}

} // verus!
