//! The catalog around an event: adding dishes and ingredient needs, and the
//! read side that lists and details kermesses.

use vstd::prelude::*;
use crate::amount::Amount;
use crate::ledger::{clone_opt_string, Ledger};
use crate::model::{
    CollaboratorResponse, Collaborator, CreateDishRequest, Dish, Ingredient, Kermesse,
    KermesseDetailResponse, KermesseResponse, KermesseStatus, LedgerError,
};

verus! {

/// A kermesse row as shown to callers.
pub open spec fn kermesse_response_of(k: Kermesse) -> KermesseResponse {
    KermesseResponse {
        id: k.id,
        name: k.name,
        description: k.description,
        event_date: k.event_date,
        beneficiary_name: k.beneficiary_name,
        beneficiary_reason: k.beneficiary_reason,
        beneficiary_image_url: k.beneficiary_image_url,
        start_time: k.start_time,
        end_time: k.end_time,
        status: k.status,
        organizer_id: k.organizer_id,
    }
}

/// The active kermesses, as responses, in ledger order.
pub open spec fn active_kermesses_of(ks: Seq<Kermesse>) -> Seq<KermesseResponse>
    decreases ks.len(),
{
    if ks.len() == 0 {
        Seq::empty()
    } else {
        let rest = active_kermesses_of(ks.drop_last());
        if ks.last().status == KermesseStatus::Active {
            rest.push(kermesse_response_of(ks.last()))
        } else {
            rest
        }
    }
}

/// The dishes of one kermesse, in ledger order.
pub open spec fn dishes_of(ds: Seq<Dish>, kermesse_id: i32) -> Seq<Dish>
    decreases ds.len(),
{
    if ds.len() == 0 {
        Seq::empty()
    } else {
        let rest = dishes_of(ds.drop_last(), kermesse_id);
        if ds.last().kermesse_id == kermesse_id {
            rest.push(ds.last())
        } else {
            rest
        }
    }
}

/// The ingredients of one kermesse, in ledger order.
pub open spec fn ingredients_of(ings: Seq<Ingredient>, kermesse_id: i32) -> Seq<Ingredient>
    decreases ings.len(),
{
    if ings.len() == 0 {
        Seq::empty()
    } else {
        let rest = ingredients_of(ings.drop_last(), kermesse_id);
        if ings.last().kermesse_id == kermesse_id {
            rest.push(ings.last())
        } else {
            rest
        }
    }
}

/// A collaborator of an event joined with the user's public profile.
pub open spec fn collaborator_profile_of(l: Ledger, c: Collaborator) -> CollaboratorResponse {
    CollaboratorResponse {
        id: c.id,
        username: l.users@[c.user_id - 1].username,
        full_name: l.users@[c.user_id - 1].full_name,
        role: c.role,
        phone: l.users@[c.user_id - 1].phone,
    }
}

/// The collaborators of one kermesse (in any status), joined with their
/// profiles, in ledger order.
pub open spec fn collaborator_profiles_of(l: Ledger, cs: Seq<Collaborator>, kermesse_id: i32) -> Seq<
    CollaboratorResponse,
>
    decreases cs.len(),
{
    if cs.len() == 0 {
        Seq::empty()
    } else {
        let rest = collaborator_profiles_of(l, cs.drop_last(), kermesse_id);
        if cs.last().kermesse_id == kermesse_id {
            rest.push(collaborator_profile_of(l, cs.last()))
        } else {
            rest
        }
    }
}

impl KermesseResponse {
    /// Builds the caller-facing view of one kermesse row.
    pub fn from_kermesse(k: &Kermesse) -> (r: KermesseResponse)
        ensures
            r == kermesse_response_of(*k),
    {
        KermesseResponse {
            id: k.id,
            name: k.name.clone(),
            description: k.description.clone(),
            event_date: k.event_date,
            beneficiary_name: k.beneficiary_name.clone(),
            beneficiary_reason: k.beneficiary_reason.clone(),
            beneficiary_image_url: clone_opt_string(&k.beneficiary_image_url),
            start_time: clone_opt_string(&k.start_time),
            end_time: clone_opt_string(&k.end_time),
            status: k.status,
            organizer_id: k.organizer_id,
        }
    }
}

/// Copies one dish row by value.
fn clone_dish(d: &Dish) -> (r: Dish)
    ensures
        r == *d,
{
    Dish {
        id: d.id,
        kermesse_id: d.kermesse_id,
        name: d.name.clone(),
        description: d.description.clone(),
        price: d.price,
        quantity_available: d.quantity_available,
        image_url: clone_opt_string(&d.image_url),
    }
}

/// Copies one ingredient row by value.
fn clone_ingredient(ing: &Ingredient) -> (r: Ingredient)
    ensures
        r == *ing,
{
    Ingredient {
        id: ing.id,
        kermesse_id: ing.kermesse_id,
        name: ing.name.clone(),
        quantity_needed: ing.quantity_needed,
        unit: ing.unit.clone(),
    }
}

impl Ledger {
    /// Adds a dish to a kermesse. Only the organizer may add dishes.
    pub fn create_dish(&mut self, kermesse_id: i32, req: &CreateDishRequest, caller_id: i32) -> (r:
        Result<i32, LedgerError>)
        requires
            old(self).wf(),
            old(self).dishes@.len() < 0x7FFF_FFFF,
            req.price.wf(),
        ensures
            final(self).wf(),
            final(self).same_except_dishes(*old(self)),
            match r {
                Ok(id) => {
                    &&& crate::collab::organizer_gate(*old(self), kermesse_id, caller_id) is None
                    &&& id == old(self).dishes@.len() + 1
                    &&& final(self).dishes@ == old(self).dishes@.push(
                        (Dish {
                            id,
                            kermesse_id,
                            name: req.name,
                            description: req.description,
                            price: req.price,
                            quantity_available: req.quantity_available,
                            image_url: req.image_url,
                        }),
                    )
                },
                Err(e) => {
                    &&& *final(self) == *old(self)
                    &&& crate::collab::organizer_gate(*old(self), kermesse_id, caller_id) == Some(
                        e,
                    )
                },
            },
    {
        let k = match self.find_kermesse(kermesse_id) {
            Some(k) => k,
            None => {
                return Err(LedgerError::KermesseNotFound);
            },
        };
        if k.organizer_id != caller_id {
            return Err(LedgerError::Forbidden);
        }
        let id = (self.dishes.len() as i32) + 1;
        self.dishes.push(
            Dish {
                id,
                kermesse_id,
                name: req.name.clone(),
                description: req.description.clone(),
                price: req.price,
                quantity_available: req.quantity_available,
                image_url: clone_opt_string(&req.image_url),
            },
        );
        Ok(id)
    }

    /// States an ingredient need of a kermesse.
    pub fn add_ingredient(
        &mut self,
        kermesse_id: i32,
        name: String,
        quantity_needed: Amount,
        unit: String,
    ) -> (r: Result<i32, LedgerError>)
        requires
            old(self).wf(),
            old(self).ingredients@.len() < 0x7FFF_FFFF,
            quantity_needed.wf(),
        ensures
            final(self).wf(),
            final(self).same_except_ingredients(*old(self)),
            match r {
                Ok(id) => {
                    &&& old(self).has_kermesse(kermesse_id)
                    &&& id == old(self).ingredients@.len() + 1
                    &&& final(self).ingredients@ == old(self).ingredients@.push(
                        (Ingredient { id, kermesse_id, name, quantity_needed, unit }),
                    )
                },
                Err(e) => {
                    &&& *final(self) == *old(self)
                    &&& e == LedgerError::KermesseNotFound
                    &&& !old(self).has_kermesse(kermesse_id)
                },
            },
    {
        if self.find_kermesse(kermesse_id).is_none() {
            return Err(LedgerError::KermesseNotFound);
        }
        let id = (self.ingredients.len() as i32) + 1;
        self.ingredients.push(Ingredient { id, kermesse_id, name, quantity_needed, unit });
        Ok(id)
    }

    /// Lists the active kermesses.
    pub fn list_kermesses(&self) -> (r: Vec<KermesseResponse>)
        ensures
            r@ == active_kermesses_of(self.kermesses@),
    {
        let mut out: Vec<KermesseResponse> = Vec::new();
        let n = self.kermesses.len();
        for i in 0..n
            invariant
                n == self.kermesses@.len(),
                out@ == active_kermesses_of(self.kermesses@.take(i as int)),
        {
            proof {
                assert(self.kermesses@.take(i as int + 1).drop_last() =~= self.kermesses@.take(
                    i as int,
                ));
                assert(self.kermesses@.take(i as int + 1).last() == self.kermesses@[i as int]);
            }
            let k = &self.kermesses[i];
            if matches!(k.status, KermesseStatus::Active) {
                out.push(KermesseResponse::from_kermesse(k));
            }
        }
        proof {
            assert(self.kermesses@.take(n as int) =~= self.kermesses@);
        }
        out
    }

    /// The full detail view of one kermesse: the header, its dishes and
    /// ingredients, and its collaborators joined with their profiles.
    pub fn get_kermesse(&self, kermesse_id: i32) -> (r: Result<KermesseDetailResponse, LedgerError>)
        requires
            self.wf(),
        ensures
            match r {
                Ok(d) => {
                    &&& self.has_kermesse(kermesse_id)
                    &&& d.kermesse == kermesse_response_of(self.kermesse_at(kermesse_id))
                    &&& d.dishes@ == dishes_of(self.dishes@, kermesse_id)
                    &&& d.ingredients@ == ingredients_of(self.ingredients@, kermesse_id)
                    &&& d.collaborators@ == collaborator_profiles_of(
                        *self,
                        self.collaborators@,
                        kermesse_id,
                    )
                },
                Err(e) => {
                    &&& e == LedgerError::KermesseNotFound
                    &&& !self.has_kermesse(kermesse_id)
                },
            },
    {
        let k = match self.find_kermesse(kermesse_id) {
            Some(k) => k,
            None => {
                return Err(LedgerError::KermesseNotFound);
            },
        };
        let kermesse = KermesseResponse::from_kermesse(k);

        let mut dishes: Vec<Dish> = Vec::new();
        let n = self.dishes.len();
        for i in 0..n
            invariant
                n == self.dishes@.len(),
                dishes@ == dishes_of(self.dishes@.take(i as int), kermesse_id),
        {
            proof {
                assert(self.dishes@.take(i as int + 1).drop_last() =~= self.dishes@.take(i as int));
                assert(self.dishes@.take(i as int + 1).last() == self.dishes@[i as int]);
            }
            let d = &self.dishes[i];
            if d.kermesse_id == kermesse_id {
                dishes.push(clone_dish(d));
            }
        }
        proof {
            assert(self.dishes@.take(n as int) =~= self.dishes@);
        }

        let mut ingredients: Vec<Ingredient> = Vec::new();
        let m = self.ingredients.len();
        for i in 0..m
            invariant
                m == self.ingredients@.len(),
                ingredients@ == ingredients_of(self.ingredients@.take(i as int), kermesse_id),
        {
            proof {
                assert(self.ingredients@.take(i as int + 1).drop_last() =~= self.ingredients@.take(
                    i as int,
                ));
                assert(self.ingredients@.take(i as int + 1).last() == self.ingredients@[i as int]);
            }
            let ing = &self.ingredients[i];
            if ing.kermesse_id == kermesse_id {
                ingredients.push(clone_ingredient(ing));
            }
        }
        proof {
            assert(self.ingredients@.take(m as int) =~= self.ingredients@);
        }

        let mut collaborators: Vec<CollaboratorResponse> = Vec::new();
        let p = self.collaborators.len();
        for i in 0..p
            invariant
                self.wf(),
                p == self.collaborators@.len(),
                collaborators@ == collaborator_profiles_of(
                    *self,
                    self.collaborators@.take(i as int),
                    kermesse_id,
                ),
        {
            proof {
                assert(self.collaborators@.take(i as int + 1).drop_last() =~= self.collaborators@.take(
                    i as int,
                ));
                assert(self.collaborators@.take(i as int + 1).last() == self.collaborators@[i as int]);
            }
            let c = self.collaborators[i];
            if c.kermesse_id == kermesse_id {
                proof {
                    assert(self.collaborator_wf(self.collaborators@[i as int]));
                }
                let u = &self.users[(c.user_id - 1) as usize];
                collaborators.push(
                    CollaboratorResponse {
                        id: c.id,
                        username: u.username.clone(),
                        full_name: u.full_name.clone(),
                        role: c.role,
                        phone: u.phone.clone(),
                    },
                );
            }
        }
        proof {
            assert(self.collaborators@.take(p as int) =~= self.collaborators@);
        }

        Ok(KermesseDetailResponse { kermesse, dishes, ingredients, collaborators })
    }
}

} // verus!
