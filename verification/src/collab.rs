//! The collaboration workflow: requesting to join an event, the organizer's
//! listing of pending requests, and the approve/reject transition.
//!
//! A request starts `Pending`; the organizer moves it to `Accepted` (setting
//! the assigned role) or `Rejected`. Both outcomes are terminal states: no
//! operation moves a row back to `Pending`, and a new request for the same
//! (kermesse, user) pair is refused while a pending or accepted row stands.

use vstd::prelude::*;
use crate::ledger::Ledger;
use crate::model::{
    ApproveCollaboratorRequest, CollabStatus, Collaborator, CollaboratorRequestResponse,
    LedgerError, RequestCollaborationRequest, Role,
};

verus! {

/// Whether a pending or accepted collaborator row exists for this kermesse
/// and user.
pub open spec fn active_request_exists(l: Ledger, kermesse_id: i32, user_id: i32) -> bool {
    exists|i: int|
        0 <= i < l.collaborators@.len() && {
            let c = #[trigger] l.collaborators@[i];
            &&& c.kermesse_id == kermesse_id
            &&& c.user_id == user_id
            &&& (c.status == CollabStatus::Pending || c.status == CollabStatus::Accepted)
        }
}

/// Why a collaboration request is refused: a missing kermesse first, then a
/// conflicting active request. `None` means the request is recorded.
pub open spec fn collaboration_error(l: Ledger, kermesse_id: i32, user_id: i32) -> Option<
    LedgerError,
> {
    if !l.has_kermesse(kermesse_id) {
        Some(LedgerError::KermesseNotFound)
    } else if active_request_exists(l, kermesse_id, user_id) {
        Some(LedgerError::DuplicateRequest)
    } else {
        None
    }
}

/// Why an organizer-only read or decision is refused: a missing kermesse
/// first, then a caller who is not the organizer.
pub open spec fn organizer_gate(l: Ledger, kermesse_id: i32, caller_id: i32) -> Option<
    LedgerError,
> {
    if !l.has_kermesse(kermesse_id) {
        Some(LedgerError::KermesseNotFound)
    } else if !l.is_organizer(kermesse_id, caller_id) {
        Some(LedgerError::Forbidden)
    } else {
        None
    }
}

/// A pending request joined with its requester's public profile.
pub open spec fn request_response_of(l: Ledger, c: Collaborator) -> CollaboratorRequestResponse {
    CollaboratorRequestResponse {
        id: c.id,
        user_id: c.user_id,
        username: l.users@[c.user_id - 1].username,
        full_name: l.users@[c.user_id - 1].full_name,
        proposed_role: c.proposed_role,
        status: c.status,
    }
}

/// The pending requests of one kermesse, joined with the requesters'
/// profiles, in ledger order.
pub open spec fn pending_requests_of(l: Ledger, cs: Seq<Collaborator>, kermesse_id: i32) -> Seq<
    CollaboratorRequestResponse,
>
    decreases cs.len(),
{
    if cs.len() == 0 {
        Seq::empty()
    } else {
        let rest = pending_requests_of(l, cs.drop_last(), kermesse_id);
        if cs.last().kermesse_id == kermesse_id && cs.last().status == CollabStatus::Pending {
            rest.push(request_response_of(l, cs.last()))
        } else {
            rest
        }
    }
}

/// The row an organizer's decision produces: acceptance assigns the given
/// role (`Collaborator` when none is named); rejection only moves the
/// status.
pub open spec fn resolved_row(c: Collaborator, req: ApproveCollaboratorRequest) -> Collaborator {
    if req.approve {
        Collaborator {
            status: CollabStatus::Accepted,
            role: Some(
                match req.assigned_role {
                    Some(ro) => ro,
                    None => Role::Collaborator,
                },
            ),
            ..c
        }
    } else {
        Collaborator { status: CollabStatus::Rejected, ..c }
    }
}

/// While a collaborator row for a (kermesse, user) pair stands pending or
/// accepted, a new request for the same pair is refused as a duplicate.
pub proof fn lemma_active_row_blocks_rerequest(l: Ledger, i: int)
    requires
        l.wf(),
        0 <= i < l.collaborators@.len(),
        l.collaborators@[i].status == CollabStatus::Pending || l.collaborators@[i].status
            == CollabStatus::Accepted,
    ensures
        collaboration_error(l, l.collaborators@[i].kermesse_id, l.collaborators@[i].user_id)
            == Some(LedgerError::DuplicateRequest),
{
    assert(l.collaborator_wf(l.collaborators@[i]));
    assert(active_request_exists(l, l.collaborators@[i].kermesse_id, l.collaborators@[i].user_id));
}

/// A pending collaborator row never carries an assigned role, and an
/// accepted one always does.
pub proof fn lemma_role_follows_status(l: Ledger, i: int)
    requires
        l.wf(),
        0 <= i < l.collaborators@.len(),
    ensures
        l.collaborators@[i].status == CollabStatus::Pending ==> l.collaborators@[i].role is None,
        l.collaborators@[i].status == CollabStatus::Accepted ==> l.collaborators@[i].role is Some,
{
    assert(l.collaborator_wf(l.collaborators@[i]));
}

impl Ledger {
    /// Records a user's request to collaborate on a kermesse: the row
    /// starts `Pending` with no assigned role, and is refused while a
    /// pending or accepted row for the same pair stands. The duplicate
    /// check and the insert run under one exclusive borrow of the ledger,
    /// so no second request can slip between them.
    pub fn request_collaboration(
        &mut self,
        kermesse_id: i32,
        user_id: i32,
        req: &RequestCollaborationRequest,
    ) -> (r: Result<i32, LedgerError>)
        requires
            old(self).wf(),
            old(self).collaborators@.len() < 0x7FFF_FFFF,
            1 <= user_id <= old(self).users@.len(),
        ensures
            final(self).wf(),
            final(self).same_except_collaborators(*old(self)),
            match r {
                Ok(id) => {
                    &&& collaboration_error(*old(self), kermesse_id, user_id) is None
                    &&& id == old(self).collaborators@.len() + 1
                    &&& final(self).collaborators@ == old(self).collaborators@.push(
                        (Collaborator {
                            id,
                            kermesse_id,
                            user_id,
                            status: CollabStatus::Pending,
                            role: None,
                            proposed_role: Some(req.proposed_role),
                        }),
                    )
                },
                Err(e) => {
                    &&& *final(self) == *old(self)
                    &&& collaboration_error(*old(self), kermesse_id, user_id) == Some(e)
                },
            },
    {
        if self.find_kermesse(kermesse_id).is_none() {
            return Err(LedgerError::KermesseNotFound);
        }
        let n = self.collaborators.len();
        for i in 0..n
            invariant
                old(self).wf(),
                *self == *old(self),
                n == self.collaborators@.len(),
                forall|j: int|
                    0 <= j < i ==> {
                        let c = #[trigger] self.collaborators@[j];
                        !(c.kermesse_id == kermesse_id && c.user_id == user_id && (c.status
                            == CollabStatus::Pending || c.status == CollabStatus::Accepted))
                    },
        {
            let c = self.collaborators[i];
            if c.kermesse_id == kermesse_id && c.user_id == user_id && (matches!(
                c.status,
                CollabStatus::Pending,
            ) || matches!(c.status, CollabStatus::Accepted)) {
                return Err(LedgerError::DuplicateRequest);
            }
        }
        let id = (n as i32) + 1;
        self.collaborators.push(
            Collaborator {
                id,
                kermesse_id,
                user_id,
                status: CollabStatus::Pending,
                role: None,
                proposed_role: Some(req.proposed_role),
            },
        );
        Ok(id)
    }

    /// Lists the pending requests of a kermesse joined with the
    /// requesters' profiles. Only the organizer may read them.
    pub fn list_collaboration_requests(&self, kermesse_id: i32, caller_id: i32) -> (r: Result<
        Vec<CollaboratorRequestResponse>,
        LedgerError,
    >)
        requires
            self.wf(),
        ensures
            match r {
                Ok(v) => {
                    &&& organizer_gate(*self, kermesse_id, caller_id) is None
                    &&& v@ == pending_requests_of(*self, self.collaborators@, kermesse_id)
                },
                Err(e) => organizer_gate(*self, kermesse_id, caller_id) == Some(e),
            },
    {
        let k = match self.find_kermesse(kermesse_id) {
            Some(k) => k,
            None => {
                return Err(LedgerError::KermesseNotFound);
            },
        };
        if k.organizer_id != caller_id {
            return Err(LedgerError::Forbidden);
        }
        let mut out: Vec<CollaboratorRequestResponse> = Vec::new();
        let n = self.collaborators.len();
        for i in 0..n
            invariant
                self.wf(),
                n == self.collaborators@.len(),
                out@ == pending_requests_of(
                    *self,
                    self.collaborators@.take(i as int),
                    kermesse_id,
                ),
        {
            proof {
                assert(self.collaborators@.take(i as int + 1).drop_last() =~= self.collaborators@.take(
                    i as int,
                ));
                assert(self.collaborators@.take(i as int + 1).last() == self.collaborators@[i as int]);
            }
            let c = self.collaborators[i];
            if c.kermesse_id == kermesse_id && matches!(c.status, CollabStatus::Pending) {
                proof {
                    assert(self.collaborator_wf(self.collaborators@[i as int]));
                }
                let u = &self.users[(c.user_id - 1) as usize];
                out.push(
                    CollaboratorRequestResponse {
                        id: c.id,
                        user_id: c.user_id,
                        username: u.username.clone(),
                        full_name: u.full_name.clone(),
                        proposed_role: c.proposed_role,
                        status: c.status,
                    },
                );
            }
        }
        proof {
            assert(self.collaborators@.take(n as int) =~= self.collaborators@);
        }
        Ok(out)
    }

    /// Applies the organizer's decision to a collaborator request:
    /// acceptance sets the assigned role (`Collaborator` when none is
    /// named); rejection only moves the status. Re-resolving an already
    /// resolved row silently re-applies the transition.
    pub fn manage_collaboration_request(
        &mut self,
        kermesse_id: i32,
        collaborator_id: i32,
        caller_id: i32,
        req: &ApproveCollaboratorRequest,
    ) -> (r: Result<(), LedgerError>)
        requires
            old(self).wf(),
        ensures
            final(self).wf(),
            final(self).same_except_collaborators(*old(self)),
            match r {
                Ok(()) => {
                    &&& organizer_gate(*old(self), kermesse_id, caller_id) is None
                    &&& old(self).has_collaborator(collaborator_id)
                    &&& final(self).collaborators@ == old(self).collaborators@.update(
                        collaborator_id - 1,
                        resolved_row(old(self).collaborator_at(collaborator_id), *req),
                    )
                },
                Err(e) => {
                    &&& *final(self) == *old(self)
                    &&& if organizer_gate(*old(self), kermesse_id, caller_id) is Some {
                        organizer_gate(*old(self), kermesse_id, caller_id) == Some(e)
                    } else {
                        !old(self).has_collaborator(collaborator_id) && e
                            == LedgerError::RequestNotFound
                    }
                },
            },
    {
        let k = match self.find_kermesse(kermesse_id) {
            Some(k) => k,
            None => {
                return Err(LedgerError::KermesseNotFound);
            },
        };
        if k.organizer_id != caller_id {
            return Err(LedgerError::Forbidden);
        }
        if !(collaborator_id >= 1 && (collaborator_id as usize) <= self.collaborators.len()) {
            return Err(LedgerError::RequestNotFound);
        }
        let idx = (collaborator_id - 1) as usize;
        let row = &mut self.collaborators[idx];
        if req.approve {
            row.status = CollabStatus::Accepted;
            row.role = Some(
                match req.assigned_role {
                    Some(ro) => ro,
                    None => Role::Collaborator,
                },
            );
        } else {
            row.status = CollabStatus::Rejected;
        }
        Ok(())
    }
}

} // verus!
