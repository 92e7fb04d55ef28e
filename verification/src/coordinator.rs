//! The request coordinator: which request identifiers are outstanding, and
//! what became of those that are not.
//!
//! A request is unsubmitted until it is accepted, pending until exactly one
//! completion for it is observed, and from then on completed or aborted. The
//! coordinator computes nothing; it refuses an identifier that is still
//! pending and lets a completion resolve a pending request once.

use std::collections::HashMap;
use vstd::prelude::*;
use vstd::std_specs::hash::group_hash_axioms;

use crate::error::ErrorCode;

verus! {

broadcast use group_hash_axioms;

/// Where a request identifier stands.
#[derive(Clone, Copy, Debug, PartialEq, Eq, Structural)]
pub enum RequestState {
    /// No request with the identifier is known.
    Unsubmitted,
    /// A request with the identifier was accepted and awaits its completion.
    Pending,
    /// The request was resolved by an authentic result.
    Completed,
    /// The request was resolved by a failed completion.
    Aborted,
}

/// What the coordinator keeps of a pending request, to route its completion
/// back to the requester.
#[derive(Clone, Copy, Debug, PartialEq, Eq)]
pub struct PendingRequest {
    /// The requester's public encryption key.
    pub pubkey: [u8; 32],
    /// The nonce of the request.
    pub nonce: u128,
}

/// What the coordinator holds for an identifier that is not unsubmitted.
#[derive(Clone, Copy, Debug, PartialEq, Eq)]
pub enum RequestRecord {
    Pending(PendingRequest),
    Completed,
    Aborted,
}

/// The state that a set of records gives an identifier.
pub open spec fn state_of(records: Map<u64, RequestRecord>, id: u64) -> RequestState {
    if !records.contains_key(id) {
        RequestState::Unsubmitted
    } else {
        match records[id] {
            RequestRecord::Pending(_) => RequestState::Pending,
            RequestRecord::Completed => RequestState::Completed,
            RequestRecord::Aborted => RequestState::Aborted,
        }
    }
}

/// Whether a request with the identifier is outstanding.
pub open spec fn is_pending(records: Map<u64, RequestRecord>, id: u64) -> bool {
    state_of(records, id) == RequestState::Pending
}

/// What is kept of the pending request with the identifier.
pub open spec fn pending_request(records: Map<u64, RequestRecord>, id: u64) -> PendingRequest
    recommends
        is_pending(records, id),
{
    records[id]->Pending_0
}

/// What a submission returns.
pub open spec fn submit_outcome(records: Map<u64, RequestRecord>, id: u64) -> Result<
    (),
    ErrorCode,
> {
    if is_pending(records, id) {
        Err(ErrorCode::DuplicateRequest)
    } else {
        Ok(())
    }
}

/// The records after a submission: a pending identifier keeps its request,
/// any other becomes pending with the new one.
pub open spec fn after_submit(
    records: Map<u64, RequestRecord>,
    id: u64,
    request: PendingRequest,
) -> Map<u64, RequestRecord> {
    if is_pending(records, id) {
        records
    } else {
        records.insert(id, RequestRecord::Pending(request))
    }
}

/// What a completion returns: the request it resolved, or why it resolved
/// none.
pub open spec fn settle_outcome(records: Map<u64, RequestRecord>, id: u64, authentic: bool) -> Result<
    PendingRequest,
    ErrorCode,
> {
    if !is_pending(records, id) {
        Err(ErrorCode::UnknownRequestId)
    } else if !authentic {
        Err(ErrorCode::AbortedComputation)
    } else {
        Ok(pending_request(records, id))
    }
}

/// The records after a completion: a pending identifier becomes completed or
/// aborted, any other is left as it was.
pub open spec fn after_settle(records: Map<u64, RequestRecord>, id: u64, authentic: bool) -> Map<
    u64,
    RequestRecord,
> {
    if !is_pending(records, id) {
        records
    } else if authentic {
        records.insert(id, RequestRecord::Completed)
    } else {
        records.insert(id, RequestRecord::Aborted)
    }
}

/// The records after a release: a completed or aborted identifier is
/// forgotten, any other is left as it was.
pub open spec fn after_release(records: Map<u64, RequestRecord>, id: u64) -> Map<
    u64,
    RequestRecord,
> {
    if state_of(records, id) == RequestState::Completed || state_of(records, id)
        == RequestState::Aborted {
        records.remove(id)
    } else {
        records
    }
}

/// While a request is pending under an identifier, every submission under
/// that identifier is refused, and the pending request stays as it was.
pub proof fn lemma_pending_submission_refused(
    records: Map<u64, RequestRecord>,
    id: u64,
    request: PendingRequest,
)
    requires
        is_pending(records, id),
    ensures
        submit_outcome(records, id) == Err::<(), ErrorCode>(ErrorCode::DuplicateRequest),
        after_submit(records, id, request) == records,
{
}

/// A request that is resubmitted before its completion is refused, and the
/// first request is still resolved by its completion.
pub proof fn lemma_resubmission_keeps_first(
    records: Map<u64, RequestRecord>,
    id: u64,
    first: PendingRequest,
    repeated: PendingRequest,
)
    requires
        !is_pending(records, id),
    ensures
        submit_outcome(records, id) == Ok::<(), ErrorCode>(()),
        submit_outcome(after_submit(records, id, first), id) == Err::<(), ErrorCode>(
            ErrorCode::DuplicateRequest,
        ),
        after_submit(after_submit(records, id, first), id, repeated) == after_submit(
            records,
            id,
            first,
        ),
        settle_outcome(after_submit(after_submit(records, id, first), id, repeated), id, true)
            == Ok::<PendingRequest, ErrorCode>(first),
{
}

/// How the state of an identifier moves: a submission makes it pending, a
/// completion moves it from pending to completed or aborted, and a completion
/// for an identifier that is not pending leaves its state as it was, so a
/// completed or aborted request is never resolved again.
pub proof fn lemma_lifecycle(
    records: Map<u64, RequestRecord>,
    id: u64,
    request: PendingRequest,
    authentic: bool,
)
    ensures
        state_of(after_submit(records, id, request), id) == RequestState::Pending,
        is_pending(records, id) ==> state_of(after_settle(records, id, authentic), id) == if authentic {
            RequestState::Completed
        } else {
            RequestState::Aborted
        },
        !is_pending(records, id) ==> after_settle(records, id, authentic) == records,
        !is_pending(after_settle(records, id, authentic), id),
        state_of(after_release(records, id), id) == if is_pending(records, id) {
            RequestState::Pending
        } else {
            RequestState::Unsubmitted
        },
{
}

/// A completion resolves a request at most once: after any completion for an
/// identifier, a second one for it resolves nothing and changes nothing.
pub proof fn lemma_completion_resolves_once(
    records: Map<u64, RequestRecord>,
    id: u64,
    authentic: bool,
    replayed_authentic: bool,
)
    ensures
        settle_outcome(after_settle(records, id, authentic), id, replayed_authentic) == Err::<
            PendingRequest,
            ErrorCode,
        >(ErrorCode::UnknownRequestId),
        after_settle(after_settle(records, id, authentic), id, replayed_authentic) == after_settle(
            records,
            id,
            authentic,
        ),
{
}

/// Submissions, completions and releases under one identifier leave every
/// other identifier as it was.
pub proof fn lemma_other_identifiers_untouched(
    records: Map<u64, RequestRecord>,
    id: u64,
    other: u64,
    request: PendingRequest,
    authentic: bool,
)
    requires
        other != id,
    ensures
        state_of(after_submit(records, id, request), other) == state_of(records, other),
        state_of(after_settle(records, id, authentic), other) == state_of(records, other),
        state_of(after_release(records, id), other) == state_of(records, other),
        is_pending(records, other) ==> {
            &&& pending_request(after_submit(records, id, request), other) == pending_request(
                records,
                other,
            )
            &&& pending_request(after_settle(records, id, authentic), other) == pending_request(
                records,
                other,
            )
            &&& pending_request(after_release(records, id), other) == pending_request(
                records,
                other,
            )
        },
{
}

/// Tracks requests from submission to completion.
pub struct RequestCoordinator {
    records: HashMap<u64, RequestRecord>,
}

impl View for RequestCoordinator {
    type V = Map<u64, RequestRecord>;

    closed spec fn view(&self) -> Map<u64, RequestRecord> {
        self.records@
    }
}

impl RequestCoordinator {
    /// A coordinator that knows no request.
    pub fn new() -> (coordinator: RequestCoordinator)
        ensures
            coordinator@ == Map::<u64, RequestRecord>::empty(),
    {
        RequestCoordinator { records: HashMap::new() }
    }

    /// Where the identifier stands.
    pub fn state(&self, id: u64) -> (state: RequestState)
        ensures
            state == state_of(self@, id),
    {
        match self.records.get(&id) {
            None => RequestState::Unsubmitted,
            Some(RequestRecord::Pending(_)) => RequestState::Pending,
            Some(RequestRecord::Completed) => RequestState::Completed,
            Some(RequestRecord::Aborted) => RequestState::Aborted,
        }
    }

    /// What is kept of the pending request with the identifier, if there is
    /// one.
    pub fn pending(&self, id: u64) -> (found: Option<PendingRequest>)
        ensures
            found is Some <==> is_pending(self@, id),
            found matches Some(request) ==> request == pending_request(self@, id),
    {
        match self.records.get(&id) {
            Some(RequestRecord::Pending(request)) => Some(*request),
            _ => None,
        }
    }

    /// Accepts a request under the identifier unless one is pending under it.
    /// A refused submission changes nothing. An identifier whose earlier
    /// request is completed or aborted carries the new request from then on:
    /// whether the earlier completion has been drained is for the caller to
    /// know. Taking the coordinator by `&mut` makes the test and the
    /// acceptance one step: no two submissions under one identifier can both
    /// be accepted.
    pub fn submit(&mut self, id: u64, request: PendingRequest) -> (accepted: Result<(), ErrorCode>)
        ensures
            accepted == submit_outcome(old(self)@, id),
            final(self)@ == after_submit(old(self)@, id, request),
    {
        match self.state(id) {
            RequestState::Pending => Err(ErrorCode::DuplicateRequest),
            _ => {
                self.records.insert(id, RequestRecord::Pending(request));
                Ok(())
            },
        }
    }

    /// Resolves the pending request with the identifier: to completed where
    /// the completion is authentic, to aborted where it is not. A completion
    /// for an identifier that is not pending resolves nothing and changes
    /// nothing.
    pub fn settle(&mut self, id: u64, authentic: bool) -> (resolved: Result<
        PendingRequest,
        ErrorCode,
    >)
        ensures
            resolved == settle_outcome(old(self)@, id, authentic),
            final(self)@ == after_settle(old(self)@, id, authentic),
    {
        match self.pending(id) {
            None => Err(ErrorCode::UnknownRequestId),
            Some(request) => {
                if authentic {
                    self.records.insert(id, RequestRecord::Completed);
                    Ok(request)
                } else {
                    self.records.insert(id, RequestRecord::Aborted);
                    Err(ErrorCode::AbortedComputation)
                }
            },
        }
    }

    /// Forgets a completed or aborted identifier, which is unsubmitted from
    /// then on. A pending request cannot be released. Returns whether a
    /// record was dropped.
    pub fn release(&mut self, id: u64) -> (released: bool)
        ensures
            released <==> (state_of(old(self)@, id) == RequestState::Completed || state_of(
                old(self)@,
                id,
            ) == RequestState::Aborted),
            final(self)@ == after_release(old(self)@, id),
    {
        match self.state(id) {
            RequestState::Completed | RequestState::Aborted => {
                self.records.remove(&id);
                true
            },
            _ => false,
        }
    }
}

} // verus!
