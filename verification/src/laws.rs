//! Global laws of the escrow engine, stated over the operation
//! postcondition predicates and proved once and for all.

use vstd::prelude::*;

use crate::contract::{get_job_post, post_result_post, rate_job_post, rent_agent_post};
use crate::error::ContractError;
use crate::msg::Response;
use crate::state::{EscrowState, Job};

verus! {

/// Job identifiers are unique and strictly increasing in the order of
/// allocation: in any well-formed state — and every operation preserves
/// well-formedness — the jobs created earlier carry strictly smaller
/// identifiers, so no identifier is ever reused.
pub proof fn lemma_job_ids_strictly_increasing(state: EscrowState)
    requires
        state.registry.wf(),
    ensures
        forall|i: int, j: int|
            0 <= i < j < state.registry.jobs@.len() ==> (#[trigger] state.registry.jobs@[i]).job_id
                < (#[trigger] state.registry.jobs@[j]).job_id,
{
}

/// Across any sequence of `RentAgent` calls the assigned identifiers
/// strictly increase: two successive successful rentals assign the
/// counter's value at each call, and the first allocation advances the
/// counter past the first identifier, so the second is strictly larger.
pub proof fn lemma_rent_agent_ids_increase(
    s0: EscrowState,
    s1: EscrowState,
    s2: EscrowState,
    sender1: String,
    sender2: String,
    agent1: String,
    agent2: String,
    parent1: String,
    parent2: String,
    tok1: String,
    tok2: String,
    r1: Result<Response, ContractError>,
    r2: Result<Response, ContractError>,
)
    requires
        rent_agent_post(s0, s1, sender1, agent1, parent1, tok1, r1),
        r1 is Ok,
        rent_agent_post(s1, s2, sender2, agent2, parent2, tok2, r2),
        r2 is Ok,
    ensures
        s1.registry.jobs@.last().job_id == s0.registry.counter,
        s2.registry.jobs@.last().job_id == s1.registry.counter,
        s0.registry.counter < s1.registry.counter,
{
}

/// A result is posted exactly once: after a `PostResult` succeeds on a
/// job, a second `PostResult` on the same job by the trusted worker
/// fails with `InvalidState` and leaves the state unchanged. The first
/// success settles the job, so a resubmitted report is rejected rather
/// than overwriting the recorded result.
pub proof fn lemma_post_result_exactly_once(
    s0: EscrowState,
    s1: EscrowState,
    s2: EscrowState,
    sender1: String,
    sender2: String,
    job_id: u64,
    uri1: String,
    uri2: String,
    r1: Result<Response, ContractError>,
    r2: Result<Response, ContractError>,
)
    requires
        s0.wf(),
        post_result_post(s0, s1, sender1, job_id, uri1, r1),
        r1 is Ok,
        sender2@ == s1.config.trusted_worker@,
        post_result_post(s1, s2, sender2, job_id, uri2, r2),
    ensures
        r2 == Err::<Response, ContractError>(ContractError::InvalidState),
        s2 == s1,
{
}

/// A job is rated at most once: after a `RateJob` succeeds on a job, a
/// second `RateJob` on the same job — by the job's client, with a rating
/// in range — fails with `AlreadyRated` and leaves the state unchanged.
pub proof fn lemma_rate_job_at_most_once(
    s0: EscrowState,
    s1: EscrowState,
    s2: EscrowState,
    sender1: String,
    sender2: String,
    job_id: u64,
    rating1: u8,
    rating2: u8,
    r1: Result<Response, ContractError>,
    r2: Result<Response, ContractError>,
)
    requires
        s0.wf(),
        rate_job_post(s0, s1, sender1, job_id, rating1, r1),
        r1 is Ok,
        sender2@ == s1.registry.spec_job(job_id).client@,
        1 <= rating2 <= 5,
        rate_job_post(s1, s2, sender2, job_id, rating2, r2),
    ensures
        r2 == Err::<Response, ContractError>(ContractError::AlreadyRated),
        s2 == s1,
{
}

/// Round trip: after a successful `RentAgent`, `GetJob` on the assigned
/// identifier — the counter's value before the call — returns a job that
/// is pending, has no result and no rating, and belongs to the renter.
pub proof fn lemma_get_job_after_rent(
    pre: EscrowState,
    post: EscrowState,
    sender: String,
    agent_token_id: String,
    parent_nft_address: String,
    parent_nft_token_id: String,
    r: Result<Response, ContractError>,
    q: Result<Job, ContractError>,
)
    requires
        pre.wf(),
        rent_agent_post(
            pre,
            post,
            sender,
            agent_token_id,
            parent_nft_address,
            parent_nft_token_id,
            r,
        ),
        r is Ok,
        get_job_post(post, pre.registry.counter, q),
    ensures
        q matches Ok(j) && j.job_id == pre.registry.counter && j.status is Pending
            && j.result_uri is None && j.rating is None && j.client@ == sender@,
{
}

} // verus!
