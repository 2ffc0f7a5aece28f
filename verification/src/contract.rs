//! The escrow engine: the public operation surface. It enforces all
//! business rules — authorization, state preconditions, monotonic
//! identifier allocation — mutates the registry, and returns the
//! settlement mint request as a value for the host to dispatch in the
//! same atomic unit.

use vstd::prelude::*;

use crate::addr::{valid_addr, validate_address};
use crate::error::ContractError;
use crate::msg::{attr_is, Attribute, ExecuteMsg, InstantiateMsg, MintMsg, QueryMsg, Response};
use crate::numeral::{decimal_digits, u64_to_decimal};
use crate::state::{Config, EscrowState, Job, JobRegistry, JobStatus};

verus! {

/// The settlement record's token id for job `job_id`: the decimal job id
/// under the `lore-` prefix.
pub open spec fn spec_lore_token_id(job_id: u64) -> Seq<char> {
    "lore-"@ + decimal_digits(job_id as nat)
}

/// Renders the settlement token id of job `job_id`.
pub fn lore_token_id(job_id: u64) -> (s: String)
    ensures
        s@ == spec_lore_token_id(job_id),
{
    let num = u64_to_decimal(job_id);
    let prefix = String::from_str("lore-");
    prefix.concat(num.as_str())
}

/// `j` is the job a successful `RentAgent` stores: freshly numbered,
/// owned by the caller, pending, with no result and no rating.
pub open spec fn new_job_matches(
    j: Job,
    job_id: u64,
    sender: String,
    agent_token_id: String,
    parent_nft_address: String,
    parent_nft_token_id: String,
) -> bool {
    &&& j.job_id == job_id
    &&& j.client@ == sender@
    &&& j.agent_token_id@ == agent_token_id@
    &&& j.parent_nft_address@ == parent_nft_address@
    &&& j.parent_nft_token_id@ == parent_nft_token_id@
    &&& j.status is Pending
    &&& j.result_uri is None
    &&& j.rating is None
}

/// The observable record of a successful `RentAgent`.
pub open spec fn rent_attrs(resp: Response, job_id: u64, sender: String) -> bool {
    &&& resp.attributes@.len() == 3
    &&& attr_is(resp.attributes@[0], "action"@, "rent_agent"@)
    &&& attr_is(resp.attributes@[1], "job_id"@, decimal_digits(job_id as nat))
    &&& attr_is(resp.attributes@[2], "client"@, sender@)
}

/// What `instantiate` returns: a fresh state whose configuration holds
/// the given identities, if and only if all three addresses are well
/// formed; `InvalidAddress` otherwise.
pub open spec fn instantiate_post(
    sender: String,
    msg: InstantiateMsg,
    r: Result<EscrowState, ContractError>,
) -> bool {
    if valid_addr(msg.agent_nft_address@) && valid_addr(msg.lore_nft_address@) && valid_addr(
        msg.trusted_worker@,
    ) {
        match r {
            Ok(st) => {
                &&& st.wf()
                &&& st.config.owner@ == sender@
                &&& st.config.agent_nft_address@ == msg.agent_nft_address@
                &&& st.config.lore_nft_address@ == msg.lore_nft_address@
                &&& st.config.trusted_worker@ == msg.trusted_worker@
                &&& st.registry.counter == 0
                &&& st.registry.jobs@.len() == 0
            },
            Err(_) => false,
        }
    } else {
        r == Err::<EscrowState, ContractError>(ContractError::InvalidAddress)
    }
}

/// What `RentAgent` does: if the parent address is well formed, it
/// allocates the counter's value as a fresh job id, appends a pending
/// job for the caller, advances the counter, and reports job id and
/// client; otherwise it fails with `InvalidAddress` and changes nothing.
pub open spec fn rent_agent_post(
    pre: EscrowState,
    post: EscrowState,
    sender: String,
    agent_token_id: String,
    parent_nft_address: String,
    parent_nft_token_id: String,
    r: Result<Response, ContractError>,
) -> bool {
    if valid_addr(parent_nft_address@) {
        match r {
            Ok(resp) => {
                &&& post.config == pre.config
                &&& post.registry.counter == pre.registry.counter + 1
                &&& post.registry.jobs@.len() == pre.registry.jobs@.len() + 1
                &&& (forall|i: int|
                    0 <= i < pre.registry.jobs@.len() ==> post.registry.jobs@[i]
                        == pre.registry.jobs@[i])
                &&& new_job_matches(
                    post.registry.jobs@.last(),
                    pre.registry.counter,
                    sender,
                    agent_token_id,
                    parent_nft_address,
                    parent_nft_token_id,
                )
                &&& resp.mint is None
                &&& rent_attrs(resp, pre.registry.counter, sender)
            },
            Err(_) => false,
        }
    } else {
        r == Err::<Response, ContractError>(ContractError::InvalidAddress) && post == pre
    }
}

/// `nj` is `oj` settled: status turned `Complete`, the result address
/// recorded, every other field untouched.
pub open spec fn job_completed(oj: Job, nj: Job, result_ipfs_uri: String) -> bool {
    &&& nj.job_id == oj.job_id
    &&& nj.client == oj.client
    &&& nj.agent_token_id == oj.agent_token_id
    &&& nj.parent_nft_address == oj.parent_nft_address
    &&& nj.parent_nft_token_id == oj.parent_nft_token_id
    &&& nj.status is Complete
    &&& (match nj.result_uri {
        Some(u) => u@ == result_ipfs_uri@,
        None => false,
    })
    &&& nj.rating == oj.rating
}

/// `m` is the settlement mint request for job `job_id`: the `lore-`
/// token, owned by the job's client, pointing at the result.
pub open spec fn mint_matches(m: MintMsg, job_id: u64, client: String, result_ipfs_uri: String) -> bool {
    &&& m.token_id@ == spec_lore_token_id(job_id)
    &&& m.owner@ == client@
    &&& (match m.token_uri {
        Some(u) => u@ == result_ipfs_uri@,
        None => false,
    })
}

/// The observable record of a successful `PostResult`.
pub open spec fn post_attrs(resp: Response, job_id: u64) -> bool {
    &&& resp.attributes@.len() == 2
    &&& attr_is(resp.attributes@[0], "action"@, "post_result"@)
    &&& attr_is(resp.attributes@[1], "job_id"@, decimal_digits(job_id as nat))
}

/// What `PostResult` does. Only the trusted worker may call it
/// (`Unauthorized` otherwise, state unchanged); the job must exist
/// (`NotFound`) and be pending (`InvalidState`). On success the job is
/// settled and the mint request is returned alongside, for the host to
/// execute atomically with the mutation.
pub open spec fn post_result_post(
    pre: EscrowState,
    post: EscrowState,
    sender: String,
    job_id: u64,
    result_ipfs_uri: String,
    r: Result<Response, ContractError>,
) -> bool {
    if sender@ != pre.config.trusted_worker@ {
        r == Err::<Response, ContractError>(ContractError::Unauthorized) && post == pre
    } else if !pre.registry.contains(job_id) {
        r == Err::<Response, ContractError>(ContractError::NotFound) && post == pre
    } else if !(pre.registry.spec_job(job_id).status is Pending) {
        r == Err::<Response, ContractError>(ContractError::InvalidState) && post == pre
    } else {
        match r {
            Ok(resp) => {
                &&& post.config == pre.config
                &&& post.registry.counter == pre.registry.counter
                &&& post.registry.jobs@.len() == pre.registry.jobs@.len()
                &&& (forall|i: int|
                    0 <= i < pre.registry.jobs@.len() && i != job_id as int
                        ==> post.registry.jobs@[i] == pre.registry.jobs@[i])
                &&& job_completed(
                    pre.registry.spec_job(job_id),
                    post.registry.spec_job(job_id),
                    result_ipfs_uri,
                )
                &&& (match resp.mint {
                    Some(m) => mint_matches(
                        m,
                        job_id,
                        pre.registry.spec_job(job_id).client,
                        result_ipfs_uri,
                    ),
                    None => false,
                })
                &&& post_attrs(resp, job_id)
            },
            Err(_) => false,
        }
    }
}

/// `nj` is `oj` rated: the rating recorded, every other field untouched.
pub open spec fn job_rated(oj: Job, nj: Job, rating: u8) -> bool {
    &&& nj.job_id == oj.job_id
    &&& nj.client == oj.client
    &&& nj.agent_token_id == oj.agent_token_id
    &&& nj.parent_nft_address == oj.parent_nft_address
    &&& nj.parent_nft_token_id == oj.parent_nft_token_id
    &&& nj.status == oj.status
    &&& nj.result_uri == oj.result_uri
    &&& nj.rating == Some(rating)
}

/// The observable record of a successful `RateJob`.
pub open spec fn rate_attrs(resp: Response, job_id: u64, rating: u8) -> bool {
    &&& resp.attributes@.len() == 3
    &&& attr_is(resp.attributes@[0], "action"@, "rate_job"@)
    &&& attr_is(resp.attributes@[1], "job_id"@, decimal_digits(job_id as nat))
    &&& attr_is(resp.attributes@[2], "rating"@, decimal_digits(rating as nat))
}

/// What `RateJob` does. The rating must lie in 1 to 5 (`InvalidInput`
/// otherwise); the job must exist (`NotFound`); only the job's client
/// may rate (`Unauthorized`); the job must be complete (`InvalidState`)
/// and unrated (`AlreadyRated`). The guards apply in that order, and
/// every failure leaves the state unchanged.
pub open spec fn rate_job_post(
    pre: EscrowState,
    post: EscrowState,
    sender: String,
    job_id: u64,
    rating: u8,
    r: Result<Response, ContractError>,
) -> bool {
    if !(1 <= rating <= 5) {
        r == Err::<Response, ContractError>(ContractError::InvalidInput) && post == pre
    } else if !pre.registry.contains(job_id) {
        r == Err::<Response, ContractError>(ContractError::NotFound) && post == pre
    } else if sender@ != pre.registry.spec_job(job_id).client@ {
        r == Err::<Response, ContractError>(ContractError::Unauthorized) && post == pre
    } else if !(pre.registry.spec_job(job_id).status is Complete) {
        r == Err::<Response, ContractError>(ContractError::InvalidState) && post == pre
    } else if pre.registry.spec_job(job_id).rating is Some {
        r == Err::<Response, ContractError>(ContractError::AlreadyRated) && post == pre
    } else {
        match r {
            Ok(resp) => {
                &&& post.config == pre.config
                &&& post.registry.counter == pre.registry.counter
                &&& post.registry.jobs@.len() == pre.registry.jobs@.len()
                &&& (forall|i: int|
                    0 <= i < pre.registry.jobs@.len() && i != job_id as int
                        ==> post.registry.jobs@[i] == pre.registry.jobs@[i])
                &&& job_rated(
                    pre.registry.spec_job(job_id),
                    post.registry.spec_job(job_id),
                    rating,
                )
                &&& resp.mint is None
                &&& rate_attrs(resp, job_id, rating)
            },
            Err(_) => false,
        }
    }
}

/// What `GetJob` returns: the stored job, or `NotFound`.
pub open spec fn get_job_post(state: EscrowState, job_id: u64, r: Result<Job, ContractError>) -> bool {
    if state.registry.contains(job_id) {
        match r {
            Ok(j) => j == state.registry.spec_job(job_id),
            Err(_) => false,
        }
    } else {
        r == Err::<Job, ContractError>(ContractError::NotFound)
    }
}

/// Initializes the component: validates the three collaborator
/// identities and returns the fresh state — the immutable configuration
/// and an empty registry. Runs exactly once, at component creation.
pub fn instantiate(sender: String, msg: InstantiateMsg) -> (r: Result<EscrowState, ContractError>)
    ensures
        instantiate_post(sender, msg, r),
{
    if !validate_address(msg.agent_nft_address.as_str()) {
        return Err(ContractError::InvalidAddress);
    }
    if !validate_address(msg.lore_nft_address.as_str()) {
        return Err(ContractError::InvalidAddress);
    }
    if !validate_address(msg.trusted_worker.as_str()) {
        return Err(ContractError::InvalidAddress);
    }
    let config = Config {
        owner: sender,
        agent_nft_address: msg.agent_nft_address,
        lore_nft_address: msg.lore_nft_address,
        trusted_worker: msg.trusted_worker,
    };
    Ok(EscrowState { config, registry: JobRegistry::new() })
}

/// Dispatches a mutating operation for the authenticated caller
/// `sender`.
pub fn execute(state: &mut EscrowState, sender: String, msg: ExecuteMsg) -> (r: Result<
    Response,
    ContractError,
>)
    requires
        old(state).wf(),
        msg is RentAgent ==> old(state).registry.counter < u64::MAX,
    ensures
        final(state).wf(),
        (msg matches ExecuteMsg::RentAgent { agent_token_id, parent_nft_address, parent_nft_token_id }
            ==> rent_agent_post(
            *old(state),
            *final(state),
            sender,
            agent_token_id,
            parent_nft_address,
            parent_nft_token_id,
            r,
        )),
        (msg matches ExecuteMsg::PostResult { job_id, result_ipfs_uri } ==> post_result_post(
            *old(state),
            *final(state),
            sender,
            job_id,
            result_ipfs_uri,
            r,
        )),
        (msg matches ExecuteMsg::RateJob { job_id, rating } ==> rate_job_post(
            *old(state),
            *final(state),
            sender,
            job_id,
            rating,
            r,
        )),
{
    match msg {
        ExecuteMsg::RentAgent { agent_token_id, parent_nft_address, parent_nft_token_id } => {
            execute_rent_agent(
                state,
                sender,
                agent_token_id,
                parent_nft_address,
                parent_nft_token_id,
            )
        },
        ExecuteMsg::PostResult { job_id, result_ipfs_uri } => {
            execute_post_result(state, sender, job_id, result_ipfs_uri)
        },
        ExecuteMsg::RateJob { job_id, rating } => execute_rate_job(state, sender, job_id, rating),
    }
}

/// Rents an agent for the caller: allocates a fresh job id, stores a
/// pending job, and reports job id and client for off-chain indexing.
/// No cross-component message is emitted.
pub fn execute_rent_agent(
    state: &mut EscrowState,
    sender: String,
    agent_token_id: String,
    parent_nft_address: String,
    parent_nft_token_id: String,
) -> (r: Result<Response, ContractError>)
    requires
        old(state).wf(),
        old(state).registry.counter < u64::MAX,
    ensures
        final(state).wf(),
        rent_agent_post(
            *old(state),
            *final(state),
            sender,
            agent_token_id,
            parent_nft_address,
            parent_nft_token_id,
            r,
        ),
{
    if !validate_address(parent_nft_address.as_str()) {
        return Err(ContractError::InvalidAddress);
    }
    let job_id = state.registry.next_id();
    let client_attr = sender.clone();
    let job = Job {
        job_id,
        client: sender,
        agent_token_id,
        parent_nft_address,
        parent_nft_token_id,
        status: JobStatus::Pending,
        result_uri: None,
        rating: None,
    };
    state.registry.create(job);
    let mut attributes: Vec<Attribute> = Vec::new();
    attributes.push(Attribute::new("action", String::from_str("rent_agent")));
    attributes.push(Attribute::new("job_id", u64_to_decimal(job_id)));
    attributes.push(Attribute::new("client", client_attr));
    Ok(Response { attributes, mint: None })
}

/// Reports a job's result. Only the trusted worker may call this; the
/// job must exist and still be pending. On success the job is settled —
/// status `Complete`, result recorded — and the returned response
/// carries the mint request for the result record, which the host must
/// execute atomically with the mutation: if the mint fails downstream,
/// the whole operation rolls back.
pub fn execute_post_result(
    state: &mut EscrowState,
    sender: String,
    job_id: u64,
    result_ipfs_uri: String,
) -> (r: Result<Response, ContractError>)
    requires
        old(state).wf(),
    ensures
        final(state).wf(),
        post_result_post(*old(state), *final(state), sender, job_id, result_ipfs_uri, r),
{
    if sender != state.config.trusted_worker {
        return Err(ContractError::Unauthorized);
    }
    let job = match state.registry.get(job_id) {
        Ok(j) => j,
        Err(e) => {
            return Err(e);
        },
    };
    if job.status != JobStatus::Pending {
        return Err(ContractError::InvalidState);
    }
    let client = job.client.clone();
    let updated = Job {
        job_id: job.job_id,
        client: job.client,
        agent_token_id: job.agent_token_id,
        parent_nft_address: job.parent_nft_address,
        parent_nft_token_id: job.parent_nft_token_id,
        status: JobStatus::Complete,
        result_uri: Some(result_ipfs_uri.clone()),
        rating: job.rating,
    };
    match state.registry.put(updated) {
        Ok(u) => u,
        Err(_) => {
            proof {
                assert(false);
            }
            return Err(ContractError::NotFound);
        },
    };
    let mint = MintMsg {
        token_id: lore_token_id(job_id),
        owner: client,
        token_uri: Some(result_ipfs_uri),
    };
    let mut attributes: Vec<Attribute> = Vec::new();
    attributes.push(Attribute::new("action", String::from_str("post_result")));
    attributes.push(Attribute::new("job_id", u64_to_decimal(job_id)));
    Ok(Response { attributes, mint: Some(mint) })
}

/// Rates a completed job. Only the job's client may call this, the
/// rating must lie in 1 to 5, and a job is rated at most once. No
/// cross-component message is emitted.
pub fn execute_rate_job(state: &mut EscrowState, sender: String, job_id: u64, rating: u8) -> (r:
    Result<Response, ContractError>)
    requires
        old(state).wf(),
    ensures
        final(state).wf(),
        rate_job_post(*old(state), *final(state), sender, job_id, rating, r),
{
    if rating < 1 || rating > 5 {
        return Err(ContractError::InvalidInput);
    }
    let job = match state.registry.get(job_id) {
        Ok(j) => j,
        Err(e) => {
            return Err(e);
        },
    };
    if sender != job.client {
        return Err(ContractError::Unauthorized);
    }
    if job.status != JobStatus::Complete {
        return Err(ContractError::InvalidState);
    }
    if job.rating.is_some() {
        return Err(ContractError::AlreadyRated);
    }
    let updated = Job {
        job_id: job.job_id,
        client: job.client,
        agent_token_id: job.agent_token_id,
        parent_nft_address: job.parent_nft_address,
        parent_nft_token_id: job.parent_nft_token_id,
        status: job.status,
        result_uri: job.result_uri,
        rating: Some(rating),
    };
    match state.registry.put(updated) {
        Ok(u) => u,
        Err(_) => {
            proof {
                assert(false);
            }
            return Err(ContractError::NotFound);
        },
    };
    let mut attributes: Vec<Attribute> = Vec::new();
    attributes.push(Attribute::new("action", String::from_str("rate_job")));
    attributes.push(Attribute::new("job_id", u64_to_decimal(job_id)));
    attributes.push(Attribute::new("rating", u64_to_decimal(rating as u64)));
    Ok(Response { attributes, mint: None })
}

/// Answers a read-only query.
pub fn query(state: &EscrowState, msg: QueryMsg) -> (r: Result<Job, ContractError>)
    ensures
        (msg matches QueryMsg::GetJob { job_id } ==> get_job_post(*state, job_id, r)),
{
    match msg {
        QueryMsg::GetJob { job_id } => state.registry.get(job_id),
    }
}

} // verus!
